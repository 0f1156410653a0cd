//! The static pages served to the browser.
use vstd::prelude::*;

verus! {

/// Content type of both HTML pages.
pub const HTML_CONTENT_TYPE: &'static str = "text/html; charset=utf-8";

/// Confirmation page served when sign-in completed.
pub const SUCCESS_HTML: &'static str = r#"<!doctype html>
<html lang="en">
  <head>
    <meta charset="utf-8" />
    <title>NEAR AI</title>
    <style>
      body { font-family: -apple-system, BlinkMacSystemFont, "Segoe UI", sans-serif; background: #060606; color: #f3f3f3; display: flex; align-items: center; justify-content: center; min-height: 100vh; margin: 0; }
      .card { background: #141414; padding: 32px; border-radius: 16px; box-shadow: 0 10px 30px rgba(0,0,0,0.45); max-width: 420px; text-align: center; }
      h1 { font-size: 24px; margin-bottom: 12px; }
      p { color: #9ca3af; font-size: 15px; line-height: 1.4; }
    </style>
  </head>
  <body>
    <div class="card">
      <h1>You're signed in</h1>
      <p>You can close this tab and return to NEAR AI.</p>
    </div>
  </body>
</html>"#;

/// Generic page served when a callback could not be completed.
pub const ERROR_HTML: &'static str = r#"<!doctype html>
<html lang="en">
  <head>
    <meta charset="utf-8" />
    <title>NEAR AI</title>
    <style>
      body { font-family: -apple-system, BlinkMacSystemFont, "Segoe UI", sans-serif; background: #060606; color: #f3f3f3; display: flex; align-items: center; justify-content: center; min-height: 100vh; margin: 0; }
      .card { background: #141414; padding: 32px; border-radius: 16px; box-shadow: 0 10px 30px rgba(0,0,0,0.45); max-width: 420px; text-align: center; }
      h1 { font-size: 24px; margin-bottom: 12px; color: #f87171; }
      p { color: #9ca3af; font-size: 15px; line-height: 1.4; }
    </style>
  </head>
  <body>
    <div class="card">
      <h1>Something went wrong</h1>
      <p>We were unable to complete the sign-in. Please return to NEAR AI and try again.</p>
    </div>
  </body>
</html>"#;

} // verus!
