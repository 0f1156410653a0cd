//! Loopback callback server logic for a desktop OAuth sign-in flow.
//!
//! `callback` decides what each browser request to the listener yields,
//! `lifecycle` keeps the one-time record of the bound port, `pages` holds
//! the static pages served to the browser, and `text` the string helpers.
pub mod callback;
pub mod lifecycle;
pub mod pages;
pub mod text;
