//! Handling of one browser request to the callback listener: method check,
//! URL parsing, routing, parameter extraction and validation.
use vstd::prelude::*;
use crate::pages::{ERROR_HTML, HTML_CONTENT_TYPE, SUCCESS_HTML};
use crate::text::{is_prefix, starts_with, text_eq};

verus! {

/// Name of the application event that carries a completed sign-in.
pub const OAUTH_COMPLETE_EVENT: &'static str = "desktop://oauth-complete";

/// Path under which the listener accepts callbacks.
pub const CALLBACK_PATH: &'static str = "/oauth/callback";

/// Synthetic origin put in front of a request target so that it parses as a URL.
pub const LOCAL_ORIGIN: &'static str = "http://localhost";

#[verifier::external_type_specification]
#[verifier::external_body]
pub struct ExParseError(url::ParseError);

/// What the `url` crate yields for a string: the path and the decoded query
/// pairs in order, or nothing where the string is not a valid URL.
pub uninterp spec fn url_parts_of(s: Seq<char>) -> Option<(Seq<char>, Seq<(Seq<char>, Seq<char>)>)>;

/// A parsed request URL as plain values.
pub struct UrlParts {
    pub path: String,
    pub query: Vec<(String, String)>,
}

impl View for UrlParts {
    type V = (Seq<char>, Seq<(Seq<char>, Seq<char>)>);

    open spec fn view(&self) -> Self::V {
        (self.path@, self.query.deep_view())
    }
}

/// The model of an optional parsed URL.
pub open spec fn parts_model(p: Option<UrlParts>) -> Option<(Seq<char>, Seq<(Seq<char>, Seq<char>)>)> {
    match p {
        Some(u) => Some(u@),
        None => None,
    }
}

/// Relies on url::Url::parse, reading the result through Url::path and
/// Url::query_pairs (percent-decoded, in the order they appear).
#[verifier::external_body]
fn parse_url(s: &str) -> (r: Result<UrlParts, url::ParseError>)
    ensures
        match r {
            Ok(p) => url_parts_of(s@) == Some(p@),
            Err(_) => url_parts_of(s@).is_none(),
        },
{
    let u = url::Url::parse(s)?;
    Ok(UrlParts { path: u.path().to_string(), query: u.query_pairs().into_owned().collect() })
}

/// The value of the last pair whose key is `key`, if any.
pub open spec fn last_value(q: Seq<(Seq<char>, Seq<char>)>, key: Seq<char>) -> Option<Seq<char>>
    decreases q.len(),
{
    if q.len() == 0 {
        None
    } else if q.last().0 == key {
        Some(q.last().1)
    } else {
        last_value(q.drop_last(), key)
    }
}

/// A repeated key keeps the value of its last occurrence: appending a pair
/// for `key` decides its value, and appending a pair for another key leaves
/// it as it was.
pub proof fn lemma_last_occurrence_wins(
    q: Seq<(Seq<char>, Seq<char>)>,
    k: Seq<char>,
    v: Seq<char>,
    key: Seq<char>,
)
    ensures
        last_value(q.push((k, v)), key) == if k == key { Some(v) } else { last_value(q, key) },
{
    assert(q.push((k, v)).drop_last() == q);
}

/// The literal values that read as a true flag.
pub open spec fn is_truthy(v: Seq<char>) -> bool {
    v == "true"@ || v == "1"@ || v == "yes"@
}

/// A flag that is absent reads as false.
pub open spec fn flag_value(v: Option<Seq<char>>) -> bool {
    match v {
        Some(s) => is_truthy(s),
        None => false,
    }
}

/// The recognized callback parameters.
pub struct CallbackParams {
    pub token: Option<String>,
    pub session_id: Option<String>,
    pub oauth_channel: Option<String>,
    pub is_new_user: bool,
}

pub ghost struct ParamsModel {
    pub token: Option<Seq<char>>,
    pub session_id: Option<Seq<char>>,
    pub oauth_channel: Option<Seq<char>>,
    pub is_new_user: bool,
}

impl View for CallbackParams {
    type V = ParamsModel;

    open spec fn view(&self) -> ParamsModel {
        ParamsModel {
            token: self.token.deep_view(),
            session_id: self.session_id.deep_view(),
            oauth_channel: self.oauth_channel.deep_view(),
            is_new_user: self.is_new_user,
        }
    }
}

/// The parameters read from query pairs: for each key the last occurrence
/// wins, and unknown keys are ignored.
pub open spec fn params_of(q: Seq<(Seq<char>, Seq<char>)>) -> ParamsModel {
    ParamsModel {
        token: last_value(q, "token"@),
        session_id: last_value(q, "session_id"@),
        oauth_channel: last_value(q, "oauth_channel"@),
        is_new_user: flag_value(last_value(q, "is_new_user"@)),
    }
}

/// Whether a flag value reads as true: exactly `true`, `1` or `yes`.
pub fn is_truthy_flag(v: &str) -> (r: bool)
    ensures
        r == is_truthy(v@),
{
    text_eq(v, "true") || text_eq(v, "1") || text_eq(v, "yes")
}

/// Scans the query pairs for the callback parameters.
pub fn extract_params(query: &Vec<(String, String)>) -> (r: CallbackParams)
    ensures
        r@ == params_of(query.deep_view()),
{
    let ghost q = query.deep_view();
    let mut token: Option<String> = None;
    let mut session_id: Option<String> = None;
    let mut oauth_channel: Option<String> = None;
    let mut is_new_user = false;
    let mut i: usize = 0;
    while i < query.len()
        invariant
            q == query.deep_view(),
            i <= query.len(),
            token.deep_view() == last_value(q.take(i as int), "token"@),
            session_id.deep_view() == last_value(q.take(i as int), "session_id"@),
            oauth_channel.deep_view() == last_value(q.take(i as int), "oauth_channel"@),
            is_new_user == flag_value(last_value(q.take(i as int), "is_new_user"@)),
        decreases query.len() - i,
    {
        let key = query[i].0.as_str();
        let value = &query[i].1;
        assert(q.take(i + 1).drop_last() == q.take(i as int));
        assert(q.take(i + 1).last() == (key@, value@));
        proof {
            reveal_strlit("token");
            reveal_strlit("session_id");
            reveal_strlit("oauth_channel");
            reveal_strlit("is_new_user");
            assert("token"@.len() == 5 && "session_id"@.len() == 10);
            assert("oauth_channel"@.len() == 13 && "is_new_user"@.len() == 11);
        }
        if text_eq(key, "token") {
            token = Some(value.clone());
        } else if text_eq(key, "session_id") {
            session_id = Some(value.clone());
        } else if text_eq(key, "oauth_channel") {
            oauth_channel = Some(value.clone());
        } else if text_eq(key, "is_new_user") {
            is_new_user = is_truthy_flag(value.as_str());
        }
        i = i + 1;
    }
    assert(q.take(i as int) == q);
    CallbackParams { token, session_id, oauth_channel, is_new_user }
}

/// The payload published to the application when a sign-in completed.
pub struct OAuthResult {
    pub token: String,
    pub session_id: String,
    pub is_new_user: bool,
    pub oauth_channel: Option<String>,
}

pub ghost struct OAuthResultModel {
    pub token: Seq<char>,
    pub session_id: Seq<char>,
    pub is_new_user: bool,
    pub oauth_channel: Option<Seq<char>>,
}

impl View for OAuthResult {
    type V = OAuthResultModel;

    open spec fn view(&self) -> OAuthResultModel {
        OAuthResultModel {
            token: self.token@,
            session_id: self.session_id@,
            is_new_user: self.is_new_user,
            oauth_channel: self.oauth_channel.deep_view(),
        }
    }
}

/// Why a request was answered without completing sign-in.
#[derive(Clone, Copy, Debug, PartialEq, Eq, Structural)]
pub enum Rejection {
    InvalidMethod,
    MalformedUrl,
    UnknownPath,
    MissingAuthPayload,
}

/// What handling one request yields: a result to publish, or a rejection.
pub enum CallbackOutcome {
    Completed(OAuthResult),
    Rejected(Rejection),
}

pub ghost enum OutcomeModel {
    Completed(OAuthResultModel),
    Rejected(Rejection),
}

impl View for CallbackOutcome {
    type V = OutcomeModel;

    open spec fn view(&self) -> OutcomeModel {
        match self {
            CallbackOutcome::Completed(r) => OutcomeModel::Completed(r@),
            CallbackOutcome::Rejected(e) => OutcomeModel::Rejected(*e),
        }
    }
}

/// The body served with a response.
#[derive(Clone, Copy, Debug, PartialEq, Eq, Structural)]
pub enum Page {
    Empty,
    SignedIn,
    Failure,
}

/// Validation of the extracted parameters: both the token and the session
/// id are required.
pub open spec fn outcome_of_params(p: ParamsModel) -> OutcomeModel {
    match (p.token, p.session_id) {
        (Some(t), Some(s)) => OutcomeModel::Completed(
            OAuthResultModel {
                token: t,
                session_id: s,
                is_new_user: p.is_new_user,
                oauth_channel: p.oauth_channel,
            },
        ),
        _ => OutcomeModel::Rejected(Rejection::MissingAuthPayload),
    }
}

/// The outcome of a request with method `method` whose URL parsed to `parts`.
pub open spec fn callback_outcome(
    method: Seq<char>,
    parts: Option<(Seq<char>, Seq<(Seq<char>, Seq<char>)>)>,
) -> OutcomeModel {
    if method != "GET"@ {
        OutcomeModel::Rejected(Rejection::InvalidMethod)
    } else {
        match parts {
            None => OutcomeModel::Rejected(Rejection::MalformedUrl),
            Some((path, q)) => if !is_prefix(CALLBACK_PATH@, path) {
                OutcomeModel::Rejected(Rejection::UnknownPath)
            } else {
                outcome_of_params(params_of(q))
            },
        }
    }
}

/// The URL that a request target is parsed as.
pub open spec fn request_url(target: Seq<char>) -> Seq<char> {
    LOCAL_ORIGIN@ + target
}

/// The HTTP status answered for an outcome.
pub open spec fn status_of(o: OutcomeModel) -> u16 {
    match o {
        OutcomeModel::Completed(_) => 200,
        OutcomeModel::Rejected(Rejection::InvalidMethod) => 405,
        OutcomeModel::Rejected(Rejection::UnknownPath) => 404,
        OutcomeModel::Rejected(_) => 400,
    }
}

/// The page served for an outcome: none for transport-level rejections.
pub open spec fn page_of(o: OutcomeModel) -> Page {
    match o {
        OutcomeModel::Completed(_) => Page::SignedIn,
        OutcomeModel::Rejected(Rejection::InvalidMethod) => Page::Empty,
        OutcomeModel::Rejected(Rejection::UnknownPath) => Page::Empty,
        OutcomeModel::Rejected(_) => Page::Failure,
    }
}

/// Checks the extracted parameters and builds the result to publish.
pub fn validate_params(p: CallbackParams) -> (r: CallbackOutcome)
    ensures
        r@ == outcome_of_params(p@),
{
    match (p.token, p.session_id) {
        (Some(token), Some(session_id)) => CallbackOutcome::Completed(
            OAuthResult {
                token,
                session_id,
                is_new_user: p.is_new_user,
                oauth_channel: p.oauth_channel,
            },
        ),
        _ => CallbackOutcome::Rejected(Rejection::MissingAuthPayload),
    }
}

/// Decides a request from its method and what its URL parsed to.
pub fn decide_callback(method: &str, parts: Option<UrlParts>) -> (r: CallbackOutcome)
    ensures
        r@ == callback_outcome(method@, parts_model(parts)),
{
    if !text_eq(method, "GET") {
        return CallbackOutcome::Rejected(Rejection::InvalidMethod);
    }
    match parts {
        None => CallbackOutcome::Rejected(Rejection::MalformedUrl),
        Some(u) => {
            if !starts_with(u.path.as_str(), CALLBACK_PATH) {
                CallbackOutcome::Rejected(Rejection::UnknownPath)
            } else {
                validate_params(extract_params(&u.query))
            }
        },
    }
}

/// Handles one request, given its method and its target (path and query).
/// The URL is parsed only for a `GET`.
pub fn handle_callback(method: &str, target: &str) -> (r: CallbackOutcome)
    ensures
        r@ == callback_outcome(method@, url_parts_of(request_url(target@))),
        method@ != "GET"@ ==> r@ == OutcomeModel::Rejected(Rejection::InvalidMethod),
{
    if !text_eq(method, "GET") {
        return CallbackOutcome::Rejected(Rejection::InvalidMethod);
    }
    let mut full = String::from_str(LOCAL_ORIGIN);
    full.append(target);
    let parts = match parse_url(full.as_str()) {
        Ok(u) => Some(u),
        Err(_) => None,
    };
    decide_callback(method, parts)
}

impl CallbackOutcome {
    /// The HTTP status to answer with.
    pub fn status(&self) -> (r: u16)
        ensures
            r == status_of(self@),
    {
        match self {
            CallbackOutcome::Completed(_) => 200,
            CallbackOutcome::Rejected(Rejection::InvalidMethod) => 405,
            CallbackOutcome::Rejected(Rejection::UnknownPath) => 404,
            CallbackOutcome::Rejected(_) => 400,
        }
    }

    /// The page to serve.
    pub fn page(&self) -> (r: Page)
        ensures
            r == page_of(self@),
    {
        match self {
            CallbackOutcome::Completed(_) => Page::SignedIn,
            CallbackOutcome::Rejected(Rejection::InvalidMethod) => Page::Empty,
            CallbackOutcome::Rejected(Rejection::UnknownPath) => Page::Empty,
            CallbackOutcome::Rejected(_) => Page::Failure,
        }
    }
}

/// The text of a page.
pub open spec fn page_text(p: Page) -> Seq<char> {
    match p {
        Page::Empty => Seq::empty(),
        Page::SignedIn => SUCCESS_HTML@,
        Page::Failure => ERROR_HTML@,
    }
}

impl Page {
    /// The response body.
    pub fn body(&self) -> (r: &'static str)
        ensures
            r@ == page_text(*self),
    {
        match self {
            Page::Empty => {
                proof {
                    reveal_strlit("");
                }
                ""
            },
            Page::SignedIn => SUCCESS_HTML,
            Page::Failure => ERROR_HTML,
        }
    }

    /// The content type to send, for the HTML pages only.
    pub fn content_type(&self) -> (r: Option<&'static str>)
        ensures
            match r {
                Some(t) => *self != Page::Empty && t@ == HTML_CONTENT_TYPE@,
                None => *self == Page::Empty,
            },
    {
        match self {
            Page::Empty => None,
            _ => Some(HTML_CONTENT_TYPE),
        }
    }
}

} // verus!
