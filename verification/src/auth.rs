//! From the control URL to the address and the `Authorization` header of a
//! connection.

use vstd::prelude::*;
use vstd::string::*;

verus! {

/// Why no connection can be prepared from a control URL.
#[derive(Clone, Copy, Debug, PartialEq, Eq, Structural)]
pub enum ConnectError {
    /// The control URL, behind `wss://`, is not a URL.
    InvalidUrl,
    /// The URL names no password.
    MissingPassword,
    /// The credentials give no value that an HTTP header can carry.
    InvalidHeader,
}

/// The parts of a parsed URL that a connection is prepared from.
#[derive(Clone, Debug)]
pub struct UrlParts {
    /// The URL as the parser writes it out again.
    pub href: String,
    /// The user name, percent-encoded; empty where the URL has none.
    pub username: String,
    /// The password, percent-encoded; `None` where the URL has none.
    pub password: Option<String>,
}

/// Mathematical value of [`UrlParts`].
pub ghost struct UrlPartsView {
    pub href: Seq<char>,
    pub username: Seq<char>,
    pub password: Option<Seq<char>>,
}

impl View for UrlParts {
    type V = UrlPartsView;

    open spec fn view(&self) -> UrlPartsView {
        UrlPartsView {
            href: self.href@,
            username: self.username@,
            password: match self.password {
                Some(p) => Some(p@),
                None => None,
            },
        }
    }
}

/// Name of the header that carries the credentials.
pub const AUTHORIZATION: &'static str = "Authorization";

/// What a connection attempt needs.
#[derive(Clone, Debug)]
pub struct ConnectPlan {
    /// Where to connect.
    pub url: String,
    /// The value of the `Authorization` header to send along.
    pub authorization: String,
    /// Whether the TLS layer takes any certificate. The control API is a
    /// local service with a self-signed certificate; it is trusted for the
    /// credentials it accepts, so this is always set.
    pub accept_invalid_certs: bool,
}

/// Mathematical value of a [`ConnectPlan`].
pub ghost struct ConnectPlanView {
    pub url: Seq<char>,
    pub authorization: Seq<char>,
    pub accept_invalid_certs: bool,
}

impl View for ConnectPlan {
    type V = ConnectPlanView;

    open spec fn view(&self) -> ConnectPlanView {
        ConnectPlanView {
            url: self.url@,
            authorization: self.authorization@,
            accept_invalid_certs: self.accept_invalid_certs,
        }
    }
}

/// What the URL parser makes of `text`: `None` where it refuses it.
pub uninterp spec fn parsed_url(text: Seq<char>) -> Option<UrlPartsView>;

/// The base64 text, standard alphabet with padding, of the UTF-8 bytes of
/// `input`.
pub uninterp spec fn base64_text(input: Seq<char>) -> Seq<char>;

/// Whether a header value may hold `c`: a tab, or any character from the
/// space on but DEL.
pub open spec fn header_char(c: char) -> bool {
    c == '\t' || (c >= ' ' && c != '\x7f')
}

/// Whether `value` can be the value of an HTTP header.
pub open spec fn header_accepts(value: Seq<char>) -> bool {
    forall|i: int| 0 <= i < value.len() ==> header_char(#[trigger] value[i])
}

/// The address of the control API: `wss://` before the control URL.
pub open spec fn ws_url_text(auth_url: Seq<char>) -> Seq<char> {
    "wss://"@ + auth_url
}

/// `username:password`, the text that basic authentication encodes.
pub open spec fn credential_text(username: Seq<char>, password: Seq<char>) -> Seq<char> {
    username + ":"@ + password
}

/// The `Authorization` value of basic authentication for an encoded token.
pub open spec fn basic_value(token: Seq<char>) -> Seq<char> {
    "Basic "@ + token
}

/// The `Authorization` value for a user name and a password.
pub open spec fn basic_auth_value(username: Seq<char>, password: Seq<char>) -> Seq<char> {
    basic_value(base64_text(credential_text(username, password)))
}

/// The plan that the parts of a parsed URL give, or the reason for none.
pub open spec fn plan_of_parts(parts: Option<UrlPartsView>) -> Result<
    ConnectPlanView,
    ConnectError,
> {
    match parts {
        None => Err(ConnectError::InvalidUrl),
        Some(p) => match p.password {
            None => Err(ConnectError::MissingPassword),
            Some(password) => {
                let value = basic_auth_value(p.username, password);
                if header_accepts(value) {
                    Ok(
                        ConnectPlanView {
                            url: p.href,
                            authorization: value,
                            accept_invalid_certs: true,
                        },
                    )
                } else {
                    Err(ConnectError::InvalidHeader)
                }
            },
        },
    }
}

/// The plan for a control URL, or the reason for none.
pub open spec fn planned(auth_url: Seq<char>) -> Result<ConnectPlanView, ConnectError> {
    plan_of_parts(parsed_url(ws_url_text(auth_url)))
}

/// A result with its plan taken by its view.
pub open spec fn plan_view(plan: Result<ConnectPlan, ConnectError>) -> Result<
    ConnectPlanView,
    ConnectError,
> {
    match plan {
        Ok(p) => Ok(p@),
        Err(e) => Err(e),
    }
}

/// Calls `reqwest::Url::parse` and copies out, where it accepts the text,
/// what `Url::to_string`, `Url::username` and `Url::password` return. The
/// contract only gives that outcome its name: the parser is a function of
/// the text alone.
#[verifier::external_body]
fn parse_url(text: &str) -> (parts: Option<UrlParts>)
    ensures
        match parts {
            Some(p) => parsed_url(text@) == Some(p@),
            None => parsed_url(text@) is None,
        },
{
    match reqwest::Url::parse(text) {
        Ok(url) => Some(
            UrlParts {
                href: url.to_string(),
                username: url.username().to_string(),
                password: url.password().map(|p| p.to_string()),
            },
        ),
        Err(_) => None,
    }
}

/// Calls `base64::encode` on the bytes of `input`. The contract only gives
/// the encoded text its name.
#[verifier::external_body]
fn base64_encode(input: &str) -> (token: String)
    ensures
        token@ == base64_text(input@),
{
    base64::encode(input)
}

/// Calls `http::HeaderValue::from_str` and reports whether it accepted the
/// text. It refuses a text exactly when one of its bytes is below 32 and no
/// tab, or is 127; the bytes of a character beyond ASCII are all above 127.
#[verifier::external_body]
fn header_value_accepts(value: &str) -> (accepted: bool)
    ensures
        accepted == header_accepts(value@),
{
    http::HeaderValue::from_str(value).is_ok()
}

/// `username:password`.
pub fn credentials(username: &str, password: &str) -> (text: String)
    ensures
        text@ == credential_text(username@, password@),
{
    String::from_str(username).concat(":").concat(password)
}

/// `Basic `, then the token.
pub fn basic_value_for(token: &str) -> (value: String)
    ensures
        value@ == basic_value(token@),
{
    String::from_str("Basic ").concat(token)
}

/// The `Authorization` value of basic authentication for `username` and
/// `password`: `Basic `, then the base64 text of `username:password`.
pub fn basic_auth_header(username: &str, password: &str) -> (value: String)
    ensures
        value@ == basic_auth_value(username@, password@),
{
    let pair = credentials(username, password);
    let token = base64_encode(pair.as_str());
    basic_value_for(token.as_str())
}

/// Admits `value` as the value of an HTTP header, or refuses it.
pub fn checked_header(value: String) -> (checked: Result<String, ConnectError>)
    ensures
        match checked {
            Ok(v) => v@ == value@ && header_accepts(value@),
            Err(e) => e == ConnectError::InvalidHeader && !header_accepts(value@),
        },
{
    if header_value_accepts(value.as_str()) {
        Ok(value)
    } else {
        Err(ConnectError::InvalidHeader)
    }
}

/// Makes the plan from what the parser found in the URL. Without a password
/// there is no plan, and nothing is encoded.
pub fn plan_from_parts(parts: Option<UrlParts>) -> (plan: Result<ConnectPlan, ConnectError>)
    ensures
        plan_view(plan) == plan_of_parts(
            match parts {
                Some(p) => Some(p@),
                None => None,
            },
        ),
{
    match parts {
        None => Err(ConnectError::InvalidUrl),
        Some(p) => match p.password {
            None => Err(ConnectError::MissingPassword),
            Some(password) => {
                let value = basic_auth_header(p.username.as_str(), password.as_str());
                match checked_header(value) {
                    Ok(authorization) => Ok(
                        ConnectPlan { url: p.href, authorization, accept_invalid_certs: true },
                    ),
                    Err(e) => Err(e),
                }
            },
        },
    }
}

/// Prepares the connection to a control URL: parses `wss://` followed by
/// the URL, and derives the `Authorization` value from its user name and
/// password.
pub fn plan_connection(auth_url: &str) -> (plan: Result<ConnectPlan, ConnectError>)
    ensures
        plan_view(plan) == planned(auth_url@),
{
    let ws_url = String::from_str("wss://").concat(auth_url);
    plan_from_parts(parse_url(ws_url.as_str()))
}

/// A control URL whose parsed form has no password gives no plan, whatever
/// else it holds: nothing is encoded and nothing can be attempted.
pub proof fn lemma_no_password_no_plan(auth_url: Seq<char>)
    requires
        parsed_url(ws_url_text(auth_url)) matches Some(parts) && parts.password is None,
    ensures
        planned(auth_url) == Err::<ConnectPlanView, ConnectError>(ConnectError::MissingPassword),
{
}

/// Every plan carries the basic-authentication value of the user name and
/// password found in the URL, admits any certificate, and connects to the
/// URL as parsed.
pub proof fn lemma_plan_carries_credentials(auth_url: Seq<char>)
    requires
        planned(auth_url) is Ok,
    ensures
        parsed_url(ws_url_text(auth_url)) matches Some(parts) && parts.password matches Some(
            password,
        ) && planned(auth_url) == Ok::<ConnectPlanView, ConnectError>(
            ConnectPlanView {
                url: parts.href,
                authorization: "Basic "@ + base64_text(parts.username + ":"@ + password),
                accept_invalid_certs: true,
            },
        ),
{
}

} // verus!
