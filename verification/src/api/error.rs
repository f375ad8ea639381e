//! Errors of calls to the Black Duck API and their user-facing messages.
use vstd::prelude::*;
use crate::text::{concat, contains_str, decimal, decimal_string, has_substring};

verus! {

/// What is known of a failed HTTP transport call: the error's kind flags,
/// the URL it concerned (and that URL's host), and the transport's own
/// description of the failure.
#[derive(Debug, Clone)]
pub struct HttpErrorInfo {
    pub is_connect: bool,
    pub is_timeout: bool,
    pub is_builder: bool,
    pub url: Option<String>,
    pub host: Option<String>,
    pub text: String,
}

/// All errors that can occur when calling the Black Duck API.
#[derive(Debug, Clone)]
pub enum ApiError {
    /// HTTP transport error, reported with a concise message.
    Http(HttpErrorInfo),
    /// The server returned a non-2xx status code.
    StatusCode { context: &'static str, status: u16, body: String },
    /// The client has not been authenticated yet.
    NotAuthenticated,
}

/// The standard reason phrase of an HTTP status code (e.g. `"Not Found"`
/// for 404), as `http::StatusCode::canonical_reason` gives it.
pub uninterp spec fn canonical_reason_phrase(code: u16) -> Option<Seq<char>>;

/// The contents of an optional string.
pub open spec fn opt_text(o: Option<String>) -> Option<Seq<char>> {
    match o {
        Some(s) => Some(s@),
        None => None,
    }
}

/// Calls `http::StatusCode::from_u16` and then `StatusCode::canonical_reason`.
/// The result is the named reason phrase of the code; codes outside
/// `100..=999` are not status codes and have none.
#[verifier::external_body]
fn canonical_reason(code: u16) -> (r: Option<String>)
    ensures
        opt_text(r) == canonical_reason_phrase(code),
        !(100 <= code <= 999) ==> r is None,
{
    match reqwest::StatusCode::from_u16(code) {
        Ok(s) => s.canonical_reason().map(String::from),
        Err(_) => None,
    }
}

/// How a status code is shown: its number, a space, and its reason phrase.
pub open spec fn status_text(code: u16) -> Seq<char> {
    decimal(code as nat) + " "@ + match canonical_reason_phrase(code) {
        Some(r) => r,
        None => "<unknown status code>"@,
    }
}

/// A concise, user-readable description of a transport error.
pub open spec fn friendly_http_text(e: HttpErrorInfo) -> Seq<char> {
    let msg = e.text@;
    if e.is_connect {
        match e.url {
            Some(u) => "Cannot connect to "@ + (match e.host {
                Some(h) => h@,
                None => u@,
            }) + " — is the server reachable?"@,
            None => "Cannot connect to server — is the server reachable?"@,
        }
    } else if e.is_timeout {
        "Request timed out — check network connectivity"@
    } else if e.is_builder {
        "Invalid URL or client configuration: "@ + msg
    } else if has_substring(msg, "dns error"@) || has_substring(msg, "resolve host"@)
        || has_substring(msg, "No such host"@) {
        "DNS lookup failed for '"@ + (match e.host {
            Some(h) => h@,
            None => "host"@,
        }) + "' — check the server URL and network"@
    } else if has_substring(msg, "certificate"@) || has_substring(msg, "tls"@) || has_substring(
        msg,
        "ssl"@,
    ) || has_substring(msg, "TLS"@) {
        "TLS/certificate error — try setting accept_invalid_certs = true in config: "@ + msg
    } else {
        "Network error: "@ + msg
    }
}

/// The message an API error is shown with.
pub open spec fn api_error_text(e: ApiError) -> Seq<char> {
    match e {
        ApiError::Http(info) => friendly_http_text(info),
        ApiError::StatusCode { context, status, body } => context@ + " ("@ + status_text(status)
            + "): "@ + body@,
        ApiError::NotAuthenticated => "Client is not authenticated; call authenticate() first"@,
    }
}

/// Produce a concise, user-readable description of a transport error.
pub fn friendly_http_error(e: &HttpErrorInfo) -> (r: String)
    ensures
        r@ == friendly_http_text(*e),
{
    let msg = e.text.as_str();
    if e.is_connect {
        match &e.url {
            Some(u) => {
                let target = match &e.host {
                    Some(h) => h.as_str(),
                    None => u.as_str(),
                };
                let a = concat("Cannot connect to ", target);
                return concat(a.as_str(), " — is the server reachable?");
            },
            None => {
                return String::from_str("Cannot connect to server — is the server reachable?");
            },
        }
    }
    if e.is_timeout {
        return String::from_str("Request timed out — check network connectivity");
    }
    if e.is_builder {
        return concat("Invalid URL or client configuration: ", msg);
    }
    if contains_str(msg, "dns error") || contains_str(msg, "resolve host") || contains_str(
        msg,
        "No such host",
    ) {
        let host = match &e.host {
            Some(h) => h.as_str(),
            None => "host",
        };
        let a = concat("DNS lookup failed for '", host);
        return concat(a.as_str(), "' — check the server URL and network");
    }
    if contains_str(msg, "certificate") || contains_str(msg, "tls") || contains_str(msg, "ssl")
        || contains_str(msg, "TLS") {
        return concat(
            "TLS/certificate error — try setting accept_invalid_certs = true in config: ",
            msg,
        );
    }
    concat("Network error: ", msg)
}

/// Renders a status code as its number and reason phrase (e.g. `"401 Unauthorized"`).
pub fn status_code_text(code: u16) -> (r: String)
    ensures
        r@ == status_text(code),
{
    let number = decimal_string(code as u64);
    let with_space = concat(number.as_str(), " ");
    match canonical_reason(code) {
        Some(reason) => concat(with_space.as_str(), reason.as_str()),
        None => concat(with_space.as_str(), "<unknown status code>"),
    }
}

impl ApiError {
    /// The message this error is shown with.
    pub fn to_string(&self) -> (r: String)
        ensures
            r@ == api_error_text(*self),
    {
        match self {
            ApiError::Http(info) => friendly_http_error(info),
            ApiError::StatusCode { context, status, body } => {
                let a = concat(context, " (");
                let st = status_code_text(*status);
                let b = concat(a.as_str(), st.as_str());
                let c = concat(b.as_str(), "): ");
                concat(c.as_str(), body.as_str())
            },
            ApiError::NotAuthenticated => String::from_str(
                "Client is not authenticated; call authenticate() first",
            ),
        }
    }
}

} // verus!
