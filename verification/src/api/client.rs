//! Connection state of the Black Duck client and the requests it makes:
//! their URLs, header values and error contexts, and which response
//! statuses succeed.
use vstd::prelude::*;
use crate::api::error::{opt_text, ApiError};
use crate::text::{concat, decimal, decimal_string, strip_trailing, trim_end_char};

verus! {

/// `Accept` header of the authentication request.
pub const ACCEPT_USER: &'static str = "application/vnd.blackducksoftware.user-4+json";

/// `Accept` header of the project list request.
pub const ACCEPT_PROJECTS: &'static str = "application/vnd.blackducksoftware.project-detail-4+json";

/// `Accept` header of the version list request.
pub const ACCEPT_VERSIONS: &'static str = "application/vnd.blackducksoftware.project-detail-5+json";

/// `Accept` header of the bill-of-materials requests.
pub const ACCEPT_BOM: &'static str = "application/vnd.blackducksoftware.bill-of-materials-6+json";

/// Error context of a refused authentication.
pub const CONTEXT_AUTH: &'static str = "Authentication failed";

/// Error context of a refused project list request.
pub const CONTEXT_PROJECTS: &'static str = "Failed to fetch projects";

/// Error context of a refused version list request.
pub const CONTEXT_VERSIONS: &'static str = "Failed to fetch versions";

/// Error context of a refused component list request.
pub const CONTEXT_COMPONENTS: &'static str = "Failed to fetch components";

/// Error context of a refused vulnerability list request.
pub const CONTEXT_VULNERABILITIES: &'static str = "Failed to fetch vulnerabilities";

/// Error context of a refused policy violation list request.
pub const CONTEXT_POLICY_VIOLATIONS: &'static str = "Failed to fetch policy violations";

/// The client's connection state: the server's base URL (without trailing
/// slashes), the bearer token once authenticated, and whether invalid TLS
/// certificates are accepted.
#[derive(Debug, Clone)]
pub struct BlackDuckClient {
    base_url: String,
    token: Option<String>,
    accept_invalid_certs: bool,
}

impl View for BlackDuckClient {
    /// The base URL and the bearer token.
    type V = (Seq<char>, Option<Seq<char>>);

    closed spec fn view(&self) -> (Seq<char>, Option<Seq<char>>) {
        (self.base_url@, opt_text(self.token))
    }
}

/// The query string selecting one page of a list.
pub open spec fn page_query(offset: u32, limit: u32) -> Seq<char> {
    "?offset="@ + decimal(offset as nat) + "&limit="@ + decimal(limit as nat)
}

fn page_query_string(offset: u32, limit: u32) -> (r: String)
    ensures
        r@ == page_query(offset, limit),
{
    let o = decimal_string(offset as u64);
    let l = decimal_string(limit as u64);
    let a = concat("?offset=", o.as_str());
    let b = concat(a.as_str(), "&limit=");
    concat(b.as_str(), l.as_str())
}

fn href_with_page(href: &str, path: &str, offset: u32, limit: u32) -> (r: String)
    ensures
        r@ == href@ + path@ + page_query(offset, limit),
{
    let q = page_query_string(offset, limit);
    let a = concat(href, path);
    concat(a.as_str(), q.as_str())
}

/// Whether a response status means success (200 to 299); any other status
/// is reported as `ApiError::StatusCode` with the response body.
pub fn is_success(status: u16) -> (r: bool)
    ensures
        r == (200 <= status <= 299),
{
    200 <= status && status <= 299
}

/// The `Authorization` header value that presents an API token.
pub fn api_token_header(api_token: &str) -> (r: String)
    ensures
        r@ == "token "@ + api_token@,
{
    concat("token ", api_token)
}

impl BlackDuckClient {
    /// A client for the server at `base_url` (trailing slashes dropped),
    /// not yet authenticated.
    pub fn new(base_url: &str, accept_invalid_certs: bool) -> (r: Self)
        ensures
            r@ == (strip_trailing(base_url@, '/'), None::<Seq<char>>),
            r.accepts_invalid_certs() == accept_invalid_certs,
    {
        BlackDuckClient { base_url: trim_end_char(base_url, '/'), token: None, accept_invalid_certs }
    }

    /// Whether invalid TLS certificates are accepted.
    pub closed spec fn accepts_invalid_certs(&self) -> bool {
        self.accept_invalid_certs
    }

    /// Whether invalid TLS certificates are accepted.
    pub fn accept_invalid_certs(&self) -> (r: bool)
        ensures
            r == self.accepts_invalid_certs(),
    {
        self.accept_invalid_certs
    }

    /// The server's base URL.
    pub fn base_url(&self) -> (r: &str)
        ensures
            r@ == self@.0,
    {
        self.base_url.as_str()
    }

    /// Whether a bearer token has been obtained.
    pub fn is_authenticated(&self) -> (r: bool)
        ensures
            r == self@.1 is Some,
    {
        self.token.is_some()
    }

    /// Stores the bearer token handed out by the authentication endpoint.
    pub fn set_bearer_token(&mut self, token: String)
        ensures
            final(self)@ == (old(self)@.0, Some(token@)),
            final(self).accepts_invalid_certs() == old(self).accepts_invalid_certs(),
    {
        self.token = Some(token);
    }

    /// The `Authorization` header value for authenticated requests.
    pub fn auth_header(&self) -> (r: Result<String, ApiError>)
        ensures
            self@.1 is Some ==> r is Ok && r->Ok_0@ == "Bearer "@ + self@.1->0,
            self@.1 is None ==> r == Err::<String, ApiError>(ApiError::NotAuthenticated),
    {
        match &self.token {
            Some(t) => Ok(concat("Bearer ", t.as_str())),
            None => Err(ApiError::NotAuthenticated),
        }
    }

    /// The URL of the authentication endpoint.
    pub fn authenticate_url(&self) -> (r: String)
        ensures
            r@ == self@.0 + "/api/tokens/authenticate"@,
    {
        concat(self.base_url.as_str(), "/api/tokens/authenticate")
    }

    /// The URL of one page of projects.
    pub fn projects_url(&self, offset: u32, limit: u32) -> (r: String)
        ensures
            r@ == self@.0 + "/api/projects"@ + page_query(offset, limit),
    {
        href_with_page(self.base_url.as_str(), "/api/projects", offset, limit)
    }

    /// The URL of one page of a project's versions.
    pub fn versions_url(project_href: &str, offset: u32, limit: u32) -> (r: String)
        ensures
            r@ == project_href@ + "/versions"@ + page_query(offset, limit),
    {
        href_with_page(project_href, "/versions", offset, limit)
    }

    /// The URL of one page of a version's BOM components.
    pub fn components_url(version_href: &str, offset: u32, limit: u32) -> (r: String)
        ensures
            r@ == version_href@ + "/components"@ + page_query(offset, limit),
    {
        href_with_page(version_href, "/components", offset, limit)
    }

    /// The URL of one page of a version's vulnerable BOM components.
    pub fn vulnerabilities_url(version_href: &str, offset: u32, limit: u32) -> (r: String)
        ensures
            r@ == version_href@ + "/vulnerable-bom-components"@ + page_query(offset, limit),
    {
        href_with_page(version_href, "/vulnerable-bom-components", offset, limit)
    }

    /// The URL of one page of a version's components in policy violation.
    pub fn policy_violations_url(version_href: &str, offset: u32, limit: u32) -> (r: String)
        ensures
            r@ == version_href@ + "/components?filter=policyStatus:IN_VIOLATION&offset="@
                + decimal(offset as nat) + "&limit="@ + decimal(limit as nat),
    {
        let o = decimal_string(offset as u64);
        let l = decimal_string(limit as u64);
        let a = concat(version_href, "/components?filter=policyStatus:IN_VIOLATION&offset=");
        let b = concat(a.as_str(), o.as_str());
        let c = concat(b.as_str(), "&limit=");
        concat(c.as_str(), l.as_str())
    }

}


/// A client's base URL never ends in a slash, normalising it again changes
/// nothing, and it is a prefix of the URL it was made from.
pub proof fn law_base_url_normalized(url: Seq<char>)
    ensures
        strip_trailing(url, '/').len() == 0 || strip_trailing(url, '/').last() != '/',
        strip_trailing(strip_trailing(url, '/'), '/') == strip_trailing(url, '/'),
        strip_trailing(url, '/').len() <= url.len(),
        url.subrange(0, strip_trailing(url, '/').len() as int) == strip_trailing(url, '/'),
    decreases url.len(),
{
    if url.len() > 0 && url.last() == '/' {
        law_base_url_normalized(url.drop_last());
        let s = strip_trailing(url, '/');
        assert(url.drop_last().subrange(0, s.len() as int) =~= url.subrange(0, s.len() as int));
    } else {
        assert(url.subrange(0, url.len() as int) =~= url);
    }
}

} // verus!
