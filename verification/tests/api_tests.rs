use blackduck_tui::api::client::is_success;
use blackduck_tui::api::client::{api_token_header, BlackDuckClient};
use blackduck_tui::api::error::{friendly_http_error, status_code_text};
use blackduck_tui::api::{ApiError, HttpErrorInfo, Meta, Project, ProjectVersion};

#[test]
fn not_authenticated_display() {
    let e = ApiError::NotAuthenticated;
    assert_eq!(
        e.to_string(),
        "Client is not authenticated; call authenticate() first"
    );
}

#[test]
fn status_code_display() {
    let e = ApiError::StatusCode {
        context: "get projects",
        status: reqwest::StatusCode::UNAUTHORIZED.as_u16(),
        body: "Unauthorized".to_string(),
    };
    assert_eq!(
        e.to_string(),
        "get projects (401 Unauthorized): Unauthorized"
    );
}

#[test]
fn status_code_404_display() {
    let e = ApiError::StatusCode {
        context: "get components",
        status: reqwest::StatusCode::NOT_FOUND.as_u16(),
        body: "not found".to_string(),
    };
    assert!(e.to_string().contains("404"));
    assert!(e.to_string().contains("get components"));
}

#[test]
fn status_text_of_known_and_unknown_codes() {
    assert_eq!(status_code_text(404), "404 Not Found");
    assert_eq!(status_code_text(599), "599 <unknown status code>");
    assert_eq!(status_code_text(42), "42 <unknown status code>");
}

fn info(text: &str) -> HttpErrorInfo {
    HttpErrorInfo {
        is_connect: false,
        is_timeout: false,
        is_builder: false,
        url: Some("https://bd.example.com/api/projects".to_string()),
        host: Some("bd.example.com".to_string()),
        text: text.to_string(),
    }
}

#[test]
fn friendly_connect_error_names_host() {
    let mut e = info("error sending request");
    e.is_connect = true;
    assert_eq!(
        friendly_http_error(&e),
        "Cannot connect to bd.example.com — is the server reachable?"
    );
    e.host = None;
    assert_eq!(
        friendly_http_error(&e),
        "Cannot connect to https://bd.example.com/api/projects — is the server reachable?"
    );
    e.url = None;
    assert_eq!(
        friendly_http_error(&e),
        "Cannot connect to server — is the server reachable?"
    );
}

#[test]
fn friendly_timeout_and_builder_errors() {
    let mut e = info("operation timed out");
    e.is_timeout = true;
    assert_eq!(
        friendly_http_error(&e),
        "Request timed out — check network connectivity"
    );
    let mut b = info("relative URL without a base");
    b.is_builder = true;
    assert_eq!(
        friendly_http_error(&b),
        "Invalid URL or client configuration: relative URL without a base"
    );
}

#[test]
fn friendly_dns_error() {
    let e = info("error trying to connect: dns error: failed to lookup address");
    assert_eq!(
        friendly_http_error(&e),
        "DNS lookup failed for 'bd.example.com' — check the server URL and network"
    );
    let mut no_host = info("No such host is known");
    no_host.host = None;
    assert_eq!(
        friendly_http_error(&no_host),
        "DNS lookup failed for 'host' — check the server URL and network"
    );
}

#[test]
fn friendly_tls_and_fallback_errors() {
    let e = info("invalid peer certificate: UnknownIssuer");
    assert_eq!(
        friendly_http_error(&e),
        "TLS/certificate error — try setting accept_invalid_certs = true in config: invalid peer certificate: UnknownIssuer"
    );
    let other = info("connection reset");
    assert_eq!(friendly_http_error(&other), "Network error: connection reset");
    assert_eq!(
        ApiError::Http(other).to_string(),
        "Network error: connection reset"
    );
}

#[test]
fn client_trims_trailing_slashes() {
    let c = BlackDuckClient::new("https://bd.example.com//", false);
    assert_eq!(c.base_url(), "https://bd.example.com");
    assert!(!c.is_authenticated());
    assert!(!c.accept_invalid_certs());
    assert_eq!(
        c.authenticate_url(),
        "https://bd.example.com/api/tokens/authenticate"
    );
}

#[test]
fn client_auth_header_requires_token() {
    let mut c = BlackDuckClient::new("https://bd.example.com", true);
    assert!(matches!(c.auth_header(), Err(ApiError::NotAuthenticated)));
    c.set_bearer_token("abc".to_string());
    assert!(c.is_authenticated());
    assert_eq!(c.auth_header().unwrap(), "Bearer abc");
    assert_eq!(api_token_header("tok"), "token tok");
}

#[test]
fn client_page_urls() {
    let c = BlackDuckClient::new("https://bd.example.com/", false);
    assert_eq!(
        c.projects_url(0, 100),
        "https://bd.example.com/api/projects?offset=0&limit=100"
    );
    assert_eq!(
        BlackDuckClient::versions_url("https://bd/api/projects/1", 10, 25),
        "https://bd/api/projects/1/versions?offset=10&limit=25"
    );
    assert_eq!(
        BlackDuckClient::components_url("https://bd/v/2", 0, 50),
        "https://bd/v/2/components?offset=0&limit=50"
    );
    assert_eq!(
        BlackDuckClient::vulnerabilities_url("https://bd/v/2", 200, 100),
        "https://bd/v/2/vulnerable-bom-components?offset=200&limit=100"
    );
    assert_eq!(
        BlackDuckClient::policy_violations_url("https://bd/v/2", 0, 100),
        "https://bd/v/2/components?filter=policyStatus:IN_VIOLATION&offset=0&limit=100"
    );
}

#[test]
fn href_reads_meta_link() {
    let mut p = Project::default();
    assert_eq!(p.href(), None);
    p.meta = Some(Meta {
        href: "https://bd/api/projects/9".to_string(),
        links: None,
    });
    assert_eq!(p.href(), Some("https://bd/api/projects/9"));
    let copy = p.clone();
    assert_eq!(copy.href(), Some("https://bd/api/projects/9"));
    let v = ProjectVersion::default();
    assert_eq!(v.href(), None);
}

#[test]
fn success_statuses_are_two_hundreds() {
    assert!(is_success(200));
    assert!(is_success(204));
    assert!(is_success(299));
    assert!(!is_success(199));
    assert!(!is_success(300));
    assert!(!is_success(401));
}
