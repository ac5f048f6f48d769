use zotero::client::{
    add_pagination, library_version_from, next_page_start, next_step, parse_u64_header, parse_usize_header,
    retry_delay_ms, status_error, status_error_or_not_found, trim_end_slashes, HttpMethod, LibraryTarget,
    RetryStep, SendOutcome, ZoteroClient,
};
use zotero::errors::ZoteroApiError;
use zotero::status::status_line;

fn client() -> ZoteroClient {
    ZoteroClient::new("http://127.0.0.1:23119/api/".to_owned())
}

#[test]
fn empty_base_url_means_the_local_api() {
    assert_eq!(ZoteroClient::new(String::new()).base_url(), "http://127.0.0.1:23119/api");
    assert_eq!(client().target(), LibraryTarget::User(0));
    assert_eq!(client().target_prefix(), "/users/0");
    assert_eq!(client().with_target(LibraryTarget::Group(42)).target_prefix(), "/groups/42");
}

#[test]
fn request_urls_join_base_prefix_and_path() {
    let c = client();
    let scoped = c.get("/items");
    assert_eq!(c.request_url(&scoped), "http://127.0.0.1:23119/api/users/0/items");
    let unscoped = c.post("/local/authorize").target_scoped(false);
    assert_eq!(c.request_url(&unscoped), "http://127.0.0.1:23119/api/local/authorize");
    let absolute = c.get("https://example.org/x");
    assert_eq!(c.request_url(&absolute), "https://example.org/x");
}

#[test]
fn headers_carry_version_keys_and_guard() {
    let c = client().with_api_key("SECRET".to_owned()).with_server_id("srv".to_owned());
    let req = c.delete_req("/items/X").unmodified_since_version(7);
    let headers = c.request_headers(&req);
    assert_eq!(
        headers,
        vec![
            ("Zotero-API-Version".to_owned(), "3".to_owned()),
            ("Zotero-API-Key".to_owned(), "SECRET".to_owned()),
            ("Zotero-Write-Key".to_owned(), "SECRET".to_owned()),
            ("Zotero-Server-ID".to_owned(), "srv".to_owned()),
            ("If-Unmodified-Since-Version".to_owned(), "7".to_owned()),
        ]
    );
    assert_eq!(client().request_headers(&client().get("/items")).len(), 1);
}

#[test]
fn pagination_parameters_follow_an_existing_query() {
    assert_eq!(add_pagination("http://h/items", 0, 50), "http://h/items?start=0&limit=50");
    assert_eq!(add_pagination("http://h/items?q=x", 100, 50), "http://h/items?q=x&start=100&limit=50");
    assert_eq!(trim_end_slashes("http://h///"), "http://h");
}

#[test]
fn paging_stops_after_a_short_page() {
    assert_eq!(next_page_start(0, 50, 50), Some(50));
    assert_eq!(next_page_start(50, 49, 50), None);
    assert_eq!(next_page_start(usize::MAX - 1, 50, 50), Some(usize::MAX));
}

#[test]
fn retries_back_off_and_stop_after_three_attempts() {
    assert_eq!(retry_delay_ms(1), 200);
    assert_eq!(retry_delay_ms(2), 400);
    assert_eq!(retry_delay_ms(3), 800);
    assert_eq!(retry_delay_ms(40), 200 * 65536);
    assert_eq!(next_step(SendOutcome::Status(503), 1), RetryStep::Retry(200));
    assert_eq!(next_step(SendOutcome::Status(429), 2), RetryStep::Retry(400));
    assert_eq!(next_step(SendOutcome::Status(503), 3), RetryStep::Finish);
    assert_eq!(next_step(SendOutcome::Status(404), 1), RetryStep::Finish);
    assert_eq!(next_step(SendOutcome::TransportError, 1), RetryStep::Retry(200));
    assert_eq!(next_step(SendOutcome::TransportError, 3), RetryStep::Fail);
}

#[test]
fn non_success_statuses_become_errors() {
    assert_eq!(status_error(200, String::new()), None);
    assert_eq!(
        status_error(500, "boom".to_owned()),
        Some(ZoteroApiError::LocalApi { status: 500, message: "boom".to_owned() })
    );
    assert_eq!(
        status_error_or_not_found(404, String::new(), "Collection COLL0001".to_owned()),
        Some(ZoteroApiError::NotFound("Collection COLL0001".to_owned()))
    );
    assert_eq!(
        status_error_or_not_found(403, "no".to_owned(), "Item X".to_owned()),
        Some(ZoteroApiError::LocalApi { status: 403, message: "no".to_owned() })
    );
}

#[test]
fn numeric_headers_parse_or_are_ignored() {
    assert_eq!(parse_usize_header(Some("42")), Some(42));
    assert_eq!(parse_usize_header(Some("4x")), None);
    assert_eq!(parse_usize_header(None), None);
    assert_eq!(parse_u64_header(Some("18446744073709551615")), Some(u64::MAX));
    assert_eq!(parse_u64_header(Some("18446744073709551616")), None);
}

#[test]
fn library_version_comes_from_its_header() {
    assert_eq!(library_version_from(Some(12)).unwrap().as_u64(), 12);
    assert_eq!(
        library_version_from(None).unwrap_err(),
        ZoteroApiError::LocalApi { status: 0, message: "Missing or invalid Last-Modified-Version header".to_owned() }
    );
}

#[test]
fn status_probe_reports_the_status_line() {
    let c = client();
    let up = c.probe_status(200, Some("7.0".to_owned()));
    assert!(up.online);
    assert_eq!(up.version.as_deref(), Some("7.0"));
    let down = c.probe_status(503, Some("7.0".to_owned()));
    assert!(!down.online);
    assert_eq!(down.version, None);
    assert_eq!(down.error.as_deref(), Some("HTTP status 503 Service Unavailable"));
    let failed = c.probe_failed("connection refused".to_owned());
    assert_eq!(failed.error.as_deref(), Some("connection refused"));
    let probe = c.status_probe_request();
    assert_eq!(probe.query, vec![("limit".to_owned(), "1".to_owned())]);
}

#[test]
fn status_lines_use_the_registered_reason() {
    assert_eq!(status_line(200), "200 OK");
    assert_eq!(status_line(418), "418 I'm a teapot");
    assert_eq!(status_line(299), "299 <unknown status code>");
}

#[test]
fn local_authorization_is_requested_outside_the_library() {
    let req = client().local_authorization_request("zotero-mcp");
    assert_eq!(req.method, HttpMethod::Post);
    assert!(!req.target_scoped);
    assert_eq!(req.path, "/local/authorize");
}

#[test]
fn error_messages_name_their_kind() {
    assert_eq!(ZoteroApiError::NotFound("Item X".to_owned()).message(), "Item not found: Item X");
    assert_eq!(
        ZoteroApiError::LocalApi { status: 412, message: "stale".to_owned() }.message(),
        "Local API error: HTTP 412 - stale"
    );
    assert_eq!(ZoteroApiError::BetterBibTeX("x".to_owned()).message(), "Better BibTeX error: x");
}

#[test]
fn default_client_targets_the_local_user_library() {
    let c = ZoteroClient::default();
    assert_eq!(c.base_url(), "http://127.0.0.1:23119/api");
    assert_eq!(c.api_key(), None);
    assert_eq!(c.target_prefix(), "/users/0");
}
