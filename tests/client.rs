use rankpath_mcp::{
    decoded_reply, error_for_failure, failure_error, is_success, u32_to_decimal, ApiError,
    CrawlResult, CrawlResultResponse, ErrorResponse, RankPathClient, BASE_URL,
};

fn pairs(q: &[(String, String)]) -> Vec<(&str, &str)> {
    q.iter().map(|(k, v)| (k.as_str(), v.as_str())).collect()
}

#[test]
fn decimal_renders_numbers() {
    assert_eq!(u32_to_decimal(0), "0");
    assert_eq!(u32_to_decimal(5), "5");
    assert_eq!(u32_to_decimal(10), "10");
    assert_eq!(u32_to_decimal(100), "100");
    assert_eq!(u32_to_decimal(u32::MAX), "4294967295");
}

#[test]
fn list_projects_request() {
    let c = RankPathClient::new("key-1".to_string());
    let r = c.list_projects();
    assert_eq!(r.url, "https://rankpath.io/api/projects");
    assert_eq!(r.bearer_token, "key-1");
    assert!(r.query.is_empty());
    assert_eq!(BASE_URL, "https://rankpath.io/api");
}

#[test]
fn get_project_request() {
    let c = RankPathClient::new("k".to_string());
    let r = c.get_project("abc-123");
    assert_eq!(r.url, "https://rankpath.io/api/projects/abc-123");
    assert!(r.query.is_empty());
}

#[test]
fn clients_keep_their_own_credentials() {
    let a = RankPathClient::new("first".to_string());
    let b = RankPathClient::new("second".to_string());
    assert_eq!(a.get_project("p").bearer_token, "first");
    assert_eq!(b.get_project("p").bearer_token, "second");
}

#[test]
fn crawl_history_without_paging_sends_no_parameters() {
    let c = RankPathClient::new("k".to_string());
    let r = c.get_crawl_history("p1", None, None);
    assert_eq!(r.url, "https://rankpath.io/api/projects/p1/crawls");
    assert!(r.query.is_empty());
}

#[test]
fn crawl_history_with_paging_sends_both_parameters() {
    let c = RankPathClient::new("k".to_string());
    let r = c.get_crawl_history("p1", Some(5), Some(10));
    assert_eq!(pairs(&r.query), vec![("limit", "5"), ("offset", "10")]);
}

#[test]
fn crawl_history_with_offset_only() {
    let c = RankPathClient::new("k".to_string());
    let r = c.get_crawl_history("p1", None, Some(0));
    assert_eq!(pairs(&r.query), vec![("offset", "0")]);
}

#[test]
fn latest_crawl_request() {
    let c = RankPathClient::new("k".to_string());
    let r = c.get_latest_crawl("p9");
    assert_eq!(r.url, "https://rankpath.io/api/projects/p9/crawls/latest");
    assert!(r.query.is_empty());
}

#[test]
fn issues_with_status_only() {
    let c = RankPathClient::new("k".to_string());
    let r = c.get_issues("p2", None, Some("open"));
    assert_eq!(r.url, "https://rankpath.io/api/projects/p2/issues");
    assert_eq!(pairs(&r.query), vec![("status", "open")]);
}

#[test]
fn issues_with_both_filters_forwards_them_verbatim() {
    let c = RankPathClient::new("k".to_string());
    let r = c.get_issues("p2", Some("bogus"), Some("ignored"));
    assert_eq!(pairs(&r.query), vec![("severity", "bogus"), ("status", "ignored")]);
    let none = c.get_issues("p2", None, None);
    assert!(none.query.is_empty());
}

#[test]
fn success_statuses() {
    assert!(is_success(200));
    assert!(is_success(204));
    assert!(is_success(299));
    assert!(!is_success(199));
    assert!(!is_success(300));
    assert!(!is_success(404));
    assert!(!is_success(500));
}

#[test]
fn structured_failure_keeps_body() {
    let body = ErrorResponse {
        error: "not_found".to_string(),
        message: Some("no such project".to_string()),
    };
    let e = failure_error(404, Some(body.clone()));
    assert_eq!(e, ApiError::Api(body));
    assert_eq!(e.message(), "not_found: no such project");
}

#[test]
fn structured_failure_without_message() {
    let body = ErrorResponse { error: "forbidden".to_string(), message: None };
    let e = error_for_failure("403 Forbidden".to_string(), Some(body));
    assert_eq!(e.message(), "forbidden: ");
}

#[test]
fn unstructured_failure_uses_status_line() {
    let e = failure_error(404, None);
    assert_eq!(e.message(), "404 Not Found: ");
    let e = failure_error(502, None);
    assert_eq!(e.message(), "502 Bad Gateway: ");
}

#[test]
fn unstructured_failure_with_unknown_code() {
    let e = failure_error(599, None);
    assert!(e.message().starts_with("599 "));
    assert!(e.message().ends_with(": "));
}

#[test]
fn error_for_failure_with_given_status_text() {
    let e = error_for_failure("500 Internal Server Error".to_string(), None);
    assert_eq!(
        e,
        ApiError::Api(ErrorResponse {
            error: "500 Internal Server Error".to_string(),
            message: None
        })
    );
    assert_eq!(e.message(), "500 Internal Server Error: ");
}

#[test]
fn transport_and_parse_errors_show_their_text() {
    assert_eq!(ApiError::Transport("connection refused".to_string()).message(), "connection refused");
    assert_eq!(ApiError::Parse("missing field `id`".to_string()).message(), "missing field `id`");
}

#[test]
fn decoded_reply_keeps_value_or_reports_parse_error() {
    assert_eq!(decoded_reply::<u32>(Ok(7)), Ok(7));
    assert_eq!(
        decoded_reply::<u32>(Err("expected value".to_string())),
        Err(ApiError::Parse("expected value".to_string()))
    );
}

#[test]
fn crawl_result_without_geo_analysis_keeps_it_absent() {
    let result = CrawlResult {
        id: "c1".to_string(),
        project_id: "p1".to_string(),
        status: "failed".to_string(),
        error_message: Some("timeout".to_string()),
        crawled_at: "2024-01-01T00:00:00Z".to_string(),
        score: None,
        issue_counts: None,
        http_status: None,
        response_time_ms: None,
        seo_data: None,
        content_metrics: None,
        images: None,
        links: None,
        geo_analysis: None,
    };
    let envelope = CrawlResultResponse { data: result };
    let reply = decoded_reply(Ok(envelope)).map(|r| r.data).unwrap();
    assert!(reply.geo_analysis.is_none());
    assert_eq!(reply.status, "failed");
}
