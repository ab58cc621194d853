use firestore_db_and_auth::backoff::{retryable_http_status, FIRESTORE_REQUEST_RETRY_MAX_ELAPSED_TIME};
use firestore_db_and_auth::http::is_success;

#[test]
fn retryable_statuses_are_retried() {
    for status in [408u16, 409, 429, 500, 502, 503, 599] {
        assert!(retryable_http_status(status), "status {}", status);
    }
}

#[test]
fn other_statuses_are_not_retried() {
    for status in [200u16, 201, 400, 401, 403, 404, 422] {
        assert!(!retryable_http_status(status), "status {}", status);
    }
}

#[test]
fn classifier_is_total_and_exact() {
    for status in 0..=u16::MAX {
        let expected = matches!(status, 408 | 409 | 429) || (500..600).contains(&status);
        assert_eq!(retryable_http_status(status), expected, "status {}", status);
    }
}

#[test]
fn classifier_edges_of_the_server_error_range() {
    assert!(!retryable_http_status(499));
    assert!(retryable_http_status(500));
    assert!(retryable_http_status(599));
    assert!(!retryable_http_status(600));
    assert!(!retryable_http_status(0));
    assert!(!retryable_http_status(u16::MAX));
}

#[test]
fn success_is_the_2xx_range() {
    assert!(!is_success(199));
    assert!(is_success(200));
    assert!(is_success(204));
    assert!(is_success(299));
    assert!(!is_success(300));
    assert!(!is_success(404));
}

#[test]
fn default_budget_is_thirty_seconds() {
    assert_eq!(FIRESTORE_REQUEST_RETRY_MAX_ELAPSED_TIME, 30);
}
