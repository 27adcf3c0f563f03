use notification_feed::http::middleware::security::{
    host_is_local, response_headers, screen_request, Screening,
};

#[test]
fn local_hosts_are_recognised_by_prefix() {
    assert!(host_is_local("localhost"));
    assert!(host_is_local("localhost:8080"));
    assert!(host_is_local("127.0.0.1"));
    assert!(host_is_local("127.0.0.1:3000"));
    assert!(host_is_local("0.0.0.0:80"));
    assert!(host_is_local("[::1]:8443"));
    assert!(host_is_local("localhost.example.org"));
}

#[test]
fn other_hosts_are_remote() {
    assert!(!host_is_local(""));
    assert!(!host_is_local("example.org"));
    assert!(!host_is_local("api.localhost"));
    assert!(!host_is_local("Localhost"));
    assert!(!host_is_local("127.0.0.2"));
    assert!(!host_is_local("::1"));
    assert!(!host_is_local("local"));
}

#[test]
fn plain_http_is_refused_away_from_home() {
    assert_eq!(screen_request(Some("example.org"), Some("http")), Screening::Forbidden);
    assert_eq!(screen_request(None, Some("http")), Screening::Forbidden);
    assert_eq!(screen_request(Some("example.org"), Some("HTTPS")), Screening::Forbidden);
    assert_eq!(screen_request(Some("example.org"), Some("")), Screening::Forbidden);
}

#[test]
fn secure_and_local_requests_go_on() {
    assert_eq!(
        screen_request(Some("example.org"), Some("https")),
        Screening::Forward { local: false }
    );
    assert_eq!(screen_request(Some("example.org"), None), Screening::Forward { local: false });
    assert_eq!(screen_request(None, None), Screening::Forward { local: false });
    assert_eq!(
        screen_request(Some("localhost:3000"), Some("http")),
        Screening::Forward { local: true }
    );
    assert_eq!(screen_request(Some("127.0.0.1"), None), Screening::Forward { local: true });
}

#[test]
fn remote_responses_get_every_header() {
    assert_eq!(
        response_headers(false, false),
        vec![
            ("strict-transport-security", "max-age=31536000; includeSubDomains"),
            ("x-content-type-options", "nosniff"),
            ("x-frame-options", "DENY"),
            ("x-xss-protection", "1; mode=block"),
            ("content-security-policy", "default-src 'none'; frame-ancestors 'none'"),
            ("referrer-policy", "no-referrer"),
            ("cache-control", "no-store, no-cache, must-revalidate"),
        ]
    );
}

#[test]
fn local_responses_skip_transport_security() {
    let headers = response_headers(true, false);
    assert_eq!(headers.len(), 6);
    assert_eq!(headers[0], ("x-content-type-options", "nosniff"));
    assert_eq!(headers[5], ("cache-control", "no-store, no-cache, must-revalidate"));
    assert!(headers.iter().all(|h| h.0 != "strict-transport-security"));
}

#[test]
fn a_handler_s_cache_control_is_kept() {
    let remote = response_headers(false, true);
    assert_eq!(remote.len(), 6);
    assert!(remote.iter().all(|h| h.0 != "cache-control"));
    assert_eq!(remote[0].0, "strict-transport-security");
    let local = response_headers(true, true);
    assert_eq!(local.len(), 5);
    assert_eq!(local[4], ("referrer-policy", "no-referrer"));
}
