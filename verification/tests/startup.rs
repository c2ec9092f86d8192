use webserver::startup::{get_base_url, ApplicationBaseUrl};

#[test]
fn standard_ports_leave_the_base_url_unchanged() {
    assert_eq!(get_base_url("http://example.com".to_string(), 80), "http://example.com");
    assert_eq!(get_base_url("https://example.com".to_string(), 443), "https://example.com");
}

#[test]
fn other_ports_are_appended() {
    assert_eq!(get_base_url("http://127.0.0.1".to_string(), 8000), "http://127.0.0.1:8000");
    assert_eq!(get_base_url("http://127.0.0.1".to_string(), 0), "http://127.0.0.1:0");
    assert_eq!(get_base_url("http://h".to_string(), 65535), "http://h:65535");
    assert_eq!(get_base_url(String::new(), 8080), ":8080");
}

#[test]
fn application_base_url_holds_its_text() {
    let url = ApplicationBaseUrl(get_base_url("http://localhost".to_string(), 8000));
    assert_eq!(url.0, "http://localhost:8000");
}
