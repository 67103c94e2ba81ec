use headless_cli::url::build_headless_url;

#[test]
fn resolves_path_against_host() {
    let url = build_headless_url("http://localhost:8000", "/wallet/balance").unwrap();
    assert_eq!(url, "http://localhost:8000/wallet/balance");
}

#[test]
fn invalid_host_is_an_error() {
    assert!(build_headless_url("not-a-url", "/x").is_err());
}

#[test]
fn absolute_path_replaces_base_path() {
    let url = build_headless_url("http://localhost:8000/ignored", "/start").unwrap();
    assert_eq!(url, "http://localhost:8000/start");
}

#[test]
fn host_with_port_and_trailing_slash() {
    let url = build_headless_url("http://127.0.0.1:8080/", "/wallet/status").unwrap();
    assert_eq!(url, "http://127.0.0.1:8080/wallet/status");
}
