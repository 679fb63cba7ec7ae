use observer_core::settings::{target_url, AppSettings, ProxyError, DEFAULT_UPSTREAM};

#[test]
fn unset_upstream_goes_to_loopback_default() {
    let s = AppSettings::new(None);
    assert_eq!(s.base_url(), "http://127.0.0.1:11434");
    assert_eq!(DEFAULT_UPSTREAM, "http://127.0.0.1:11434");
    assert_eq!(s.proxy_target("/v1/models", ""), "http://127.0.0.1:11434/v1/models?");
    assert_eq!(
        s.proxy_target("/api/tags", "verbose=1"),
        "http://127.0.0.1:11434/api/tags?verbose=1"
    );
}

#[test]
fn configured_upstream_is_used_and_can_be_cleared() {
    let mut s = AppSettings::new(None);
    s.set_ollama_url(Some("http://example:9".to_string()));
    assert_eq!(s.get_ollama_url(), Some("http://example:9".to_string()));
    assert_eq!(s.proxy_target("/v1/chat", "a=b"), "http://example:9/v1/chat?a=b");
    s.set_ollama_url(None);
    assert_eq!(s.get_ollama_url(), None);
    assert_eq!(s.proxy_target("/v1/chat", ""), "http://127.0.0.1:11434/v1/chat?");
}

#[test]
fn unreachable_upstream_is_a_gateway_error() {
    assert_eq!(ProxyError::UpstreamUnreachable.status_code(), 502);
}

#[test]
fn unreadable_body_is_a_local_error() {
    assert_eq!(ProxyError::BodyUnreadable.status_code(), 500);
}

#[test]
fn target_url_concatenates() {
    assert_eq!(target_url("http://h:1", "/p", "q"), "http://h:1/p?q");
}

#[test]
fn models_probe_url() {
    assert_eq!(
        observer_core::settings::models_check_url("http://localhost:11434"),
        "http://localhost:11434/v1/models"
    );
}

#[test]
fn only_successful_servers_are_reachable() {
    let urls = vec![
        "http://a".to_string(),
        "http://b".to_string(),
        "http://c".to_string(),
        "http://d".to_string(),
    ];
    let statuses = vec![Some(200), None, Some(404), Some(204)];
    assert_eq!(
        observer_core::settings::reachable_servers(&urls, &statuses),
        vec!["http://a".to_string(), "http://d".to_string()]
    );
    assert!(observer_core::settings::reachable_servers(&Vec::new(), &Vec::new()).is_empty());
}

#[test]
fn unreachable_upstream_request_maps_to_bad_gateway() {
    let mut s = AppSettings::new(None);
    s.set_ollama_url(Some("http://example:9".to_string()));
    let url = s.proxy_target("/v1/models", "");
    assert_eq!(url, "http://example:9/v1/models?");
    let rt = tokio::runtime::Runtime::new().unwrap();
    let sent = rt.block_on(async {
        reqwest::Client::new()
            .get(&url)
            .timeout(std::time::Duration::from_secs(5))
            .send()
            .await
    });
    let status = match sent {
        Ok(r) => r.status().as_u16(),
        Err(_) => ProxyError::UpstreamUnreachable.status_code(),
    };
    assert_eq!(status, 502);
}
