use proxy_registry::fetch::{begin_proxy_fetch, fetch_step, fetch_verdict};
use proxy_registry::{FetchEvent, FetchState, ProxyError, Registry};

const LOCAL_BASE: &str = "http://localhost:1420";

fn path_of(proxy_url: &str) -> String {
    proxy_url.strip_prefix(LOCAL_BASE).expect("proxy URL must start with the local base").to_string()
}

#[test]
fn register_then_resolve_returns_original() {
    let mut reg = Registry::new();
    let proxy_url = reg.register("https://cdn.example.com/video.m3u8".to_string());
    assert!(proxy_url.starts_with("http://localhost:1420/proxy/"));
    let path = path_of(&proxy_url);
    let resolved = reg.resolve(&path);
    assert_eq!(resolved, Ok("https://cdn.example.com/video.m3u8".to_string()));
}

#[test]
fn proxy_url_has_base_prefix_and_36_char_identifier() {
    let mut reg = Registry::new();
    let proxy_url = reg.register("https://example.org/a".to_string());
    let path = path_of(&proxy_url);
    let id = path.strip_prefix("/proxy/").expect("path must start with /proxy/");
    assert_eq!(id.len(), 36);
    assert_eq!(proxy_url.len(), LOCAL_BASE.len() + "/proxy/".len() + 36);
}

#[test]
fn resolve_never_registered_is_not_found() {
    let reg = Registry::new();
    let r = reg.resolve(&"/proxy/never-registered".to_string());
    assert_eq!(r, Err(ProxyError::NotFound));
}

#[test]
fn resolve_foreign_path_fails_even_when_table_is_nonempty() {
    let mut reg = Registry::new();
    reg.register("https://example.org/a".to_string());
    let r = reg.resolve(&"/proxy/some-other-path".to_string());
    assert_eq!(r, Err(ProxyError::NotFound));
}

#[test]
fn same_url_twice_gets_two_distinct_paths() {
    let mut reg = Registry::new();
    let first = reg.register("https://example.org/same".to_string());
    let second = reg.register("https://example.org/same".to_string());
    assert_ne!(first, second);
    assert_eq!(reg.resolve(&path_of(&first)), Ok("https://example.org/same".to_string()));
    assert_eq!(reg.resolve(&path_of(&second)), Ok("https://example.org/same".to_string()));
}

#[test]
fn registering_preserves_earlier_entries() {
    let mut reg = Registry::new();
    let a = reg.register("https://example.org/a".to_string());
    let b = reg.register("https://example.org/b".to_string());
    let c = reg.register("https://example.org/c".to_string());
    assert_eq!(reg.resolve(&path_of(&a)), Ok("https://example.org/a".to_string()));
    assert_eq!(reg.resolve(&path_of(&b)), Ok("https://example.org/b".to_string()));
    assert_eq!(reg.resolve(&path_of(&c)), Ok("https://example.org/c".to_string()));
}

#[test]
fn completed_exchange_returns_body_whatever_the_status() {
    let body = vec![0x23u8, 0x45, 0x58, 0x54, 0x4d, 0x33, 0x55];
    for status in [200u16, 206, 404, 500] {
        let st = fetch_step(FetchState::Issued, FetchEvent::HeadersArrived(status));
        assert_eq!(st, FetchState::HeadersReceived(status));
        let st = fetch_step(st, FetchEvent::BodyArrived(body.clone()));
        assert_eq!(fetch_verdict(st), Some(Ok(body.clone())));
    }
}

#[test]
fn unreachable_host_is_fetch_error() {
    let st = fetch_step(
        FetchState::Issued,
        FetchEvent::SendFailed("connection refused".to_string()),
    );
    let verdict = fetch_verdict(st).expect("a failed fetch has a verdict");
    let err = verdict.expect_err("a failed send cannot yield bytes");
    assert_eq!(err, ProxyError::FetchError("connection refused".to_string()));
    assert_eq!(err.message(), "Failed to fetch URL: connection refused");
}

#[test]
fn interrupted_body_is_read_error() {
    let st = fetch_step(FetchState::Issued, FetchEvent::HeadersArrived(200));
    let st = fetch_step(st, FetchEvent::BodyFailed("stream cut".to_string()));
    let verdict = fetch_verdict(st).expect("a failed fetch has a verdict");
    let err = verdict.expect_err("an interrupted body cannot yield bytes");
    assert_eq!(err, ProxyError::ReadError("stream cut".to_string()));
    assert_eq!(err.message(), "Failed to read response body: stream cut");
}

#[test]
fn in_flight_fetch_has_no_verdict() {
    assert_eq!(fetch_verdict(FetchState::Issued), None);
    assert_eq!(fetch_verdict(FetchState::HeadersReceived(200)), None);
}

#[test]
fn stray_event_changes_nothing() {
    let done = FetchState::Complete(vec![1u8, 2]);
    let st = fetch_step(done.clone(), FetchEvent::HeadersArrived(200));
    assert_eq!(st, done);
    let st = fetch_step(FetchState::Issued, FetchEvent::BodyArrived(vec![9u8]));
    assert_eq!(st, FetchState::Issued);
}

#[test]
fn not_found_message_is_descriptive() {
    assert_eq!(ProxyError::NotFound.message(), "Proxy path not found");
}

#[test]
fn begin_proxy_fetch_issues_for_registered_path() {
    let mut reg = Registry::new();
    let proxy_url = reg.register("https://cdn.example.com/seg1.ts".to_string());
    let r = begin_proxy_fetch(&reg, &path_of(&proxy_url));
    assert_eq!(
        r,
        Ok(("https://cdn.example.com/seg1.ts".to_string(), FetchState::Issued))
    );
}

#[test]
fn begin_proxy_fetch_fails_before_any_request_for_unknown_path() {
    let reg = Registry::new();
    let r = begin_proxy_fetch(&reg, &"/proxy/unknown".to_string());
    assert_eq!(r, Err(ProxyError::NotFound));
}
