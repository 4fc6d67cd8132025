use beetle::error::Error;
use beetle::stream_token::{FeishuStreamState, FEISHU_STREAM_TOKEN_TTL_MS};

#[test]
fn token_ttl_is_two_hours_less_five_minutes() {
    assert_eq!(FEISHU_STREAM_TOKEN_TTL_MS, (7200 - 300) * 1000);
}

#[test]
fn empty_cache_acquires_and_caches() {
    let mut s = FeishuStreamState::new();
    assert!(s.needs_refresh(0));
    let t = s.ensure_token(5, Some("t1".to_string())).unwrap();
    assert_eq!(t, "t1");
    assert!(!s.needs_refresh(6));
}

#[test]
fn cached_token_reused_until_ttl() {
    let mut s = FeishuStreamState::new();
    s.ensure_token(1000, Some("t1".to_string())).unwrap();
    let t = s.ensure_token(1000 + FEISHU_STREAM_TOKEN_TTL_MS - 1, Some("other".to_string())).unwrap();
    assert_eq!(t, "t1");
    assert!(s.needs_refresh(1000 + FEISHU_STREAM_TOKEN_TTL_MS));
    let t = s.ensure_token(1000 + FEISHU_STREAM_TOKEN_TTL_MS, Some("t2".to_string())).unwrap();
    assert_eq!(t, "t2");
}

#[test]
fn failed_acquire_is_config_error() {
    let mut s = FeishuStreamState::new();
    match s.ensure_token(0, None) {
        Err(Error::Config { stage, message }) => {
            assert_eq!(stage, "feishu_stream");
            assert_eq!(message, "failed to acquire tenant_token");
        }
        other => panic!("unexpected {:?}", other),
    }
    assert!(s.needs_refresh(1));
}

#[test]
fn invalidate_forces_refresh() {
    let mut s = FeishuStreamState::new();
    s.ensure_token(0, Some("t1".to_string())).unwrap();
    s.invalidate();
    assert!(s.needs_refresh(1));
}
