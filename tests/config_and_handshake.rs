use hematite::config::{is_tracking_config_valid, LogLevel, Logging};
use hematite::handshake::{accept_peer, Rejection};

#[test]
fn logging_sizes() {
    let l = Logging { level: LogLevel::Info, path: "logs".to_string(), size: 10, count: 3 };
    assert!(l.is_valid());
    assert_eq!(l.size_bytes(), 10 * 1024 * 1024);
    let big = Logging { size: u64::MAX / 2, ..l.clone() };
    assert_eq!(big.size_bytes(), u64::MAX);
    assert!(!Logging { size: 0, ..l.clone() }.is_valid());
    assert!(!Logging { count: 0, ..l }.is_valid());
}

#[test]
fn tracking_config_checks() {
    assert!(is_tracking_config_valid(0, 0));
    assert!(is_tracking_config_valid(1, 200));
    assert!(!is_tracking_config_valid(2, 0));
    assert!(!is_tracking_config_valid(0, -1));
}

#[test]
fn named_peer_is_accepted() {
    assert_eq!(accept_peer("name=node1&latitude=47.1&longitude=8.5"), Ok("node1".to_string()));
    assert_eq!(accept_peer("latitude=1&name=north_cam"), Ok("north_cam".to_string()));
}

#[test]
fn anonymous_peer_is_rejected() {
    let r = accept_peer("latitude=47.1&longitude=8.5");
    assert_eq!(r, Err(Rejection::Unauthorized));
    assert_eq!(Rejection::Unauthorized.status(), 401);
    assert_eq!(accept_peer(""), Err(Rejection::Unauthorized));
}
