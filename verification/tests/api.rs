use cog_core::api::monitor::{default_interval, should_poll, MonitorManager};
use cog_core::api::session::{RequestKind, SessionHandler, SessionReply};

fn names(v: &[&str]) -> Vec<String> {
    v.iter().map(|s| s.to_string()).collect()
}

fn sorted_status(m: &MonitorManager) -> Vec<(String, u64, Option<String>)> {
    let mut s = m.status();
    s.sort();
    s
}

#[test]
fn default_intervals_per_service() {
    assert_eq!(default_interval("gmail"), 30);
    assert_eq!(default_interval("drive"), 60);
    assert_eq!(default_interval("calendar"), 60);
    assert_eq!(default_interval("keep"), 120);
    assert_eq!(default_interval("tasks"), 60);
}

#[test]
fn subscribe_and_status() {
    let mut m = MonitorManager::new();
    assert!(m.status().is_empty());
    m.subscribe(&names(&["gmail", "keep"]), None);
    assert_eq!(
        sorted_status(&m),
        vec![("gmail".to_string(), 30, None), ("keep".to_string(), 120, None)]
    );
    m.subscribe(&names(&["gmail", "drive"]), Some(5));
    assert_eq!(
        sorted_status(&m),
        vec![("drive".to_string(), 5, None), ("gmail".to_string(), 5, None), ("keep".to_string(), 120, None)]
    );
}

#[test]
fn unsubscribe_some_or_all() {
    let mut m = MonitorManager::new();
    m.subscribe(&names(&["gmail", "drive", "keep"]), None);
    m.unsubscribe(&names(&["drive", "unknown"]));
    assert_eq!(
        sorted_status(&m),
        vec![("gmail".to_string(), 30, None), ("keep".to_string(), 120, None)]
    );
    m.unsubscribe(&[]);
    assert!(m.status().is_empty());
}

#[test]
fn unsubscribe_undoes_subscribe() {
    let mut m = MonitorManager::new();
    m.subscribe(&names(&["calendar"]), None);
    let before = sorted_status(&m);
    m.subscribe(&names(&["gmail", "keep"]), Some(10));
    m.unsubscribe(&names(&["gmail", "keep"]));
    assert_eq!(sorted_status(&m), before);
}

#[test]
fn due_monitors() {
    let mut m = MonitorManager::new();
    m.subscribe(&names(&["gmail", "drive", "gmail"]), None);
    let mut due = m.due(0);
    due.sort();
    assert_eq!(due, names(&["drive", "gmail"]));
    assert!(should_poll(None, 60, 0));
    assert!(should_poll(Some(1_000), 60, 61_000));
    assert!(!should_poll(Some(1_000), 60, 60_999));
    assert!(!should_poll(Some(5_000), 1, 0));
    assert!(should_poll(Some(5_000), 0, 0));
}

#[test]
fn session_replies() {
    let h = SessionHandler;
    assert!(matches!(h.handle(&RequestKind::Ping), SessionReply::Pong));
    assert!(matches!(
        h.handle(&RequestKind::Shutdown { reason: Some("bye".into()) }),
        SessionReply::ShutdownAck
    ));
    let expect = |k: RequestKind, msg: &str| match h.handle(&k) {
        SessionReply::Internal(m) => assert_eq!(m, msg),
        other => panic!("unexpected: {other:?}"),
    };
    expect(RequestKind::Auth, "auth handling not yet implemented");
    expect(RequestKind::Monitor, "monitor handling not yet implemented");
    expect(RequestKind::Index, "index handling not yet implemented");
    expect(RequestKind::Service, "service dispatch not yet implemented");
}
