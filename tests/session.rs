use vigil::message::Message;
use vigil::session::{ScanOutcome, Session, MAX_CONSECUTIVE_ERRORS};
use vigil::spark::VigilConfig;
use vigil::watermark::Watermark;

fn cfg() -> VigilConfig {
    VigilConfig { template_hot_reload: true, refresh_interval: 1000, cooldown_period: 3000 }
}

fn open() -> Session {
    let mut w = Watermark::new(0);
    Session::connect(&mut w, 42)
}

#[test]
fn message_texts() {
    assert_eq!(Message::Connected.text(), "connected");
    assert_eq!(Message::Ping.text(), "ping");
    assert_eq!(Message::Reload("templates/x.html".to_string()).text(), "reload:templates/x.html");
}

#[test]
fn connect_resets_watermark() {
    let mut w = Watermark::new(900);
    let s = Session::connect(&mut w, 150);
    assert_eq!(w.load(), 150);
    assert_eq!(s.consecutive_errors, 0);
    assert!(!s.closed);
}

#[test]
fn change_plans_reload_then_cooldown() {
    let mut s = open();
    let p = s.on_scan(ScanOutcome::Changed("a.css".to_string()), 200, &cfg());
    assert_eq!(p.reload.as_deref(), Some("a.css"));
    assert_eq!(p.cooldown_ms, Some(3000));
    assert!(!p.ping);
    assert!(!p.close);
    assert_eq!(p.interval_ms, 1000);
}

#[test]
fn no_change_waits_interval() {
    let mut s = open();
    let c = VigilConfig { template_hot_reload: true, refresh_interval: 250, cooldown_period: 700 };
    let p = s.on_scan(ScanOutcome::Unchanged, 10, &c);
    assert!(p.reload.is_none());
    assert_eq!(p.cooldown_ms, None);
    assert!(!p.ping);
    assert_eq!(p.interval_ms, 250);
    let p = s.on_scan(ScanOutcome::Unchanged, 9, &c);
    assert!(p.ping);
}

#[test]
fn five_failures_close() {
    let mut s = open();
    for k in 1..MAX_CONSECUTIVE_ERRORS {
        let p = s.on_scan(ScanOutcome::Failed, 0, &cfg());
        assert!(!p.close);
        assert!(!p.ping);
        assert_eq!(s.consecutive_errors, k);
    }
    let p = s.on_scan(ScanOutcome::Failed, 0, &cfg());
    assert!(p.close);
    assert!(s.closed);
    let p = s.on_scan(ScanOutcome::Changed("a.js".to_string()), 0, &cfg());
    assert!(p.close);
    assert!(p.reload.is_none());
}

#[test]
fn success_resets_error_count() {
    let mut s = open();
    for _ in 0..4 {
        assert!(!s.on_scan(ScanOutcome::Failed, 0, &cfg()).close);
    }
    let p = s.on_scan(ScanOutcome::Changed("a.js".to_string()), 0, &cfg());
    assert!(!p.close);
    assert!(p.ping);
    assert_eq!(s.consecutive_errors, 0);
    for _ in 0..4 {
        assert!(!s.on_scan(ScanOutcome::Failed, 0, &cfg()).close);
    }
    assert!(!s.closed);
}

#[test]
fn no_change_does_not_reset_errors() {
    let mut s = open();
    for _ in 0..3 {
        s.on_scan(ScanOutcome::Failed, 0, &cfg());
    }
    s.on_scan(ScanOutcome::Unchanged, 0, &cfg());
    assert_eq!(s.consecutive_errors, 3);
    s.on_scan(ScanOutcome::Failed, 0, &cfg());
    assert!(s.on_scan(ScanOutcome::Failed, 0, &cfg()).close);
}

#[test]
fn cooldown_follows_every_reload() {
    let mut s = open();
    let c = VigilConfig { template_hot_reload: true, refresh_interval: 100, cooldown_period: 5000 };
    let first = s.on_scan(ScanOutcome::Changed("a.css".to_string()), 255, &c);
    assert_eq!(first.cooldown_ms, Some(5000));
    let second = s.on_scan(ScanOutcome::Changed("b.css".to_string()), 255, &c);
    assert_eq!(second.cooldown_ms, Some(5000));
    assert!(first.cooldown_ms.unwrap() + first.interval_ms >= 5000);
}
