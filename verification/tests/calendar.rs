use meetily::calendar::{
    apply_calendar_sync, calendar_refresh_url, get_active_events, get_active_events_at,
    plan_calendar_poll, set_auto_record, set_calendar_url, store_refreshed_events,
    CalendarConfig, CalendarEvent, SyncOutcome,
};

fn event(uid: &str, start: i64, end: i64) -> CalendarEvent {
    CalendarEvent { uid: uid.to_string(), summary: format!("Meeting {}", uid), start, end }
}

fn config() -> CalendarConfig {
    CalendarConfig {
        ics_url: None,
        auto_record_enabled: false,
        poll_interval_minutes: 15,
        pre_meeting_buffer_seconds: 60,
        post_meeting_buffer_seconds: 120,
    }
}

#[test]
fn calendar_url_and_auto_record_are_set() {
    let mut cfg = config();
    set_calendar_url(&mut cfg, "https://example.com/cal.ics".to_string());
    assert_eq!(cfg.ics_url.as_deref(), Some("https://example.com/cal.ics"));
    set_auto_record(&mut cfg, true);
    assert!(cfg.auto_record_enabled);
    assert_eq!(cfg.poll_interval_minutes, 15);
}

#[test]
fn activity_window_includes_buffers_and_edges() {
    let e = event("a", 1000, 2000);
    assert!(e.is_active_at(940, 60, 120));
    assert!(!e.is_active_at(939, 60, 120));
    assert!(e.is_active_at(2120, 60, 120));
    assert!(!e.is_active_at(2121, 60, 120));
    assert!(e.is_active_at(1500, 0, 0));
    assert!(e.is_active_at(i64::MIN, i64::MAX, 0) == false);
    assert!(event("b", i64::MIN, i64::MAX).is_active_at(0, i64::MAX, i64::MAX));
}

#[test]
fn active_events_keep_cache_order() {
    let events = vec![event("a", 0, 100), event("b", 500, 600), event("c", 50, 200), event("d", 1000, 1100)];
    let cfg = config();
    let active = get_active_events_at(&events, &cfg, 150);
    let uids: Vec<&str> = active.iter().map(|e| e.uid.as_str()).collect();
    assert_eq!(uids, vec!["a", "c"]);
    let later = get_active_events_at(&events, &cfg, 450);
    let uids: Vec<&str> = later.iter().map(|e| e.uid.as_str()).collect();
    assert_eq!(uids, vec!["b"]);
    assert!(get_active_events_at(&events, &cfg, 5000).is_empty());
}

#[test]
fn wider_buffers_keep_events_active() {
    let events = vec![event("a", 1000, 2000)];
    let mut cfg = config();
    cfg.pre_meeting_buffer_seconds = 0;
    assert!(get_active_events_at(&events, &cfg, 990).is_empty());
    cfg.pre_meeting_buffer_seconds = 10;
    assert_eq!(get_active_events_at(&events, &cfg, 990).len(), 1);
    cfg.pre_meeting_buffer_seconds = 1000;
    assert_eq!(get_active_events_at(&events, &cfg, 990).len(), 1);
}

#[test]
fn active_events_now_uses_the_clock() {
    let events = vec![event("always", i64::MIN / 2, i64::MAX / 2), event("never", 0, 1)];
    let active = get_active_events(&events, &config());
    assert_eq!(active.len(), 1);
    assert_eq!(active[0].uid, "always");
    assert_eq!(active[0].summary, "Meeting always");
}

#[test]
fn refresh_without_url_is_refused() {
    let cfg = config();
    assert_eq!(calendar_refresh_url(&cfg), Err("No calendar URL configured".to_string()));
    let mut with_url = config();
    set_calendar_url(&mut with_url, "webcal://x".to_string());
    assert_eq!(calendar_refresh_url(&with_url), Ok("webcal://x".to_string()));
}

#[test]
fn refresh_replaces_cache_and_counts() {
    let mut cache = vec![event("old", 0, 1)];
    let fetched = vec![event("n1", 10, 20), event("n2", 30, 40), event("n3", 50, 60)];
    assert_eq!(store_refreshed_events(&mut cache, Ok(fetched)), Ok(3));
    let uids: Vec<&str> = cache.iter().map(|e| e.uid.as_str()).collect();
    assert_eq!(uids, vec!["n1", "n2", "n3"]);
}

#[test]
fn failed_refresh_keeps_cache() {
    let mut cache = vec![event("old", 0, 1)];
    assert_eq!(store_refreshed_events(&mut cache, Err("HTTP 404".to_string())), Err("HTTP 404".to_string()));
    assert_eq!(cache.len(), 1);
    assert_eq!(cache[0].uid, "old");
}

#[test]
fn poll_plan_follows_settings() {
    let mut cfg = config();
    let plan = plan_calendar_poll(&cfg);
    assert!(plan.fetch_url.is_none());
    assert_eq!(plan.sleep_seconds, 900);
    set_calendar_url(&mut cfg, "https://c/ics".to_string());
    cfg.poll_interval_minutes = 1;
    let plan = plan_calendar_poll(&cfg);
    assert_eq!(plan.fetch_url.as_deref(), Some("https://c/ics"));
    assert_eq!(plan.sleep_seconds, 60);
}

#[test]
fn poll_sync_applies_or_reports() {
    let mut cache = vec![event("old", 0, 1)];
    match apply_calendar_sync(&mut cache, Ok(vec![event("x", 1, 2), event("y", 3, 4)])) {
        SyncOutcome::Loaded(n) => assert_eq!(n, 2),
        SyncOutcome::Failed(_) => panic!("expected a load"),
    }
    assert_eq!(cache.len(), 2);
    match apply_calendar_sync(&mut cache, Err("timeout".to_string())) {
        SyncOutcome::Failed(m) => assert_eq!(m, "timeout"),
        SyncOutcome::Loaded(_) => panic!("expected a failure"),
    }
    assert_eq!(cache.len(), 2);
    assert_eq!(cache[0].uid, "x");
}

#[test]
fn event_copy_is_equal() {
    let e = event("z", 5, 9);
    let c = e.duplicate();
    assert_eq!(c.uid, "z");
    assert_eq!(c.summary, "Meeting z");
    assert_eq!((c.start, c.end), (5, 9));
}
