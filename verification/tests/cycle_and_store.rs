use uptime_monitor::cycle::{cycle_step, next_phase, LoopPhase};
use uptime_monitor::date::{today_utc, Date};
use uptime_monitor::store::Store;

fn some_date() -> Date {
    Date { year: 2024, month: 3, day: 9 }
}

#[test]
fn phases_alternate_forever() {
    assert_eq!(next_phase(LoopPhase::Probing), LoopPhase::Waiting);
    assert_eq!(next_phase(LoopPhase::Waiting), LoopPhase::Probing);
}

#[test]
fn healthy_cycle_records_and_stays_quiet() {
    let out = cycle_step(4, "http://up.test", Some(200), some_date());
    assert_eq!(out.update.id, 4);
    assert_eq!(out.update.date, some_date());
    assert!(out.update.healthy);
    assert!(out.notification.is_none());
}

#[test]
fn failed_cycle_notifies_exactly_once_naming_the_target() {
    let out = cycle_step(4, "http://down.test", Some(503), some_date());
    assert!(!out.update.healthy);
    let payload = out.notification.expect("a failed probe must notify");
    assert!(payload.contains("http://down.test"));
    assert_eq!(
        payload,
        "{\"text\":\"\u{1f6a8} http://down.test is down! \u{1f6a8}\"}"
    );
}

#[test]
fn unreachable_cycle_notifies_too() {
    let out = cycle_step(9, "http://gone.test", None, some_date());
    assert!(!out.update.healthy);
    assert!(out.notification.is_some());
}

#[test]
fn one_cycle_fills_both_check_fields() {
    let mut store = Store::new();
    let t = store.insert_new("http://a.test".to_string(), "http://hook.test".to_string());
    assert!(t.last_checked.is_none());
    assert!(t.status.is_none());

    let out = cycle_step(t.id, "http://a.test", Some(200), some_date());
    assert!(store.update_check(out.update));

    let listed = store.list_all();
    assert_eq!(listed.len(), 1);
    assert_eq!(listed[0].last_checked, Some(some_date()));
    assert_eq!(listed[0].status, Some(true));
}

#[test]
fn n_healthy_cycles_make_n_quiet_writes() {
    let mut store = Store::new();
    let t = store.insert_new("http://up.test".to_string(), "http://hook.test".to_string());

    let mut writes = 0;
    let mut notifications = 0;
    for day in 1..=5u8 {
        let date = Date { year: 2024, month: 3, day };
        let out = cycle_step(t.id, "http://up.test", Some(200), date);
        assert!(out.update.healthy);
        if out.notification.is_some() {
            notifications += 1;
        }
        assert!(store.update_check(out.update));
        writes += 1;
        let listed = store.list_all();
        assert_eq!(listed[0].status, Some(true));
        assert_eq!(listed[0].last_checked, Some(date));
    }
    assert_eq!(writes, 5);
    assert_eq!(notifications, 0);
}

#[test]
fn failing_and_healthy_loops_do_not_contaminate_each_other() {
    let mut store = Store::new();
    let a = store.insert_new("http://a.test".to_string(), "http://hook-a.test".to_string());
    let b = store.insert_new("http://b.test".to_string(), "http://hook-b.test".to_string());

    // Interleave three cycles of each: A's probe always fails, B's
    // always succeeds.
    for day in 1..=3u8 {
        let date = Date { year: 2024, month: 4, day };
        let out_a = cycle_step(a.id, "http://a.test", Some(500), date);
        let out_b = cycle_step(b.id, "http://b.test", Some(200), date);
        assert!(store.update_check(out_a.update));
        assert!(store.update_check(out_b.update));

        let listed = store.list_all();
        assert_eq!(listed[0].status, Some(false));
        assert_eq!(listed[1].status, Some(true));
    }

    let listed = store.list_all();
    assert_eq!(listed[0].id, a.id);
    assert_eq!(listed[0].url, "http://a.test");
    assert_eq!(listed[1].id, b.id);
    assert_eq!(listed[1].url, "http://b.test");
}

#[test]
fn update_for_unknown_id_changes_nothing() {
    let mut store = Store::new();
    store.insert_new("http://a.test".to_string(), "http://hook.test".to_string());
    let out = cycle_step(42, "http://a.test", Some(200), some_date());
    assert!(!store.update_check(out.update));
    let listed = store.list_all();
    assert_eq!(listed.len(), 1);
    assert!(listed[0].status.is_none());
    assert!(listed[0].last_checked.is_none());
}

#[test]
fn inserting_assigns_fresh_increasing_ids() {
    let mut store = Store::new();
    let a = store.insert_new("http://a.test".to_string(), "http://h.test".to_string());
    let b = store.insert_new("http://b.test".to_string(), "http://h.test".to_string());
    let c = store.insert_new("http://c.test".to_string(), "http://h.test".to_string());
    assert_eq!(a.id, 1);
    assert_eq!(b.id, 2);
    assert_eq!(c.id, 3);
}

#[test]
fn the_clock_gives_a_calendar_date() {
    let d = today_utc();
    assert!((1..=12).contains(&d.month));
    assert!((1..=31).contains(&d.day));
}
