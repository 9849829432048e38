use uptime_monitor::date::Date;
use uptime_monitor::render::{bool_str, i32_string, render_line, render_listing, u32_string};
use uptime_monitor::store::Store;
use uptime_monitor::supervisor::{bootstrap, register_target, Registry};
use uptime_monitor::target::Target;

#[test]
fn bootstrap_starts_one_loop_per_stored_target() {
    let mut store = Store::new();
    store.insert_new("http://a.test".to_string(), "http://hook-a.test".to_string());
    store.insert_new("http://b.test".to_string(), "http://hook-b.test".to_string());
    store.insert_new("http://c.test".to_string(), "http://hook-c.test".to_string());

    let mut registry = Registry::new();
    let seeds = bootstrap(&store, &mut registry);

    assert_eq!(seeds.len(), 3);
    let stored = store.list_all();
    for (seed, target) in seeds.iter().zip(stored.iter()) {
        assert_eq!(seed.id, target.id);
        assert_eq!(seed.url, target.url);
        assert_eq!(seed.webhook, target.webhook);
        assert!(registry.is_running(target.id));
    }
}

#[test]
fn a_second_loop_for_the_same_id_is_refused() {
    let mut registry = Registry::new();
    assert!(registry.mark_started(7));
    assert!(!registry.mark_started(7));
    assert!(registry.is_running(7));
    assert!(!registry.is_running(8));
}

#[test]
fn registration_returns_the_fresh_record_and_lists_it() {
    let mut store = Store::new();
    let mut registry = Registry::new();

    let t = register_target(
        &mut store,
        &mut registry,
        "http://example.test".to_string(),
        "http://hook.test".to_string(),
    );

    assert_eq!(t.id, 1);
    assert_eq!(t.url, "http://example.test");
    assert_eq!(t.webhook, "http://hook.test");
    assert!(t.last_checked.is_none());
    assert!(t.status.is_none());
    assert!(registry.is_running(t.id));

    let listing = render_listing(store.list_all());
    assert!(listing.contains("http://example.test"));
    assert_eq!(
        listing,
        "<li>ID: 1 - URL: http://example.test - Status: false</li>"
    );
}

#[test]
fn decimal_rendering_is_exact() {
    assert_eq!(u32_string(0), "0");
    assert_eq!(u32_string(7), "7");
    assert_eq!(u32_string(12345), "12345");
    assert_eq!(u32_string(u32::MAX), "4294967295");
    assert_eq!(i32_string(0), "0");
    assert_eq!(i32_string(-42), "-42");
    assert_eq!(i32_string(i32::MAX), "2147483647");
    assert_eq!(i32_string(i32::MIN), "-2147483648");
    assert_eq!(bool_str(true), "true");
    assert_eq!(bool_str(false), "false");
}

#[test]
fn a_line_shows_id_url_and_status() {
    let t = Target {
        id: 7,
        url: "http://a.test".to_string(),
        webhook: "http://hook.test".to_string(),
        last_checked: Some(Date { year: 2024, month: 3, day: 9 }),
        status: Some(true),
    };
    assert_eq!(
        render_line(&t),
        "<li>ID: 7 - URL: http://a.test - Status: true</li>"
    );
}

#[test]
fn a_never_probed_target_shows_as_unhealthy() {
    let t = Target {
        id: 2,
        url: "http://b.test".to_string(),
        webhook: "http://hook.test".to_string(),
        last_checked: None,
        status: None,
    };
    assert_eq!(
        render_line(&t),
        "<li>ID: 2 - URL: http://b.test - Status: false</li>"
    );
}

#[test]
fn the_listing_concatenates_lines_in_store_order() {
    let mut store = Store::new();
    store.insert_new("http://a.test".to_string(), "http://h.test".to_string());
    store.insert_new("http://b.test".to_string(), "http://h.test".to_string());
    let listing = render_listing(store.list_all());
    assert_eq!(
        listing,
        "<li>ID: 1 - URL: http://a.test - Status: false</li>\
         <li>ID: 2 - URL: http://b.test - Status: false</li>"
    );
}

#[test]
fn the_empty_listing_is_empty() {
    let store = Store::new();
    assert_eq!(render_listing(store.list_all()), "");
}
