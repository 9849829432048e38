use uptime_monitor::notify::{alert_message, notification_payload};
use uptime_monitor::probe::classify_probe;

#[test]
fn probe_success_range_is_healthy() {
    assert!(classify_probe(Some(200)));
    assert!(classify_probe(Some(204)));
    assert!(classify_probe(Some(299)));
}

#[test]
fn probe_client_and_server_errors_are_unhealthy() {
    assert!(!classify_probe(Some(404)));
    assert!(!classify_probe(Some(500)));
    assert!(!classify_probe(Some(503)));
}

#[test]
fn probe_non_success_boundaries_are_unhealthy() {
    assert!(!classify_probe(Some(199)));
    assert!(!classify_probe(Some(300)));
    assert!(!classify_probe(Some(301)));
}

#[test]
fn probe_connection_refused_is_unhealthy() {
    // A refused connection yields no response at all.
    assert!(!classify_probe(None));
}

#[test]
fn probe_timeout_is_unhealthy() {
    // A timed-out probe yields no response at all.
    assert!(!classify_probe(None));
}

#[test]
fn alert_message_names_the_target() {
    let m = alert_message("http://example.test");
    assert_eq!(m, "\u{1f6a8} http://example.test is down! \u{1f6a8}");
    assert!(m.contains("http://example.test"));
}

#[test]
fn alert_message_on_empty_address() {
    assert_eq!(alert_message(""), "\u{1f6a8}  is down! \u{1f6a8}");
}

#[test]
fn notification_payload_is_a_json_text_object() {
    let p = notification_payload("http://svc.test");
    assert_eq!(
        p,
        "{\"text\":\"\u{1f6a8} http://svc.test is down! \u{1f6a8}\"}"
    );
}

#[test]
fn notification_payload_escapes_the_message() {
    // A quote in the address must come out escaped: the serializer
    // really ran, rather than the message being spliced in unchanged.
    let p = notification_payload("http://ex\"ample.test");
    assert!(p.contains("http://ex\\\"ample.test"));
    assert_eq!(
        p,
        "{\"text\":\"\u{1f6a8} http://ex\\\"ample.test is down! \u{1f6a8}\"}"
    );
}
