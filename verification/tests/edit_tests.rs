use wiki_stream::clock::{format_timestamp, millis_since_epoch, now_ms, timestamp};
use wiki_stream::edit::{edit_from_fields, lane_for, parse_edit_nz, strip_data_prefix, take_by_priority, Lane, WikiEdit, WikiEditRef};

#[test]
fn prefix_is_stripped_only_when_present() {
    assert_eq!(strip_data_prefix("data: {}"), Some("{}"));
    assert_eq!(strip_data_prefix("data: "), Some(""));
    assert_eq!(strip_data_prefix("data:{}"), None);
    assert_eq!(strip_data_prefix("event: message"), None);
    assert_eq!(strip_data_prefix("dat"), None);
    assert_eq!(strip_data_prefix("data: é"), Some("é"));
}

#[test]
fn parses_a_full_event() {
    let e = parse_edit_nz(r#"data: {"server_name":"en.wikipedia.org","user":"Alice","bot":true,"id":7}"#).unwrap();
    assert_eq!(e.domain, "en.wikipedia.org");
    assert_eq!(e.user, "Alice");
    assert!(e.is_bot);
}

#[test]
fn missing_user_and_bot_take_defaults() {
    let e = parse_edit_nz(r#"data: {"server_name":"de.wikipedia.org"}"#).unwrap();
    assert_eq!(e.domain, "de.wikipedia.org");
    assert_eq!(e.user, "unknown");
    assert!(!e.is_bot);
    let e = parse_edit_nz(r#"data: {"server_name":"x","user":5,"bot":"yes"}"#).unwrap();
    assert_eq!(e.user, "unknown");
    assert!(!e.is_bot);
}

#[test]
fn rejects_lines_without_a_domain() {
    assert!(parse_edit_nz(r#"data: {"user":"Alice"}"#).is_none());
    assert!(parse_edit_nz(r#"data: {"server_name":3}"#).is_none());
    assert!(parse_edit_nz(r#"data: not json"#).is_none());
    assert!(parse_edit_nz(r#"data: ["en.wikipedia.org"]"#).is_none());
    assert!(parse_edit_nz(r#"{"server_name":"en.wikipedia.org"}"#).is_none());
    assert!(parse_edit_nz("").is_none());
}

#[test]
fn fields_make_an_edit() {
    let now = std::time::Instant::now();
    assert!(edit_from_fields(None, Some("u".to_string()), Some(true), now).is_none());
    let e = edit_from_fields(Some("d".to_string()), None, None, now).unwrap();
    assert_eq!(e.domain, "d");
    assert_eq!(e.user, "unknown");
    assert!(!e.is_bot);
    assert_eq!(e.enqueue_time, now);
}

#[test]
fn edit_from_borrowed_fields() {
    let now = std::time::Instant::now();
    let e = WikiEdit::from_ref(WikiEditRef { domain: "fr.wikipedia.org", user: "Bob", bot: false }, now);
    assert_eq!(e.domain, "fr.wikipedia.org");
    assert_eq!(e.user, "Bob");
    assert!(!e.is_bot);
}

#[test]
fn routing_by_kind() {
    assert_eq!(lane_for(true), Lane::Bot);
    assert_eq!(lane_for(false), Lane::Human);
}

#[test]
fn human_queue_is_drained_first() {
    let mut bot_asked = false;
    let r = take_by_priority(|| Some("human"), || {
        bot_asked = true;
        Some("bot")
    });
    assert_eq!(r, Some("human"));
    assert!(!bot_asked);
    assert_eq!(take_by_priority(|| None, || Some("bot")), Some("bot"));
    assert_eq!(take_by_priority::<&str, _, _>(|| None, || None), None);
}

#[test]
fn timestamp_is_time_of_day() {
    assert_eq!(format_timestamp(3723, 45), "01:02:03.045");
    assert_eq!(format_timestamp(86400 + 23 * 3600 + 59 * 60 + 59, 999), "23:59:59.999");
    assert_eq!(format_timestamp(0, 0), "00:00:00.000");
    let t = timestamp().unwrap();
    assert_eq!(t.len(), 12);
}

#[test]
fn millis_since_epoch_wraps_like_a_cast() {
    assert_eq!(millis_since_epoch(2, 345), 2345);
    assert_eq!(millis_since_epoch(u64::MAX, 0), u64::MAX.wrapping_mul(1000));
    assert!(now_ms().unwrap() > 1_600_000_000_000);
}
