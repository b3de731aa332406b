use activity_log::event::EventRecord;
use activity_log::event::EventType;
use activity_log::payload::payload_json;
use activity_log::report::build_record;
use activity_log::report::capture_event;
use activity_log::timefmt::ClockReading;
use activity_log::timefmt::display_line;
use activity_log::timefmt::utc_offset_string;

#[test]
fn labels_are_fixed() {
    assert_eq!(EventType::KeyboardPress.as_str(), "按下按键");
    assert_eq!(EventType::ClipboardCopy.as_str(), "复制文本");
}

#[test]
fn tags_are_fixed() {
    assert_eq!(EventType::KeyboardPress.as_event_type(), "keyboard_press");
    assert_eq!(EventType::ClipboardCopy.as_event_type(), "clipboard_copy");
}

#[test]
fn labels_and_tags_are_distinct() {
    assert_ne!(
        EventType::KeyboardPress.as_str(),
        EventType::ClipboardCopy.as_str()
    );
    assert_ne!(
        EventType::KeyboardPress.as_event_type(),
        EventType::ClipboardCopy.as_event_type()
    );
}

#[test]
fn offset_whole_hours_east() {
    assert_eq!(utc_offset_string(28800), "UTC+8");
    assert_eq!(utc_offset_string(3600), "UTC+1");
    assert_eq!(utc_offset_string(82800), "UTC+23");
}

#[test]
fn offset_whole_hours_west() {
    assert_eq!(utc_offset_string(-18000), "UTC-5");
    assert_eq!(utc_offset_string(-43200), "UTC-12");
}

#[test]
fn offset_zero_keeps_plus_sign() {
    assert_eq!(utc_offset_string(0), "UTC+0");
}

#[test]
fn offset_fraction_truncates_toward_zero() {
    // +5:30 and -4:30 lose the half hour; -0:30 truncates to +0.
    assert_eq!(utc_offset_string(19800), "UTC+5");
    assert_eq!(utc_offset_string(-16200), "UTC-4");
    assert_eq!(utc_offset_string(-1800), "UTC+0");
}

#[test]
fn record_fields_come_from_one_reading() {
    let now = ClockReading {
        secs: 1700000000,
        millis: 123,
        offset_secs: 28800,
    };
    let r = build_record(
        EventType::ClipboardCopy,
        String::from("snippet"),
        String::from("00:11:22:33:44:55"),
        String::from("desk"),
        &now,
    );
    assert_eq!(r.occurred_at, 1700000000);
    assert_eq!(r.utc_offset, "UTC+8");
    assert_eq!(r.content, "snippet");
    assert_eq!(r.device_id, "00:11:22:33:44:55");
    assert_eq!(r.device_name, "desk");
    assert_eq!(r.event_kind, EventType::ClipboardCopy);
}

#[test]
fn line_at_epoch_in_utc_plus_eight() {
    let now = ClockReading {
        secs: 0,
        millis: 0,
        offset_secs: 28800,
    };
    let line = display_line(&EventType::KeyboardPress, "hello", &now);
    assert_eq!(line, "1970/01/01-08:00:00.000 UTC+8 按下按键 hello");
}

#[test]
fn line_at_known_time_ends_with_label_and_content() {
    let now = ClockReading {
        secs: 1700000000,
        millis: 123,
        offset_secs: 28800,
    };
    let line = display_line(&EventType::KeyboardPress, "hello", &now);
    assert_eq!(line, "2023/11/15-06:13:20.123 UTC+8 按下按键 hello");
    assert!(line.ends_with("按下按键 hello"));
}

#[test]
fn line_west_of_greenwich() {
    let now = ClockReading {
        secs: 0,
        millis: 5,
        offset_secs: -18000,
    };
    let line = display_line(&EventType::ClipboardCopy, "x", &now);
    assert_eq!(line, "1969/12/31-19:00:00.005 UTC-5 复制文本 x");
}

#[test]
fn payload_for_keypress_hello() {
    let now = ClockReading {
        secs: 1700000000,
        millis: 0,
        offset_secs: 28800,
    };
    let r = build_record(
        EventType::KeyboardPress,
        String::from("hello"),
        String::from("AA:BB"),
        String::from("desk"),
        &now,
    );
    let body = payload_json(&r);
    assert_eq!(
        body,
        "{\"device_id\":\"AA:BB\",\"device_name\":\"desk\",\"event_type\":\"keyboard_press\",\"content\":\"hello\",\"timestamp\":1700000000,\"timezone\":\"UTC+8\"}"
    );
    assert!(body.contains("\"event_type\":\"keyboard_press\",\"content\":\"hello\""));
}

#[test]
fn payload_escapes_json_metacharacters() {
    let r = EventRecord {
        device_id: String::from("id\"quoted\""),
        device_name: String::from("back\\slash"),
        event_kind: EventType::ClipboardCopy,
        content: String::from("line one\nline two\ttabbed"),
        occurred_at: -5,
        utc_offset: String::from("UTC+0"),
    };
    let body = payload_json(&r);
    assert_eq!(
        body,
        "{\"device_id\":\"id\\\"quoted\\\"\",\"device_name\":\"back\\\\slash\",\"event_type\":\"clipboard_copy\",\"content\":\"line one\\nline two\\ttabbed\",\"timestamp\":-5,\"timezone\":\"UTC+0\"}"
    );
}

#[test]
fn payload_escapes_control_characters() {
    let r = EventRecord {
        device_id: String::new(),
        device_name: String::new(),
        event_kind: EventType::KeyboardPress,
        content: String::from("a\u{1}b\u{8}c\u{c}d\re\u{1f}f"),
        occurred_at: 0,
        utc_offset: String::from("UTC+0"),
    };
    let body = payload_json(&r);
    assert!(body.contains("\"content\":\"a\\u0001b\\bc\\fd\\re\\u001ff\""));
    assert!(body.contains("\"device_id\":\"\""));
    assert_eq!(body.matches('{').count(), 1);
}

#[test]
fn capture_uses_one_clock_read() {
    let (record, line) = capture_event(
        &EventType::KeyboardPress,
        "hello",
        "AA:BB:CC:DD:EE:FF",
        "desk",
    );
    assert_eq!(record.device_id, "AA:BB:CC:DD:EE:FF");
    assert_eq!(record.device_name, "desk");
    assert_eq!(record.content, "hello");
    assert_eq!(record.event_kind, EventType::KeyboardPress);
    assert!(record.utc_offset.starts_with("UTC+") || record.utc_offset.starts_with("UTC-"));
    assert!(line.ends_with(" 按下按键 hello"));
    // The line's offset column repeats the record's offset: same reading.
    assert!(line.contains(&format!(" {} ", record.utc_offset)));
}
