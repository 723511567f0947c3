use chrono::{DateTime, TimeZone, Utc};
use serde_json::Value;
use skuff::{Entity, Event, Id, Stream, Timestamp};

fn fixed_time() -> DateTime<Utc> {
    Utc.with_ymd_and_hms(2025, 9, 1, 12, 0, 0).unwrap()
}

fn stamp(instant: DateTime<Utc>) -> Timestamp {
    Timestamp::new(instant.timestamp(), instant.timestamp_subsec_nanos())
}

fn id_json(id: Id) -> Value {
    serde_json::to_value(uuid::Uuid::from_u128(id.0)).unwrap()
}

fn time_json(instant: DateTime<Utc>) -> Value {
    serde_json::to_value(instant).unwrap()
}

fn object(members: Vec<(&str, Value)>) -> Value {
    let mut map = serde_json::Map::new();
    for (key, value) in members {
        map.insert(key.to_string(), value);
    }
    Value::Object(map)
}

fn to_json(event: &Event) -> Value {
    event.to_json().unwrap()
}

fn assert_json_eq(actual: &Value, expected: &Value) {
    if actual != expected {
        panic!(
            "JSON mismatch!\n\nExpected:\n{}\n\nActual:\n{}",
            serde_json::to_string_pretty(expected).unwrap(),
            serde_json::to_string_pretty(actual).unwrap()
        );
    }
}

#[test]
fn login_create() {
    let event_id = Id::new();
    let entity_id = Id::new();
    let created_at = fixed_time();
    let timestamp = fixed_time();

    let expected = object(vec![
        ("op", Value::from("create")),
        ("event_id", id_json(event_id)),
        ("created_at", time_json(created_at)),
        ("entity_id", id_json(entity_id)),
        ("type", Value::from("login")),
        ("timestamp", time_json(timestamp)),
    ]);

    let event = Event::Create {
        id: event_id,
        created_at: stamp(created_at),
        entity: Entity::Login { id: entity_id, timestamp: stamp(timestamp) },
    };

    assert_json_eq(&to_json(&event), &expected);
}

#[test]
fn logout_create() {
    let event_id = Id::new();
    let entity_id = Id::new();
    let created_at = fixed_time();
    let timestamp = fixed_time();

    let expected = object(vec![
        ("op", Value::from("create")),
        ("event_id", id_json(event_id)),
        ("created_at", time_json(created_at)),
        ("entity_id", id_json(entity_id)),
        ("type", Value::from("logout")),
        ("timestamp", time_json(timestamp)),
    ]);

    let event = Event::Create {
        id: event_id,
        created_at: stamp(created_at),
        entity: Entity::Logout { id: entity_id, timestamp: stamp(timestamp) },
    };

    assert_json_eq(&to_json(&event), &expected);
}

#[test]
fn break_create() {
    let event_id = Id::new();
    let entity_id = Id::new();
    let created_at = fixed_time();
    let timestamp = fixed_time();
    let duration = 600;
    let autoinsert = false;

    let expected = object(vec![
        ("op", Value::from("create")),
        ("event_id", id_json(event_id)),
        ("created_at", time_json(created_at)),
        ("entity_id", id_json(entity_id)),
        ("type", Value::from("break")),
        ("timestamp", time_json(timestamp)),
        ("duration", Value::from(600)),
        ("autoinsert", Value::from(autoinsert)),
    ]);

    let event = Event::Create {
        id: event_id,
        created_at: stamp(created_at),
        entity: Entity::Break { id: entity_id, timestamp: stamp(timestamp), duration, autoinsert },
    };

    assert_json_eq(&to_json(&event), &expected);
}

#[test]
fn activity_create() {
    let event_id = Id::new();
    let entity_id = Id::new();
    let created_at = fixed_time();
    let timestamp = fixed_time();
    let duration = 1200;
    let autoinsert = false;

    let expected = object(vec![
        ("op", Value::from("create")),
        ("event_id", id_json(event_id)),
        ("created_at", time_json(created_at)),
        ("entity_id", id_json(entity_id)),
        ("type", Value::from("activity")),
        ("timestamp", time_json(timestamp)),
        ("duration", Value::from(1200)),
        ("value", Value::from("Coding")),
        ("autoinsert", Value::from(autoinsert)),
    ]);

    let event = Event::Create {
        id: event_id,
        created_at: stamp(created_at),
        entity: Entity::Activity { id: entity_id, timestamp: stamp(timestamp), duration, value: "Coding".to_string(), autoinsert },
    };

    assert_json_eq(&to_json(&event), &expected);
}

#[test]
fn login_edit() {
    let event_id = Id::new();
    let entity_id = Id::new();
    let created_at = fixed_time();
    let timestamp = fixed_time();

    let expected = object(vec![
        ("op", Value::from("edit")),
        ("event_id", id_json(event_id)),
        ("created_at", time_json(created_at)),
        ("entity_id", id_json(entity_id)),
        ("type", Value::from("login")),
        ("timestamp", time_json(timestamp)),
    ]);

    let event = Event::Edit {
        id: event_id,
        created_at: stamp(created_at),
        entity: Entity::Login { id: entity_id, timestamp: stamp(timestamp) },
    };

    assert_json_eq(&to_json(&event), &expected);
}

#[test]
fn logout_edit() {
    let event_id = Id::new();
    let entity_id = Id::new();
    let created_at = fixed_time();
    let timestamp = fixed_time();

    let expected = object(vec![
        ("op", Value::from("edit")),
        ("event_id", id_json(event_id)),
        ("created_at", time_json(created_at)),
        ("entity_id", id_json(entity_id)),
        ("type", Value::from("logout")),
        ("timestamp", time_json(timestamp)),
    ]);

    let event = Event::Edit {
        id: event_id,
        created_at: stamp(created_at),
        entity: Entity::Logout { id: entity_id, timestamp: stamp(timestamp) },
    };

    assert_json_eq(&to_json(&event), &expected);
}

#[test]
fn break_edit() {
    let event_id = Id::new();
    let entity_id = Id::new();
    let created_at = fixed_time();
    let timestamp = fixed_time();
    let duration = 900;
    let autoinsert = false;

    let expected = object(vec![
        ("op", Value::from("edit")),
        ("event_id", id_json(event_id)),
        ("created_at", time_json(created_at)),
        ("entity_id", id_json(entity_id)),
        ("type", Value::from("break")),
        ("timestamp", time_json(timestamp)),
        ("duration", Value::from(900)),
        ("autoinsert", Value::from(autoinsert)),
    ]);

    let event = Event::Edit {
        id: event_id,
        created_at: stamp(created_at),
        entity: Entity::Break { id: entity_id, timestamp: stamp(timestamp), duration, autoinsert },
    };

    assert_json_eq(&to_json(&event), &expected);
}

#[test]
fn activity_edit() {
    let event_id = Id::new();
    let entity_id = Id::new();
    let created_at = fixed_time();
    let timestamp = fixed_time();
    let duration = 1800;
    let autoinsert = false;

    let expected = object(vec![
        ("op", Value::from("edit")),
        ("event_id", id_json(event_id)),
        ("created_at", time_json(created_at)),
        ("entity_id", id_json(entity_id)),
        ("type", Value::from("activity")),
        ("timestamp", time_json(timestamp)),
        ("duration", Value::from(1800)),
        ("value", Value::from("Review")),
        ("autoinsert", Value::from(autoinsert)),
    ]);

    let event = Event::Edit {
        id: event_id,
        created_at: stamp(created_at),
        entity: Entity::Activity { id: entity_id, timestamp: stamp(timestamp), duration, value: "Review".to_string(), autoinsert },
    };

    assert_json_eq(&to_json(&event), &expected);
}

#[test]
fn login_delete() {
    let event_id = Id::new();
    let entity_id = Id::new();
    let created_at = fixed_time();

    let expected = object(vec![
        ("op", Value::from("delete")),
        ("event_id", id_json(event_id)),
        ("created_at", time_json(created_at)),
        ("entity_id", id_json(entity_id)),
    ]);

    let event = Event::Delete { id: event_id, created_at: stamp(created_at), entity_id };

    assert_json_eq(&to_json(&event), &expected);
}

#[test]
fn logout_delete() {
    let event_id = Id::new();
    let entity_id = Id::new();
    let created_at = fixed_time();

    let expected = object(vec![
        ("op", Value::from("delete")),
        ("event_id", id_json(event_id)),
        ("created_at", time_json(created_at)),
        ("entity_id", id_json(entity_id)),
    ]);

    let event = Event::Delete { id: event_id, created_at: stamp(created_at), entity_id };

    assert_json_eq(&to_json(&event), &expected);
}

#[test]
fn break_delete() {
    let event_id = Id::new();
    let entity_id = Id::new();
    let created_at = fixed_time();

    let expected = object(vec![
        ("op", Value::from("delete")),
        ("event_id", id_json(event_id)),
        ("created_at", time_json(created_at)),
        ("entity_id", id_json(entity_id)),
    ]);

    let event = Event::Delete { id: event_id, created_at: stamp(created_at), entity_id };

    assert_json_eq(&to_json(&event), &expected);
}

#[test]
fn activity_delete() {
    let event_id = Id::new();
    let entity_id = Id::new();
    let created_at = fixed_time();

    let expected = object(vec![
        ("op", Value::from("delete")),
        ("event_id", id_json(event_id)),
        ("created_at", time_json(created_at)),
        ("entity_id", id_json(entity_id)),
    ]);

    let event = Event::Delete { id: event_id, created_at: stamp(created_at), entity_id };

    assert_json_eq(&to_json(&event), &expected);
}

fn id(text: &str) -> Id {
    Id::from_str(text).unwrap()
}

fn sample() -> Stream {
    let login = id("00000000-0000-4000-8000-000000000001");
    let pause = id("00000000-0000-4000-8000-000000000002");
    let work = id("00000000-0000-4000-8000-000000000003");
    let at = stamp(fixed_time());
    let mut stream = Stream::new();
    stream
        .push(Event::Create {
            id: id("10000000-0000-4000-8000-000000000001"),
            created_at: at,
            entity: Entity::Login { id: login, timestamp: at },
        })
        .unwrap();
    stream
        .push(Event::Create {
            id: id("10000000-0000-4000-8000-000000000002"),
            created_at: at,
            entity: Entity::Break { id: pause, timestamp: at, duration: 600, autoinsert: true },
        })
        .unwrap();
    stream
        .push(Event::Create {
            id: id("10000000-0000-4000-8000-000000000003"),
            created_at: at,
            entity: Entity::Activity {
                id: work,
                timestamp: Timestamp::new(at.secs + 60, 500_000_000),
                duration: -5,
                value: "Reading \"A\"\n\u{e9}".to_string(),
                autoinsert: false,
            },
        })
        .unwrap();
    stream
        .push(Event::Edit {
            id: id("10000000-0000-4000-8000-000000000004"),
            created_at: at,
            entity: Entity::Logout { id: login, timestamp: at },
        })
        .unwrap();
    stream
        .push(Event::Delete {
            id: id("10000000-0000-4000-8000-000000000005"),
            created_at: at,
            entity_id: pause,
        })
        .unwrap();
    stream
}

fn events(stream: &Stream) -> Vec<Event> {
    stream.iter().cloned().collect()
}

#[test]
fn empty_stream_is_an_empty_array() {
    assert_eq!(Stream::new().to_buffer().unwrap(), b"[]".to_vec());
    assert_eq!(Stream::from_buffer(b"[]").unwrap().len(), 0);
    assert_eq!(Stream::from_buffer(b" [ ] ").unwrap().len(), 0);
}

#[test]
fn buffer_has_the_members_in_their_order() {
    let at = stamp(fixed_time());
    let mut stream = Stream::new();
    stream
        .push(Event::Create {
            id: id("10000000-0000-4000-8000-000000000003"),
            created_at: at,
            entity: Entity::Activity {
                id: id("00000000-0000-4000-8000-000000000003"),
                timestamp: at,
                duration: 1200,
                value: "Coding".to_string(),
                autoinsert: false,
            },
        })
        .unwrap();
    stream
        .push(Event::Delete {
            id: id("10000000-0000-4000-8000-000000000005"),
            created_at: at,
            entity_id: id("00000000-0000-4000-8000-000000000003"),
        })
        .unwrap();

    let buffer = stream.to_buffer().unwrap();

    let expected = concat_all(&[
        "[{\"op\":\"create\",",
        "\"event_id\":\"10000000-0000-4000-8000-000000000003\",",
        "\"created_at\":\"2025-09-01T12:00:00Z\",",
        "\"type\":\"activity\",",
        "\"entity_id\":\"00000000-0000-4000-8000-000000000003\",",
        "\"timestamp\":\"2025-09-01T12:00:00Z\",",
        "\"duration\":1200,",
        "\"value\":\"Coding\",",
        "\"autoinsert\":false},",
        "{\"op\":\"delete\",",
        "\"event_id\":\"10000000-0000-4000-8000-000000000005\",",
        "\"created_at\":\"2025-09-01T12:00:00Z\",",
        "\"entity_id\":\"00000000-0000-4000-8000-000000000003\"}]",
    ]);
    assert_eq!(String::from_utf8(buffer).unwrap(), expected);
}

fn concat_all(parts: &[&str]) -> String {
    let mut text = String::new();
    for part in parts {
        text.push_str(part);
    }
    text
}

#[test]
fn round_trip() {
    let stream = sample();

    let buffer = stream.to_buffer().unwrap();
    let loaded = Stream::from_buffer(&buffer).unwrap();

    assert_eq!(events(&loaded), events(&stream));
    assert_eq!(loaded.to_buffer().unwrap(), buffer);
}

#[test]
fn round_trip_through_a_document() {
    let stream = sample();

    let doc = stream.to_json().unwrap();
    let loaded = Stream::from_json(&doc).unwrap();

    assert_eq!(events(&loaded), events(&stream));
    assert_eq!(doc.as_array().unwrap().len(), 5);
}

#[test]
fn round_trip_of_every_event() {
    for event in events(&sample()) {
        let doc = event.to_json().unwrap();

        assert_eq!(Event::from_json(&doc), Some(event));
    }
}

#[test]
fn from_buffer_passes_over_other_members_and_order() {
    let text = concat_all(&[
        "[{\"timestamp\":\"2025-09-01T14:00:00+02:00\",\"note\":[1,2.5,null],",
        "\"entity_id\":\"00000000-0000-4000-8000-000000000001\",\"type\":\"login\",",
        "\"created_at\":\"2025-09-01T12:00:00Z\",",
        "\"event_id\":\"10000000000040008000000000000001\",\"op\":\"edit\"}]",
    ]);

    let loaded = Stream::from_buffer(text.as_bytes()).unwrap();

    let at = stamp(fixed_time());
    let expected = Event::Edit {
        id: id("10000000-0000-4000-8000-000000000001"),
        created_at: at,
        entity: Entity::Login { id: id("00000000-0000-4000-8000-000000000001"), timestamp: at },
    };
    assert_eq!(events(&loaded), vec![expected]);
}

#[test]
fn from_buffer_does_not_apply_the_append_rules() {
    let text = concat_all(&[
        "[{\"op\":\"delete\",\"event_id\":\"10000000-0000-4000-8000-000000000005\",",
        "\"created_at\":\"2025-09-01T12:00:00Z\",",
        "\"entity_id\":\"00000000-0000-4000-8000-000000000003\"}]",
    ]);

    let loaded = Stream::from_buffer(text.as_bytes()).unwrap();

    assert_eq!(loaded.len(), 1);
    assert_eq!(skuff::replay(&loaded).len(), 0);
}

fn rejected(text: &str) -> bool {
    matches!(Stream::from_buffer(text.as_bytes()), Err(skuff::Error::DeserializeFailed(_)))
}

fn login_with(member: &str) -> String {
    concat_all(&[
        "[{\"op\":\"create\",\"event_id\":\"10000000-0000-4000-8000-000000000001\",",
        "\"created_at\":\"2025-09-01T12:00:00Z\",\"type\":\"login\",",
        "\"entity_id\":\"00000000-0000-4000-8000-000000000001\",",
        member,
        "}]",
    ])
}

fn break_with(members: &str) -> String {
    concat_all(&[
        "[{\"op\":\"create\",\"event_id\":\"10000000-0000-4000-8000-000000000001\",",
        "\"created_at\":\"2025-09-01T12:00:00Z\",\"type\":\"break\",",
        "\"entity_id\":\"00000000-0000-4000-8000-000000000001\",",
        "\"timestamp\":\"2025-09-01T12:00:00Z\"",
        members,
        "}]",
    ])
}

#[test]
fn from_buffer_rejects_what_is_no_log() {
    assert!(rejected(""));
    assert!(rejected("not json"));
    assert!(rejected("[{]"));
    assert!(rejected("{}"));
    assert!(rejected("null"));
    assert!(rejected("[1]"));
    assert!(rejected("[[]]"));
    assert!(rejected("[{}]"));
    assert!(rejected("[] []"));
}

#[test]
fn from_buffer_rejects_events_without_their_members() {
    assert!(!rejected(&login_with("\"timestamp\":\"2025-09-01T12:00:00Z\"")));
    assert!(rejected(&login_with("\"time\":\"2025-09-01T12:00:00Z\"")));
    assert!(rejected(&login_with("\"timestamp\":\"noon\"")));
    assert!(rejected(&login_with("\"timestamp\":1756728000")));
    assert!(rejected(&login_with("\"timestamp\":null")));
    assert!(rejected(&login_with("\"timestamp\":\"2025-09-01T12:00:00Z\"").replace("login", "lunch")));
    assert!(rejected(&login_with("\"timestamp\":\"2025-09-01T12:00:00Z\"").replace("create", "CREATE")));
    assert!(rejected(&login_with("\"timestamp\":\"2025-09-01T12:00:00Z\"").replace("\"op\"", "\"Op\"")));
    assert!(rejected(
        &login_with("\"timestamp\":\"2025-09-01T12:00:00Z\"").replace("10000000-", "1000000-")
    ));
}

#[test]
fn from_buffer_reads_durations_as_whole_seconds() {
    assert!(!rejected(&break_with(",\"duration\":600,\"autoinsert\":true")));
    assert!(!rejected(&break_with(",\"duration\":-9223372036854775808,\"autoinsert\":true")));
    assert!(!rejected(&break_with(",\"duration\":9223372036854775807,\"autoinsert\":true")));
    assert!(rejected(&break_with(",\"duration\":9223372036854775808,\"autoinsert\":true")));
    assert!(rejected(&break_with(",\"duration\":600.5,\"autoinsert\":true")));
    assert!(rejected(&break_with(",\"duration\":6e2,\"autoinsert\":true")));
    assert!(rejected(&break_with(",\"duration\":\"600\",\"autoinsert\":true")));
    assert!(rejected(&break_with(",\"duration\":600,\"autoinsert\":1")));
    assert!(rejected(&break_with(",\"duration\":600")));
    assert!(rejected(&break_with(",\"autoinsert\":true")));

    let loaded = Stream::from_buffer(break_with(",\"duration\":-5,\"autoinsert\":true").as_bytes());
    match events(&loaded.unwrap()).pop() {
        Some(Event::Create { entity: Entity::Break { duration, autoinsert, .. }, .. }) => {
            assert_eq!(duration, -5);
            assert!(autoinsert);
        }
        other => panic!("expected the creation of a break, got {:?}", other),
    }
}

#[test]
fn to_buffer_fails_on_an_instant_that_cannot_be_written() {
    let mut stream = Stream::new();
    stream
        .push(Event::Create {
            id: Id::new(),
            created_at: Timestamp::new(i64::MAX, 0),
            entity: Entity::Login { id: Id::new(), timestamp: stamp(fixed_time()) },
        })
        .unwrap();

    assert!(matches!(stream.to_buffer(), Err(skuff::Error::SerializeFailed(_))));
    assert!(matches!(stream.to_json(), Err(skuff::Error::SerializeFailed(_))));
    assert_eq!(events(&stream)[0].to_json(), None);

    let mut stream = Stream::new();
    stream
        .push(Event::Create {
            id: Id::new(),
            created_at: stamp(fixed_time()),
            entity: Entity::Login { id: Id::new(), timestamp: Timestamp::new(0, 3_000_000_000) },
        })
        .unwrap();

    assert!(matches!(stream.to_buffer(), Err(skuff::Error::SerializeFailed(_))));
}

#[test]
fn round_trip_of_unusual_values() {
    let at = stamp(fixed_time());
    let texts = [
        "",
        " ",
        "\"quoted\" and \\backslash/",
        "line\nbreak\ttab\r",
        "\u{0}\u{1}\u{1f}\u{7f}",
        "\u{e9}\u{2028}\u{2029}\u{fffd}\u{10ffff}",
        "{\"op\":\"delete\"}",
    ];
    let durations = [0, 1, -1, i64::MAX, i64::MIN];
    let mut stream = Stream::new();
    for text in texts {
        for duration in durations {
            stream
                .push(Event::Create {
                    id: Id::new(),
                    created_at: Timestamp::new(at.secs, 999_999_999),
                    entity: Entity::Activity {
                        id: Id::new(),
                        timestamp: Timestamp::new(-at.secs, 1),
                        duration,
                        value: text.to_string(),
                        autoinsert: duration % 2 == 0,
                    },
                })
                .unwrap();
        }
    }

    let buffer = stream.to_buffer().unwrap();
    let loaded = Stream::from_buffer(&buffer).unwrap();

    assert_eq!(loaded.len(), 35);
    assert_eq!(events(&loaded), events(&stream));
}

#[test]
fn a_log_that_was_read_can_be_written() {
    let text = concat_all(&[
        "[{\"op\":\"create\",\"event_id\":\"10000000-0000-4000-8000-000000000001\",",
        "\"created_at\":\"+262142-12-31T23:59:59Z\",\"type\":\"login\",",
        "\"entity_id\":\"00000000-0000-4000-8000-000000000001\",",
        "\"timestamp\":\"-262143-01-01T00:00:00Z\", \"more\": 1.5},",
        "{\"op\":\"delete\",\"event_id\":\"10000000-0000-4000-8000-000000000002\",",
        "\"created_at\":\"2016-12-31T23:59:60Z\",",
        "\"entity_id\":\"00000000-0000-4000-8000-000000000001\"}]",
    ]);

    let loaded = Stream::from_buffer(text.as_bytes()).unwrap();
    let buffer = loaded.to_buffer().unwrap();

    assert_eq!(events(&Stream::from_buffer(&buffer).unwrap()), events(&loaded));
    assert!(!String::from_utf8(buffer).unwrap().contains("more"));
}
