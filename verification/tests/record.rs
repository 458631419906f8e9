use matiane::events::Event;
use matiane::events::Focused;
use matiane::events::TimedEvent;
use matiane::events::timed_event;
use matiane::record::serialize_timed_event;
use matiane::time::UtcDateTime;

fn at(year: i32, month: u8, day: u8, hour: u8, minute: u8, second: u8) -> UtcDateTime {
    UtcDateTime { year, month, day, hour, minute, second }
}

#[test]
fn alive_line_exact() {
    let e = TimedEvent { timestamp: at(2025, 12, 31, 23, 59, 59), event: Event::Alive };
    assert_eq!(
        serialize_timed_event(&e),
        r#"{"timestamp":"2025-12-31T23:59:59Z","event":{"type":"alive"}}"#
    );
}

#[test]
fn focused_line_exact() {
    let e = TimedEvent {
        timestamp: at(2025, 1, 1, 0, 0, 5),
        event: Event::Focused(Box::new(Focused {
            title: "This-is-title".to_string(),
            id: "Program".to_string(),
            pid: 111,
        })),
    };
    assert_eq!(
        serialize_timed_event(&e),
        r#"{"timestamp":"2025-01-01T00:00:05Z","event":{"type":"focused","data":{"title":"This-is-title","id":"Program","pid":111}}}"#
    );
}

#[test]
fn title_escaping() {
    let e = TimedEvent {
        timestamp: at(1999, 6, 7, 8, 9, 10),
        event: Event::Focused(Box::new(Focused {
            title: "a\"b\\c\nd\te\u{1}f".to_string(),
            id: "x".to_string(),
            pid: 0,
        })),
    };
    assert_eq!(
        serialize_timed_event(&e),
        r#"{"timestamp":"1999-06-07T08:09:10Z","event":{"type":"focused","data":{"title":"a\"b\\c\nd\te\u0001f","id":"x","pid":0}}}"#
    );
}

#[test]
fn negative_pid() {
    let e = TimedEvent {
        timestamp: at(2000, 1, 1, 0, 0, 0),
        event: Event::Focused(Box::new(Focused {
            title: "t".to_string(),
            id: "i".to_string(),
            pid: -2147483648,
        })),
    };
    assert_eq!(
        serialize_timed_event(&e),
        r#"{"timestamp":"2000-01-01T00:00:00Z","event":{"type":"focused","data":{"title":"t","id":"i","pid":-2147483648}}}"#
    );
}

#[test]
fn unit_kinds() {
    let cases = [
        (Event::Lock, r#"{"timestamp":"2025-01-01T00:00:00Z","event":{"type":"lock"}}"#),
        (Event::Unlock, r#"{"timestamp":"2025-01-01T00:00:00Z","event":{"type":"unlock"}}"#),
        (Event::Idle, r#"{"timestamp":"2025-01-01T00:00:00Z","event":{"type":"idle"}}"#),
        (Event::Active, r#"{"timestamp":"2025-01-01T00:00:00Z","event":{"type":"active"}}"#),
    ];
    for (event, expected) in cases {
        let e = TimedEvent { timestamp: at(2025, 1, 1, 0, 0, 0), event };
        assert_eq!(serialize_timed_event(&e), expected);
    }
}

#[test]
fn timed_event_stamps_in_bounds() {
    let e = timed_event(Event::Alive);
    assert!(matches!(e.event, Event::Alive));
    assert!((1..=12).contains(&e.timestamp.month));
    assert!((1..=31).contains(&e.timestamp.day));
    assert!(e.timestamp.hour < 24);
    assert!(e.timestamp.minute < 60);
    assert!(e.timestamp.second < 60);
    assert!(e.timestamp.is_wf());
}
