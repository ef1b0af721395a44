use taskforce::clock::{local_uuid_at, nanos_since_epoch, Timestamp};
use taskforce::decimal::{i64_to_text, parse_u16, u64_to_text};
use taskforce::path::join_path;
use taskforce::status::{parse_task_status, same_text, task_status_text, TaskStatus};

#[test]
fn status_texts_round_trip() {
    for status in [
        TaskStatus::Pending,
        TaskStatus::Active,
        TaskStatus::Waiting,
        TaskStatus::Done,
        TaskStatus::Deleted,
    ] {
        assert_eq!(parse_task_status(task_status_text(status)), status);
    }
    assert_eq!(task_status_text(TaskStatus::Waiting), "waiting");
    assert_eq!(task_status_text(TaskStatus::Deleted), "deleted");
}

#[test]
fn unknown_status_text_is_pending() {
    assert_eq!(parse_task_status("Done"), TaskStatus::Pending);
    assert_eq!(parse_task_status(""), TaskStatus::Pending);
    assert_eq!(parse_task_status("done "), TaskStatus::Pending);
}

#[test]
fn same_text_compares_characters() {
    assert!(same_text("abc", "abc"));
    assert!(!same_text("abc", "abd"));
    assert!(!same_text("ab", "abc"));
}

#[test]
fn decimal_texts() {
    assert_eq!(u64_to_text(0), "0");
    assert_eq!(u64_to_text(7), "7");
    assert_eq!(u64_to_text(1_000), "1000");
    assert_eq!(u64_to_text(u64::MAX), u64::MAX.to_string());
    assert_eq!(i64_to_text(-1), "-1");
    assert_eq!(i64_to_text(i64::MIN), i64::MIN.to_string());
    assert_eq!(i64_to_text(i64::MAX), i64::MAX.to_string());
}

#[test]
fn port_texts_round_trip() {
    for port in [0u16, 1, 80, 8080, 65535] {
        assert_eq!(parse_u16(&u64_to_text(port as u64)), Some(port));
    }
    assert_eq!(parse_u16("00000"), Some(0));
    assert_eq!(parse_u16("+"), None);
    assert_eq!(parse_u16("99999"), None);
}

#[test]
fn paths_join_like_path_buffers() {
    assert_eq!(join_path("/a", "b"), "/a/b");
    assert_eq!(join_path("/a/", "b"), "/a/b");
    assert_eq!(join_path("", "b"), "b");
    assert_eq!(join_path("/a", "/b"), "/b");
    assert_eq!(join_path("a", ""), "a/");
}

#[test]
fn nanos_since_epoch_follows_chrono() {
    assert_eq!(nanos_since_epoch(Timestamp { seconds: 1, nanos: 5 }), Some(1_000_000_005));
    assert_eq!(nanos_since_epoch(Timestamp { seconds: -1, nanos: 5 }), Some(-999_999_995));
    assert_eq!(nanos_since_epoch(Timestamp { seconds: 9_223_372_037, nanos: 0 }), None);
    assert_eq!(
        nanos_since_epoch(Timestamp { seconds: -9_223_372_037, nanos: 0 }),
        None
    );
    let t = chrono::DateTime::from_timestamp(1_700_000_000, 123).unwrap();
    assert_eq!(
        nanos_since_epoch(Timestamp { seconds: 1_700_000_000, nanos: 123 }),
        t.timestamp_nanos_opt()
    );
    let t = chrono::DateTime::from_timestamp(-5_000_000_000, 700).unwrap();
    assert_eq!(
        nanos_since_epoch(Timestamp { seconds: -5_000_000_000, nanos: 700 }),
        t.timestamp_nanos_opt()
    );
}

#[test]
fn local_uuids() {
    assert_eq!(local_uuid_at(Timestamp { seconds: 2, nanos: 1 }), "local-2000000001");
    assert_eq!(local_uuid_at(Timestamp { seconds: -1, nanos: 0 }), "local--1000000000");
    assert_eq!(local_uuid_at(Timestamp { seconds: i64::MAX / 2, nanos: 0 }), "local-0");
}
