use tml::domain::job::{JobStatus, JobType};
use tml::time::{safe_max_datetime, safe_min_datetime, Timestamp};

#[test]
fn job_types_round_trip_through_their_codes() {
    for t in [JobType::Undefined, JobType::ScanIncremental, JobType::BuildIndex, JobType::UpdateIndex] {
        assert_eq!(JobType::from_code(t.code()), Some(t));
    }
    assert_eq!(JobType::ScanIncremental.code(), 1);
    assert_eq!(JobType::from_code(4), None);
    assert_eq!(JobType::from_code(-1), None);
}

#[test]
fn job_statuses_round_trip_through_their_codes() {
    for s in [JobStatus::Undefined, JobStatus::WaitingStart, JobStatus::Running, JobStatus::Completed] {
        assert_eq!(JobStatus::from_code(s.code()), Some(s));
    }
    assert_eq!(JobStatus::Completed.code(), 3);
    assert_eq!(JobStatus::from_code(7), None);
}

#[test]
fn safe_bounds_match_the_calendar() {
    let min = safe_min_datetime();
    let max = safe_max_datetime();
    let min_chrono = chrono::DateTime::from_timestamp(min.seconds, min.nanos).unwrap();
    let max_chrono = chrono::DateTime::from_timestamp(max.seconds, max.nanos).unwrap();
    assert_eq!(min_chrono.to_rfc3339(), "1970-01-01T00:00:00+00:00");
    assert_eq!(max_chrono.format("%Y-%m-%d %H:%M:%S").to_string(), "9999-12-31 23:59:59");
    assert!(min.is_before(&max));
    assert!(!max.is_before(&min));
}

#[test]
fn timestamps_order_by_seconds_then_nanos() {
    let a = Timestamp { seconds: 10, nanos: 5 };
    let b = Timestamp { seconds: 10, nanos: 6 };
    let c = Timestamp { seconds: 11, nanos: 0 };
    assert!(a.is_before(&b));
    assert!(b.is_before(&c));
    assert!(!a.is_before(&a));
}
