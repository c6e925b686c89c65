use chrono::NaiveDateTime;
use starter::command::{CreateFeedInput, SubmitError};
use harsh::Harsh;
use starter::projection::{hashid_fits, CursorError, UserFeed, EARLIEST_MICROS, LATEST_MICROS};
use starter::text::{remove_first_occurrence, u64_to_decimal, usize_to_decimal};
use starter::validation::{error_alert_lines, ErrorMessage};

fn feed(id: &str, created_at: i64) -> UserFeed {
    let mut f = UserFeed::default();
    f.id = id.to_string();
    f.created_at = created_at;
    f
}

#[test]
fn decimal_formatting() {
    assert_eq!(u64_to_decimal(0), "0");
    assert_eq!(u64_to_decimal(7), "7");
    assert_eq!(u64_to_decimal(1_700_000_000_123_456), "1700000000123456");
    assert_eq!(u64_to_decimal(u64::MAX), u64::MAX.to_string());
    assert_eq!(usize_to_decimal(1234), "1234");
}

#[test]
fn cursor_values_are_hashids() {
    assert_eq!(feed("01ABC", 1_000_000_000_000).serialize(), vec!["gLpmopgO6", "01ABC"]);
    assert_eq!(feed("a", 0).serialize(), vec!["gY", "a"]);
    assert_eq!(feed("b", 928728).serialize(), vec!["R8ZN0", "b"]);
    assert_eq!(feed("c", -1).serialize()[0], Harsh::default().encode(&[u64::MAX]));
    assert!(hashid_fits("gLpmopgO6"));
    assert!(!hashid_fits(&Harsh::default().encode(&[u64::MAX])));
}

#[test]
fn cursor_values_round_trip() {
    for t in [0i64, 1, 928728, 1_700_000_000_123_456, 1_196_683_881_290_399_743] {
        let f = feed("01ABC", t);
        let back = UserFeed::deserialize(&f.serialize()).unwrap();
        assert_eq!(back.created_at, t);
        assert_eq!(back.id, "01ABC");
        assert_eq!(back.title, "");
        assert_eq!(back.tags.len(), 0);
    }
}

#[test]
fn cursor_values_refused() {
    assert!(matches!(UserFeed::deserialize(&vec![]), Err(CursorError::MissingField(f)) if f == "created_at"));
    assert!(matches!(UserFeed::deserialize(&vec!["f".to_string()]), Err(CursorError::Harsh(_))));
    assert!(matches!(UserFeed::deserialize(&vec!["gY".to_string()]), Err(CursorError::MissingField(f)) if f == "id"));
    let far = Harsh::default().encode(&[i64::MAX as u64]);
    for long in [far, Harsh::default().encode(&[u64::MAX]), "gQ0000000000a".to_string(), "g".repeat(40)] {
        match UserFeed::deserialize(&vec![long, "a".to_string()]) {
            Err(CursorError::Unknown(a, b, c)) => {
                assert_eq!(a, "created_at");
                assert_eq!(b, "Harsh::decode");
                assert_eq!(c, "more digits than a u64 holds");
            }
            _ => panic!("expected a refused long time"),
        }
    }
    let several = UserFeed::deserialize(&vec!["o2fXhV".to_string(), "a".to_string()]).unwrap();
    assert_eq!(several.created_at, 1);
}

#[test]
#[allow(deprecated)]
fn chrono_range_bounds() {
    let lo = chrono::NaiveDate::MIN.and_hms_opt(0, 0, 0).unwrap().and_utc().timestamp_micros();
    let hi = chrono::NaiveDateTime::MAX.and_utc().timestamp_micros();
    assert_eq!((lo, hi), (EARLIEST_MICROS, LATEST_MICROS));
    assert!(NaiveDateTime::from_timestamp_micros(EARLIEST_MICROS).is_some());
    assert!(NaiveDateTime::from_timestamp_micros(EARLIEST_MICROS - 1).is_none());
    assert!(NaiveDateTime::from_timestamp_micros(LATEST_MICROS).is_some());
    assert!(NaiveDateTime::from_timestamp_micros(LATEST_MICROS + 1).is_none());
}

#[test]
fn removing_first_occurrence() {
    assert_eq!(remove_first_occurrence("feed_01feed_", "feed_"), "01feed_");
    assert_eq!(remove_first_occurrence("abc", ""), "abc");
    assert_eq!(remove_first_occurrence("abc", "x"), "abc");
}

#[test]
fn submit_validates_before_creating() {
    let short = CreateFeedInput { title: "a".into(), user_id: "bad".into(), request_id: None };
    match short.submit() {
        Err(SubmitError::Invalid(errors)) => {
            let lines = error_alert_lines(&errors);
            assert_eq!(lines.len(), 1);
            assert_eq!(lines[0].path, "title");
            assert!(matches!(lines[0].message, ErrorMessage::LengthMinMax(3, 100)));
        }
        _ => panic!("expected a validation error"),
    }
    let bad_user = CreateFeedInput { title: "good title".into(), user_id: "bad".into(), request_id: None };
    assert!(matches!(bad_user.submit(), Err(SubmitError::Refused(_))));
    let ok = CreateFeedInput {
        title: "good title".into(),
        user_id: "67e55044-10b1-426f-9247-bb680e5fe0c8".into(),
        request_id: Some("r1".into()),
    };
    let c = ok.submit().unwrap();
    assert_eq!(c.metadata.req_id, "r1");
}
