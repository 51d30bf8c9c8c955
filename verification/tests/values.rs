use chrono::TimeZone;
use hearth_web::model::{Timestamp, Uuid, MILLISECOND, MINUTE, SECOND, SHORT_DATE, SHORT_MINUTE};

#[test]
fn identifiers_have_their_hyphenated_form() {
    for value in [0u128, 1, u128::MAX, 0x0123_4567_89ab_cdef_0fed_cba9_8765_4321] {
        let id = Uuid { value };
        assert_eq!(id.text(), uuid::Uuid::from_u128(value).to_string());
        assert_eq!(Uuid::parse(&id.text()), Some(id));
        assert_eq!(id.first_byte(), uuid::Uuid::from_u128(value).as_bytes()[0]);
    }
}

#[test]
fn identifiers_are_read_in_every_form() {
    let id = Uuid { value: 0x67e5_5044_10b1_426f_9247_bb68_0e5f_e0c8 };
    for s in [
        "67e55044-10b1-426f-9247-bb680e5fe0c8",
        "67E5504410B1426F9247BB680E5FE0C8",
        "{67e55044-10b1-426f-9247-bb680e5fe0c8}",
        "urn:uuid:67e55044-10b1-426f-9247-bb680e5fe0c8",
    ] {
        assert_eq!(Uuid::parse(s), Some(id));
    }
    for s in ["", "x", "67e55044-10b1-426f-9247-bb680e5fe0c", " 67e55044-10b1-426f-9247-bb680e5fe0c8"] {
        assert_eq!(Uuid::parse(s), None);
    }
}

#[test]
fn instants_are_written_like_chrono_writes_them() {
    for (secs, nanos) in [(0i64, 0u32), (1_700_000_000, 123_456_789), (-1, 999_999_999), (4_102_444_800, 0)] {
        let t = Timestamp::new(secs, nanos).unwrap();
        let c = chrono::Utc.timestamp_opt(secs, nanos).unwrap();
        for pattern in [SHORT_DATE, SHORT_MINUTE, MINUTE, SECOND, MILLISECOND] {
            assert_eq!(t.format(pattern), c.format(pattern).to_string());
        }
        assert_eq!(t.secs(), secs);
        assert_eq!(t.nanos(), nanos);
    }
}

#[test]
fn instants_without_a_date_are_refused() {
    assert!(Timestamp::new(i64::MAX, 0).is_none());
    assert!(Timestamp::new(i64::MIN, 0).is_none());
    assert!(Timestamp::new(0, 1_000_000_000).is_none());
    assert!(Timestamp::new(hearth_web::model::FIRST_SECOND, 0).is_some());
    assert!(Timestamp::new(hearth_web::model::LAST_SECOND, 999_999_999).is_some());
    assert!(Timestamp::new(hearth_web::model::FIRST_SECOND - 1, 0).is_none());
    assert!(Timestamp::new(hearth_web::model::LAST_SECOND + 1, 0).is_none());
}

#[test]
fn seconds_between_instants_are_chronos() {
    let points = [(0i64, 0u32), (0, 1), (1, 0), (10, 500_000_000), (10, 499_999_999), (-5, 999_999_999)];
    for (s1, n1) in points {
        for (s2, n2) in points {
            let a = Timestamp::new(s1, n1).unwrap();
            let b = Timestamp::new(s2, n2).unwrap();
            let ca = chrono::Utc.timestamp_opt(s1, n1).unwrap();
            let cb = chrono::Utc.timestamp_opt(s2, n2).unwrap();
            assert_eq!(b.seconds_since(&a), cb.signed_duration_since(ca).num_seconds());
            assert_eq!(a.is_before(&b), ca < cb);
        }
    }
}
