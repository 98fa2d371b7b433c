use steam_player_role::clock::{Delay, Timestamp, FIRST_SECOND, LAST_SECOND};

fn at(secs: i64, nanos: u32) -> Timestamp {
    Timestamp { secs, nanos }
}

fn outside(t: &Timestamp) -> chrono::DateTime<chrono::Utc> {
    chrono::DateTime::from_timestamp(t.secs, t.nanos).unwrap()
}

const POINTS: [Timestamp; 9] = [
    Timestamp { secs: 0, nanos: 0 },
    Timestamp { secs: 0, nanos: 1 },
    Timestamp { secs: -1, nanos: 999_999_999 },
    Timestamp { secs: 86_399, nanos: 999_999_999 },
    Timestamp { secs: 86_400, nanos: 0 },
    Timestamp { secs: -86_401, nanos: 5 },
    Timestamp { secs: 1_700_000_000, nanos: 123_456_789 },
    Timestamp { secs: FIRST_SECOND, nanos: 0 },
    Timestamp { secs: LAST_SECOND, nanos: 999_999_999 },
];

#[test]
fn the_first_and_the_last_second_are_the_calendars() {
    assert!(chrono::DateTime::<chrono::Utc>::from_timestamp(FIRST_SECOND, 0).is_some());
    assert!(chrono::DateTime::<chrono::Utc>::from_timestamp(FIRST_SECOND - 1, 0).is_none());
    assert!(chrono::DateTime::<chrono::Utc>::from_timestamp(LAST_SECOND, 999_999_999).is_some());
    assert!(chrono::DateTime::<chrono::Utc>::from_timestamp(LAST_SECOND + 1, 0).is_none());
}

#[test]
fn distances_are_those_of_the_calendar() {
    for a in POINTS {
        for b in POINTS {
            let d = outside(&a) - outside(&b);
            assert_eq!(a.seconds_since(&b), d.num_seconds());
            assert_eq!(a.days_since(&b), d.num_days());
            assert_eq!(b.before(&a), d > chrono::Duration::zero());
            if d >= chrono::Duration::zero() {
                assert_eq!(a.millis_since(&b), d.num_milliseconds());
                let std = d.to_std().unwrap();
                assert_eq!(
                    a.left_from(&b),
                    Delay {
                        secs: std.as_secs(),
                        nanos: std.subsec_nanos()
                    }
                );
            } else {
                assert_eq!(a.left_from(&b), Delay { secs: 0, nanos: 0 });
            }
        }
    }
}

#[test]
fn days_start_at_midnight() {
    let epoch = outside(&at(0, 0)).date_naive();
    for p in POINTS {
        let day = (outside(&p).date_naive() - epoch).num_days();
        assert_eq!(p.day_number(), day);
    }
    assert_eq!(at(0, 0).until_next_day(), Delay { secs: 86_400, nanos: 0 });
    assert_eq!(
        at(86_399, 999_999_999).until_next_day(),
        Delay { secs: 0, nanos: 1 }
    );
    assert_eq!(
        at(-1, 0).until_next_day(),
        Delay { secs: 1, nanos: 0 }
    );
}

#[test]
fn later_points() {
    assert_eq!(at(-1, 7).plus_seconds(6), at(5, 7));
    assert_eq!(at(5, 999_000_000).plus_millis(1), at(6, 0));
    assert_eq!(at(5, 1).plus_millis(2_500), at(7, 500_000_001));
    let last = at(LAST_SECOND, 999_999_999);
    assert_eq!(at(LAST_SECOND - 6, 7).plus_seconds(6), at(LAST_SECOND, 7));
    assert_eq!(at(LAST_SECOND - 6, 7).plus_seconds(7), last);
    assert_eq!(at(-1, 7).plus_seconds(u64::MAX), last);
    assert_eq!(at(LAST_SECOND, 999_000_000).plus_millis(0), at(LAST_SECOND, 999_000_000));
    assert_eq!(at(LAST_SECOND, 999_000_000).plus_millis(1), last);
}
