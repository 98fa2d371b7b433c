use steam_player_role::clock::{Delay, Timestamp, LAST_SECOND};
use steam_player_role::services::quota::{
    burst_rate, publisher_scope, Class, Outcome, PublisherQuotas, QuotaGovernor, QuotaSnapshot,
};

/// A day that starts at this second.
const MIDNIGHT: i64 = 19_000 * 86_400;

fn at(secs: i64) -> Timestamp {
    Timestamp {
        secs: MIDNIGHT + secs,
        nanos: 0,
    }
}

fn governor(total: i64, background: i64, used: i64) -> QuotaGovernor {
    QuotaGovernor::new_at("main".to_string(), total, background, used, &at(0))
}

#[test]
fn interactive_calls_are_granted_at_once_up_to_the_budget() {
    let mut g = governor(3, 1, 0);
    for n in 1..=3 {
        assert_eq!(g.acquire_at(Class::Interactive, &at(5)), (Outcome::Granted, 0));
        assert_eq!(g.used, n);
        assert_eq!(g.unflushed, n);
    }
    assert_eq!(
        g.acquire_at(Class::Interactive, &at(86_390)),
        (
            Outcome::Exhausted {
                retry_after: Delay { secs: 10, nanos: 0 }
            },
            0
        )
    );
    assert_eq!(g.used, 3);
}

#[test]
fn background_calls_leave_the_reserve() {
    let mut g = governor(10, 2, 2);
    assert_eq!(
        g.acquire_at(Class::Background, &at(86_399)),
        (
            Outcome::Exhausted {
                retry_after: Delay { secs: 1, nanos: 0 }
            },
            0
        )
    );
    assert_eq!(g.acquire_at(Class::Interactive, &at(86_399)).0, Outcome::Granted);
}

#[test]
fn background_calls_are_paced_over_the_day() {
    // 86400 s left and 8640 calls left after the first: 10 s apart.
    let mut g = governor(8_641, 8_641, 0);
    assert_eq!(g.acquire_at(Class::Background, &at(0)), (Outcome::Granted, 0));
    assert_eq!(g.bg_next_at, at(10));
    let (outcome, wait) = g.acquire_at(Class::Background, &at(4));
    assert_eq!(outcome, Outcome::Granted);
    assert_eq!(wait, 6_000);
    // 86396 s left for 8639 calls: 10.000 s.
    assert_eq!(g.bg_next_at, at(20));
    // A late call does not wait.
    assert_eq!(g.acquire_at(Class::Background, &at(100)).1, 0);
}

#[test]
fn background_calls_are_at_most_a_minute_apart() {
    let mut g = governor(2, 2, 0);
    g.acquire_at(Class::Background, &at(0));
    assert_eq!(g.bg_next_at, at(60));
}

#[test]
fn a_new_day_starts_with_a_full_budget() {
    let mut g = governor(5, 5, 5);
    g.mark_throttled_at(1_000_000, &at(86_399));
    assert_eq!(
        g.acquire_at(Class::Interactive, &at(86_399)),
        (
            Outcome::Exhausted {
                retry_after: Delay {
                    secs: 1_000_000,
                    nanos: 0
                }
            },
            0
        )
    );
    assert_eq!(g.acquire_at(Class::Interactive, &at(86_400)).0, Outcome::Granted);
    assert_eq!(g.used, 1);
    assert_eq!(g.date, 19_001);
}

#[test]
fn a_pause_ends_and_the_longer_one_counts() {
    let mut g = governor(5, 5, 0);
    g.mark_throttled_at(0, &at(0));
    assert_eq!(g.throttled_until, Some(at(1)));
    g.mark_throttled_at(100, &at(0));
    g.mark_throttled_at(10, &at(0));
    assert_eq!(g.throttled_until, Some(at(100)));
    assert!(g.snapshot_at(&at(99)).throttled);
    assert!(!g.snapshot_at(&at(100)).throttled);
    assert_eq!(g.acquire_at(Class::Interactive, &at(100)).0, Outcome::Granted);
    assert_eq!(g.throttled_until, None);
}

#[test]
fn units_are_flushed_once_and_come_back_on_failure() {
    let mut g = governor(9, 9, 1);
    assert_eq!(g.flush(), None);
    g.acquire_at(Class::Interactive, &at(1));
    g.acquire_at(Class::Interactive, &at(1));
    assert_eq!(g.flush(), Some((19_000, 2)));
    assert_eq!(g.flush(), None);
    g.flush_failed(2);
    assert_eq!(g.flush(), Some((19_000, 2)));
    // Another process has spent too.
    g.flushed(19_000, 7);
    assert_eq!(g.used, 7);
    g.flushed(19_000, 2);
    assert_eq!(g.used, 7);
    g.flushed(18_999, 100);
    assert_eq!(g.used, 7);
}

#[test]
fn snapshots_show_the_budget() {
    let mut g = governor(100, 80, 30);
    let snap = g.snapshot_at(&Timestamp {
        secs: MIDNIGHT + 86_390,
        nanos: 1,
    });
    assert_eq!(
        snap,
        QuotaSnapshot {
            date: 19_000,
            used: 30,
            total_budget: 100,
            background_budget: 80,
            reset_in_secs: 9,
            throttled: false,
        }
    );
    assert_eq!(snap.remaining(), 70);
    assert_eq!(g.snapshot_at(&at(86_400)).used, 0);
    assert_eq!(QuotaSnapshot { used: 101, ..snap }.remaining(), 0);
}

#[test]
fn burst_rates_scale_with_the_budget() {
    assert_eq!(burst_rate(0), 25);
    assert_eq!(burst_rate(100_000), 25);
    assert_eq!(burst_rate(86_400 * 100), 400);
    assert_eq!(burst_rate(i64::MAX / 4), 100_000);
}

#[test]
fn publisher_keys_have_governors_of_their_own() {
    assert_eq!(publisher_scope("abc"), "pub:ba7816bf8f01");
    let mut quotas = PublisherQuotas::new(50);
    assert!(!quotas.knows("abc"));
    let first = quotas.for_key_at("abc", 7, &at(3));
    assert!(quotas.knows("abc") && !quotas.knows("abd"));
    let g = &mut quotas.governors.entries[first].1;
    assert_eq!(g.scope, "pub:ba7816bf8f01");
    assert_eq!((g.total_budget, g.background_budget, g.used), (50, 50, 7));
    assert_eq!(g.bg_next_at, at(3));
    g.acquire_at(Class::Background, &at(4));
    let other = quotas.for_key_at("abd", 0, &at(5));
    assert_ne!(first, other);
    // The first one stays, with what it has spent.
    assert_eq!(quotas.for_key_at("abc", 0, &at(6)), first);
    assert_eq!(quotas.governors.entries[first].1.used, 8);
    assert_eq!(quotas.governors.entries.len(), 2);
}

#[test]
fn the_clock_of_the_machine_is_read() {
    let before = chrono::Utc::now().timestamp();
    let mut g = QuotaGovernor::new("main".to_string(), 10, 10, 0);
    let after = chrono::Utc::now().timestamp();
    assert!(before <= g.bg_next_at.secs && g.bg_next_at.secs <= after);
    assert_eq!(g.acquire(Class::Interactive).0, Outcome::Granted);
    g.mark_throttled(60);
    let until = g.throttled_until.unwrap().secs;
    assert!(before + 60 <= until && until <= chrono::Utc::now().timestamp() + 60);
    assert!(g.snapshot().throttled);
    g.mark_throttled(u64::MAX);
    assert_eq!(g.throttled_until, Some(LAST));
    let mut quotas = PublisherQuotas::new(5);
    assert_eq!(quotas.for_key("k", 0), 0);
    assert_eq!(quotas.for_key("k", 0), 0);
}

const LAST: Timestamp = Timestamp {
    secs: LAST_SECOND,
    nanos: 999_999_999,
};

#[test]
fn pauses_stop_at_the_last_point() {
    for secs in [i64::MAX as u64, u64::MAX] {
        let mut g = governor(5, 5, 0);
        g.mark_throttled_at(secs, &at(0));
        assert_eq!(g.throttled_until, Some(LAST));
        assert!(g.snapshot_at(&at(1)).throttled);
    }
}

#[test]
fn the_last_day_is_like_any_other() {
    let now = Timestamp {
        secs: LAST_SECOND,
        nanos: 0,
    };
    let mut g = QuotaGovernor::new_at("main".to_string(), 2, 2, 0, &now);
    assert_eq!(g.snapshot_at(&now).reset_in_secs, 1);
    assert_eq!(g.acquire_at(Class::Background, &now), (Outcome::Granted, 0));
    assert_eq!(g.bg_next_at, LAST);
    assert_eq!(g.acquire_at(Class::Background, &now), (Outcome::Granted, 999));
    assert_eq!(g.bg_next_at, LAST);
    assert_eq!(
        g.acquire_at(Class::Background, &now).0,
        Outcome::Exhausted {
            retry_after: Delay { secs: 1, nanos: 0 }
        }
    );
}
