use just_one_init::lease::{lease_event, renew_interval, Interval, LeaseAttempt, NANOS_PER_SEC};
use just_one_init::state::JustOneInitState;

#[test]
fn granted_lease_makes_a_leader() {
    let verdict = lease_event(LeaseAttempt::Answered {
        acquired_lease: true,
        lease_present: true,
    });
    assert_eq!(verdict.event, JustOneInitState::BecameLeader);
    assert!(!verdict.warn);
}

#[test]
fn lease_held_by_another_makes_a_follower() {
    let verdict = lease_event(LeaseAttempt::Answered {
        acquired_lease: false,
        lease_present: true,
    });
    assert_eq!(verdict.event, JustOneInitState::BecameFollower);
    assert!(!verdict.warn);
}

#[test]
fn absent_lease_makes_a_follower() {
    let verdict = lease_event(LeaseAttempt::Answered {
        acquired_lease: true,
        lease_present: false,
    });
    assert_eq!(verdict.event, JustOneInitState::BecameFollower);
    assert!(!verdict.warn);
    let verdict = lease_event(LeaseAttempt::Answered {
        acquired_lease: false,
        lease_present: false,
    });
    assert_eq!(verdict.event, JustOneInitState::BecameFollower);
    assert!(!verdict.warn);
}

#[test]
fn failed_attempt_makes_a_follower_and_warns() {
    let verdict = lease_event(LeaseAttempt::Failed);
    assert_eq!(verdict.event, JustOneInitState::BecameFollower);
    assert!(verdict.warn);
}

#[test]
fn renewal_happens_every_third_of_the_lifetime() {
    assert_eq!(renew_interval(15), Interval { secs: 5, nanos: 0 });
    assert_eq!(renew_interval(3), Interval { secs: 1, nanos: 0 });
    assert_eq!(renew_interval(0), Interval { secs: 0, nanos: 0 });
}

#[test]
fn renewal_interval_is_exact_to_the_nanosecond() {
    assert_eq!(
        renew_interval(16),
        Interval {
            secs: 5,
            nanos: 333_333_333
        }
    );
    assert_eq!(
        renew_interval(17),
        Interval {
            secs: 5,
            nanos: 666_666_666
        }
    );
    assert_eq!(
        renew_interval(1),
        Interval {
            secs: 0,
            nanos: 333_333_333
        }
    );
    assert_eq!(
        renew_interval(u64::MAX),
        Interval {
            secs: 6_148_914_691_236_517_205,
            nanos: 0
        }
    );
}

#[test]
fn renewal_interval_matches_duration_division() {
    for ttl in [0u64, 1, 2, 3, 14, 15, 16, 17, 3600, u64::MAX - 1, u64::MAX] {
        let expected = std::time::Duration::from_secs(ttl) / 3;
        let interval = renew_interval(ttl);
        assert!(interval.nanos < NANOS_PER_SEC);
        assert_eq!(
            std::time::Duration::new(interval.secs, interval.nanos),
            expected
        );
    }
}

#[test]
fn three_renewals_fit_into_the_lifetime() {
    for ttl in [1u64, 2, 15, 16, 17, 100] {
        let interval = renew_interval(ttl);
        let nanos = interval.secs as u128 * NANOS_PER_SEC as u128 + interval.nanos as u128;
        assert!(3 * nanos <= ttl as u128 * NANOS_PER_SEC as u128);
    }
}
