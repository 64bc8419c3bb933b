use chrono::{DateTime, Duration, TimeZone, Utc};
use mobile_rewards::schedule::{Epoch, Instant, VerifierDaemon, MAX_REWARD_PERIOD_HOURS};

type Range = (DateTime<Utc>, DateTime<Utc>);

/// What the daemon does at `now`, computed with `chrono`.
fn with_chrono(daemon: &VerifierDaemon, now: DateTime<Utc>) -> (Option<Range>, Option<Range>, Duration) {
    let reward_period = Duration::hours(daemon.reward_period_hours);
    let verification_period = reward_period / daemon.verifications_per_period;
    let last_verified = Utc.timestamp_opt(daemon.last_verified_end_time, 0).unwrap();
    let last_rewarded = Utc.timestamp_opt(daemon.last_rewarded_end_time, 0).unwrap();
    let next_rewarded = Utc.timestamp_opt(daemon.next_rewarded_end_time, 0).unwrap();
    let since_last_verify = now - last_verified;

    let mut verify = None;
    let mut sleep = if since_last_verify >= verification_period || now >= next_rewarded {
        let epoch_duration = since_last_verify.min(verification_period);
        verify = Some((last_verified, (last_verified + epoch_duration).min(next_rewarded)));
        if since_last_verify - epoch_duration > verification_period {
            Duration::zero()
        } else {
            verification_period
        }
    } else {
        verification_period - since_last_verify
    };

    let mut reward = None;
    if now >= next_rewarded {
        reward = Some((last_rewarded, next_rewarded));
    } else if now + sleep >= next_rewarded {
        sleep = next_rewarded - now;
    }
    (verify, reward, sleep)
}

fn instant(time: DateTime<Utc>) -> Instant {
    Instant::new(time.timestamp(), time.timestamp_subsec_nanos()).unwrap()
}

fn range(epoch: Epoch) -> Range {
    let date_time = |instant: Instant| {
        DateTime::from_timestamp(instant.timestamp(), instant.subsec_nanos()).unwrap()
    };
    (date_time(epoch.start), date_time(epoch.end))
}

fn check(daemon: &VerifierDaemon, now: DateTime<Utc>) {
    let (verify, reward, sleep) = with_chrono(daemon, now);
    let step = daemon.next_step(instant(now)).unwrap();
    assert_eq!(step.verify.map(range), verify, "{daemon:?} at {now}");
    assert_eq!(step.reward.map(range), reward, "{daemon:?} at {now}");
    let sleep = sleep.to_std().unwrap();
    assert_eq!(step.sleep_nanos, sleep.as_nanos(), "{daemon:?} at {now}");
}

#[test]
fn steps_are_those_that_chrono_computes() {
    let start = 1_700_000_000;
    let periods = [(24, 8), (24, 7), (1, 7), (1, 1), (5, 13), (168, 1_000_003)];
    let offsets = [
        -7_200_000_000_001i64,
        -1,
        0,
        1,
        999_999_999,
        514_285_714_285,
        514_285_714_286,
        1_028_571_428_570,
        1_028_571_428_571,
        3_599_999_999_999,
        3_600_000_000_000,
        3_600_000_000_001,
        10_800_000_000_000,
        21_600_000_000_000,
        21_600_000_000_001,
        86_399_999_999_999,
        86_400_000_000_000,
        86_400_000_000_001,
        200_000_000_000_000,
    ];
    for (hours, verifications) in periods {
        let period = hours * 3_600;
        for verified in [0, 1, period / 3, period - 1, period] {
            for next in [period, period + 17] {
                let daemon = VerifierDaemon {
                    reward_period_hours: hours,
                    verifications_per_period: verifications,
                    last_verified_end_time: start + verified,
                    last_rewarded_end_time: start,
                    next_rewarded_end_time: start + next,
                };
                for offset in offsets {
                    let now = Utc.timestamp_opt(start, 0).unwrap() + Duration::nanoseconds(offset);
                    check(&daemon, now);
                }
            }
        }
    }
}

#[test]
fn checkpoints_are_those_that_chrono_computes() {
    let mut daemon = VerifierDaemon {
        reward_period_hours: 5,
        verifications_per_period: 13,
        last_verified_end_time: -10_000,
        last_rewarded_end_time: -18_000,
        next_rewarded_end_time: 0,
    };
    // before the Unix epoch, with a fraction of a second
    let end = Utc.timestamp_opt(-9_000, 0).unwrap() + Duration::nanoseconds(-1);
    daemon.epoch_verified(&Epoch {
        start: instant(Utc.timestamp_opt(-10_000, 0).unwrap()),
        end: instant(end),
    });
    assert_eq!(daemon.last_verified_end_time, end.timestamp());
    assert_eq!(daemon.last_verified_end_time, -9_001);

    let end = Utc.timestamp_opt(0, 0).unwrap();
    daemon
        .epoch_rewarded(&Epoch {
            start: instant(Utc.timestamp_opt(-18_000, 0).unwrap()),
            end: instant(end),
        })
        .unwrap();
    assert_eq!(daemon.last_rewarded_end_time, end.timestamp());
    assert_eq!(
        daemon.next_rewarded_end_time,
        (end + Duration::hours(5)).timestamp()
    );
}

#[test]
fn the_longest_reward_period_is_the_longest_of_chrono() {
    assert!(Duration::try_hours(MAX_REWARD_PERIOD_HOURS).is_some());
    assert!(Duration::try_hours(MAX_REWARD_PERIOD_HOURS + 1).is_none());
}
