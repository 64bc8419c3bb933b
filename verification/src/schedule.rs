//! The schedule of the verifier: when it verifies an epoch, when it rewards
//! one and how long it sleeps in between.
//!
//! The daemon keeps three checkpoints, each a Unix timestamp in seconds:
//! the end of the last verified epoch, the end of the last rewarded epoch
//! and the end of the next epoch to reward. What it does at an instant
//! depends on these, on its two periods and on nothing else, so a daemon
//! that is started again with the checkpoints it had stored goes on where it
//! stopped.

use vstd::prelude::*;

verus! {

/// Nanoseconds in one second.
pub const NANOS_PER_SECOND: i128 = 1_000_000_000;

/// Seconds in one hour.
pub const SECONDS_PER_HOUR: i64 = 3_600;

/// The longest reward period in hours: the last whose length in
/// milliseconds fits in 63 bits.
pub const MAX_REWARD_PERIOD_HOURS: i64 = 2_562_047_788_015;

/// A point in time: whole seconds since the Unix epoch and the nanoseconds
/// into the second. Its view is the number of nanoseconds since the Unix
/// epoch.
#[derive(Debug, Clone, Copy, PartialEq, Eq)]
pub struct Instant {
    secs: i64,
    nanos: u32,
}

impl View for Instant {
    type V = int;

    closed spec fn view(&self) -> int {
        self.secs * NANOS_PER_SECOND + self.nanos
    }
}

impl Instant {
    #[verifier::type_invariant]
    spec fn well_formed(self) -> bool {
        self.nanos < NANOS_PER_SECOND
    }

    /// The instant `nanos` nanoseconds after the second `secs`, or `None`
    /// where `nanos` is a second or more.
    pub fn new(secs: i64, nanos: u32) -> (r: Option<Instant>)
        ensures
            nanos >= NANOS_PER_SECOND ==> r is None,
            nanos < NANOS_PER_SECOND ==> r is Some && r.unwrap()@ == secs * NANOS_PER_SECOND
                + nanos,
    {
        if nanos >= 1_000_000_000 {
            None
        } else {
            Some(Instant { secs, nanos })
        }
    }

    /// The start of the second `secs`.
    pub fn from_secs(secs: i64) -> (r: Instant)
        ensures
            r@ == secs * NANOS_PER_SECOND,
    {
        Instant { secs, nanos: 0 }
    }

    /// The Unix timestamp of this instant: its whole seconds, rounded down.
    pub fn timestamp(&self) -> (r: i64)
        ensures
            r == self@ / (NANOS_PER_SECOND as int),
    {
        proof {
            use_type_invariant(self);
            lemma_seconds_and_nanos(self.secs as int, self.nanos as int);
        }
        self.secs
    }

    /// The nanoseconds since the last whole second.
    pub fn subsec_nanos(&self) -> (r: u32)
        ensures
            r == self@ % (NANOS_PER_SECOND as int),
    {
        proof {
            use_type_invariant(self);
            lemma_seconds_and_nanos(self.secs as int, self.nanos as int);
        }
        self.nanos
    }

    /// The nanoseconds since the Unix epoch.
    pub fn nanos_since_epoch(&self) -> (r: i128)
        ensures
            r == self@,
    {
        self.secs as i128 * NANOS_PER_SECOND + self.nanos as i128
    }
}

proof fn lemma_seconds_and_nanos(secs: int, nanos: int)
    by (nonlinear_arith)
    requires
        0 <= nanos < 1_000_000_000,
    ensures
        (secs * 1_000_000_000 + nanos) / 1_000_000_000 == secs,
        (secs * 1_000_000_000 + nanos) % 1_000_000_000 == nanos,
{
}

/// A range of time, from `start` up to but without `end`, in nanoseconds
/// since the Unix epoch.
pub struct EpochView {
    pub start: int,
    pub end: int,
}

/// A range of time, from `start` up to but without `end`.
#[derive(Debug, Clone, Copy, PartialEq, Eq)]
pub struct Epoch {
    pub start: Instant,
    pub end: Instant,
}

impl View for Epoch {
    type V = EpochView;

    open spec fn view(&self) -> EpochView {
        EpochView { start: self.start@, end: self.end@ }
    }
}

/// The length of `epoch` in nanoseconds.
pub fn epoch_duration(epoch: &Epoch) -> (r: i128)
    ensures
        r == epoch@.end - epoch@.start,
{
    epoch.end.nanos_since_epoch() - epoch.start.nanos_since_epoch()
}

/// What the daemon does at an instant, in nanoseconds.
pub struct StepView {
    pub verify: Option<EpochView>,
    pub reward: Option<EpochView>,
    pub sleep: int,
}

/// What the daemon does at an instant: it verifies `verify` where there is
/// one, then rewards `reward` where there is one, then sleeps for
/// `sleep_nanos` nanoseconds.
#[derive(Debug, Clone, Copy, PartialEq, Eq)]
pub struct Step {
    pub verify: Option<Epoch>,
    pub reward: Option<Epoch>,
    pub sleep_nanos: u128,
}

/// The view of an epoch where there is one.
pub open spec fn epoch_view_of(epoch: Option<Epoch>) -> Option<EpochView> {
    match epoch {
        Some(epoch) => Some(epoch@),
        None => None,
    }
}

impl View for Step {
    type V = StepView;

    open spec fn view(&self) -> StepView {
        StepView {
            verify: epoch_view_of(self.verify),
            reward: epoch_view_of(self.reward),
            sleep: self.sleep_nanos as int,
        }
    }
}

/// Why the daemon cannot go on.
#[derive(Debug, Clone, Copy, PartialEq, Eq, Structural)]
pub enum ScheduleError {
    /// The reward period or the number of verifications in it is not
    /// positive.
    InvalidPeriods,
    /// A time or a length of time is out of range.
    OutOfRange,
}

/// The periods and the checkpoints of the verifier daemon.
#[derive(Debug, Clone, Copy, PartialEq, Eq, Structural)]
pub struct VerifierDaemon {
    pub reward_period_hours: i64,
    pub verifications_per_period: i32,
    pub last_verified_end_time: i64,
    pub last_rewarded_end_time: i64,
    pub next_rewarded_end_time: i64,
}

/// The smaller of two numbers.
pub open spec fn min_of(a: int, b: int) -> int {
    if a <= b {
        a
    } else {
        b
    }
}

impl VerifierDaemon {
    /// What is wrong with the periods, if anything.
    pub open spec fn spec_periods_error(self) -> Option<ScheduleError> {
        if self.reward_period_hours <= 0 || self.verifications_per_period <= 0 {
            Some(ScheduleError::InvalidPeriods)
        } else if self.reward_period_hours > MAX_REWARD_PERIOD_HOURS {
            Some(ScheduleError::OutOfRange)
        } else {
            None
        }
    }

    /// The reward period in seconds.
    pub open spec fn spec_reward_period_secs(self) -> int {
        self.reward_period_hours * SECONDS_PER_HOUR
    }

    /// The reward period in nanoseconds.
    pub open spec fn spec_reward_period(self) -> int {
        self.spec_reward_period_secs() * NANOS_PER_SECOND
    }

    /// The verification period in nanoseconds: the reward period divided
    /// by the number of verifications in it, rounded down.
    pub open spec fn spec_verification_period(self) -> int {
        self.spec_reward_period() / (self.verifications_per_period as int)
    }

    /// The end of the last verified epoch in nanoseconds.
    pub open spec fn spec_last_verified(self) -> int {
        self.last_verified_end_time * NANOS_PER_SECOND
    }

    /// The end of the last rewarded epoch in nanoseconds.
    pub open spec fn spec_last_rewarded(self) -> int {
        self.last_rewarded_end_time * NANOS_PER_SECOND
    }

    /// The end of the next epoch to reward in nanoseconds.
    pub open spec fn spec_next_rewarded(self) -> int {
        self.next_rewarded_end_time * NANOS_PER_SECOND
    }

    /// The time from the end of the last verified epoch to `now`.
    pub open spec fn spec_since_last_verify(self, now: int) -> int {
        now - self.spec_last_verified()
    }

    /// The daemon verifies at `now` where a whole verification period has
    /// gone by since the last verified epoch, or where a reward is due.
    pub open spec fn spec_verify_due(self, now: int) -> bool {
        self.spec_since_last_verify(now) >= self.spec_verification_period()
            || self.spec_reward_due(now)
    }

    /// A reward is due at `now` where the next epoch to reward has ended.
    pub open spec fn spec_reward_due(self, now: int) -> bool {
        now >= self.spec_next_rewarded()
    }

    /// The epoch to verify at `now`. It starts where the last verified
    /// epoch ended, is as long as the time gone by since but no longer than
    /// a verification period, and does not reach beyond the end of the next
    /// epoch to reward.
    pub open spec fn spec_verify_epoch(self, now: int) -> EpochView {
        let length = min_of(self.spec_since_last_verify(now), self.spec_verification_period());
        EpochView {
            start: self.spec_last_verified(),
            end: min_of(self.spec_last_verified() + length, self.spec_next_rewarded()),
        }
    }

    /// The epoch to reward: from the end of the last rewarded epoch to the
    /// end of the next.
    pub open spec fn spec_reward_epoch(self) -> EpochView {
        EpochView { start: self.spec_last_rewarded(), end: self.spec_next_rewarded() }
    }

    /// How long the daemon would sleep at `now` if no reward were ahead.
    /// After a verification that leaves more than a verification period
    /// still to verify it does not sleep at all, after any other for a
    /// verification period. Without a verification it sleeps for the rest of
    /// the verification period.
    pub open spec fn spec_sleep_until_verify(self, now: int) -> int {
        let since = self.spec_since_last_verify(now);
        let period = self.spec_verification_period();
        if self.spec_verify_due(now) {
            if since - min_of(since, period) > period {
                0
            } else {
                period
            }
        } else {
            period - since
        }
    }

    /// How long the daemon sleeps at `now`. Where no reward is due yet and
    /// the sleep would reach the end of the next epoch to reward, it ends
    /// there.
    pub open spec fn spec_sleep(self, now: int) -> int {
        let sleep = self.spec_sleep_until_verify(now);
        if !self.spec_reward_due(now) && now + sleep >= self.spec_next_rewarded() {
            self.spec_next_rewarded() - now
        } else {
            sleep
        }
    }

    /// What the daemon does at `now`.
    pub open spec fn spec_next_step(self, now: int) -> StepView {
        StepView {
            verify: if self.spec_verify_due(now) {
                Some(self.spec_verify_epoch(now))
            } else {
                None
            },
            reward: if self.spec_reward_due(now) {
                Some(self.spec_reward_epoch())
            } else {
                None
            },
            sleep: self.spec_sleep(now),
        }
    }

    /// The reward period in seconds.
    fn reward_period_secs(&self) -> (r: Result<i64, ScheduleError>)
        ensures
            match self.spec_periods_error() {
                Some(e) => r == Err::<i64, ScheduleError>(e),
                None => r is Ok && r->Ok_0 == self.spec_reward_period_secs() && r->Ok_0 > 0,
            },
    {
        if self.reward_period_hours <= 0 || self.verifications_per_period <= 0 {
            Err(ScheduleError::InvalidPeriods)
        } else if self.reward_period_hours > MAX_REWARD_PERIOD_HOURS {
            Err(ScheduleError::OutOfRange)
        } else {
            Ok(self.reward_period_hours * SECONDS_PER_HOUR)
        }
    }

    /// The time from the end of the last verified epoch to `now`.
    pub fn epoch_since_last_verify(&self, now: Instant) -> (r: Epoch)
        ensures
            r@ == (EpochView { start: self.spec_last_verified(), end: now@ }),
    {
        Epoch { start: Instant::from_secs(self.last_verified_end_time), end: now }
    }

    /// What the daemon does at `now`.
    ///
    /// It never sleeps a negative time, and while no reward is due it never
    /// sleeps beyond the end of the next epoch to reward.
    pub fn next_step(&self, now: Instant) -> (r: Result<Step, ScheduleError>)
        ensures
            match self.spec_periods_error() {
                Some(e) => r == Err::<Step, ScheduleError>(e),
                None => r is Ok && r->Ok_0@ == self.spec_next_step(now@),
            },
            r matches Ok(step) ==> !self.spec_reward_due(now@) ==> now@ + step.sleep_nanos
                <= self.spec_next_rewarded(),
    {
        let reward_period_secs = match self.reward_period_secs() {
            Ok(secs) => secs,
            Err(e) => {
                return Err(e);
            },
        };
        let reward_period: i128 = reward_period_secs as i128 * NANOS_PER_SECOND;
        let verification_period: i128 = reward_period / self.verifications_per_period as i128;
        proof {
            lemma_quotient_range(reward_period as int, self.verifications_per_period as int);
        }
        let now_nanos = now.nanos_since_epoch();
        proof {
            use_type_invariant(&now);
        }
        let epoch_since_last_verify = self.epoch_since_last_verify(now);
        let since_last_verify = epoch_duration(&epoch_since_last_verify);
        let last_rewarded = Instant::from_secs(self.last_rewarded_end_time);
        let next_rewarded = Instant::from_secs(self.next_rewarded_end_time);
        let next_rewarded_nanos = next_rewarded.nanos_since_epoch();
        let reward_due = now_nanos >= next_rewarded_nanos;

        // If we started up and the last verification epoch was too recent,
        // we do not want to re-verify. We always want to verify before a
        // reward.
        let mut verify: Option<Epoch> = None;
        let mut sleep: i128;
        if since_last_verify >= verification_period || reward_due {
            let end = if since_last_verify <= verification_period {
                now
            } else {
                let whole_secs: i128 = verification_period / NANOS_PER_SECOND;
                let rest: i128 = verification_period % NANOS_PER_SECOND;
                Instant {
                    secs: (self.last_verified_end_time as i128 + whole_secs) as i64,
                    nanos: rest as u32,
                }
            };
            let end = if end.nanos_since_epoch() <= next_rewarded_nanos {
                end
            } else {
                next_rewarded
            };
            verify = Some(Epoch { start: epoch_since_last_verify.start, end });
            sleep =
            if since_last_verify > verification_period && since_last_verify - verification_period
                > verification_period {
                0
            } else {
                verification_period
            };
        } else {
            sleep = verification_period - since_last_verify;
        }

        // If the next epoch to reward has ended, reward it. If the next
        // verification would straddle its end, cut off the sleep there, so
        // that verifying always ends up aligned with the reward period.
        let mut reward: Option<Epoch> = None;
        if reward_due {
            reward = Some(Epoch { start: last_rewarded, end: next_rewarded });
        } else if now_nanos + sleep >= next_rewarded_nanos {
            sleep = next_rewarded_nanos - now_nanos;
        }
        Ok(Step { verify, reward, sleep_nanos: sleep as u128 })
    }

    /// The daemon after it has verified an epoch that ends at the Unix
    /// timestamp `end`.
    pub open spec fn spec_verified(self, end: int) -> VerifierDaemon {
        VerifierDaemon { last_verified_end_time: end as i64, ..self }
    }

    /// The daemon after the step that it takes at `now`: after it has
    /// verified the epoch to verify, if there is one, and then rewarded the
    /// epoch to reward, if there is one. `Err` where the end of the next
    /// epoch to reward would be out of range.
    pub open spec fn spec_after_step(self, now: int) -> Result<VerifierDaemon, ScheduleError> {
        let verified = if self.spec_verify_due(now) {
            self.spec_verified(self.spec_verify_epoch(now).end / (NANOS_PER_SECOND as int))
        } else {
            self
        };
        if self.spec_reward_due(now) {
            verified.spec_rewarded(self.next_rewarded_end_time as int)
        } else {
            Ok(verified)
        }
    }

    /// Takes note that `epoch` was verified: the last verified epoch now
    /// ends at the Unix timestamp of the end of `epoch`.
    pub fn epoch_verified(&mut self, epoch: &Epoch)
        ensures
            *final(self) == old(self).spec_verified(epoch@.end / (NANOS_PER_SECOND as int)),
            final(self).last_verified_end_time == epoch@.end / (NANOS_PER_SECOND as int),
    {
        self.last_verified_end_time = epoch.end.timestamp();
    }

    /// Takes note that `epoch` was rewarded: the last rewarded epoch now
    /// ends at the Unix timestamp of the end of `epoch`, and the next one a
    /// reward period later. Where the periods are not valid, or that end is
    /// out of range, nothing changes.
    pub fn epoch_rewarded(&mut self, epoch: &Epoch) -> (r: Result<(), ScheduleError>)
        ensures
            match old(self).spec_rewarded(epoch@.end / (NANOS_PER_SECOND as int)) {
                Ok(after) => r is Ok && *final(self) == after,
                Err(e) => r == Err::<(), ScheduleError>(e) && *final(self) == *old(self),
            },
    {
        let reward_period_secs = match self.reward_period_secs() {
            Ok(secs) => secs,
            Err(e) => {
                return Err(e);
            },
        };
        let end = epoch.end.timestamp();
        if end > i64::MAX - reward_period_secs {
            return Err(ScheduleError::OutOfRange);
        }
        self.last_rewarded_end_time = end;
        self.next_rewarded_end_time = end + reward_period_secs;
        Ok(())
    }

    /// The daemon after it has rewarded an epoch that ends at the Unix
    /// timestamp `end`.
    pub open spec fn spec_rewarded(self, end: int) -> Result<VerifierDaemon, ScheduleError> {
        match self.spec_periods_error() {
            Some(e) => Err(e),
            None => if end + self.spec_reward_period_secs() > i64::MAX {
                Err(ScheduleError::OutOfRange)
            } else {
                Ok(
                    VerifierDaemon {
                        last_rewarded_end_time: end as i64,
                        next_rewarded_end_time: (end + self.spec_reward_period_secs()) as i64,
                        ..self
                    },
                )
            },
        }
    }
}

/// What the daemon does at an instant depends on its periods and its
/// checkpoints alone: a daemon started again with the checkpoints that
/// another had stored does at every instant what that one would have done.
pub proof fn lemma_restart_resumes(stored: VerifierDaemon, restarted: VerifierDaemon, now: int)
    requires
        restarted.reward_period_hours == stored.reward_period_hours,
        restarted.verifications_per_period == stored.verifications_per_period,
        restarted.last_verified_end_time == stored.last_verified_end_time,
        restarted.last_rewarded_end_time == stored.last_rewarded_end_time,
        restarted.next_rewarded_end_time == stored.next_rewarded_end_time,
    ensures
        restarted.spec_periods_error() == stored.spec_periods_error(),
        restarted.spec_next_step(now) == stored.spec_next_step(now),
{
}

/// No epoch is rewarded twice. Once the daemon has taken note that the
/// epoch it was to reward is rewarded, the last rewarded epoch ends where
/// that epoch ended and before the next one does; until then no reward is
/// due; and the epoch it rewards after that starts where the rewarded one
/// ended and ends later.
pub proof fn lemma_rewarded_epoch_is_not_rewarded_again(
    daemon: VerifierDaemon,
    now: int,
    later: int,
)
    requires
        daemon.spec_periods_error() is None,
        daemon.spec_reward_due(now),
        daemon.spec_rewarded(daemon.next_rewarded_end_time as int) is Ok,
    ensures
        ({
            let rewarded = daemon.spec_next_step(now).reward.unwrap();
            let after = daemon.spec_rewarded(daemon.next_rewarded_end_time as int)->Ok_0;
            &&& rewarded == daemon.spec_reward_epoch()
            &&& after.spec_last_rewarded() == rewarded.end
            &&& after.last_rewarded_end_time < after.next_rewarded_end_time
            &&& later < after.spec_next_rewarded() ==> after.spec_next_step(later).reward is None
            &&& after.spec_next_step(later).reward matches Some(next) ==> next.start
                == rewarded.end && next.end > rewarded.end
        }),
{
}

/// A daemon whose last rewarded epoch ends before the next one never
/// rewards an epoch that ends where the last rewarded epoch ended.
pub proof fn lemma_reward_ends_after_last_rewarded(daemon: VerifierDaemon, now: int)
    requires
        daemon.last_rewarded_end_time < daemon.next_rewarded_end_time,
    ensures
        daemon.spec_next_step(now).reward matches Some(epoch) ==> epoch.start
            == daemon.spec_last_rewarded() && epoch.end > daemon.spec_last_rewarded(),
{
}

/// Verifying keeps the checkpoints in order. Where the last verified epoch
/// does not end after the next epoch to reward, the epoch to verify starts
/// where the last verified one ended, is at most a verification period
/// long, ends neither after `now` nor after the next epoch to reward, and
/// the Unix timestamp of its end is not before that of its start.
pub proof fn lemma_verify_epoch_in_order(daemon: VerifierDaemon, now: int)
    requires
        daemon.spec_periods_error() is None,
        daemon.last_verified_end_time <= daemon.next_rewarded_end_time,
        daemon.spec_verify_due(now),
    ensures
        ({
            let epoch = daemon.spec_verify_epoch(now);
            &&& epoch.start == daemon.spec_last_verified()
            &&& epoch.start <= epoch.end
            &&& epoch.end <= now
            &&& epoch.end <= daemon.spec_next_rewarded()
            &&& epoch.end - epoch.start <= daemon.spec_verification_period()
            &&& daemon.last_verified_end_time <= epoch.end / (NANOS_PER_SECOND as int)
                <= daemon.next_rewarded_end_time
        }),
{
    lemma_quotient_range(
        daemon.spec_reward_period(),
        daemon.verifications_per_period as int,
    );
    let epoch = daemon.spec_verify_epoch(now);
    lemma_timestamp_between(
        daemon.last_verified_end_time as int,
        epoch.end,
        daemon.next_rewarded_end_time as int,
    );
}

/// No checkpoint ever goes back. A daemon whose next epoch to reward ends
/// neither before the last verified nor before the last rewarded epoch has,
/// after any step, checkpoints that are at least what they were and still
/// in that order.
pub proof fn lemma_checkpoints_never_go_back(daemon: VerifierDaemon, now: int)
    requires
        daemon.spec_periods_error() is None,
        daemon.last_verified_end_time <= daemon.next_rewarded_end_time,
        daemon.last_rewarded_end_time <= daemon.next_rewarded_end_time,
        daemon.spec_after_step(now) is Ok,
    ensures
        ({
            let after = daemon.spec_after_step(now)->Ok_0;
            &&& after.reward_period_hours == daemon.reward_period_hours
            &&& after.verifications_per_period == daemon.verifications_per_period
            &&& daemon.last_verified_end_time <= after.last_verified_end_time
            &&& daemon.last_rewarded_end_time <= after.last_rewarded_end_time
            &&& daemon.next_rewarded_end_time <= after.next_rewarded_end_time
            &&& after.last_verified_end_time <= after.next_rewarded_end_time
            &&& after.last_rewarded_end_time <= after.next_rewarded_end_time
        }),
{
    if daemon.spec_verify_due(now) {
        lemma_verify_epoch_in_order(daemon, now);
    }
}

/// The daemon never sleeps a negative time, and while no reward is due it
/// sleeps at most until the end of the next epoch to reward.
pub proof fn lemma_sleep_ends_by_next_reward(daemon: VerifierDaemon, now: int)
    requires
        daemon.spec_periods_error() is None,
    ensures
        daemon.spec_sleep(now) >= 0,
        !daemon.spec_reward_due(now) ==> now + daemon.spec_sleep(now)
            <= daemon.spec_next_rewarded(),
{
    lemma_quotient_range(
        daemon.spec_reward_period(),
        daemon.verifications_per_period as int,
    );
}

proof fn lemma_timestamp_between(low: int, nanos: int, high: int)
    by (nonlinear_arith)
    requires
        low * 1_000_000_000 <= nanos <= high * 1_000_000_000,
    ensures
        low <= nanos / 1_000_000_000 <= high,
{
}

proof fn lemma_quotient_range(total: int, parts: int)
    by (nonlinear_arith)
    requires
        total >= 0,
        parts > 0,
    ensures
        0 <= total / parts <= total,
{
}

} // verus!
