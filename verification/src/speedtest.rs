//! Speed tests of a radio: how they are averaged and which tier, and so
//! which multiplier, an average falls into.

use crate::decimal::{Decimal, DecimalView};
use vstd::prelude::*;

verus! {

/// Bytes per second in one megabit per second.
pub const BYTES_PER_MEGABIT: u64 = 125_000;

/// A transfer rate in bytes per second.
#[derive(Debug, Clone, Copy, PartialEq, Eq, Structural)]
pub struct BytesPs(pub u64);

impl BytesPs {
    /// A rate of `bytes_per_second`.
    pub fn new(bytes_per_second: u64) -> (r: BytesPs)
        ensures
            r.0 == bytes_per_second,
    {
        BytesPs(bytes_per_second)
    }

    /// A rate of `megabits_per_second`, or the largest rate there is where
    /// that many megabits do not fit.
    pub fn mbps(megabits_per_second: u64) -> (r: BytesPs)
        ensures
            r.0 == if megabits_per_second * BYTES_PER_MEGABIT <= u64::MAX {
                megabits_per_second * BYTES_PER_MEGABIT
            } else {
                u64::MAX as int
            },
    {
        if megabits_per_second > u64::MAX / BYTES_PER_MEGABIT {
            BytesPs(u64::MAX)
        } else {
            BytesPs(megabits_per_second * BYTES_PER_MEGABIT)
        }
    }

    /// The rate in whole megabits per second.
    pub open spec fn spec_as_mbps(self) -> int {
        self.0 as int / BYTES_PER_MEGABIT as int
    }

    /// The rate in whole megabits per second.
    pub fn as_mbps(&self) -> (r: u64)
        ensures
            r == self.spec_as_mbps(),
    {
        self.0 / BYTES_PER_MEGABIT
    }
}

/// A duration in milliseconds.
#[derive(Debug, Clone, Copy, PartialEq, Eq, Structural)]
pub struct Millis(pub u32);

impl Millis {
    /// A duration of `milliseconds`.
    pub fn new(milliseconds: u32) -> (r: Millis)
        ensures
            r.0 == milliseconds,
    {
        Millis(milliseconds)
    }
}

/// The quality of a connection, best first.
#[derive(Debug, Clone, Copy, PartialEq, Eq, Structural)]
pub enum SpeedtestTier {
    Good,
    Acceptable,
    Degraded,
    Poor,
    Fail,
}

impl SpeedtestTier {
    /// A number that is larger for a better tier.
    pub open spec fn spec_level(self) -> int {
        match self {
            SpeedtestTier::Good => 4,
            SpeedtestTier::Acceptable => 3,
            SpeedtestTier::Degraded => 2,
            SpeedtestTier::Poor => 1,
            SpeedtestTier::Fail => 0,
        }
    }

    /// The worse of two tiers.
    pub open spec fn spec_worse(self, other: SpeedtestTier) -> SpeedtestTier {
        if other.spec_level() < self.spec_level() {
            other
        } else {
            self
        }
    }

    /// The share of its points that a radio of this tier keeps.
    pub open spec fn spec_multiplier(self) -> DecimalView {
        match self {
            SpeedtestTier::Good => DecimalView { mantissa: 100, scale: 2 },
            SpeedtestTier::Acceptable => DecimalView { mantissa: 75, scale: 2 },
            SpeedtestTier::Degraded => DecimalView { mantissa: 50, scale: 2 },
            SpeedtestTier::Poor => DecimalView { mantissa: 25, scale: 2 },
            SpeedtestTier::Fail => DecimalView { mantissa: 0, scale: 0 },
        }
    }

    /// The tier of a download rate: from 100, 75, 50 and 30 megabits per
    /// second upwards.
    pub open spec fn spec_from_download(rate: BytesPs) -> SpeedtestTier {
        let mbps = rate.spec_as_mbps();
        if mbps >= 100 {
            SpeedtestTier::Good
        } else if mbps >= 75 {
            SpeedtestTier::Acceptable
        } else if mbps >= 50 {
            SpeedtestTier::Degraded
        } else if mbps >= 30 {
            SpeedtestTier::Poor
        } else {
            SpeedtestTier::Fail
        }
    }

    /// The tier of an upload rate: from 10, 8, 5 and 2 megabits per second
    /// upwards.
    pub open spec fn spec_from_upload(rate: BytesPs) -> SpeedtestTier {
        let mbps = rate.spec_as_mbps();
        if mbps >= 10 {
            SpeedtestTier::Good
        } else if mbps >= 8 {
            SpeedtestTier::Acceptable
        } else if mbps >= 5 {
            SpeedtestTier::Degraded
        } else if mbps >= 2 {
            SpeedtestTier::Poor
        } else {
            SpeedtestTier::Fail
        }
    }

    /// The tier of a latency: under 50, 60, 75 and 100 milliseconds.
    pub open spec fn spec_from_latency(latency: Millis) -> SpeedtestTier {
        if latency.0 < 50 {
            SpeedtestTier::Good
        } else if latency.0 < 60 {
            SpeedtestTier::Acceptable
        } else if latency.0 < 75 {
            SpeedtestTier::Degraded
        } else if latency.0 < 100 {
            SpeedtestTier::Poor
        } else {
            SpeedtestTier::Fail
        }
    }

    fn level(self) -> (r: u8)
        ensures
            r == self.spec_level(),
    {
        match self {
            SpeedtestTier::Good => 4,
            SpeedtestTier::Acceptable => 3,
            SpeedtestTier::Degraded => 2,
            SpeedtestTier::Poor => 1,
            SpeedtestTier::Fail => 0,
        }
    }

    /// The worse of two tiers.
    pub fn worse(self, other: SpeedtestTier) -> (r: SpeedtestTier)
        ensures
            r == self.spec_worse(other),
    {
        if other.level() < self.level() {
            other
        } else {
            self
        }
    }

    /// The share of its points that a radio of this tier keeps: 1.00, 0.75,
    /// 0.50, 0.25 or 0.
    pub fn multiplier(self) -> (r: Decimal)
        ensures
            r@ == self.spec_multiplier(),
    {
        match self {
            SpeedtestTier::Good => Decimal::scaled(100, 2),
            SpeedtestTier::Acceptable => Decimal::scaled(75, 2),
            SpeedtestTier::Degraded => Decimal::scaled(50, 2),
            SpeedtestTier::Poor => Decimal::scaled(25, 2),
            SpeedtestTier::Fail => Decimal::from_u32(0),
        }
    }

    /// The tier of a download rate.
    pub fn from_download(rate: BytesPs) -> (r: SpeedtestTier)
        ensures
            r == SpeedtestTier::spec_from_download(rate),
    {
        let mbps: u64 = rate.as_mbps();
        if mbps >= 100 {
            SpeedtestTier::Good
        } else if mbps >= 75 {
            SpeedtestTier::Acceptable
        } else if mbps >= 50 {
            SpeedtestTier::Degraded
        } else if mbps >= 30 {
            SpeedtestTier::Poor
        } else {
            SpeedtestTier::Fail
        }
    }

    /// The tier of an upload rate.
    pub fn from_upload(rate: BytesPs) -> (r: SpeedtestTier)
        ensures
            r == SpeedtestTier::spec_from_upload(rate),
    {
        let mbps: u64 = rate.as_mbps();
        if mbps >= 10 {
            SpeedtestTier::Good
        } else if mbps >= 8 {
            SpeedtestTier::Acceptable
        } else if mbps >= 5 {
            SpeedtestTier::Degraded
        } else if mbps >= 2 {
            SpeedtestTier::Poor
        } else {
            SpeedtestTier::Fail
        }
    }

    /// The tier of a latency.
    pub fn from_latency(latency: Millis) -> (r: SpeedtestTier)
        ensures
            r == SpeedtestTier::spec_from_latency(latency),
    {
        if latency.0 < 50 {
            SpeedtestTier::Good
        } else if latency.0 < 60 {
            SpeedtestTier::Acceptable
        } else if latency.0 < 75 {
            SpeedtestTier::Degraded
        } else if latency.0 < 100 {
            SpeedtestTier::Poor
        } else {
            SpeedtestTier::Fail
        }
    }
}

/// One speed test.
#[derive(Debug, Clone, Copy, PartialEq, Eq, Structural)]
pub struct Speedtest {
    pub upload_speed: BytesPs,
    pub download_speed: BytesPs,
    pub latency: Millis,
}

/// The sum of the upload rates of `tests`.
pub open spec fn upload_sum(tests: Seq<Speedtest>) -> int
    decreases tests.len(),
{
    if tests.len() == 0 {
        0
    } else {
        upload_sum(tests.drop_last()) + tests.last().upload_speed.0
    }
}

/// The sum of the download rates of `tests`.
pub open spec fn download_sum(tests: Seq<Speedtest>) -> int
    decreases tests.len(),
{
    if tests.len() == 0 {
        0
    } else {
        download_sum(tests.drop_last()) + tests.last().download_speed.0
    }
}

/// The sum of the latencies of `tests`.
pub open spec fn latency_sum(tests: Seq<Speedtest>) -> int
    decreases tests.len(),
{
    if tests.len() == 0 {
        0
    } else {
        latency_sum(tests.drop_last()) + tests.last().latency.0
    }
}

impl Speedtest {
    /// The tier of this speed test: the worst of the tiers of its upload
    /// rate, its download rate and its latency.
    pub open spec fn spec_tier(self) -> SpeedtestTier {
        SpeedtestTier::spec_from_upload(self.upload_speed).spec_worse(
            SpeedtestTier::spec_from_download(self.download_speed),
        ).spec_worse(SpeedtestTier::spec_from_latency(self.latency))
    }

    /// The average of `tests`: of each of the three measures the sum
    /// divided by the number of tests, rounded down.
    pub open spec fn spec_avg(tests: Seq<Speedtest>) -> Speedtest {
        Speedtest {
            upload_speed: BytesPs((upload_sum(tests) / tests.len() as int) as u64),
            download_speed: BytesPs((download_sum(tests) / tests.len() as int) as u64),
            latency: Millis((latency_sum(tests) / tests.len() as int) as u32),
        }
    }

    /// The tier of this speed test.
    pub fn tier(&self) -> (r: SpeedtestTier)
        ensures
            r == self.spec_tier(),
    {
        let upload = SpeedtestTier::from_upload(self.upload_speed);
        let download = SpeedtestTier::from_download(self.download_speed);
        let latency = SpeedtestTier::from_latency(self.latency);
        upload.worse(download).worse(latency)
    }

    /// The multiplier of this speed test's tier.
    pub fn multiplier(&self) -> (r: Decimal)
        ensures
            r@ == self.spec_tier().spec_multiplier(),
    {
        self.tier().multiplier()
    }

    /// The average of `tests`, of which there is at least one.
    pub fn avg(tests: &[Speedtest]) -> (r: Speedtest)
        requires
            tests@.len() > 0,
        ensures
            r == Speedtest::spec_avg(tests@),
            r.upload_speed.0 == upload_sum(tests@) / tests@.len() as int,
            r.download_speed.0 == download_sum(tests@) / tests@.len() as int,
            r.latency.0 == latency_sum(tests@) / tests@.len() as int,
    {
        let count: usize = tests.len();
        let mut upload: u128 = 0;
        let mut download: u128 = 0;
        let mut latency: u128 = 0;
        let mut i: usize = 0;
        while i < count
            invariant
                count == tests@.len(),
                i <= count,
                upload == upload_sum(tests@.take(i as int)),
                download == download_sum(tests@.take(i as int)),
                latency == latency_sum(tests@.take(i as int)),
                upload <= i * 0xFFFF_FFFF_FFFF_FFFF,
                download <= i * 0xFFFF_FFFF_FFFF_FFFF,
                latency <= i * 0xFFFF_FFFF,
            decreases count - i,
        {
            let test = tests[i];
            proof {
                assert(tests@.take(i + 1).drop_last() == tests@.take(i as int));
                assert(tests@.take(i + 1).last() == tests@[i as int]);
            }
            upload = upload + test.upload_speed.0 as u128;
            download = download + test.download_speed.0 as u128;
            latency = latency + test.latency.0 as u128;
            i = i + 1;
        }
        proof {
            assert(tests@.take(count as int) == tests@);
            lemma_quotient_bound(upload as int, count as int, 0xFFFF_FFFF_FFFF_FFFF);
            lemma_quotient_bound(download as int, count as int, 0xFFFF_FFFF_FFFF_FFFF);
            lemma_quotient_bound(latency as int, count as int, 0xFFFF_FFFF);
        }
        Speedtest {
            upload_speed: BytesPs((upload / count as u128) as u64),
            download_speed: BytesPs((download / count as u128) as u64),
            latency: Millis((latency / count as u128) as u32),
        }
    }
}

/// A sum of `count` terms of at most `bound` each has a mean of at most
/// `bound`.
proof fn lemma_quotient_bound(sum: int, count: int, bound: int)
    by (nonlinear_arith)
    requires
        0 <= sum <= count * bound,
        count > 0,
        bound >= 0,
    ensures
        0 <= sum / count <= bound,
{
}

} // verus!
