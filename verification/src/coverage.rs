//! Coverage points: the reward weight of one radio for one epoch.
//!
//! Each hex that a radio covers is worth the base points of its signal
//! level, times the multiplier of its land assignments, times the multiplier
//! of its rank, times its boost. The sum over the hexes is scaled by the
//! radio's location trust and by the tier of its speed tests, and cut off
//! after two decimal places.

use crate::decimal::{
    add_opt, lemma_truncated_bounds, mul_opt, pow10, view_of, Decimal, DecimalView,
};
use crate::speedtest::{Speedtest, SpeedtestTier};
use vstd::prelude::*;

verus! {

/// Beyond this distance from its asserted location a radio that covers a
/// boosted hex has each trust score capped.
pub const RESTRICTIVE_MAX_DISTANCE: u32 = 50;

/// A radio needs this many speed tests to be of any tier but the lowest.
pub const MIN_REQUIRED_SPEEDTEST_SAMPLES: usize = 2;

/// A decimal that is at most one.
pub type MaxOneMultplier = Decimal;

/// A number of coverage points.
pub type Points = Decimal;

/// The place of a hex among the hexes of a radio: 1 is the best.
#[derive(Debug, Clone, Copy, PartialEq, Eq)]
pub struct Rank {
    value: usize,
}

impl View for Rank {
    type V = nat;

    closed spec fn view(&self) -> nat {
        self.value as nat
    }
}

impl Rank {
    #[verifier::type_invariant]
    pub open spec fn well_formed(self) -> bool {
        self@ >= 1
    }

    /// The rank `value`, or `None` for zero.
    pub fn new(value: usize) -> (r: Option<Rank>)
        ensures
            value == 0 ==> r is None,
            value > 0 ==> r is Some && r.unwrap()@ == value,
    {
        if value == 0 {
            None
        } else {
            Some(Rank { value })
        }
    }

    /// The rank as a number, which is at least 1.
    pub fn get(&self) -> (r: usize)
        ensures
            r == self@,
            r >= 1,
    {
        proof {
            use_type_invariant(self);
        }
        self.value
    }
}

/// The factor by which a boosted hex counts: at least 1.
#[derive(Debug, Clone, Copy, PartialEq, Eq)]
pub struct Multiplier {
    value: u32,
}

impl View for Multiplier {
    type V = nat;

    closed spec fn view(&self) -> nat {
        self.value as nat
    }
}

impl Multiplier {
    #[verifier::type_invariant]
    pub open spec fn well_formed(self) -> bool {
        1 <= self@ <= u32::MAX
    }

    /// The factor `value`, or `None` for zero.
    pub fn new(value: u32) -> (r: Option<Multiplier>)
        ensures
            value == 0 ==> r is None,
            value > 0 ==> r is Some && r.unwrap()@ == value,
    {
        if value == 0 {
            None
        } else {
            Some(Multiplier { value })
        }
    }

    /// The factor as a number, which is at least 1.
    pub fn get(&self) -> (r: u32)
        ensures
            r == self@,
            r >= 1,
    {
        proof {
            use_type_invariant(self);
        }
        self.value
    }
}

/// A distance in meters.
#[derive(Debug, Clone, Copy, PartialEq, Eq, PartialOrd, Ord)]
pub struct Meters(u32);

impl View for Meters {
    type V = nat;

    closed spec fn view(&self) -> nat {
        self.0 as nat
    }
}

impl Meters {
    /// A distance of `meters`.
    pub fn new(meters: u32) -> (r: Meters)
        ensures
            r@ == meters,
    {
        Meters(meters)
    }

    /// The distance as a number.
    pub fn get(&self) -> (r: u32)
        ensures
            r == self@,
    {
        self.0
    }
}

/// How far a radio was found from where it says it is, and how much its
/// location is trusted for it.
#[derive(Debug, Clone, Copy, PartialEq)]
pub struct LocationTrust {
    pub distance_to_asserted: Meters,
    pub trust_score: Decimal,
}

/// The kind of a radio.
#[derive(Debug, Clone, Copy, PartialEq, Eq, Structural)]
pub enum RadioType {
    IndoorWifi,
    OutdoorWifi,
    IndoorCbrs,
    OutdoorCbrs,
}

/// How strong the signal of a radio is in a hex.
#[derive(Debug, Clone, Copy, PartialEq, Eq, Structural)]
pub enum SignalLevel {
    High,
    Medium,
    Low,
    NoSignal,
}

/// One of the three classes of a land assignment.
#[derive(Debug, Clone, Copy, PartialEq, Eq, Structural)]
pub enum Assignment {
    A,
    B,
    C,
}

/// The land assignments of a hex.
#[derive(Debug, Clone, Copy, PartialEq, Eq, Structural)]
pub struct Assignments {
    pub footfall: Assignment,
    pub landtype: Assignment,
    pub urbanized: Assignment,
}

/// A hex that a radio covers.
#[derive(Debug, Clone, Copy, PartialEq, Eq)]
pub struct CoveredHex {
    pub rank: Rank,
    pub signal_level: SignalLevel,
    pub assignments: Assignments,
    pub boosted: Option<Multiplier>,
}

/// A radio with all that its coverage points depend on.
#[derive(Debug, Clone, PartialEq)]
pub struct RewardableRadio {
    pub radio_type: RadioType,
    pub speedtests: Vec<Speedtest>,
    pub location_trust_scores: Vec<LocationTrust>,
    pub verified_radio_threshold: bool,
    pub hexes: Vec<CoveredHex>,
}

/// The coverage points of a radio, and the radio they were computed for.
#[derive(Debug)]
pub struct CoveragePoints {
    pub coverage_points: Decimal,
    pub radio: RewardableRadio,
}

/// Why a radio has no coverage points.
#[derive(Debug, Clone, Copy, PartialEq, Eq, Structural)]
pub enum CoverageError {
    /// An indoor radio has a hex, within the ranks that count, with a
    /// signal level that indoor radios do not have.
    InvalidSignalLevel,
    /// A radio whose location trust is averaged has no trust scores.
    NoLocationTrustScores,
    /// A sum, product or quotient is too large for a decimal.
    Overflow,
}

impl RadioType {
    /// Indoor radios count only their best hex.
    pub open spec fn is_indoor(self) -> bool {
        self == RadioType::IndoorWifi || self == RadioType::IndoorCbrs
    }

    /// Cbrs radios locate themselves, so their location is trusted.
    pub open spec fn is_cbrs(self) -> bool {
        self == RadioType::IndoorCbrs || self == RadioType::OutdoorCbrs
    }

    /// The points of one hex at `signal_level` before any multiplier, or
    /// `None` where a radio of this type cannot have that signal level.
    pub open spec fn spec_base_coverage_points(self, signal_level: SignalLevel) -> Option<nat> {
        match (self, signal_level) {
            (RadioType::IndoorWifi, SignalLevel::High) => Some(400),
            (RadioType::IndoorWifi, SignalLevel::Low) => Some(100),
            (RadioType::IndoorWifi, _) => None,
            (RadioType::OutdoorWifi, SignalLevel::High) => Some(16),
            (RadioType::OutdoorWifi, SignalLevel::Medium) => Some(8),
            (RadioType::OutdoorWifi, SignalLevel::Low) => Some(4),
            (RadioType::OutdoorWifi, SignalLevel::NoSignal) => Some(0),
            (RadioType::IndoorCbrs, SignalLevel::High) => Some(100),
            (RadioType::IndoorCbrs, SignalLevel::Low) => Some(25),
            (RadioType::IndoorCbrs, _) => None,
            (RadioType::OutdoorCbrs, SignalLevel::High) => Some(4),
            (RadioType::OutdoorCbrs, SignalLevel::Medium) => Some(2),
            (RadioType::OutdoorCbrs, SignalLevel::Low) => Some(1),
            (RadioType::OutdoorCbrs, SignalLevel::NoSignal) => Some(0),
        }
    }

    /// The multipliers of the ranks that count, best rank first: 1 for an
    /// indoor radio; 1, 0.5 and 0.25 for an outdoor radio.
    pub open spec fn spec_rank_multipliers(self) -> Seq<DecimalView> {
        if self.is_indoor() {
            seq![DecimalView { mantissa: 1, scale: 0 }]
        } else {
            seq![
                DecimalView { mantissa: 1, scale: 0 },
                DecimalView { mantissa: 5, scale: 1 },
                DecimalView { mantissa: 25, scale: 2 },
            ]
        }
    }

    /// The last rank that counts.
    pub open spec fn spec_max_rank(self) -> nat {
        if self.is_indoor() {
            1
        } else {
            3
        }
    }

    /// The points of one hex at `signal_level` before any multiplier.
    /// An indoor radio has no medium signal and no hex without signal.
    pub fn base_coverage_points(&self, signal_level: &SignalLevel) -> (r: Result<
        Points,
        CoverageError,
    >)
        ensures
            match self.spec_base_coverage_points(*signal_level) {
                Some(points) => r is Ok && r->Ok_0@ == (DecimalView {
                    mantissa: points as int,
                    scale: 0,
                }),
                None => r == Err::<Points, CoverageError>(CoverageError::InvalidSignalLevel),
            },
    {
        match self {
            RadioType::IndoorWifi => match signal_level {
                SignalLevel::High => Ok(Decimal::from_u32(400)),
                SignalLevel::Low => Ok(Decimal::from_u32(100)),
                _ => Err(CoverageError::InvalidSignalLevel),
            },
            RadioType::OutdoorWifi => match signal_level {
                SignalLevel::High => Ok(Decimal::from_u32(16)),
                SignalLevel::Medium => Ok(Decimal::from_u32(8)),
                SignalLevel::Low => Ok(Decimal::from_u32(4)),
                SignalLevel::NoSignal => Ok(Decimal::from_u32(0)),
            },
            RadioType::IndoorCbrs => match signal_level {
                SignalLevel::High => Ok(Decimal::from_u32(100)),
                SignalLevel::Low => Ok(Decimal::from_u32(25)),
                _ => Err(CoverageError::InvalidSignalLevel),
            },
            RadioType::OutdoorCbrs => match signal_level {
                SignalLevel::High => Ok(Decimal::from_u32(4)),
                SignalLevel::Medium => Ok(Decimal::from_u32(2)),
                SignalLevel::Low => Ok(Decimal::from_u32(1)),
                SignalLevel::NoSignal => Ok(Decimal::from_u32(0)),
            },
        }
    }

    /// The multipliers of the ranks that count, best rank first.
    pub fn rank_multipliers(&self) -> (r: Vec<Decimal>)
        ensures
            r@.len() == self.spec_rank_multipliers().len(),
            r@.len() == self.spec_max_rank(),
            forall|i: int| 0 <= i < r@.len() ==> (#[trigger] r@[i])@ == self.spec_rank_multipliers()[i],
    {
        let mut multipliers: Vec<Decimal> = Vec::new();
        multipliers.push(Decimal::from_u32(1));
        match self {
            RadioType::IndoorWifi => {},
            RadioType::IndoorCbrs => {},
            RadioType::OutdoorWifi => {
                multipliers.push(Decimal::scaled(5, 1));
                multipliers.push(Decimal::scaled(25, 2));
            },
            RadioType::OutdoorCbrs => {
                multipliers.push(Decimal::scaled(5, 1));
                multipliers.push(Decimal::scaled(25, 2));
            },
        }
        multipliers
    }
}

impl Assignments {
    /// The multiplier of these assignments in hundredths. A hex outside
    /// the serviceable territory (urbanized C) counts for nothing. Elsewhere
    /// a hex with footfall A counts in full, one with footfall B for 70
    /// hundredths where urbanized and 50 where not, and one without footfall
    /// by its land type: 40, 30 or 5 where urbanized, 20, 15 or 3 where not.
    pub open spec fn spec_hundredths(self) -> nat {
        if self.urbanized == Assignment::C {
            0
        } else {
            let urban = self.urbanized == Assignment::A;
            match self.footfall {
                Assignment::A => 100,
                Assignment::B => if urban {
                    70
                } else {
                    50
                },
                Assignment::C => match self.landtype {
                    Assignment::A => if urban {
                        40
                    } else {
                        20
                    },
                    Assignment::B => if urban {
                        30
                    } else {
                        15
                    },
                    Assignment::C => if urban {
                        5
                    } else {
                        3
                    },
                },
            }
        }
    }

    /// The multiplier of these assignments: so many hundredths, written
    /// with two decimal places.
    pub open spec fn spec_multiplier(self) -> DecimalView {
        DecimalView { mantissa: self.spec_hundredths() as int, scale: 2 }
    }

    /// The multiplier of these assignments.
    pub fn multiplier(&self) -> (r: MaxOneMultplier)
        ensures
            r@ == self.spec_multiplier(),
    {
        let hundredths: u32 = match (self.footfall, self.landtype, self.urbanized) {
            // a point of interest with footfall, urbanized
            (Assignment::A, Assignment::A, Assignment::A) => 100,
            (Assignment::A, Assignment::B, Assignment::A) => 100,
            (Assignment::A, Assignment::C, Assignment::A) => 100,
            // a point of interest with footfall, not urbanized
            (Assignment::A, Assignment::A, Assignment::B) => 100,
            (Assignment::A, Assignment::B, Assignment::B) => 100,
            (Assignment::A, Assignment::C, Assignment::B) => 100,
            // a point of interest, urbanized
            (Assignment::B, Assignment::A, Assignment::A) => 70,
            (Assignment::B, Assignment::B, Assignment::A) => 70,
            (Assignment::B, Assignment::C, Assignment::A) => 70,
            // a point of interest, not urbanized
            (Assignment::B, Assignment::A, Assignment::B) => 50,
            (Assignment::B, Assignment::B, Assignment::B) => 50,
            (Assignment::B, Assignment::C, Assignment::B) => 50,
            // no point of interest, urbanized
            (Assignment::C, Assignment::A, Assignment::A) => 40,
            (Assignment::C, Assignment::B, Assignment::A) => 30,
            (Assignment::C, Assignment::C, Assignment::A) => 5,
            // no point of interest, not urbanized
            (Assignment::C, Assignment::A, Assignment::B) => 20,
            (Assignment::C, Assignment::B, Assignment::B) => 15,
            (Assignment::C, Assignment::C, Assignment::B) => 3,
            // outside the serviceable territory
            (_, _, Assignment::C) => 0,
        };
        Decimal::scaled(hundredths, 2)
    }
}

impl CoveredHex {
    /// The rank is one of those that count for a radio of `radio_type`.
    pub open spec fn in_rank(self, radio_type: RadioType) -> bool {
        1 <= self.rank@ <= radio_type.spec_max_rank()
    }

    /// The factor by which this hex is boosted: its boost where it has one
    /// and the radio is verified for boosted rewards, and 1 otherwise.
    pub open spec fn spec_boost(self, verified: bool) -> nat {
        if verified {
            match self.boosted {
                Some(boost) => boost@,
                None => 1,
            }
        } else {
            1
        }
    }

    /// The multiplier of this hex's rank: 1, 0.5 or 0.25.
    pub open spec fn spec_rank_multiplier(self, radio_type: RadioType) -> DecimalView {
        radio_type.spec_rank_multipliers()[self.rank@ - 1]
    }

    /// The multiplier of this hex's rank in quarters: 4, 2 or 1.
    pub open spec fn spec_rank_quarters(self) -> nat {
        if self.rank@ == 1 {
            4
        } else if self.rank@ == 2 {
            2
        } else {
            1
        }
    }
}

/// The points of one hex whose rank counts: its base points times the
/// multipliers of its assignments and of its rank, times its boost. They are
/// written with the two decimal places of the assignment multiplier and
/// those of the rank multiplier, and zero is written with none. `None` where
/// the radio cannot have the hex's signal level.
pub open spec fn spec_hex_points(radio_type: RadioType, verified: bool, hex: CoveredHex) -> Option<
    DecimalView,
> {
    match radio_type.spec_base_coverage_points(hex.signal_level) {
        None => None,
        Some(base) => {
            let rank = hex.spec_rank_multiplier(radio_type);
            let mantissa = base * hex.assignments.spec_hundredths() * rank.mantissa
                * hex.spec_boost(verified);
            if mantissa == 0 {
                Some(DecimalView::zero())
            } else {
                Some(DecimalView { mantissa, scale: 2 + rank.scale })
            }
        },
    }
}

/// The points of the hexes of a radio: the sum, from zero and in their
/// order, of the points of each hex whose rank counts. A hex whose rank
/// does not count is left out.
pub open spec fn spec_base_points(radio_type: RadioType, verified: bool, hexes: Seq<CoveredHex>)
    -> Option<DecimalView>
    decreases hexes.len(),
{
    if hexes.len() == 0 {
        Some(DecimalView::zero())
    } else {
        let before = spec_base_points(radio_type, verified, hexes.drop_last());
        if hexes.last().in_rank(radio_type) {
            add_opt(before, spec_hex_points(radio_type, verified, hexes.last()))
        } else {
            before
        }
    }
}

/// Every hex whose rank counts has a signal level that a radio of
/// `radio_type` can have.
pub open spec fn spec_signal_levels_valid(radio_type: RadioType, hexes: Seq<CoveredHex>) -> bool {
    forall|i: int|
        0 <= i < hexes.len() && (#[trigger] hexes[i]).in_rank(radio_type)
            ==> radio_type.spec_base_coverage_points(hexes[i].signal_level) is Some
}

/// Some hex carries a boost, whether or not its rank counts.
pub open spec fn spec_any_hexes_boosted(hexes: Seq<CoveredHex>) -> bool {
    exists|i: int| 0 <= i < hexes.len() && (#[trigger] hexes[i]).boosted is Some
}

proof fn lemma_product_bounds(a: int, b: int, a_max: int, b_max: int)
    by (nonlinear_arith)
    requires
        0 <= a <= a_max,
        0 <= b <= b_max,
    ensures
        0 <= a * b <= a_max * b_max,
        a > 0 && b > 0 ==> a * b > 0,
{
}

/// The products that make up the points of a hex are all exact, and the
/// last of them is `spec_hex_points`.
proof fn lemma_hex_points_products(radio_type: RadioType, verified: bool, hex: CoveredHex)
    requires
        hex.in_rank(radio_type),
        radio_type.spec_base_coverage_points(hex.signal_level) is Some,
    ensures
        ({
            let base = DecimalView {
                mantissa: radio_type.spec_base_coverage_points(hex.signal_level).unwrap() as int,
                scale: 0,
            };
            let boost = DecimalView { mantissa: hex.spec_boost(verified) as int, scale: 0 };
            let with_assignments = base.checked_mul(hex.assignments.spec_multiplier());
            let with_rank = mul_opt(with_assignments, hex.spec_rank_multiplier(radio_type));
            let with_boost = mul_opt(with_rank, boost);
            &&& with_assignments is Some
            &&& with_rank is Some
            &&& with_boost is Some
            &&& with_boost == spec_hex_points(radio_type, verified, hex)
        }),
{
    let b = radio_type.spec_base_coverage_points(hex.signal_level).unwrap() as int;
    let h = hex.assignments.spec_hundredths() as int;
    let k = hex.spec_boost(verified) as int;
    let rank = hex.spec_rank_multiplier(radio_type);
    let base = DecimalView { mantissa: b, scale: 0 };
    let boost = DecimalView { mantissa: k, scale: 0 };
    assert(0 <= b <= 400);
    assert(0 <= h <= 100);
    assert(0 <= k <= u32::MAX);
    assert(rank.mantissa == 1 && rank.scale == 0 || rank.mantissa == 5 && rank.scale == 1
        || rank.mantissa == 25 && rank.scale == 2);
    lemma_product_bounds(b, h, 400, 100);
    let first = base.checked_mul(hex.assignments.spec_multiplier()).unwrap();
    assert(first.mantissa == b * h);
    lemma_product_bounds(first.mantissa, rank.mantissa, 40000, 25);
    let second = first.checked_mul(rank).unwrap();
    assert(second.mantissa == b * h * rank.mantissa);
    lemma_product_bounds(second.mantissa, k, 1000000, 0xFFFF_FFFF);
    let third = second.checked_mul(boost).unwrap();
    assert(third.mantissa == b * h * rank.mantissa * k);
}

/// The points of a hex are a number that is not negative, with at most
/// four decimal places. With base points `b`, an assignment multiplier of
/// `h` hundredths, a rank multiplier of `q` quarters and a boost of `k`, they
/// are `b * h * q * k / 400`.
pub proof fn lemma_hex_points_value(radio_type: RadioType, verified: bool, hex: CoveredHex)
    requires
        hex.in_rank(radio_type),
        radio_type.spec_base_coverage_points(hex.signal_level) is Some,
    ensures
        spec_hex_points(radio_type, verified, hex) matches Some(points) && {
            &&& points.wf()
            &&& points.mantissa >= 0
            &&& points.scale <= 4
            &&& points.mantissa * 400 == radio_type.spec_base_coverage_points(
                hex.signal_level,
            ).unwrap() * hex.assignments.spec_hundredths() * hex.spec_rank_quarters()
                * hex.spec_boost(verified) * pow10(points.scale)
        },
{
    let b = radio_type.spec_base_coverage_points(hex.signal_level).unwrap() as int;
    let h = hex.assignments.spec_hundredths() as int;
    let k = hex.spec_boost(verified) as int;
    let q = hex.spec_rank_quarters() as int;
    let rank = hex.spec_rank_multiplier(radio_type);
    let points = spec_hex_points(radio_type, verified, hex).unwrap();
    reveal_with_fuel(pow10, 5);
    lemma_product_bounds(b, h, 400, 100);
    lemma_product_bounds(b * h, rank.mantissa, 40000, 25);
    lemma_product_bounds(b * h * rank.mantissa, k, 1000000, 0xFFFF_FFFF);
    assert(points.mantissa * 400 == b * h * q * k * pow10(points.scale)) by (nonlinear_arith)
        requires
            points.mantissa == (b * h) * rank.mantissa * k,
            points.mantissa == 0 ==> points.scale == 0,
            points.mantissa != 0 ==> points.scale == 2 + rank.scale,
            rank.mantissa == 1 && rank.scale == 0 && q == 4 || rank.mantissa == 5 && rank.scale
                == 1 && q == 2 || rank.mantissa == 25 && rank.scale == 2 && q == 1,
            pow10(0) == 1,
            pow10(2) == 100,
            pow10(3) == 1000,
            pow10(4) == 10000,
    ;
}

impl LocationTrust {
    /// The trust score that counts. Where the radio covers a boosted hex
    /// and was found more than 50 meters from its asserted location, the
    /// score is capped at 0.25.
    pub open spec fn spec_effective_trust(self, boosted: bool) -> DecimalView {
        if boosted && self.distance_to_asserted@ > RESTRICTIVE_MAX_DISTANCE {
            (DecimalView { mantissa: 25, scale: 2 }).min(self.trust_score@)
        } else {
            self.trust_score@
        }
    }
}

/// The sum, from zero and in their order, of the trust scores that count.
pub open spec fn spec_trust_sum(boosted: bool, scores: Seq<LocationTrust>) -> Option<DecimalView>
    decreases scores.len(),
{
    if scores.len() == 0 {
        Some(DecimalView::zero())
    } else {
        add_opt(
            spec_trust_sum(boosted, scores.drop_last()),
            Some(scores.last().spec_effective_trust(boosted)),
        )
    }
}

/// No trust score is negative.
pub open spec fn spec_trust_not_negative(scores: Seq<LocationTrust>) -> bool {
    forall|i: int| 0 <= i < scores.len() ==> (#[trigger] scores[i]).trust_score@.mantissa >= 0
}

/// The multiplier for how far the radio's location is trusted. A Cbrs
/// radio is trusted in full. For any other radio it is the mean of the trust
/// scores that count; without a score there is no mean.
pub open spec fn spec_location_trust_multiplier(
    radio_type: RadioType,
    boosted: bool,
    scores: Seq<LocationTrust>,
) -> Result<DecimalView, CoverageError> {
    if radio_type.is_cbrs() {
        Ok(DecimalView { mantissa: 1, scale: 0 })
    } else if scores.len() == 0 {
        Err(CoverageError::NoLocationTrustScores)
    } else {
        match mean_of(spec_trust_sum(boosted, scores), scores.len()) {
            Some(mean) => Ok(mean),
            None => Err(CoverageError::Overflow),
        }
    }
}

/// `sum / count` where there is a sum.
pub open spec fn mean_of(sum: Option<DecimalView>, count: nat) -> Option<DecimalView> {
    match sum {
        Some(sum) => sum.checked_div(DecimalView { mantissa: count as int, scale: 0 }),
        None => None,
    }
}

/// The multiplier for the radio's speed tests: that of the tier of their
/// average, and that of the lowest tier where there are fewer than two.
pub open spec fn spec_speedtest_multiplier(speedtests: Seq<Speedtest>) -> DecimalView {
    if speedtests.len() < MIN_REQUIRED_SPEEDTEST_SAMPLES {
        SpeedtestTier::Fail.spec_multiplier()
    } else {
        Speedtest::spec_avg(speedtests).spec_tier().spec_multiplier()
    }
}

/// The coverage points for the points of the hexes and the two
/// multipliers: their product, cut off after two decimal places. `None`
/// where the product is out of range.
pub open spec fn spec_coverage_points_from(
    base_points: DecimalView,
    location_trust: DecimalView,
    speedtest: DecimalView,
) -> Option<DecimalView> {
    match mul_opt(base_points.checked_mul(location_trust), speedtest) {
        Some(points) => Some(points.truncated(2)),
        None => None,
    }
}

impl RewardableRadio {
    /// The points of the hexes of this radio before the radio's
    /// multipliers. An unsupported signal level comes before a sum that is
    /// out of range.
    pub open spec fn spec_points_of_hexes(self) -> Result<DecimalView, CoverageError> {
        if !spec_signal_levels_valid(self.radio_type, self.hexes@) {
            Err(CoverageError::InvalidSignalLevel)
        } else {
            match spec_base_points(self.radio_type, self.verified_radio_threshold, self.hexes@) {
                Some(points) => Ok(points),
                None => Err(CoverageError::Overflow),
            }
        }
    }

    /// The coverage points of this radio, or the first reason, in the order
    /// of the computation, for which it has none.
    pub open spec fn spec_coverage_points(self) -> Result<DecimalView, CoverageError> {
        match self.spec_points_of_hexes() {
            Err(e) => Err(e),
            Ok(base_points) => match spec_location_trust_multiplier(
                self.radio_type,
                spec_any_hexes_boosted(self.hexes@),
                self.location_trust_scores@,
            ) {
                Err(e) => Err(e),
                Ok(location_trust) => match spec_coverage_points_from(
                    base_points,
                    location_trust,
                    spec_speedtest_multiplier(self.speedtests@),
                ) {
                    Some(points) => Ok(points),
                    None => Err(CoverageError::Overflow),
                },
            },
        }
    }

    /// A radio made of its parts.
    pub fn new(
        radio_type: RadioType,
        speedtests: Vec<Speedtest>,
        location_trust_scores: Vec<LocationTrust>,
        verified_radio_threshold: bool,
        hexes: Vec<CoveredHex>,
    ) -> (r: RewardableRadio)
        ensures
            r == (RewardableRadio {
                radio_type,
                speedtests,
                location_trust_scores,
                verified_radio_threshold,
                hexes,
            }),
    {
        RewardableRadio {
            radio_type,
            speedtests,
            location_trust_scores,
            verified_radio_threshold,
            hexes,
        }
    }

    /// Whether any hex of this radio carries a boost.
    pub fn any_hexes_boosted(&self) -> (r: bool)
        ensures
            r == spec_any_hexes_boosted(self.hexes@),
    {
        let mut i: usize = 0;
        while i < self.hexes.len()
            invariant
                i <= self.hexes@.len(),
                forall|j: int| 0 <= j < i ==> (#[trigger] self.hexes@[j]).boosted is None,
            decreases self.hexes@.len() - i,
        {
            if self.hexes[i].boosted.is_some() {
                return true;
            }
            i = i + 1;
        }
        false
    }

    /// The factor by which `hex` is boosted for this radio: the boost of
    /// the hex where this radio is verified for boosted rewards, and 1
    /// otherwise.
    pub fn hex_boosting_multiplier(&self, hex: &CoveredHex) -> (r: MaxOneMultplier)
        ensures
            r@ == (DecimalView {
                mantissa: hex.spec_boost(self.verified_radio_threshold) as int,
                scale: 0,
            }),
    {
        let maybe_boost: u32 = if self.verified_radio_threshold {
            match hex.boosted {
                Some(boost) => boost.get(),
                None => 1,
            }
        } else {
            1
        };
        Decimal::from_u32(maybe_boost)
    }

    /// The multiplier for this radio's speed tests.
    pub fn speedtest_multiplier(&self) -> (r: MaxOneMultplier)
        ensures
            r@ == spec_speedtest_multiplier(self.speedtests@),
            r@.mantissa >= 0,
    {
        if self.speedtests.len() < MIN_REQUIRED_SPEEDTEST_SAMPLES {
            return SpeedtestTier::Fail.multiplier();
        }
        let speedtest_avg = Speedtest::avg(self.speedtests.as_slice());
        speedtest_avg.multiplier()
    }

    /// The multiplier for how far this radio's location is trusted.
    pub fn location_trust_multiplier(&self) -> (r: Result<MaxOneMultplier, CoverageError>)
        ensures
            match spec_location_trust_multiplier(
                self.radio_type,
                spec_any_hexes_boosted(self.hexes@),
                self.location_trust_scores@,
            ) {
                Ok(multiplier) => r is Ok && r->Ok_0@ == multiplier,
                Err(e) => r == Err::<MaxOneMultplier, CoverageError>(e),
            },
            r matches Ok(multiplier) ==> (spec_trust_not_negative(self.location_trust_scores@)
                ==> multiplier@.mantissa >= 0),
    {
        // Cbrs radios are always trusted because they have internal GPS
        match self.radio_type {
            RadioType::IndoorCbrs => {
                return Ok(Decimal::from_u32(1));
            },
            RadioType::OutdoorCbrs => {
                return Ok(Decimal::from_u32(1));
            },
            _ => {},
        }
        let count: usize = self.location_trust_scores.len();
        if count == 0 {
            return Err(CoverageError::NoLocationTrustScores);
        }
        let boosted = self.any_hexes_boosted();
        let ghost scores = self.location_trust_scores@;
        let mut trust_score_sum: Option<Decimal> = Some(Decimal::from_u32(0));
        let mut i: usize = 0;
        while i < count
            invariant
                i <= count,
                count == self.location_trust_scores@.len(),
                scores == self.location_trust_scores@,
                view_of(trust_score_sum) == spec_trust_sum(boosted, scores.take(i as int)),
                spec_trust_not_negative(scores) ==> (trust_score_sum matches Some(sum)
                    ==> sum@.mantissa >= 0),
            decreases count - i,
        {
            let score = &self.location_trust_scores[i];
            proof {
                assert(scores.take(i + 1).drop_last() == scores.take(i as int));
                assert(scores.take(i + 1).last() == scores[i as int]);
            }
            // Cap a score at 0.25 when the radio covers any boosted hex and
            // its distance to asserted is above the threshold.
            let effective = if boosted && score.distance_to_asserted.get()
                > RESTRICTIVE_MAX_DISTANCE {
                Decimal::scaled(25, 2).min(score.trust_score)
            } else {
                score.trust_score
            };
            trust_score_sum =
            match trust_score_sum {
                Some(sum) => sum.checked_add(effective),
                None => None,
            };
            i = i + 1;
        }
        proof {
            assert(scores.take(count as int) == scores);
        }
        let trust_score_count = Decimal::from_usize(count);
        let mean = match trust_score_sum {
            Some(sum) => sum.checked_div(trust_score_count),
            None => None,
        };
        match mean {
            Some(mean) => Ok(mean),
            None => Err(CoverageError::Overflow),
        }
    }

    /// The points of one hex whose rank counts.
    fn hex_points(&self, rank_multipliers: &Vec<Decimal>, hex: &CoveredHex) -> (r: Result<
        Points,
        CoverageError,
    >)
        requires
            hex.in_rank(self.radio_type),
            rank_multipliers@.len() == self.radio_type.spec_max_rank(),
            forall|i: int|
                0 <= i < rank_multipliers@.len() ==> (#[trigger] rank_multipliers@[i])@
                    == self.radio_type.spec_rank_multipliers()[i],
        ensures
            match spec_hex_points(self.radio_type, self.verified_radio_threshold, *hex) {
                Some(points) => r is Ok && r->Ok_0@ == points && points.mantissa >= 0,
                None => r == Err::<Points, CoverageError>(CoverageError::InvalidSignalLevel),
            },
            spec_hex_points(self.radio_type, self.verified_radio_threshold, *hex) is Some
                <==> self.radio_type.spec_base_coverage_points(hex.signal_level) is Some,
    {
        let base_coverage_points = match self.radio_type.base_coverage_points(&hex.signal_level) {
            Ok(points) => points,
            Err(e) => {
                return Err(e);
            },
        };
        let assignments_multiplier = hex.assignments.multiplier();
        let rank_multiplier = rank_multipliers[hex.rank.get() - 1];
        let hex_boost_multiplier = self.hex_boosting_multiplier(hex);
        proof {
            lemma_hex_points_products(self.radio_type, self.verified_radio_threshold, *hex);
            lemma_hex_points_value(self.radio_type, self.verified_radio_threshold, *hex);
        }
        let with_assignments = base_coverage_points.checked_mul(assignments_multiplier);
        let with_rank = match with_assignments {
            Some(points) => points.checked_mul(rank_multiplier),
            None => None,
        };
        let with_boost = match with_rank {
            Some(points) => points.checked_mul(hex_boost_multiplier),
            None => None,
        };
        assert(view_of(with_boost) == spec_hex_points(
            self.radio_type,
            self.verified_radio_threshold,
            *hex,
        ));
        Ok(with_boost.unwrap())
    }

    /// The points of the hexes of this radio before the radio's
    /// multipliers: the sum of the points of each hex whose rank counts.
    pub fn base_points(&self) -> (r: Result<Points, CoverageError>)
        ensures
            match self.spec_points_of_hexes() {
                Ok(points) => r is Ok && r->Ok_0@ == points && points.mantissa >= 0,
                Err(e) => r == Err::<Points, CoverageError>(e),
            },
    {
        let rank_multipliers = self.radio_type.rank_multipliers();
        let max_rank = rank_multipliers.len();
        let mut sum: Option<Decimal> = Some(Decimal::from_u32(0));
        let mut i: usize = 0;
        while i < self.hexes.len()
            invariant
                i <= self.hexes@.len(),
                max_rank == self.radio_type.spec_max_rank(),
                rank_multipliers@.len() == self.radio_type.spec_max_rank(),
                forall|j: int|
                    0 <= j < rank_multipliers@.len() ==> (#[trigger] rank_multipliers@[j])@
                        == self.radio_type.spec_rank_multipliers()[j],
                spec_signal_levels_valid(self.radio_type, self.hexes@.take(i as int)),
                view_of(sum) == spec_base_points(
                    self.radio_type,
                    self.verified_radio_threshold,
                    self.hexes@.take(i as int),
                ),
                sum matches Some(points) ==> points@.mantissa >= 0,
            decreases self.hexes@.len() - i,
        {
            let hex = &self.hexes[i];
            proof {
                assert(self.hexes@.take(i + 1).drop_last() == self.hexes@.take(i as int));
                assert(self.hexes@.take(i + 1).last() == self.hexes@[i as int]);
            }
            if hex.rank.get() <= max_rank {
                let points = match self.hex_points(&rank_multipliers, hex) {
                    Ok(points) => points,
                    Err(e) => {
                        proof {
                            assert(self.hexes@[i as int].in_rank(self.radio_type));
                        }
                        return Err(e);
                    },
                };
                sum =
                match sum {
                    Some(before) => before.checked_add(points),
                    None => None,
                };
            }
            proof {
                assert forall|j: int|
                    0 <= j < self.hexes@.take(i + 1).len() && (#[trigger] self.hexes@.take(
                        i + 1,
                    )[j]).in_rank(self.radio_type) implies self.radio_type.spec_base_coverage_points(
                    self.hexes@.take(i + 1)[j].signal_level,
                ) is Some by {
                    if j < i {
                        assert(self.hexes@.take(i as int)[j] == self.hexes@.take(i + 1)[j]);
                    }
                }
            }
            i = i + 1;
        }
        proof {
            assert(self.hexes@.take(i as int) == self.hexes@);
        }
        match sum {
            Some(points) => Ok(points),
            None => Err(CoverageError::Overflow),
        }
    }
}

/// When a radio has no coverage points. It has none for an unsupported
/// signal level exactly where a hex whose rank counts has a signal level
/// that the radio cannot have; and none for want of a trust score exactly
/// where the points of its hexes are in range, it is no Cbrs radio and it
/// has no trust score.
pub proof fn lemma_when_there_are_no_coverage_points(radio: RewardableRadio)
    ensures
        radio.spec_coverage_points() == Err::<DecimalView, CoverageError>(
            CoverageError::InvalidSignalLevel,
        ) <==> !spec_signal_levels_valid(radio.radio_type, radio.hexes@),
        radio.spec_coverage_points() == Err::<DecimalView, CoverageError>(
            CoverageError::NoLocationTrustScores,
        ) <==> radio.spec_points_of_hexes() is Ok && !radio.radio_type.is_cbrs()
            && radio.location_trust_scores@.len() == 0,
{
}

/// A hex whose rank does not count adds nothing to the points of the
/// hexes: with it, at whatever place among the others, they are what they
/// are without it.
pub proof fn lemma_out_of_rank_hex_adds_nothing(
    radio_type: RadioType,
    verified: bool,
    hexes: Seq<CoveredHex>,
    at: int,
    hex: CoveredHex,
)
    requires
        0 <= at <= hexes.len(),
        !hex.in_rank(radio_type),
    ensures
        spec_base_points(radio_type, verified, hexes.insert(at, hex)) == spec_base_points(
            radio_type,
            verified,
            hexes,
        ),
        spec_signal_levels_valid(radio_type, hexes.insert(at, hex)) == spec_signal_levels_valid(
            radio_type,
            hexes,
        ),
        spec_any_hexes_boosted(hexes.insert(at, hex)) == (spec_any_hexes_boosted(hexes)
            || hex.boosted is Some),
    decreases hexes.len(),
{
    let with = hexes.insert(at, hex);
    if at == hexes.len() {
        assert(with.drop_last() == hexes);
        assert(with.last() == hex);
    } else {
        assert(with.drop_last() == hexes.drop_last().insert(at, hex));
        assert(with.last() == hexes.last());
        lemma_out_of_rank_hex_adds_nothing(radio_type, verified, hexes.drop_last(), at, hex);
    }
    if spec_signal_levels_valid(radio_type, with) {
        assert forall|i: int| 0 <= i < hexes.len() && (#[trigger] hexes[i]).in_rank(
            radio_type,
        ) implies radio_type.spec_base_coverage_points(hexes[i].signal_level) is Some by {
            let j = if i < at {
                i
            } else {
                i + 1
            };
            assert(with[j] == hexes[i]);
        }
    }
    if spec_signal_levels_valid(radio_type, hexes) {
        assert forall|i: int| 0 <= i < with.len() && (#[trigger] with[i]).in_rank(
            radio_type,
        ) implies radio_type.spec_base_coverage_points(with[i].signal_level) is Some by {
            if i < at {
                assert(with[i] == hexes[i]);
            } else if i > at {
                assert(with[i] == hexes[i - 1]);
            }
        }
    }
    if spec_any_hexes_boosted(with) {
        let i = choose|i: int| 0 <= i < with.len() && (#[trigger] with[i]).boosted is Some;
        if i < at {
            assert(hexes[i].boosted is Some);
        } else if i > at {
            assert(hexes[i - 1].boosted is Some);
        }
    }
    if spec_any_hexes_boosted(hexes) {
        let i = choose|i: int| 0 <= i < hexes.len() && (#[trigger] hexes[i]).boosted is Some;
        let j = if i < at {
            i
        } else {
            i + 1
        };
        assert(with[j].boosted is Some);
    }
    if hex.boosted is Some {
        assert(with[at].boosted is Some);
    }
}

/// A hex whose rank does not count is dropped: a radio with such a hex has
/// the points of its hexes, and the same reason to have none, as the same
/// radio without it. Its coverage points are the same too where its
/// location trust is, and its location trust is the same where the hex
/// carries no boost, where another hex carries one, or where the radio is a
/// Cbrs radio.
pub proof fn lemma_out_of_rank_hex_is_dropped(
    without: RewardableRadio,
    with: RewardableRadio,
    at: int,
    hex: CoveredHex,
)
    requires
        0 <= at <= without.hexes@.len(),
        !hex.in_rank(without.radio_type),
        with.hexes@ == without.hexes@.insert(at, hex),
        with.radio_type == without.radio_type,
        with.speedtests@ == without.speedtests@,
        with.location_trust_scores@ == without.location_trust_scores@,
        with.verified_radio_threshold == without.verified_radio_threshold,
    ensures
        with.spec_points_of_hexes() == without.spec_points_of_hexes(),
        hex.boosted is None || spec_any_hexes_boosted(without.hexes@)
            || without.radio_type.is_cbrs() ==> spec_location_trust_multiplier(
            with.radio_type,
            spec_any_hexes_boosted(with.hexes@),
            with.location_trust_scores@,
        ) == spec_location_trust_multiplier(
            without.radio_type,
            spec_any_hexes_boosted(without.hexes@),
            without.location_trust_scores@,
        ),
        spec_location_trust_multiplier(
            with.radio_type,
            spec_any_hexes_boosted(with.hexes@),
            with.location_trust_scores@,
        ) == spec_location_trust_multiplier(
            without.radio_type,
            spec_any_hexes_boosted(without.hexes@),
            without.location_trust_scores@,
        ) ==> with.spec_coverage_points() == without.spec_coverage_points(),
{
    lemma_out_of_rank_hex_adds_nothing(
        without.radio_type,
        without.verified_radio_threshold,
        without.hexes@,
        at,
        hex,
    );
}

/// The coverage points for the points of the hexes and the two
/// multipliers: their product, cut off after two decimal places, or `None`
/// where the product is out of range.
pub fn coverage_points_from(
    base_points: Points,
    location_trust: MaxOneMultplier,
    speedtest: MaxOneMultplier,
) -> (r: Option<Points>)
    ensures
        view_of(r) == spec_coverage_points_from(base_points@, location_trust@, speedtest@),
        r matches Some(points) ==> points@.scale <= 2,
        r matches Some(points) ==> (base_points@.mantissa >= 0 && location_trust@.mantissa >= 0
            && speedtest@.mantissa >= 0 ==> points@.mantissa >= 0),
{
    let with_trust = match base_points.checked_mul(location_trust) {
        Some(points) => points,
        None => {
            return None;
        },
    };
    let coverage_points = match with_trust.checked_mul(speedtest) {
        Some(points) => points,
        None => {
            return None;
        },
    };
    proof {
        lemma_truncated_bounds(coverage_points@, 2);
    }
    Some(coverage_points.round_dp_toward_zero(2))
}

/// The coverage points of `radio`.
///
/// There are none for an indoor radio with a hex, within the ranks that
/// count, whose signal level is medium or missing; for a Wifi radio without
/// a trust score; and where a sum, product or quotient on the way is out of
/// range.
///
/// Coverage points have at most two decimal places. They are not negative
/// unless a trust score is.
pub fn calculate_coverage_points(radio: RewardableRadio) -> (r: Result<
    CoveragePoints,
    CoverageError,
>)
    ensures
        match radio.spec_coverage_points() {
            Ok(points) => r is Ok && r->Ok_0.coverage_points@ == points && r->Ok_0.radio == radio,
            Err(e) => r == Err::<CoveragePoints, CoverageError>(e),
        },
        r matches Ok(result) ==> result.coverage_points@.scale <= 2,
        r matches Ok(result) ==> (spec_trust_not_negative(radio.location_trust_scores@)
            ==> result.coverage_points@.mantissa >= 0),
{
    let base_points = match radio.base_points() {
        Ok(points) => points,
        Err(e) => {
            return Err(e);
        },
    };
    let location_score = match radio.location_trust_multiplier() {
        Ok(multiplier) => multiplier,
        Err(e) => {
            return Err(e);
        },
    };
    let speedtest = radio.speedtest_multiplier();
    match coverage_points_from(base_points, location_score, speedtest) {
        Some(coverage_points) => Ok(CoveragePoints { coverage_points, radio }),
        None => Err(CoverageError::Overflow),
    }
}

/// Where a radio's type, speed tests, trust scores and verification come
/// from.
pub trait Radio {
    fn radio_type(&self) -> RadioType;

    fn speedtests(&self) -> Vec<Speedtest>;

    fn location_trust_scores(&self) -> Vec<LocationTrust>;

    fn verified_radio_threshold(&self) -> bool;
}

/// Where the hexes that a radio of type `R` covers come from.
pub trait CoverageMap<R: Radio> {
    fn hexes(&self, radio: &R) -> Vec<CoveredHex>;
}

/// `made` is made of what the two sources hand out for `radio`: its type,
/// its speed tests, its trust scores and its verification are values that
/// `radio` returns for them, and its hexes are hexes that `coverage_map`
/// returns for `radio`.
pub open spec fn spec_made_of<R: Radio, M: CoverageMap<R>>(
    radio: &R,
    coverage_map: &M,
    made: RewardableRadio,
) -> bool {
    &&& call_ensures(R::radio_type, (radio,), made.radio_type)
    &&& call_ensures(R::speedtests, (radio,), made.speedtests)
    &&& call_ensures(R::location_trust_scores, (radio,), made.location_trust_scores)
    &&& call_ensures(R::verified_radio_threshold, (radio,), made.verified_radio_threshold)
    &&& call_ensures(M::hexes, (coverage_map, radio), made.hexes)
}

/// The radio that `radio` and `coverage_map` describe: each of its parts
/// is what the source of that part handed out for `radio`.
pub fn make_rewardable_radio<R: Radio>(
    radio: &R,
    coverage_map: &impl CoverageMap<R>,
) -> (r: RewardableRadio)
    ensures
        spec_made_of(radio, coverage_map, r),
{
    RewardableRadio::new(
        radio.radio_type(),
        radio.speedtests(),
        radio.location_trust_scores(),
        radio.verified_radio_threshold(),
        coverage_map.hexes(radio),
    )
}

/// The radios that `radios` and `coverage_map` describe, in the order of
/// `radios`: one for each, made of what the two sources hand out for it.
pub fn make_rewardable_radios<R: Radio>(
    radios: &[R],
    coverage_map: &impl CoverageMap<R>,
) -> (r: Vec<RewardableRadio>)
    ensures
        r@.len() == radios@.len(),
        forall|i: int|
            0 <= i < r@.len() ==> spec_made_of(&radios@[i], coverage_map, #[trigger] r@[i]),
{
    let mut rewardable: Vec<RewardableRadio> = Vec::new();
    let mut i: usize = 0;
    while i < radios.len()
        invariant
            i <= radios@.len(),
            rewardable@.len() == i,
            forall|j: int|
                0 <= j < i ==> spec_made_of(&radios@[j], coverage_map, #[trigger] rewardable@[j]),
        decreases radios@.len() - i,
    {
        rewardable.push(make_rewardable_radio(&radios[i], coverage_map));
        i = i + 1;
    }
    rewardable
}

} // verus!
