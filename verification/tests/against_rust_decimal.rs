use mobile_rewards::coverage::{
    calculate_coverage_points, coverage_points_from, Assignment, Assignments, CoveredHex, LocationTrust, Meters,
    Multiplier, RadioType, Rank, RewardableRadio, SignalLevel,
};
use mobile_rewards::decimal::Decimal;
use mobile_rewards::speedtest::{BytesPs, Millis, Speedtest};
use rust_decimal::RoundingStrategy;

fn outside(d: Decimal) -> rust_decimal::Decimal {
    rust_decimal::Decimal::from_i128_with_scale(d.mantissa(), d.scale())
}

fn ours(d: rust_decimal::Decimal) -> Decimal {
    Decimal::try_from_i128_with_scale(d.mantissa(), d.scale()).unwrap()
}

/// The coverage points of `radio`, computed with `rust_decimal` alone.
/// The radio has valid signal levels and, if it is a Wifi radio, a trust
/// score.
fn with_rust_decimal(radio: &RewardableRadio) -> rust_decimal::Decimal {
    let dec = rust_decimal::Decimal::new;
    let indoor = matches!(
        radio.radio_type,
        RadioType::IndoorWifi | RadioType::IndoorCbrs
    );
    let rank_multipliers = if indoor {
        vec![dec(1, 0)]
    } else {
        vec![dec(1, 0), dec(5, 1), dec(25, 2)]
    };
    let hex_points = radio
        .hexes
        .iter()
        .filter(|hex| hex.rank.get() <= rank_multipliers.len())
        .map(|hex| {
            let base = outside(
                radio
                    .radio_type
                    .base_coverage_points(&hex.signal_level)
                    .unwrap(),
            );
            let assignments = outside(hex.assignments.multiplier());
            let rank = rank_multipliers[hex.rank.get() - 1];
            let boost = if radio.verified_radio_threshold {
                hex.boosted.map_or(1, |boost| boost.get())
            } else {
                1
            };
            base * assignments * rank * rust_decimal::Decimal::from(boost)
        });
    let base_points = hex_points.sum::<rust_decimal::Decimal>();

    let cbrs = matches!(
        radio.radio_type,
        RadioType::IndoorCbrs | RadioType::OutdoorCbrs
    );
    let location = if cbrs {
        dec(1, 0)
    } else {
        let boosted = radio.hexes.iter().any(|hex| hex.boosted.is_some());
        let sum: rust_decimal::Decimal = radio
            .location_trust_scores
            .iter()
            .map(|l| {
                if boosted && l.distance_to_asserted > Meters::new(50) {
                    dec(25, 2).min(outside(l.trust_score))
                } else {
                    outside(l.trust_score)
                }
            })
            .sum();
        sum / rust_decimal::Decimal::from(radio.location_trust_scores.len())
    };
    let speedtest = outside(radio.speedtest_multiplier());
    (base_points * location * speedtest).round_dp_with_strategy(2, RoundingStrategy::ToZero)
}

fn check(radio: RewardableRadio) {
    let expected = with_rust_decimal(&radio);
    let got = calculate_coverage_points(radio.clone()).unwrap().coverage_points;
    assert_eq!(
        (got.mantissa(), got.scale()),
        (expected.mantissa(), expected.scale()),
        "{radio:?}"
    );
}

fn speedtests(download_mbps: u64, count: usize) -> Vec<Speedtest> {
    vec![
        Speedtest {
            upload_speed: BytesPs::mbps(15),
            download_speed: BytesPs::mbps(download_mbps),
            latency: Millis::new(15),
        };
        count
    ]
}

fn hexes() -> Vec<CoveredHex> {
    let classes = [Assignment::A, Assignment::B, Assignment::C];
    let mut hexes = Vec::new();
    for (i, footfall) in classes.into_iter().enumerate() {
        for (j, landtype) in classes.into_iter().enumerate() {
            for (k, urbanized) in classes.into_iter().enumerate() {
                hexes.push(CoveredHex {
                    rank: Rank::new(1 + (i + j + k) % 4).unwrap(),
                    signal_level: if (i + k) % 2 == 0 {
                        SignalLevel::High
                    } else {
                        SignalLevel::Low
                    },
                    assignments: Assignments {
                        footfall,
                        landtype,
                        urbanized,
                    },
                    boosted: Multiplier::new(((i * 7 + j * 3 + k) % 5) as u32),
                });
            }
        }
    }
    hexes
}

fn trust_scores() -> Vec<Vec<LocationTrust>> {
    let score = |meters: u32, text: &str| LocationTrust {
        distance_to_asserted: Meters::new(meters),
        trust_score: ours(rust_decimal::Decimal::from_str_exact(text).unwrap()),
    };
    let retained = |meters: u32, value: f32| LocationTrust {
        distance_to_asserted: Meters::new(meters),
        trust_score: ours(rust_decimal::Decimal::from_f32_retain(value).unwrap()),
    };
    vec![
        vec![score(0, "1")],
        vec![score(0, "1.00"), score(51, "0.3"), score(49, "0.75")],
        vec![score(100, "0.2500000000000000000000000001"), score(100, "0.25")],
        vec![score(0, "0.3333333333333333333333333333"); 7],
        vec![score(0, "0.1"), score(0, "0.02"), score(0, "0.003")],
        vec![retained(0, 0.1), retained(60, 0.2), retained(0, 0.3), retained(60, 0.4)],
        vec![retained(10, 0.7), retained(20, 0.9), retained(30, 1.0)],
        vec![score(0, "-0.5"), score(300, "0.25"), score(0, "0")],
        vec![score(0, "79228162514264337593543950335"), score(0, "0.5")],
        vec![score(0, "7.9228162514264337593543950335"), score(0, "0.0000000000000000000000000001")],
        vec![score(0, "123456789.123456789"), score(0, "0.000000001")],
    ]
}

#[test]
fn coverage_points_are_those_that_rust_decimal_computes() {
    let types = [
        RadioType::IndoorWifi,
        RadioType::OutdoorWifi,
        RadioType::IndoorCbrs,
        RadioType::OutdoorCbrs,
    ];
    let mut checked = 0;
    for radio_type in types {
        for scores in trust_scores() {
            for verified in [true, false] {
                for download in [150, 88, 62, 42] {
                    for some_hexes in [hexes(), hexes()[..3].to_vec(), hexes()[12..14].to_vec()] {
                        let radio = RewardableRadio::new(
                            radio_type,
                            speedtests(download, 2),
                            scores.clone(),
                            verified,
                            some_hexes,
                        );
                        // the largest trust score is too large a factor
                        if calculate_coverage_points(radio.clone()).is_ok() {
                            check(radio);
                            checked += 1;
                        }
                    }
                }
            }
        }
    }
    assert!(checked > 900, "{checked}");
}

/// A sequence of numbers that looks random and is the same in every run.
struct Numbers(u64);

impl Numbers {
    fn next(&mut self) -> u64 {
        self.0 = self
            .0
            .wrapping_mul(6_364_136_223_846_793_005)
            .wrapping_add(1_442_695_040_888_963_407);
        self.0 >> 11
    }

    /// A number of at most `bits` bits, often much smaller.
    fn up_to(&mut self, bits: u32) -> i128 {
        let wide = ((self.next() as u128) << 53 | self.next() as u128) as i128;
        wide & ((1i128 << (self.next() % (bits as u64 + 1))) - 1)
    }
}

#[test]
fn products_that_can_be_written_are_exact() {
    let mut numbers = Numbers(7);
    for _ in 0..20_000 {
        let (a, b) = (numbers.up_to(96), numbers.up_to(96));
        let (scale_a, scale_b) = ((numbers.next() % 2) as u32, (numbers.next() % 2) as u32);
        let Some(product) = a.checked_mul(b).filter(|p| *p < 1 << 96) else {
            continue;
        };
        let negative = numbers.next() % 2 == 1;
        let a = if negative { -a } else { a };
        let product = if negative { -product } else { product };
        let got = coverage_points_from(
            Decimal::try_from_i128_with_scale(a, scale_a).unwrap(),
            Decimal::try_from_i128_with_scale(b, scale_b).unwrap(),
            Decimal::from_u32(1),
        )
        .unwrap();
        let expected = if product == 0 {
            (0, 0)
        } else {
            (product, scale_a + scale_b)
        };
        assert_eq!((got.mantissa(), got.scale()), expected, "{a} * {b}");
    }
}

#[test]
fn sums_and_quotients_that_can_be_written_are_exact() {
    let mut numbers = Numbers(11);
    let mut checked = 0;
    for _ in 0..20_000 {
        let (a, b) = (1 + numbers.up_to(95), 1 + numbers.up_to(95));
        let (scale_a, scale_b) = ((numbers.next() % 29) as u32, (numbers.next() % 29) as u32);
        let scale = scale_a.max(scale_b);
        let shifted = |m: i128, by: u32| 10i128.checked_pow(by).and_then(|p| m.checked_mul(p));
        let (Some(wide_a), Some(wide_b)) = (shifted(a, scale - scale_a), shifted(b, scale - scale_b))
        else {
            continue;
        };
        let Some(sum) = wide_a.checked_add(wide_b).filter(|s| *s < 1 << 96) else {
            continue;
        };
        if sum % 2 != 0 {
            continue;
        }
        let score = |mantissa: i128, scale: u32| LocationTrust {
            distance_to_asserted: Meters::new(0),
            trust_score: Decimal::try_from_i128_with_scale(mantissa, scale).unwrap(),
        };
        let radio = RewardableRadio::new(
            RadioType::OutdoorWifi,
            speedtests(150, 2),
            vec![score(a, scale_a), score(b, scale_b)],
            true,
            vec![],
        );
        let got = radio.location_trust_multiplier().unwrap();
        assert_eq!(
            (got.mantissa(), got.scale()),
            (sum / 2, scale),
            "({a}, {scale_a}) + ({b}, {scale_b})"
        );
        checked += 1;
    }
    assert!(checked > 2_000, "{checked}");
}

#[test]
fn dropped_digits_are_those_that_rust_decimal_drops() {
    let mut numbers = Numbers(13);
    for _ in 0..20_000 {
        let mantissa = numbers.up_to(96) * if numbers.next() % 2 == 1 { -1 } else { 1 };
        let scale = (numbers.next() % 29) as u32;
        let got = coverage_points_from(
            Decimal::try_from_i128_with_scale(mantissa, scale).unwrap(),
            Decimal::from_u32(1),
            Decimal::from_u32(1),
        )
        .unwrap();
        let expected = if mantissa == 0 {
            (0, 0)
        } else if scale <= 2 {
            (mantissa, scale)
        } else {
            (mantissa / 10i128.pow(scale - 2), 2)
        };
        assert_eq!((got.mantissa(), got.scale()), expected, "({mantissa}, {scale})");
    }
}

#[test]
fn equal_is_the_same_number() {
    let mut numbers = Numbers(17);
    for _ in 0..20_000 {
        let a = numbers.up_to(96) * if numbers.next() % 2 == 1 { -1 } else { 1 };
        let b = if numbers.next() % 3 == 0 { numbers.up_to(96) } else { a };
        let (scale_a, scale_b) = ((numbers.next() % 29) as u32, (numbers.next() % 29) as u32);
        let (Some(wide_a), Some(wide_b)) = (
            10i128.checked_pow(scale_b).and_then(|p| a.checked_mul(p)),
            10i128.checked_pow(scale_a).and_then(|p| b.checked_mul(p)),
        ) else {
            continue;
        };
        let ours_a = Decimal::try_from_i128_with_scale(a, scale_a).unwrap();
        let ours_b = Decimal::try_from_i128_with_scale(b, scale_b).unwrap();
        assert_eq!(ours_a == ours_b, wide_a == wide_b, "({a}, {scale_a}) == ({b}, {scale_b})");
    }
}

#[test]
fn the_mean_of_equal_scores_is_the_score() {
    let mut numbers = Numbers(19);
    for count in [1usize, 3, 7, 10, 250, 1_000] {
        for _ in 0..200 {
            let mantissa = 1 + numbers.up_to(85);
            let scale = (numbers.next() % 29) as u32;
            let score = LocationTrust {
                distance_to_asserted: Meters::new(0),
                trust_score: Decimal::try_from_i128_with_scale(mantissa, scale).unwrap(),
            };
            let radio = RewardableRadio::new(
                RadioType::IndoorWifi,
                speedtests(150, 2),
                vec![score; count],
                false,
                vec![],
            );
            let got = radio.location_trust_multiplier().unwrap();
            assert_eq!(
                (got.mantissa(), got.scale()),
                (mantissa, scale),
                "{count} times ({mantissa}, {scale})"
            );
        }
    }
}
