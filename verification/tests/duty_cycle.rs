use lora_mqtt_hub::lora::duty_cycle::{eu_band_key, eu_duty_cycle_permille, DutyCycleLimiter};

/// 10% band: 360 s allowance per hour.
fn ten_percent_limiter() -> DutyCycleLimiter {
    DutyCycleLimiter::for_frequency(869_525_000)
}

#[test]
fn sub_band_limits_match_erc_70_03() {
    assert_eq!(eu_duty_cycle_permille(869_525_000), Some(100));
    assert_eq!(eu_duty_cycle_permille(868_100_000), Some(10));
    assert_eq!(eu_duty_cycle_permille(868_900_000), Some(1));
    assert_eq!(eu_duty_cycle_permille(869_850_000), Some(10));
    assert_eq!(eu_duty_cycle_permille(864_000_000), Some(1));
    assert_eq!(eu_duty_cycle_permille(433_500_000), Some(100));
    assert_eq!(eu_duty_cycle_permille(915_000_000), None);
}

#[test]
fn default_frequency_allows_360_seconds_per_hour() {
    let mut limiter = ten_percent_limiter();
    assert!(limiter.try_claim(0, 360_000).is_ok());
    assert_eq!(limiter.spent_ms(), 360_000);
}

#[test]
fn claim_beyond_allowance_is_refused_and_not_charged() {
    let mut limiter = ten_percent_limiter();
    limiter.try_claim(0, 350_000).unwrap();

    let err = limiter.try_claim(1000, 20_000).unwrap_err();
    assert!(err.retry_after_ms.is_some());
    assert_eq!(limiter.spent_ms(), 350_000, "refused claim must not charge");
}

#[test]
fn budget_frees_after_the_window_passes() {
    let mut limiter = ten_percent_limiter();
    limiter.try_claim(0, 360_000).unwrap();
    assert!(limiter.try_claim(1000, 1).is_err());

    // One sliding hour later (plus the bucket granularity) all is free.
    assert!(limiter.try_claim(61 * 60_000, 360_000).is_ok());
}

#[test]
fn retry_hint_points_at_budget_release() {
    let mut limiter = ten_percent_limiter();
    limiter.try_claim(0, 360_000).unwrap();

    let err = limiter.try_claim(30 * 60_000, 7_000).unwrap_err();
    // The airtime was claimed at minute 0 and leaves the window 60 minutes
    // later; we ask 30 minutes in.
    assert_eq!(err.retry_after_ms, Some(30 * 60_000));
}

#[test]
fn spending_spread_over_time_expires_incrementally() {
    let mut limiter = ten_percent_limiter();
    // 180 s in minute 0, 180 s in minute 30: the budget is gone...
    limiter.try_claim(0, 180_000).unwrap();
    limiter.try_claim(30 * 60_000, 180_000).unwrap();
    assert!(limiter.try_claim(31 * 60_000, 5_000).is_err());

    // ...at minute 61 the first spend has expired, freeing 180 s...
    assert!(limiter.try_claim(61 * 60_000, 5_000).is_ok());

    // ...but the minute-30 spend still binds a further large claim.
    assert!(limiter.try_claim(62 * 60_000, 180_000).is_err());
    assert!(limiter.try_claim(91 * 60_000, 175_000).is_ok());
}

#[test]
fn packet_larger_than_hourly_allowance_is_never_sendable() {
    // 0.1% band: 3.6 s per hour, below a max-size SF12 packet (~7 s).
    let mut limiter = DutyCycleLimiter::for_frequency(868_900_000);
    let err = limiter.try_claim(0, 7_000).unwrap_err();
    assert_eq!(err.retry_after_ms, None);
}

#[test]
fn non_eu_band_is_unlimited() {
    let mut limiter = DutyCycleLimiter::for_frequency(915_000_000);
    for i in 0..100 {
        assert!(limiter.try_claim(i * 1000, 360_000).is_ok());
    }
}

#[test]
fn long_idle_resets_the_window() {
    let mut limiter = ten_percent_limiter();
    limiter.try_claim(0, 360_000).unwrap();
    // Days later the wrap-around maths must still hold.
    assert!(limiter.try_claim(72 * 3_600_000, 360_000).is_ok());
}

#[test]
fn sub_bands_have_their_own_keys() {
    let keys: Vec<u8> = [864_000_000, 868_100_000, 868_900_000, 869_525_000, 869_850_000]
        .into_iter()
        .map(eu_band_key)
        .collect();
    for (i, a) in keys.iter().enumerate() {
        for b in &keys[i + 1..] {
            assert_ne!(a, b);
        }
    }
    assert_eq!(eu_band_key(868_100_000), eu_band_key(868_300_000));
}

#[test]
fn any_hour_holds_at_most_the_allowance() {
    let mut limiter = DutyCycleLimiter::for_frequency(868_100_000);
    let mut granted: Vec<u64> = Vec::new();
    for step in 0..20_000u64 {
        let now = step * 731;
        if limiter.try_claim(now, 900).is_ok() {
            granted.push(now);
        }
    }
    // Any hour holds at most 36 s of airtime: 40 packets of 0.9 s.
    for (i, from) in granted.iter().enumerate() {
        let within = granted[i..].iter().filter(|at| *at - from < 3_600_000).count();
        assert!(within <= 40, "{within} packets from {from} ms");
    }
    assert!(granted.len() > 120, "only {} packets", granted.len());
}

#[test]
fn a_minute_counts_until_all_of_it_has_left_the_hour() {
    let mut limiter = ten_percent_limiter();
    limiter.try_claim(59_999, 360_000).unwrap();
    assert!(limiter.try_claim(3_600_000, 1).is_err());
    assert!(limiter.try_claim(3_659_998, 1).is_err());
    assert!(limiter.try_claim(3_659_999, 360_000).is_ok());
}

#[test]
fn claims_of_one_minute_leave_together() {
    let mut limiter = ten_percent_limiter();
    limiter.try_claim(1_000, 100_000).unwrap();
    limiter.try_claim(31_000, 260_000).unwrap();
    let err = limiter.try_claim(3_600_500, 1).unwrap_err();
    assert_eq!(err.retry_after_ms, Some(30_500));
    assert_eq!(limiter.spent_ms(), 360_000);
    assert!(limiter.try_claim(3_630_999, 1).is_err());
    assert!(limiter.try_claim(3_631_000, 360_000).is_ok());
}

#[test]
fn a_claim_in_every_minute_is_remembered() {
    let mut limiter = ten_percent_limiter();
    for minute in 0..60u64 {
        limiter.try_claim(minute * 60_000, 6_000).unwrap();
    }
    assert_eq!(limiter.spent_ms(), 360_000);
    assert_eq!(
        limiter.try_claim(59 * 60_000, 6_001).unwrap_err().retry_after_ms,
        Some(2 * 60_000)
    );
    assert!(limiter.try_claim(60 * 60_000, 6_000).is_ok());
    assert_eq!(limiter.spent_ms(), 360_000);
}

#[test]
fn the_retry_hint_is_the_earliest_moment_that_works() {
    let mut limiter = ten_percent_limiter();
    limiter.try_claim(0, 200_000).unwrap();
    limiter.try_claim(300_123, 160_000).unwrap();
    let now = 10 * 60_000;
    let wait = limiter.try_claim(now, 250_000).unwrap_err().retry_after_ms.unwrap();
    assert_eq!(now + wait, 3_900_123);
    assert!(limiter.try_claim(now + wait - 1, 250_000).is_err());
    assert!(limiter.try_claim(now + wait, 250_000).is_ok());
}

#[test]
fn the_retry_hint_is_at_most_an_hour() {
    let mut limiter = ten_percent_limiter();
    limiter.try_claim(12_345, 360_000).unwrap();
    let err = limiter.try_claim(12_345, 1).unwrap_err();
    assert_eq!(err.retry_after_ms, Some(3_600_000));
}

#[test]
fn the_first_claim_may_take_the_whole_allowance() {
    for (freq_hz, allowance) in [(869_525_000, 360_000), (868_100_000, 36_000), (868_900_000, 3_600)] {
        for now in [0, 59_999, u64::MAX] {
            let mut limiter = DutyCycleLimiter::for_frequency(freq_hz);
            assert_eq!(limiter.spent_ms(), 0);
            assert_eq!(
                limiter.try_claim(now, allowance + 1).unwrap_err().retry_after_ms,
                None
            );
            assert!(limiter.try_claim(now, allowance).is_ok());
        }
    }
}

#[test]
fn a_claim_in_the_next_minute_does_not_hold_back_the_one_before() {
    let mut limiter = ten_percent_limiter();
    // Minutes 0 and 1, though less than a minute apart.
    limiter.try_claim(30_000, 180_000).unwrap();
    limiter.try_claim(80_000, 180_000).unwrap();
    assert!(limiter.try_claim(3_629_999, 1).is_err());
    assert!(limiter.try_claim(3_670_000, 1).is_ok());
    assert_eq!(limiter.spent_ms(), 180_001);
}

#[test]
fn minutes_begin_anew_after_an_idle_hour() {
    let mut limiter = ten_percent_limiter();
    limiter.try_claim(0, 1).unwrap();
    // The running minute now begins at this claim, and the next claim falls
    // into it.
    limiter.try_claim(3_630_000, 180_000).unwrap();
    limiter.try_claim(3_680_000, 180_000).unwrap();
    let err = limiter.try_claim(7_230_000, 1).unwrap_err();
    assert_eq!(err.retry_after_ms, Some(50_000));
}
