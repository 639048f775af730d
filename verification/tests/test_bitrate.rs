use oze_canopen_viewer::bitrate::{Bitrate, RateSample, RATES_LEN, RATE_PERIOD};

#[test]
fn too_few_readings_give_no_rate() {
    let mut b = Bitrate::new();
    assert!(b.calculate_rate().is_empty());
    for t in 0..4u64 {
        assert!(b.sample(t * 10, t * 100).is_empty());
    }
    let out = b.sample(40, 400);
    assert_eq!(out, vec![RateSample { time: 40, bits: 400, duration: 40 }]);
}

#[test]
fn steady_counter_gives_the_true_slope() {
    let mut b = Bitrate::new();
    let step: u64 = 10_000_000;
    let growth: u64 = 1250;
    let mut out = Vec::new();
    for t in 0..50u64 {
        out = b.sample(1000 + t * step, 7 + t * growth);
    }
    assert_eq!(out.len(), 46);
    for (j, r) in out.iter().enumerate() {
        assert_eq!(r.time, 1000 + (j as u64 + 4) * step);
        assert_eq!(r.bits, 5000);
        assert_eq!(r.duration, 40_000_000);
        let rate = f64::from(r.bits) / (r.duration as f64 / 1e9);
        assert!((rate - 125_000.0).abs() < 1e-6);
    }
}

#[test]
fn falling_counter_is_skipped() {
    let mut b = Bitrate::new();
    let bits = [100u64, 200, 300, 400, 500, 600, 50, 700, 800];
    let mut out = Vec::new();
    for (t, v) in bits.iter().enumerate() {
        out = b.sample(t as u64, *v);
    }
    let times: Vec<u64> = out.iter().map(|r| r.time).collect();
    assert_eq!(times, vec![4, 5, 7, 8]);
    assert!(out.iter().all(|r| r.bits >= 0));
    assert_eq!(out[2], RateSample { time: 7, bits: 300, duration: 4 });
}

#[test]
fn growth_beyond_32_signed_bits_is_skipped() {
    let mut b = Bitrate::new();
    let bits = [0u64, 0, 9, 0, 0x7FFF_FFFF, 0x8000_0000, 0x8000_0009];
    let mut out = Vec::new();
    for (t, v) in bits.iter().enumerate() {
        out = b.sample(t as u64, *v);
    }
    assert_eq!(out, vec![RateSample { time: 4, bits: i32::MAX, duration: 4 }]);
}

#[test]
fn no_rate_without_elapsed_time() {
    let mut b = Bitrate::new();
    let mut out = Vec::new();
    for v in 0..6u64 {
        out = b.sample(5, v);
    }
    assert!(out.is_empty());
    out = b.sample(6, 10);
    assert_eq!(out, vec![RateSample { time: 6, bits: 8, duration: 1 }]);
}

#[test]
fn series_stays_within_capacity() {
    let mut b = Bitrate::new();
    let mut out = Vec::new();
    for t in 0..1100u64 {
        b.record(t, t * 3);
        out = b.calculate_rate();
        assert!(out.len() <= RATES_LEN);
    }
    assert_eq!(RATES_LEN, 1024);
    assert_eq!(RATE_PERIOD, 4);
    assert_eq!(out.len(), 1024);
    assert_eq!(out[0], RateSample { time: 76, bits: 12, duration: 4 });
    assert_eq!(out[1023], RateSample { time: 1099, bits: 12, duration: 4 });
}
