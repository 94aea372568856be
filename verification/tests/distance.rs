use localisationtechniques::uwb_basics::{
    calc_distance_double, calc_distance_simple, iir_filter, seed_filter, UWBSensor,
};

fn sensor_with_times(times: &[u64]) -> UWBSensor {
    let mut s = UWBSensor::new();
    for (i, &t) in times.iter().enumerate() {
        s.timing_data[i] = t;
    }
    s
}

#[test]
fn simple_distance_end_to_end() {
    // T1 = 0, T2 = 1000, T3 = 1100, T4 = 2000: tof = 950 ticks.
    let mut s = sensor_with_times(&[0, 1000, 1100, 2000]);
    calc_distance_simple(&mut s);
    let expected_m = 950.0 * (1.0 / (499.2e6 * 128.0)) * 299_792_458.0;
    assert_eq!(s.distance, Some((expected_m * 1e6) as u64));
    assert_eq!(s.distance, Some(4_457_175));
    let got_m = s.distance.unwrap() as f64 / 1e6;
    assert!((got_m - expected_m).abs() < 1e-5);
}

#[test]
fn simple_distance_survives_clock_wrap() {
    // The round trip spans the counter wrap: T4 reads lower than T1.
    let m: u64 = 0x100_0000_0000;
    let mut s = sensor_with_times(&[m - 1000, m - 500, m - 400, 1000]);
    calc_distance_simple(&mut s);
    // tround = 2000, treply = 100, the same intervals as above.
    assert_eq!(s.distance, Some(4_457_175));
}

#[test]
fn simple_distance_inconsistent_set_keeps_previous() {
    let mut s = sensor_with_times(&[0, 1000, 3100, 2000]);
    s.distance = Some(77);
    calc_distance_simple(&mut s);
    assert_eq!(s.distance, Some(77));
}

#[test]
fn double_distance_consistent_exchange() {
    // tof = 950 ticks on both round trips; clocks offset by 12345 ticks.
    let mut s = sensor_with_times(&[1000, 14295, 78295, 66900, 136900, 150195]);
    calc_distance_double(&mut s);
    assert_eq!(s.distance, Some(4_457_175));
    // Against the closed-form formula in floating point.
    let (tr1, tp1, tr2, tp2) = (65_900.0f64, 64_000.0, 71_900.0, 70_000.0);
    let tof = (tr1 * tr2 - tp1 * tp2) / (tr1 + tp1 + tr2 + tp2);
    let expected_m = tof * (1.0 / (499.2e6 * 128.0)) * 299_792_458.0;
    assert!((s.distance.unwrap() as f64 / 1e6 - expected_m).abs() < 1e-5);
}

#[test]
fn double_distance_outlier_keeps_previous() {
    // This set computes to roughly 23 km, far past the 10 000 m bound.
    let mut s = sensor_with_times(&[0, 5, 5, 10_000_000, 10_000_000, 10_000_005]);
    s.distance = Some(4_457_175);
    s.filtered_distance = 11;
    s.previous_filtered_distance = 22;
    calc_distance_double(&mut s);
    assert_eq!(s.distance, Some(4_457_175));
    assert_eq!(s.filtered_distance, 11);
    assert_eq!(s.previous_filtered_distance, 22);
}

#[test]
fn double_distance_outlier_keeps_unset_distance() {
    let mut s = sensor_with_times(&[0, 5, 5, 10_000_000, 10_000_000, 10_000_005]);
    calc_distance_double(&mut s);
    assert_eq!(s.distance, None);
}

#[test]
fn double_distance_degenerate_set_keeps_previous() {
    // All-zero timestamps: the formula's denominator vanishes.
    let mut s = sensor_with_times(&[0, 0, 0, 0, 0, 0]);
    s.distance = Some(123);
    calc_distance_double(&mut s);
    assert_eq!(s.distance, Some(123));
}

#[test]
fn iir_single_step() {
    let mut s = UWBSensor::new();
    s.distance = Some(4_457_170);
    iir_filter(&mut s);
    // (4 * 4457170 + 96 * 0) / 100
    assert_eq!(s.filtered_distance, 178_286);
    assert_eq!(s.previous_filtered_distance, 178_286);
}

#[test]
fn iir_skips_unmeasured_node() {
    let mut s = UWBSensor::new();
    s.previous_filtered_distance = 555;
    s.filtered_distance = 444;
    iir_filter(&mut s);
    assert_eq!(s.previous_filtered_distance, 555);
    assert_eq!(s.filtered_distance, 444);
}

#[test]
fn iir_converges_monotonically_from_below() {
    let raw: u64 = 1_000_000;
    let mut s = UWBSensor::new();
    s.distance = Some(raw);
    let mut last: u64 = 0;
    for _ in 0..600 {
        iir_filter(&mut s);
        assert!(s.filtered_distance >= last);
        assert!(s.filtered_distance <= raw);
        last = s.filtered_distance;
    }
    // Integer filtering settles within its 24-micrometre resolution band.
    assert!(raw - s.filtered_distance <= 24);
}

#[test]
fn iir_converges_monotonically_from_above() {
    let raw: u64 = 1_000_000;
    let mut s = UWBSensor::new();
    s.distance = Some(raw);
    s.previous_filtered_distance = 5_000_000;
    let mut last: u64 = 5_000_000;
    for _ in 0..600 {
        iir_filter(&mut s);
        assert!(s.filtered_distance <= last);
        assert!(s.filtered_distance >= raw);
        last = s.filtered_distance;
    }
    assert!(s.filtered_distance - raw <= 24);
}

#[test]
fn filter_seeding_takes_first_measurement() {
    let mut s = UWBSensor::new();
    s.distance = Some(4_457_175);
    seed_filter(&mut s);
    assert_eq!(s.previous_filtered_distance, 4_457_175);

    let mut unmeasured = UWBSensor::new();
    unmeasured.previous_filtered_distance = 9;
    seed_filter(&mut unmeasured);
    assert_eq!(unmeasured.previous_filtered_distance, 9);
}
