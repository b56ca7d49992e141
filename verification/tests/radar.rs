use doppler_radar::backends::{Comparator, SampledBackend};
use doppler_radar::bcd::bin_to_bcd;
use doppler_radar::exclusive::{use_global, SafeGlobal};
use doppler_radar::frequency::Frequency;
use doppler_radar::speed::{convert_speed, UnitMode, KMH_FACTOR, MPH_FACTOR};
use doppler_radar::system::{Button, Radar, SamplingMode};

const TRANSMITTED_HZ: u64 = 10_525_000_000;

fn comp_of(r: &Radar) -> Comparator {
    r.comparator.cell.clone().expect("comparator cell must be present")
}

fn adc_of(r: &Radar) -> &SampledBackend {
    r.sampled.cell.as_ref().expect("sampled cell must be present")
}

fn value_of(num: u128, den: u128) -> f64 {
    num as f64 / den as f64
}

#[test]
fn bcd_round_trip_all_valid_inputs() {
    for n in 0u8..=99 {
        let bcd = bin_to_bcd(n).expect("two-digit values must convert");
        let tens = bcd >> 4;
        let ones = bcd & 0x0f;
        assert!(tens <= 9);
        assert!(ones <= 9);
        assert_eq!(tens * 10 + ones, n);
    }
}

#[test]
fn bcd_rejects_all_out_of_range_inputs() {
    for n in 100u8..=255 {
        assert_eq!(bin_to_bcd(n), None);
    }
}

#[test]
fn bcd_of_47_is_nibble_pair_4_7() {
    let bcd = bin_to_bcd(47).unwrap();
    assert_eq!(bcd >> 4, 4);
    assert_eq!(bcd & 0x0f, 7);
    assert_eq!(bcd, 0x47);
}

#[test]
fn bcd_of_100_is_range_error() {
    assert_eq!(bin_to_bcd(100), None);
}

#[test]
fn bcd_edge_values() {
    assert_eq!(bin_to_bcd(0), Some(0x00));
    assert_eq!(bin_to_bcd(9), Some(0x09));
    assert_eq!(bin_to_bcd(10), Some(0x10));
    assert_eq!(bin_to_bcd(80), Some(0x80));
    assert_eq!(bin_to_bcd(99), Some(0x99));
}

#[test]
fn speed_is_linear_in_frequency() {
    let f1 = Frequency { num: 250, den: 3 };
    let f2 = Frequency { num: 750, den: 3 };
    for unit in [UnitMode::Metric, UnitMode::Imperial] {
        let s1 = convert_speed(&f1, TRANSMITTED_HZ, unit);
        let s2 = convert_speed(&f2, TRANSMITTED_HZ, unit);
        // Tripling the detected frequency triples the speed, exactly.
        assert_eq!(s2.num * s1.den, 3 * s1.num * s2.den);
    }
}

#[test]
fn speed_of_zero_frequency_is_zero() {
    let zero = Frequency { num: 0, den: 7 };
    for unit in [UnitMode::Metric, UnitMode::Imperial] {
        let s = convert_speed(&zero, TRANSMITTED_HZ, unit);
        assert_eq!(s.num, 0);
        assert!(s.den > 0);
    }
}

#[test]
fn speed_units_use_their_factors() {
    let f = Frequency { num: 440, den: 2 };
    let metric = convert_speed(&f, TRANSMITTED_HZ, UnitMode::Metric);
    let imperial = convert_speed(&f, TRANSMITTED_HZ, UnitMode::Imperial);
    assert_eq!(metric.num, KMH_FACTOR as u128 * 440);
    assert_eq!(imperial.num, MPH_FACTOR as u128 * 440);
    assert_eq!(metric.den, 2 * TRANSMITTED_HZ as u128 * 2);
    assert_eq!(metric.den, imperial.den);
}

#[test]
fn scenario_a_metric_speed_of_1khz_shift() {
    // A 1000 Hz shift against a 10.525 GHz carrier reads about 51.31 in
    // metric units.
    let f = Frequency { num: 1000, den: 1 };
    let s = convert_speed(&f, TRANSMITTED_HZ, UnitMode::Metric);
    assert_eq!(s.num, 1_080_000_000_000);
    assert_eq!(s.den, 21_050_000_000);
    let expected = 1_080_000_000.0f64 * 1000.0 / (2.0 * 10.525e9);
    assert!((value_of(s.num, s.den) - expected).abs() < 1e-9);
    assert!((value_of(s.num, s.den) - 51.31).abs() < 0.005);
}

#[test]
fn cold_start_reads_zero_on_either_backend() {
    let mut radar = Radar::new(16_000, 20_000, 2_048);
    let f = radar.calculate_frequency();
    assert_eq!(f.num, 0);
    assert_eq!(f.den, 1);
    radar.handle_button(Button::Down);
    let g = radar.calculate_frequency();
    assert_eq!(g.num, 0);
    assert_eq!(g.den, 1);
}

#[test]
fn comparator_path_computes_clock_over_twice_count() {
    let mut radar = Radar::new(16_000, 20_000, 2_048);
    radar.handle_button(Button::Down);
    radar.on_comparator_edge(8);
    let f = radar.calculate_frequency();
    // 16000 counts per second over a half-period of 8 counts: 1000 Hz.
    assert_eq!(f.num, 16_000);
    assert_eq!(f.den, 16);
    assert_eq!(f.num as f64 / f.den as f64, 1000.0);
}

#[test]
fn sampled_path_counts_crossings_over_window() {
    let mut radar = Radar::new(16_000, 20_000, 2_048);
    // Two full cycles over eight samples: seven sign changes against the
    // midpoint.
    let window = vec![0, 4000, 0, 4000, 0, 4000, 0, 4000];
    radar.on_buffer_ready(window);
    let f = radar.calculate_frequency();
    assert_eq!(f.num, 7 * 20_000);
    assert_eq!(f.den, 2 * 8);
    // The reading consumed the window: the next one is zero until the fill
    // mechanism delivers a new window.
    let g = radar.calculate_frequency();
    assert_eq!(g.num, 0);
    radar.on_buffer_ready(vec![0, 4000, 0]);
    let h = radar.calculate_frequency();
    assert_eq!(h.num, 2 * 20_000);
    assert_eq!(h.den, 2 * 3);
}

#[test]
fn holding_a_button_triggers_at_most_one_transition() {
    let mut radar = Radar::new(16_000, 20_000, 2_048);
    radar.on_comparator_edge(5);
    radar.handle_button(Button::Down);
    let after_first = comp_of(&radar);
    assert!(matches!(radar.sampling, SamplingMode::ComparatorEdge));
    assert!(after_first.running);
    assert!(!adc_of(&radar).running);
    for _ in 0..10 {
        radar.handle_button(Button::Down);
        let held = comp_of(&radar);
        assert!(matches!(radar.sampling, SamplingMode::ComparatorEdge));
        assert!(held.running);
        assert!(!adc_of(&radar).running);
        assert_eq!(held.last_count, after_first.last_count);
        assert_eq!(held.measured, after_first.measured);
    }
}

#[test]
fn backends_are_mutually_exclusive_over_any_edge_sequence() {
    let mut radar = Radar::new(16_000, 20_000, 2_048);
    let presses = [
        Button::Down,
        Button::Down,
        Button::Left,
        Button::Up,
        Button::Right,
        Button::Up,
        Button::Down,
        Button::NoPress,
        Button::Up,
        Button::Left,
        Button::Down,
    ];
    for b in presses {
        radar.handle_button(b);
        let comp_running = comp_of(&radar).running;
        let adc_running = adc_of(&radar).running;
        assert!(!(comp_running && adc_running));
        // The running backend is exactly the one the mode names.
        assert_eq!(comp_running, matches!(radar.sampling, SamplingMode::ComparatorEdge));
        assert_eq!(adc_running, matches!(radar.sampling, SamplingMode::SampledWaveform));
    }
}

#[test]
fn interleaved_accesses_never_observe_a_torn_value() {
    // The main context polls while both interrupts fire between polls, in
    // every order; after each completed access both cells are present and
    // hold exactly what the last access left.
    let mut radar = Radar::new(16_000, 20_000, 2_048);
    let buttons = [Button::Down, Button::Up, Button::Right, Button::Down];
    let mut count = 1u16;
    for b in buttons {
        radar.on_comparator_edge(count);
        assert!(radar.comparator.has_value());
        assert!(radar.sampled.has_value());
        assert_eq!(comp_of(&radar).last_count, count);
        radar.handle_button(b);
        assert!(radar.comparator.has_value());
        assert!(radar.sampled.has_value());
        radar.on_buffer_ready(vec![0, 4000, 0, 4000]);
        assert!(radar.comparator.has_value());
        assert!(radar.sampled.has_value());
        assert_eq!(adc_of(&radar).buffer.len(), 4);
        assert_eq!(comp_of(&radar).last_count, count);
        let _ = radar.calculate_frequency();
        assert!(radar.comparator.has_value());
        assert!(radar.sampled.has_value());
        count += 3;
    }
}

#[test]
fn poll_cycle_reads_the_newly_selected_backend() {
    let mut radar = Radar::new(16_000, 20_000, 2_048);
    radar.on_comparator_edge(4);
    // The Down edge activates the comparator backend, and the same cycle
    // already reads it: 16000 / (2 * 4) = 2000 Hz.
    let (f, s) = radar.poll(Button::Down, TRANSMITTED_HZ);
    assert_eq!(f.num, 16_000);
    assert_eq!(f.den, 8);
    assert_eq!(s.num, KMH_FACTOR as u128 * 16_000);
    assert_eq!(s.den, 2 * TRANSMITTED_HZ as u128 * 8);
    let expected = 1_080_000_000.0f64 * 2_000.0 / (2.0 * 10.525e9);
    assert!((value_of(s.num, s.den) - expected).abs() < 1e-9);
    // A Left edge in a later cycle only flips the unit axis.
    let (_, imperial) = radar.poll(Button::Left, TRANSMITTED_HZ);
    assert_eq!(imperial.num, MPH_FACTOR as u128 * 16_000);
}

#[test]
fn use_global_takes_mutates_and_restores() {
    let mut cell = SafeGlobal::new(41u64);
    use_global(&mut cell, |v| v + 1);
    assert!(cell.has_value());
    assert_eq!(cell.cell, Some(42));
}

#[test]
fn comparator_backend_standalone_cold_start() {
    let comp = Comparator::new(16_000);
    let f = comp.calculate_frequency();
    assert_eq!(f.num, 0);
    assert_eq!(f.den, 1);
}

#[test]
fn sampled_backend_standalone_cold_start() {
    let mut adc = SampledBackend::new(20_000, 2_048);
    let f = adc.calculate_frequency(true);
    assert_eq!(f.num, 0);
    assert_eq!(f.den, 1);
}
