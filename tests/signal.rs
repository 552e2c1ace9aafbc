use debouncer::rng::LcgRng;
use debouncer::signal::{fron_1023_to_90, EmgSimulator, READING_MAX};

#[test]
fn rng_sequence_from_seed() {
    let mut rng = LcgRng::new(42);
    assert_eq!(rng.next_u32(), 399_345_412);
    assert_eq!(rng.next_u32(), 3_553_834_353);
    assert_eq!(rng.next_u32(), 3_526_747_820);
    let mut zero = LcgRng::new(0);
    assert_eq!(zero.next_u32(), 1_771_841_609);
}

#[test]
fn rng_bounded_values() {
    let mut rng = LcgRng::new(42);
    assert_eq!(rng.rand_bounded_u32(1023), 994);
    assert_eq!(rng.rand_bounded_u32(1023), 894);
    assert_eq!(rng.rand_bounded_u32(1023), 332);
    let mut one = LcgRng::new(7);
    assert_eq!(one.rand_bounded_u32(1), 0);
}

#[test]
fn angle_map_endpoints() {
    assert_eq!(fron_1023_to_90(0), 0);
    assert_eq!(fron_1023_to_90(512), 45);
    assert_eq!(fron_1023_to_90(1023), 90);
    assert_eq!(fron_1023_to_90(12), 1);
    assert_eq!(fron_1023_to_90(11), 0);
}

#[test]
fn angle_map_wraps_above_full_scale() {
    assert_eq!(fron_1023_to_90(u16::MAX), 133);
}

#[test]
fn emg_relaxed_sample() {
    let mut sim = EmgSimulator::new();
    assert_eq!(sim.next(1), 154);
    assert_eq!(sim.next(99), 252);
}

#[test]
fn emg_artifact_turns_negative_with_phase() {
    let mut sim = EmgSimulator::new();
    // phase reaches 17 * 8 = 136 on the eighth sample, past half the cycle
    for _ in 0..7 {
        sim.next(1);
    }
    assert_eq!(sim.next(1), 148);
}

#[test]
fn emg_spike_is_full_scale_then_recovers() {
    let mut sim = EmgSimulator::new();
    assert_eq!(sim.next(0), READING_MAX);
    assert_eq!(sim.next(1), 154);
    assert_eq!(sim.next(400), READING_MAX);
}

#[test]
fn emg_level_changes_every_thousand_samples() {
    let mut sim = EmgSimulator::new();
    for _ in 0..999 {
        sim.next(1);
    }
    // the thousandth sample picks the clenched level: 940 + 85 % 20 - 10 + 3
    assert_eq!(sim.next(85), 938);
    assert_eq!(sim.next(1), 940 + 1 - 10 + 3);
}

#[test]
fn emg_intermediate_level() {
    let mut sim = EmgSimulator::new();
    for _ in 0..999 {
        sim.next(1);
    }
    // 1000 * 17 = 17000, 17000 % 256 = 104: positive artifact
    assert_eq!(sim.next(51), 620 + 51 % 60 - 30 + 3);
}
