//! Parameter defaults, clamping mutators, and seed handling.

use noise_grid::settings::{
    apply_ui_changes, keyboard_input_system, NoiseSettings, RegenerationTrigger,
};

#[test]
fn defaults_match_the_startup_configuration() {
    let s = NoiseSettings::default();
    assert_eq!(s.seed, 1655470700);
    assert_eq!(s.frequency, 10_000);
    assert_eq!(s.octaves, 4);
    assert_eq!(s.lacunarity, 2_000_000);
    assert_eq!(s.persistence, 500_000);
    assert_eq!(s.offset_x, 0);
    assert_eq!(s.offset_y, 0);
}

#[test]
fn octaves_clamp_to_the_maximum() {
    let mut s = NoiseSettings::default();
    s.set_octaves(20);
    assert_eq!(s.octaves, 8);
}

#[test]
fn octaves_clamp_to_the_minimum() {
    let mut s = NoiseSettings::default();
    s.set_octaves(0);
    assert_eq!(s.octaves, 1);
}

#[test]
fn negative_frequency_clamps_to_the_smallest_positive_bound() {
    let mut s = NoiseSettings::default();
    s.set_frequency(-1);
    assert_eq!(s.frequency, 1_000);
}

#[test]
fn oversized_frequency_clamps_to_the_maximum() {
    let mut s = NoiseSettings::default();
    s.set_frequency(200_000);
    assert_eq!(s.frequency, 100_000);
}

#[test]
fn in_range_frequency_is_stored_unchanged() {
    let mut s = NoiseSettings::default();
    s.set_frequency(2_500);
    assert_eq!(s.frequency, 2_500);
}

#[test]
fn lacunarity_clamps_to_its_range() {
    let mut s = NoiseSettings::default();
    s.set_lacunarity(5_000_000);
    assert_eq!(s.lacunarity, 4_000_000);
    s.set_lacunarity(0);
    assert_eq!(s.lacunarity, 1_000_000);
    s.set_lacunarity(1_500_000);
    assert_eq!(s.lacunarity, 1_500_000);
}

#[test]
fn persistence_clamps_to_its_range() {
    let mut s = NoiseSettings::default();
    s.set_persistence(2_000_000);
    assert_eq!(s.persistence, 1_000_000);
    s.set_persistence(-5);
    assert_eq!(s.persistence, 0);
    s.set_persistence(250_000);
    assert_eq!(s.persistence, 250_000);
}

#[test]
fn panning_accumulates_and_saturates() {
    let mut s = NoiseSettings::default();
    s.pan_by(1, -1);
    s.pan_by(1, -1);
    assert_eq!(s.offset_x, 2);
    assert_eq!(s.offset_y, -2);
    s.offset_x = i32::MAX;
    s.pan_by(1, 0);
    assert_eq!(s.offset_x, i32::MAX);
    s.offset_y = i32::MIN;
    s.pan_by(0, -1);
    assert_eq!(s.offset_y, i32::MIN);
}

#[test]
fn set_seed_stores_the_seed() {
    let mut s = NoiseSettings::default();
    s.set_seed(31337);
    assert_eq!(s.seed, 31337);
}

#[test]
fn pan_keys_shift_the_offset_and_raise_the_trigger() {
    let mut s = NoiseSettings::default();
    let mut t = RegenerationTrigger::new();
    // Pan keys without the modifier do nothing.
    keyboard_input_system(false, false, true, false, true, false, &mut s, &mut t);
    assert_eq!(s.offset_x, 0);
    assert_eq!(s.offset_y, 0);
    assert!(!t.is_pending());
    // With the modifier held, left pans one tile and raises the trigger.
    keyboard_input_system(false, true, true, false, false, false, &mut s, &mut t);
    assert_eq!(s.offset_x, 1);
    assert_eq!(s.offset_y, 0);
    assert!(t.is_pending());
    t.consume();
    // Down pans the other axis the other way.
    keyboard_input_system(false, true, false, false, false, true, &mut s, &mut t);
    assert_eq!(s.offset_x, 1);
    assert_eq!(s.offset_y, -1);
    assert!(t.is_pending());
}

#[test]
fn reseed_key_changes_nothing_but_the_seed() {
    let mut s = NoiseSettings::default();
    let mut t = RegenerationTrigger::new();
    keyboard_input_system(true, false, false, false, false, false, &mut s, &mut t);
    assert!(t.is_pending());
    assert_eq!(s.frequency, 10_000);
    assert_eq!(s.octaves, 4);
    assert_eq!(s.offset_x, 0);
}

#[test]
fn ui_edits_store_clamped_values_and_raise_one_request() {
    let mut s = NoiseSettings::default();
    let mut t = RegenerationTrigger::new();
    apply_ui_changes(
        &mut s,
        &mut t,
        Some(7),
        false,
        Some(-1),
        Some(20),
        Some(5_000_000),
        Some(-3),
    );
    assert_eq!(s.seed, 7);
    assert_eq!(s.frequency, 1_000);
    assert_eq!(s.octaves, 8);
    assert_eq!(s.lacunarity, 4_000_000);
    assert_eq!(s.persistence, 0);
    assert!(t.is_pending());
    assert!(t.consume());
    // A frame without edits raises nothing.
    apply_ui_changes(&mut s, &mut t, None, false, None, None, None, None);
    assert!(!t.is_pending());
    assert_eq!(s.seed, 7);
    assert_eq!(s.frequency, 1_000);
}

#[test]
fn randomize_seed_touches_only_the_seed() {
    let mut s = NoiseSettings::default();
    s.set_frequency(2_000);
    s.set_octaves(3);
    s.set_lacunarity(3_000_000);
    s.set_persistence(750_000);
    s.pan_by(5, -7);
    s.randomize_seed();
    assert_eq!(s.frequency, 2_000);
    assert_eq!(s.octaves, 3);
    assert_eq!(s.lacunarity, 3_000_000);
    assert_eq!(s.persistence, 750_000);
    assert_eq!(s.offset_x, 5);
    assert_eq!(s.offset_y, -7);
}
