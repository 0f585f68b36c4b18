//! Texture generation: determinism, value ranges, full coverage, pan offsets.

use noise_grid::settings::NoiseSettings;
use noise_grid::texture::generate_pixels;

fn default_settings() -> NoiseSettings {
    NoiseSettings::default()
}

#[test]
fn regeneration_is_deterministic() {
    let settings = default_settings();
    let first = generate_pixels(&settings, 16, 16);
    let second = generate_pixels(&settings, 16, 16);
    assert_eq!(first, second);
}

#[test]
fn regeneration_with_equal_settings_matches_across_instances() {
    let a = default_settings();
    let b = default_settings();
    let first = generate_pixels(&a, 8, 8);
    let second = generate_pixels(&b, 8, 8);
    assert_eq!(first, second);
}

#[test]
fn buffer_has_full_alpha_and_grayscale_channels() {
    let settings = default_settings();
    let data = generate_pixels(&settings, 8, 8);
    assert_eq!(data.len(), 8 * 8 * 4);
    for pixel in data.chunks(4) {
        assert_eq!(pixel[3], 255);
        assert_eq!(pixel[0], pixel[1]);
        assert_eq!(pixel[1], pixel[2]);
    }
}

#[test]
fn sampled_values_lie_in_unit_range() {
    let settings = default_settings();
    for y in 0..4u32 {
        for x in 0..4u32 {
            let nx = noise_grid::mapper::map_axis(x, settings.offset_x, 4, settings.frequency);
            let ny = noise_grid::mapper::map_axis(y, settings.offset_y, 4, settings.frequency);
            let n = noise_grid::noise_field::sample(
                settings.seed,
                settings.octaves,
                settings.lacunarity,
                settings.persistence,
                nx,
                ny,
            );
            assert!(n <= 1_000_000);
        }
    }
}

#[test]
fn zero_octaves_degenerate_to_half() {
    let n = noise_grid::noise_field::sample(7, 0, 2_000_000, 500_000, 123_456_789, 987_654_321);
    assert_eq!(n, 500_000);
}

#[test]
fn zero_octaves_regenerate_the_constant_half_field() {
    let settings = NoiseSettings {
        seed: 1,
        frequency: 10_000,
        octaves: 0,
        lacunarity: 2_000_000,
        persistence: 500_000,
        offset_x: 0,
        offset_y: 0,
    };
    let mut images = noise_grid::texture::ImageAssets::new();
    let handle = images.add(noise_grid::texture::create_empty_texture(4, 4));
    assert!(noise_grid::texture::generate_noise_texture(&settings, &mut images, handle));
    let buffer = images.get(handle).unwrap();
    assert_eq!(buffer.pixels.len(), 64);
    for pixel in buffer.pixels.chunks(4) {
        assert_eq!(pixel, [127, 127, 127, 255]);
    }
}

#[test]
fn four_by_four_buffer_is_not_all_zero() {
    let mut settings = default_settings();
    settings.seed = 42;
    settings.octaves = 1;
    settings.frequency = 10_000;
    let data = generate_pixels(&settings, 4, 4);
    assert_eq!(data.len(), 4 * 4 * 4);
    assert!(data.iter().any(|&b| b != 0));
}

#[test]
fn pan_offset_changes_the_buffer_deterministically() {
    let base = default_settings();
    let mut panned = default_settings();
    panned.pan_by(1, 0);
    assert_eq!(panned.offset_x, 1);
    assert_eq!(panned.offset_y, 0);

    let base_once = generate_pixels(&base, 8, 8);
    let base_twice = generate_pixels(&base, 8, 8);
    let panned_once = generate_pixels(&panned, 8, 8);
    let panned_twice = generate_pixels(&panned, 8, 8);

    assert_eq!(base_once, base_twice);
    assert_eq!(panned_once, panned_twice);
    assert_ne!(base_once, panned_once);
}

#[test]
fn different_seeds_give_different_buffers() {
    let mut a = default_settings();
    let mut b = default_settings();
    a.set_seed(1);
    b.set_seed(2);
    let first = generate_pixels(&a, 8, 8);
    let second = generate_pixels(&b, 8, 8);
    assert_ne!(first, second);
}

#[test]
fn tile_noise_value_is_deterministic() {
    let settings = default_settings();
    let tile = noise_grid::noise_field::NoiseControlled { position: (3, -4) };
    let first = noise_grid::noise_field::tile_noise_value(&settings, &tile);
    let second = noise_grid::noise_field::tile_noise_value(&settings, &tile);
    assert_eq!(first, second);
}
