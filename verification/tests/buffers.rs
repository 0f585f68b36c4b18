//! Double buffering: swap policy, safety of the displayed buffer, coalesced
//! triggers, and the missing-buffer failure mode.

use noise_grid::double_buffer::{
    get_active_buffer, initial_noise_generation, on_trigger, setup_noise_texture,
};
use noise_grid::settings::{GenerateNoiseEvent, NoiseSettings, RegenerationTrigger};
use noise_grid::texture::{generate_noise_texture, ImageAssets};

#[test]
fn setup_allocates_two_blank_buffers() {
    let mut images = ImageAssets::new();
    let buffers = setup_noise_texture(&mut images, 8, 8);
    assert!(buffers.is_first_active);
    assert_ne!(buffers.active.0, buffers.inactive.0);
    let active = images.get(buffers.active).unwrap();
    let inactive = images.get(buffers.inactive).unwrap();
    assert_eq!(active.width, 8);
    assert_eq!(active.height, 8);
    assert_eq!(inactive.width, 8);
    assert_eq!(inactive.height, 8);
    assert!(active.pixels.iter().all(|&b| b == 0));
    assert!(inactive.pixels.iter().all(|&b| b == 0));
    for buffer in [active, inactive] {
        assert_eq!(buffer.sampling.filter, noise_grid::texture::FilterMode::Nearest);
        assert_eq!(buffer.sampling.address, noise_grid::texture::AddressMode::ClampToEdge);
    }
}

#[test]
fn initial_generation_fills_both_buffers() {
    let settings = NoiseSettings::default();
    let mut images = ImageAssets::new();
    let buffers = setup_noise_texture(&mut images, 8, 8);
    let ready = initial_noise_generation(&settings, &mut images, &buffers);
    assert!(ready);
    let active = images.get(buffers.active).unwrap();
    let inactive = images.get(buffers.inactive).unwrap();
    assert!(active.pixels.iter().any(|&b| b != 0));
    assert_eq!(active.pixels, inactive.pixels);
}

#[test]
fn on_trigger_without_request_is_a_no_op() {
    let settings = NoiseSettings::default();
    let mut images = ImageAssets::new();
    let mut buffers = setup_noise_texture(&mut images, 8, 8);
    initial_noise_generation(&settings, &mut images, &buffers);
    let mut trigger = RegenerationTrigger::new();
    let mut handle = get_active_buffer(&buffers);
    let published = on_trigger(&mut trigger, &settings, &mut images, &mut buffers, &mut handle);
    assert!(published.is_none());
    assert!(buffers.is_first_active);
}

#[test]
fn swap_keeps_the_previously_active_buffer_untouched() {
    let mut settings = NoiseSettings::default();
    let mut images = ImageAssets::new();
    let mut buffers = setup_noise_texture(&mut images, 8, 8);
    initial_noise_generation(&settings, &mut images, &buffers);

    let mut trigger = RegenerationTrigger::new();
    let mut handle = get_active_buffer(&buffers);

    settings.set_seed(99);
    trigger.request_regeneration();
    let first = on_trigger(&mut trigger, &settings, &mut images, &mut buffers, &mut handle);
    let first_handle = first.expect("a pending trigger publishes a handle");
    assert_eq!(handle.0, first_handle.0);
    assert_eq!(buffers.active.0, first_handle.0);
    assert!(!buffers.is_first_active);

    // The buffer published by the first swap must keep its bytes until the
    // next trigger's regeneration has completed.
    let displayed = images.get(first_handle).unwrap().clone_pixels();

    settings.set_seed(123);
    trigger.request_regeneration();
    let second = on_trigger(&mut trigger, &settings, &mut images, &mut buffers, &mut handle);
    let second_handle = second.expect("a pending trigger publishes a handle");
    assert_ne!(first_handle.0, second_handle.0);

    // The first handle is now the inactive buffer; its content is still what
    // was displayed, byte for byte.
    let after = images.get(first_handle).unwrap().clone_pixels();
    assert_eq!(displayed, after);
}

#[test]
fn five_requests_coalesce_into_one_regeneration() {
    let settings = NoiseSettings::default();
    let mut images = ImageAssets::new();
    let mut buffers = setup_noise_texture(&mut images, 8, 8);
    initial_noise_generation(&settings, &mut images, &buffers);
    let mut trigger = RegenerationTrigger::new();
    let mut handle = get_active_buffer(&buffers);

    for _ in 0..5 {
        trigger.request_regeneration();
    }
    assert!(trigger.is_pending());

    let first = on_trigger(&mut trigger, &settings, &mut images, &mut buffers, &mut handle);
    assert!(first.is_some());
    assert!(!trigger.is_pending());

    // The coalesced requests were consumed by the single pass: the next cycle
    // regenerates nothing.
    let second = on_trigger(&mut trigger, &settings, &mut images, &mut buffers, &mut handle);
    assert!(second.is_none());
}

#[test]
fn events_raise_the_trigger_like_requests() {
    let mut trigger = RegenerationTrigger::new();
    assert!(!trigger.is_pending());
    trigger.send(GenerateNoiseEvent);
    trigger.send(GenerateNoiseEvent);
    assert!(trigger.is_pending());
    assert!(trigger.consume());
    assert!(!trigger.consume());
}

#[test]
fn missing_buffer_makes_regeneration_a_reported_no_op() {
    let settings = NoiseSettings::default();
    let mut images = ImageAssets::new();
    let mut buffers = setup_noise_texture(&mut images, 8, 8);
    initial_noise_generation(&settings, &mut images, &buffers);

    let removed = images.remove(buffers.inactive);
    assert!(removed.is_some());

    let mut trigger = RegenerationTrigger::new();
    let mut handle = get_active_buffer(&buffers);
    trigger.request_regeneration();
    let published = on_trigger(&mut trigger, &settings, &mut images, &mut buffers, &mut handle);

    // Not ready: nothing was swapped and the display keeps its handle.
    assert!(published.is_none());
    assert!(buffers.is_first_active);
    assert_eq!(handle.0, buffers.active.0);
    assert!(images.get(buffers.active).is_some());
}

#[test]
fn regeneration_through_a_dangling_handle_reports_failure() {
    let settings = NoiseSettings::default();
    let mut images = ImageAssets::new();
    let buffers = setup_noise_texture(&mut images, 4, 4);
    let bad = noise_grid::grid::NoiseTextureHandle(17);
    assert!(!generate_noise_texture(&settings, &mut images, bad));
    assert!(generate_noise_texture(&settings, &mut images, buffers.active));
}

#[test]
fn clone_pixels_copies_the_content() {
    let settings = NoiseSettings::default();
    let mut images = ImageAssets::new();
    let buffers = setup_noise_texture(&mut images, 4, 4);
    generate_noise_texture(&settings, &mut images, buffers.active);
    let buffer = images.get(buffers.active).unwrap();
    assert_eq!(buffer.clone_pixels(), buffer.pixels);
}
