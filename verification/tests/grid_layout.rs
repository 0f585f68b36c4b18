//! Grid layout: coordinate conversions, overlay lines, state machines, and
//! the help overlay text.

use noise_grid::debug_grid::{handle_keys, render_grid, DebugGridState};
use noise_grid::grid::{grid_world_size, handle_texture_ready_event, GridState, TextureReadyEvent};

#[test]
fn tile_edges_map_to_centered_world_coordinates() {
    assert_eq!(noise_grid::mapper::grid_tile_edge_to_world(0), -500_000_000);
    assert_eq!(noise_grid::mapper::grid_tile_edge_to_world(500), 0);
    assert_eq!(noise_grid::mapper::grid_tile_edge_to_world(1000), 500_000_000);
    assert_eq!(noise_grid::mapper::grid_tile_edge_to_world(-1), -501_000_000);
}

#[test]
fn tile_centers_sit_half_a_tile_past_their_edge() {
    assert_eq!(noise_grid::mapper::grid_tile_center_to_world(0), -499_500_000);
    assert_eq!(noise_grid::mapper::grid_tile_center_to_world(500), 500_000);
}

#[test]
fn map_axis_matches_the_mapping_formula() {
    // (0 + 0 * 30 + 2^36) * 1000 * 10000 / 1000
    assert_eq!(noise_grid::mapper::map_axis(0, 0, 1000, 10_000), 687_194_767_360_000);
    // One pixel to the right moves the coordinate by 1000 * 10000 / 1000.
    assert_eq!(noise_grid::mapper::map_axis(1, 0, 1000, 10_000), 687_194_767_370_000);
    // One tile of pan offset moves it by 30 pixels' worth.
    assert_eq!(noise_grid::mapper::map_axis(0, 1, 1000, 10_000), 687_194_767_660_000);
}

#[test]
fn world_size_covers_the_whole_grid() {
    assert_eq!(grid_world_size(), 1000);
}

#[test]
fn overlay_has_one_line_per_row_and_column_plus_axes() {
    let lines = render_grid();
    assert_eq!(lines.len(), 2002);
    let first = lines[0];
    assert_eq!(first.start_x, -500_000_000);
    assert_eq!(first.start_y, -500_000_000);
    assert_eq!(first.end_x, 500_000_000);
    assert_eq!(first.end_y, -500_000_000);
    let row_seven = lines[7];
    assert_eq!(row_seven.start_y, -493_000_000);
    assert_eq!(row_seven.end_y, -493_000_000);
    let col_zero = lines[1000];
    assert_eq!(col_zero.start_x, -500_000_000);
    assert_eq!(col_zero.end_x, -500_000_000);
    assert_eq!(col_zero.end_y, 500_000_000);
    let x_axis = lines[2000];
    let y_axis = lines[2001];
    assert_eq!(x_axis.end_x, 500_000_000);
    assert_eq!(x_axis.end_y, -500_000_000);
    assert_eq!(y_axis.end_x, -500_000_000);
    assert_eq!(y_axis.end_y, 500_000_000);
}

#[test]
fn grid_waits_for_the_texture_ready_signal() {
    let mut state = GridState::default();
    assert_eq!(state, GridState::WaitingForTexture);
    handle_texture_ready_event(None, &mut state);
    assert_eq!(state, GridState::WaitingForTexture);
    handle_texture_ready_event(Some(TextureReadyEvent), &mut state);
    assert_eq!(state, GridState::Ready);
    handle_texture_ready_event(None, &mut state);
    assert_eq!(state, GridState::Ready);
}

#[test]
fn overlay_visibility_toggles_on_its_key() {
    let mut state = DebugGridState::default();
    assert_eq!(state, DebugGridState::Hidden);
    handle_keys(false, &mut state);
    assert_eq!(state, DebugGridState::Hidden);
    handle_keys(true, &mut state);
    assert_eq!(state, DebugGridState::Visible);
    handle_keys(true, &mut state);
    assert_eq!(state, DebugGridState::Hidden);
}

#[test]
fn help_overlay_names_the_key_bindings() {
    let text = noise_grid::debug_ui::render_debug_ui_info();
    assert_eq!(text, "\"space\" - generate perlin noise\n\"g\" - toggle grid");
}

#[test]
fn empty_texture_uses_nearest_clamped_sampling() {
    let t = noise_grid::texture::create_empty_texture(4, 4);
    assert_eq!(t.width, 4);
    assert_eq!(t.height, 4);
    assert_eq!(t.pixels.len(), 64);
    assert!(t.pixels.iter().all(|&b| b == 0));
    assert_eq!(t.sampling.filter, noise_grid::texture::FilterMode::Nearest);
    assert_eq!(t.sampling.address, noise_grid::texture::AddressMode::ClampToEdge);
}
