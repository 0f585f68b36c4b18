//! The debug grid overlay: its visibility state machine and the line segments
//! it draws over the tiles.

use vstd::prelude::*;

verus! {

use crate::GRID_SIZE;
use crate::mapper::spec_tile_edge_to_world;

/// Visibility of the debug grid overlay, toggled from the keyboard.
#[derive(Debug, Clone, Eq, PartialEq, Hash, Default, Structural)]
pub enum DebugGridState {
    /// The overlay is not drawn.
    #[default]
    Hidden,
    /// The overlay is drawn over the grid.
    Visible,
}

/// Flips the overlay visibility when its key was pressed; otherwise the state
/// is left alone.
pub fn handle_keys(toggle_pressed: bool, state: &mut DebugGridState)
    ensures
        *final(state) == if toggle_pressed {
            if *old(state) is Visible {
                DebugGridState::Hidden
            } else {
                DebugGridState::Visible
            }
        } else {
            *old(state)
        },
{
    if toggle_pressed {
        *state = match state {
            DebugGridState::Visible => DebugGridState::Hidden,
            DebugGridState::Hidden => DebugGridState::Visible,
        };
    }
}

/// One line segment of the overlay, with endpoints in world coordinates in
/// fixed point with unit [`crate::FIX_ONE`].
#[derive(Clone, Copy, PartialEq, Eq, Structural, Debug)]
pub struct GridLine {
    /// X of the first endpoint.
    pub start_x: i64,
    /// Y of the first endpoint.
    pub start_y: i64,
    /// X of the second endpoint.
    pub end_x: i64,
    /// Y of the second endpoint.
    pub end_y: i64,
}

/// The horizontal overlay line along the bottom edge of tile row `i`.
pub open spec fn spec_h_line(i: int) -> GridLine {
    (GridLine {
        start_x: spec_tile_edge_to_world(0) as i64,
        start_y: spec_tile_edge_to_world(i) as i64,
        end_x: spec_tile_edge_to_world(GRID_SIZE as int) as i64,
        end_y: spec_tile_edge_to_world(i) as i64,
    })
}

/// The vertical overlay line along the left edge of tile column `i`.
pub open spec fn spec_v_line(i: int) -> GridLine {
    (GridLine {
        start_x: spec_tile_edge_to_world(i) as i64,
        start_y: spec_tile_edge_to_world(0) as i64,
        end_x: spec_tile_edge_to_world(i) as i64,
        end_y: spec_tile_edge_to_world(GRID_SIZE as int) as i64,
    })
}

/// Every line of the overlay: one horizontal line per row, one vertical line
/// per column, and the two axis lines drawn once more on top.
pub open spec fn spec_grid_lines() -> Seq<GridLine> {
    Seq::new(GRID_SIZE as nat, |i: int| spec_h_line(i)) + Seq::new(
        GRID_SIZE as nat,
        |i: int| spec_v_line(i),
    ) + seq![spec_h_line(0), spec_v_line(0)]
}

/// Computes the overlay's line segments; the display layer draws them.
pub fn render_grid() -> (lines: Vec<GridLine>)
    ensures
        lines@ == spec_grid_lines(),
        lines@.len() == 2 * GRID_SIZE + 2,
{
    let mut lines: Vec<GridLine> = Vec::new();
    let mut i: i32 = 0;
    while i < 1000
        invariant
            0 <= i <= 1000,
            lines@.len() == i,
            forall|j: int| 0 <= j < i ==> lines@[j] == spec_h_line(j),
        decreases 1000 - i,
    {
        let y = crate::mapper::grid_tile_edge_to_world(i);
        lines.push(
            GridLine {
                start_x: crate::mapper::grid_tile_edge_to_world(0),
                start_y: y,
                end_x: crate::mapper::grid_tile_edge_to_world(1000),
                end_y: y,
            },
        );
        i = i + 1;
    }
    let mut i: i32 = 0;
    while i < 1000
        invariant
            0 <= i <= 1000,
            lines@.len() == 1000 + i,
            forall|j: int| 0 <= j < 1000 ==> lines@[j] == spec_h_line(j),
            forall|j: int| 1000 <= j < 1000 + i ==> lines@[j] == spec_v_line(j - 1000),
        decreases 1000 - i,
    {
        let x = crate::mapper::grid_tile_edge_to_world(i);
        lines.push(
            GridLine {
                start_x: x,
                start_y: crate::mapper::grid_tile_edge_to_world(0),
                end_x: x,
                end_y: crate::mapper::grid_tile_edge_to_world(1000),
            },
        );
        i = i + 1;
    }
    let e0 = crate::mapper::grid_tile_edge_to_world(0);
    let e1 = crate::mapper::grid_tile_edge_to_world(1000);
    lines.push(GridLine { start_x: e0, start_y: e0, end_x: e1, end_y: e0 });
    lines.push(GridLine { start_x: e0, start_y: e0, end_x: e0, end_y: e1 });
    proof {
        assert(lines@ =~= spec_grid_lines());
    }
    lines
}

} // verus!
