//! The grid: its display state machine, the texture-ready signal, and the
//! handle under which the display layer finds the active noise texture.

use vstd::prelude::*;

verus! {

use crate::{GRID_SIZE, TILE_SIZE};

/// Identifier of a texture slot in an [`crate::texture::ImageAssets`] store;
/// the display layer holds the handle of the currently active buffer.
#[derive(Clone, Copy, PartialEq, Eq, Structural, Debug)]
pub struct NoiseTextureHandle(pub usize);

/// Marker for the quad that displays the noise texture.
pub struct NoiseTexture;

/// Display state of the grid: it waits until the first texture generation has
/// finished, then stays ready.
#[derive(Debug, Clone, Eq, PartialEq, Hash, Default, Structural)]
pub enum GridState {
    /// No complete texture exists yet; nothing may be displayed.
    #[default]
    WaitingForTexture,
    /// A complete texture was published; the grid may be displayed.
    Ready,
}

/// The zero-payload signal that the initial texture generation has finished.
pub struct TextureReadyEvent;

/// Advances the grid state when the texture-ready signal arrived; without the
/// signal the state is left alone.
pub fn handle_texture_ready_event(event: Option<TextureReadyEvent>, state: &mut GridState)
    ensures
        *final(state) == if event is Some {
            GridState::Ready
        } else {
            *old(state)
        },
{
    if event.is_some() {
        *state = GridState::Ready;
    }
}

/// Side length of the square grid in world units: the whole grid is one
/// textured quad of this size.
pub fn grid_world_size() -> (r: u64)
    ensures
        r == GRID_SIZE * TILE_SIZE,
{
    proof {
        assert(GRID_SIZE * TILE_SIZE == 1000);
    }
    1000
}

} // verus!
