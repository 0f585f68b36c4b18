//! The debug help overlay: the key-binding text shown in a screen corner.

use vstd::prelude::*;

verus! {

/// The help text of the debug overlay, naming the regeneration and grid
/// toggle keys; the display layer places it on screen.
pub fn render_debug_ui_info() -> (text: &'static str)
    ensures
        text@ == "\"space\" - generate perlin noise\n\"g\" - toggle grid"@,
{
    "\"space\" - generate perlin noise\n\"g\" - toggle grid"
}

} // verus!
