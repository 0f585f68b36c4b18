//! The double-buffered texture swap.
//!
//! Two texture buffers of identical dimensions are allocated once at startup.
//! The one referenced as active is what the display layer reads; it is never
//! written. A pending regeneration trigger causes exactly one regeneration,
//! always into the inactive buffer, after which the roles flip and the new
//! active handle is republished. The buffer that was on display keeps its
//! bytes untouched until the next trigger, so an in-flight read of the
//! previous frame never observes a write.

use vstd::prelude::*;

verus! {

use crate::grid::NoiseTextureHandle;
use crate::settings::{NoiseSettings, RegenerationTrigger};
use crate::texture::{AddressMode, FilterMode, ImageAssets, SamplingMode, create_empty_texture,
    generate_noise_texture, spec_pixels};

/// The pair of texture buffers and the record of which one is on display.
pub struct NoiseTextureBuffers {
    /// Handle of the buffer the display layer reads; never written while it
    /// holds this role.
    pub active: NoiseTextureHandle,
    /// Handle of the buffer the next regeneration overwrites.
    pub inactive: NoiseTextureHandle,
    /// Which of the two allocated buffers is currently active.
    pub is_first_active: bool,
}

impl NoiseTextureBuffers {
    /// Both handles resolve, name distinct slots, and the two buffers have
    /// identical dimensions. Established at construction; a later destroyed
    /// buffer only degrades regeneration to a reported no-op.
    pub open spec fn wf(&self, assets: ImageAssets) -> bool {
        &&& assets.resolves(self.active)
        &&& assets.resolves(self.inactive)
        &&& self.active.0 != self.inactive.0
        &&& assets.spec_buffer(self.active).width == assets.spec_buffer(self.inactive).width
        &&& assets.spec_buffer(self.active).height == assets.spec_buffer(self.inactive).height
    }
}

/// Allocates the two identically sized, blank texture buffers and hands back
/// the double buffer that owns their roles, with the first buffer active.
pub fn setup_noise_texture(images: &mut ImageAssets, width: u32, height: u32) -> (buffers:
    NoiseTextureBuffers)
    requires
        old(images).wf(),
        old(images).images@.len() + 2 <= usize::MAX,
        1 <= width,
        1 <= height,
        width * height * 4 <= usize::MAX,
    ensures
        final(images).wf(),
        buffers.wf(*final(images)),
        buffers.is_first_active,
        buffers.active.0 == old(images).images@.len(),
        buffers.inactive.0 == old(images).images@.len() + 1,
        final(images).images@.len() == old(images).images@.len() + 2,
        forall|j: int|
            0 <= j < old(images).images@.len() ==> final(images).images@[j] == old(images)
                .images@[j],
        final(images).spec_buffer(buffers.active).width == width,
        final(images).spec_buffer(buffers.active).height == height,
        final(images).spec_buffer(buffers.inactive).width == width,
        final(images).spec_buffer(buffers.inactive).height == height,
        forall|j: int|
            0 <= j < width * height * 4 ==> final(images).spec_buffer(buffers.active).pixels@[j]
                == 0u8,
        forall|j: int|
            0 <= j < width * height * 4 ==> final(images).spec_buffer(buffers.inactive).pixels@[j]
                == 0u8,
        final(images).spec_buffer(buffers.active).sampling == (SamplingMode {
            filter: FilterMode::Nearest,
            address: AddressMode::ClampToEdge,
        }),
        final(images).spec_buffer(buffers.inactive).sampling == (SamplingMode {
            filter: FilterMode::Nearest,
            address: AddressMode::ClampToEdge,
        }),
{
    let texture1 = create_empty_texture(width, height);
    let texture2 = create_empty_texture(width, height);
    let handle1 = images.add(texture1);
    let handle2 = images.add(texture2);
    NoiseTextureBuffers { active: handle1, inactive: handle2, is_first_active: true }
}

/// The startup generation pass: fills both buffers from the noise field, so
/// that either can be displayed from the first frame on. Reports whether both
/// passes completed; the texture-ready signal follows from it.
pub fn initial_noise_generation(
    settings: &NoiseSettings,
    images: &mut ImageAssets,
    buffers: &NoiseTextureBuffers,
) -> (ready: bool)
    requires
        settings.bounded(),
        old(images).wf(),
        buffers.wf(*old(images)),
    ensures
        final(images).wf(),
        ready,
        buffers.wf(*final(images)),
        final(images).images@.len() == old(images).images@.len(),
        forall|j: int|
            0 <= j < old(images).images@.len() && j != buffers.active.0 && j != buffers.inactive.0
                ==> final(images).images@[j] == old(images).images@[j],
        final(images).spec_buffer(buffers.active).width == old(images).spec_buffer(
            buffers.active,
        ).width,
        final(images).spec_buffer(buffers.active).height == old(images).spec_buffer(
            buffers.active,
        ).height,
        final(images).spec_buffer(buffers.active).pixels@ == spec_pixels(
            *settings,
            old(images).spec_buffer(buffers.active).width as int,
            old(images).spec_buffer(buffers.active).height as int,
        ),
        final(images).spec_buffer(buffers.inactive).pixels@ == spec_pixels(
            *settings,
            old(images).spec_buffer(buffers.inactive).width as int,
            old(images).spec_buffer(buffers.inactive).height as int,
        ),
{
    let ok_active = generate_noise_texture(settings, images, buffers.active);
    let ok_inactive = generate_noise_texture(settings, images, buffers.inactive);
    ok_active && ok_inactive
}

/// One cycle of the swapper. Consumes the trigger; without a pending request
/// nothing happens. With one, however many requests were coalesced into it,
/// the inactive buffer alone is regenerated, the roles flip, and the handle of
/// the newly active buffer is republished and returned. The buffer that was
/// active keeps its bytes untouched: it may still be read by an in-flight
/// display of the previous frame. If the inactive buffer no longer resolves,
/// the regeneration is a no-op, nothing swaps, and no handle is returned.
pub fn on_trigger(
    trigger: &mut RegenerationTrigger,
    settings: &NoiseSettings,
    images: &mut ImageAssets,
    buffers: &mut NoiseTextureBuffers,
    noise_texture: &mut NoiseTextureHandle,
) -> (published: Option<NoiseTextureHandle>)
    requires
        settings.bounded(),
        old(images).wf(),
    ensures
        final(images).wf(),
        !final(trigger).pending(),
        !old(trigger).pending() ==> published is None && *final(images) == *old(images)
            && *final(buffers) == *old(buffers) && *final(noise_texture) == *old(noise_texture),
        old(trigger).pending() && !old(images).resolves(old(buffers).inactive) ==> published
            is None && *final(images) == *old(images) && *final(buffers) == *old(buffers)
            && *final(noise_texture) == *old(noise_texture),
        old(trigger).pending() && old(images).resolves(old(buffers).inactive) ==> {
            let target = old(buffers).inactive;
            let old_buf = old(images).spec_buffer(target);
            &&& published == Some(target)
            &&& final(buffers).active == target
            &&& final(buffers).inactive == old(buffers).active
            &&& final(buffers).is_first_active == !old(buffers).is_first_active
            &&& *final(noise_texture) == target
            &&& final(images).images@.len() == old(images).images@.len()
            &&& forall|j: int|
                0 <= j < old(images).images@.len() && j != target.0 ==> final(images).images@[j]
                    == old(images).images@[j]
            &&& final(images).resolves(target)
            &&& final(images).spec_buffer(target).width == old_buf.width
            &&& final(images).spec_buffer(target).height == old_buf.height
            &&& final(images).spec_buffer(target).sampling == old_buf.sampling
            &&& final(images).spec_buffer(target).pixels@ == spec_pixels(
                *settings,
                old_buf.width as int,
                old_buf.height as int,
            )
        },
{
    let pending = trigger.consume();
    if !pending {
        return None;
    }
    let ok = generate_noise_texture(settings, images, buffers.inactive);
    if !ok {
        return None;
    }
    let temp = buffers.active;
    buffers.active = buffers.inactive;
    buffers.inactive = temp;
    buffers.is_first_active = !buffers.is_first_active;
    *noise_texture = buffers.active;
    Some(buffers.active)
}

/// The handle of the buffer currently on display.
pub fn get_active_buffer(buffers: &NoiseTextureBuffers) -> (handle: NoiseTextureHandle)
    ensures
        handle == buffers.active,
{
    buffers.active
}

} // verus!
