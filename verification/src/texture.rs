//! Texture buffers and their regeneration from the noise field.
//!
//! A [`TextureBuffer`] owns a `width * height * 4` byte RGBA pixel buffer,
//! row-major, top to bottom. Regeneration overwrites every pixel with an
//! opaque grayscale value sampled from the noise field; it never writes a
//! buffer partially. Buffers live in an [`ImageAssets`] store and are reached
//! through handles, so a destroyed buffer makes regeneration a reported no-op
//! rather than an error.

use vstd::prelude::*;

verus! {

use crate::FIX_ONE;
use crate::grid::NoiseTextureHandle;
use crate::mapper::spec_map_axis;
use crate::noise_field::spec_sample;
use crate::settings::NoiseSettings;

/// How a texture is filtered when it is scaled on screen.
#[derive(Clone, Copy, PartialEq, Eq, Structural, Debug)]
pub enum FilterMode {
    /// Nearest-neighbor: no interpolation between pixels.
    Nearest,
    /// Linear interpolation between neighboring pixels.
    Linear,
}

/// How a texture behaves when sampled outside its edges.
#[derive(Clone, Copy, PartialEq, Eq, Structural, Debug)]
pub enum AddressMode {
    /// The edge pixel is repeated; no wraparound.
    ClampToEdge,
    /// The texture tiles.
    Repeat,
}

/// Sampling metadata of a texture, fixed at creation.
#[derive(Clone, Copy, PartialEq, Eq, Structural, Debug)]
pub struct SamplingMode {
    /// Filtering when scaled.
    pub filter: FilterMode,
    /// Behavior outside the edges.
    pub address: AddressMode,
}

/// An owned RGBA8 pixel buffer with fixed dimensions.
pub struct TextureBuffer {
    /// Width in pixels, fixed at creation.
    pub width: u32,
    /// Height in pixels, fixed at creation.
    pub height: u32,
    /// `width * height * 4` bytes, RGBA8, row-major, top to bottom.
    pub pixels: Vec<u8>,
    /// How the display layer samples the texture.
    pub sampling: SamplingMode,
}

impl TextureBuffer {
    /// The buffer is nonempty in both axes and holds exactly four bytes per
    /// pixel.
    pub open spec fn wf(&self) -> bool {
        &&& 1 <= self.width
        &&& 1 <= self.height
        &&& self.pixels@.len() == self.width * self.height * 4
    }

    /// A copy of the pixel bytes, for consumers that must compare buffer
    /// contents across cycles.
    pub fn clone_pixels(&self) -> (r: Vec<u8>)
        ensures
            r@ == self.pixels@,
    {
        let mut r: Vec<u8> = Vec::new();
        let n = self.pixels.len();
        let mut i: usize = 0;
        while i < n
            invariant
                i <= n,
                n == self.pixels@.len(),
                r@ == self.pixels@.subrange(0, i as int),
            decreases n - i,
        {
            r.push(self.pixels[i]);
            proof {
                assert(r@ =~= self.pixels@.subrange(0, i + 1));
            }
            i = i + 1;
        }
        proof {
            assert(r@ =~= self.pixels@);
        }
        r
    }
}

/// A blank, fully transparent texture of the given dimensions, as allocated at
/// startup before the initial generation pass.
pub fn create_empty_texture(width: u32, height: u32) -> (t: TextureBuffer)
    requires
        1 <= width,
        1 <= height,
        width * height * 4 <= usize::MAX,
    ensures
        t.width == width,
        t.height == height,
        t.wf(),
        forall|j: int| 0 <= j < t.pixels@.len() ==> t.pixels@[j] == 0u8,
        t.sampling == (SamplingMode { filter: FilterMode::Nearest, address: AddressMode::ClampToEdge }),
{
    let count: usize = (width as usize) * (height as usize) * 4;
    let mut pixels: Vec<u8> = Vec::new();
    let mut i: usize = 0;
    while i < count
        invariant
            i <= count,
            pixels@.len() == i,
            forall|j: int| 0 <= j < i ==> pixels@[j] == 0u8,
        decreases count - i,
    {
        pixels.push(0);
        i = i + 1;
    }
    TextureBuffer {
        width,
        height,
        pixels,
        sampling: SamplingMode { filter: FilterMode::Nearest, address: AddressMode::ClampToEdge },
    }
}

/// The grayscale level of one pixel: the noise field sampled at the mapped
/// coordinate, scaled from `[0, FIX_ONE]` to `[0, 255]`.
pub open spec fn spec_pixel_value(s: NoiseSettings, w: int, h: int, x: int, y: int) -> int {
    spec_sample(
        s.seed,
        s.octaves as nat,
        s.lacunarity as int,
        s.persistence as int,
        spec_map_axis(x, s.offset_x as int, w, s.frequency as int),
        spec_map_axis(y, s.offset_y as int, h, s.frequency as int),
    ) * 255 / FIX_ONE as int
}

/// Byte `i` of a regenerated buffer: alpha is always 255, and the three color
/// channels carry the grayscale level of the pixel the byte belongs to.
pub open spec fn spec_channel(s: NoiseSettings, w: int, h: int, i: int) -> u8 {
    if i % 4 == 3 {
        255u8
    } else {
        spec_pixel_value(s, w, h, (i / 4) % w, (i / 4) / w) as u8
    }
}

/// The full pixel content of a regenerated `w` by `h` buffer. A pure function
/// of the settings and dimensions alone: regenerating twice with equal
/// settings yields byte-identical buffers.
pub open spec fn spec_pixels(s: NoiseSettings, w: int, h: int) -> Seq<u8> {
    Seq::new((w * h * 4) as nat, |i: int| spec_channel(s, w, h, i))
}

/// Fills a fresh pixel buffer from the noise field: every pixel in row-major
/// order is sampled at its mapped coordinate and written as opaque grayscale.
pub fn generate_pixels(settings: &NoiseSettings, width: u32, height: u32) -> (data: Vec<u8>)
    requires
        settings.bounded(),
        1 <= width,
        1 <= height,
        width * height * 4 <= usize::MAX,
    ensures
        data@ == spec_pixels(*settings, width as int, height as int),
{
    let ghost w = width as int;
    let ghost h = height as int;
    let count: usize = (width as usize) * (height as usize);
    let mut data: Vec<u8> = Vec::new();
    let mut p: usize = 0;
    while p < count
        invariant
            p <= count,
            count == width * height,
            w == width as int,
            h == height as int,
            settings.bounded(),
            1 <= width,
            1 <= height,
            width * height * 4 <= usize::MAX,
            data@.len() == 4 * p,
            forall|j: int|
                0 <= j < 4 * p ==> data@[j] == spec_channel(*settings, w, h, j),
        decreases count - p,
    {
        proof {
            assert(p as int / w < h) by (nonlinear_arith)
                requires
                    p < w * h,
                    1 <= w,
            ;
        }
        let x: u32 = (p % (width as usize)) as u32;
        let y: u32 = (p / (width as usize)) as u32;
        let nx = crate::mapper::map_axis(x, settings.offset_x, width, settings.frequency);
        let ny = crate::mapper::map_axis(y, settings.offset_y, height, settings.frequency);
        let n = crate::noise_field::sample(
            settings.seed,
            settings.octaves,
            settings.lacunarity,
            settings.persistence,
            nx,
            ny,
        );
        let v: u8 = (n * 255 / FIX_ONE) as u8;
        data.push(v);
        data.push(v);
        data.push(v);
        data.push(255);
        proof {
            let i0 = 4 * p;
            assert forall|j: int| 0 <= j < 4 * (p + 1) implies data@[j] == spec_channel(
                *settings,
                w,
                h,
                j,
            ) by {
                if j < i0 {
                } else {
                    assert(j / 4 == p as int && 0 <= j % 4 < 4);
                    assert((j / 4) % w == x as int);
                    assert((j / 4) / w == y as int);
                    if j % 4 == 3 {
                        assert(data@[j] == 255u8);
                    } else {
                        assert(data@[j] == v);
                    }
                }
            }
        }
        p = p + 1;
    }
    proof {
        assert(data@ =~= spec_pixels(*settings, w, h));
    }
    data
}

/// Determinism of regeneration: for fixed seed, frequency, octaves,
/// lacunarity, persistence and pan offsets, and fixed dimensions, two
/// regenerations produce byte-identical buffers.
pub proof fn lemma_regeneration_deterministic(s1: NoiseSettings, s2: NoiseSettings, w: int, h: int)
    requires
        s1.seed == s2.seed,
        s1.frequency == s2.frequency,
        s1.octaves == s2.octaves,
        s1.lacunarity == s2.lacunarity,
        s1.persistence == s2.persistence,
        s1.offset_x == s2.offset_x,
        s1.offset_y == s2.offset_y,
    ensures
        spec_pixels(s1, w, h) == spec_pixels(s2, w, h),
{
    assert(s1 == s2);
}

/// Opacity: the alpha channel of every pixel of a regenerated buffer is 255.
pub proof fn lemma_alpha_opaque(s: NoiseSettings, w: int, h: int, i: int)
    requires
        0 <= i < w * h * 4,
        i % 4 == 3,
    ensures
        spec_pixels(s, w, h)[i] == 255u8,
{
}

/// Range: every byte of a regenerated buffer that is not an alpha byte
/// carries a grayscale level in `[0, 255]`, scaled from a noise sample in
/// `[0, FIX_ONE]`.
pub proof fn lemma_channel_range(s: NoiseSettings, w: int, h: int, x: int, y: int)
    ensures
        0 <= spec_pixel_value(s, w, h, x, y) <= 255,
{
    crate::noise_field::lemma_sample_range(
        s.seed,
        s.octaves as nat,
        s.lacunarity as int,
        s.persistence as int,
        spec_map_axis(x, s.offset_x as int, w, s.frequency as int),
        spec_map_axis(y, s.offset_y as int, h, s.frequency as int),
    );
    let n = spec_sample(
        s.seed,
        s.octaves as nat,
        s.lacunarity as int,
        s.persistence as int,
        spec_map_axis(x, s.offset_x as int, w, s.frequency as int),
        spec_map_axis(y, s.offset_y as int, h, s.frequency as int),
    );
    assert(0 <= n * 255 / (FIX_ONE as int) <= 255) by (nonlinear_arith)
        requires
            0 <= n <= FIX_ONE,
            FIX_ONE == 1_000_000,
    ;
}

/// The store of texture buffers, reached through handles; a slot becomes
/// empty when its buffer is destroyed.
pub struct ImageAssets {
    /// The slots; a handle is an index into this sequence.
    pub images: Vec<Option<TextureBuffer>>,
}

impl ImageAssets {
    /// Every stored buffer keeps its size invariant.
    pub open spec fn wf(&self) -> bool {
        forall|j: int|
            0 <= j < self.images@.len() && self.images@[j] is Some ==> (
            #[trigger] self.images@[j])->Some_0.wf()
    }

    /// Whether the handle still resolves to a stored buffer.
    pub open spec fn resolves(&self, handle: NoiseTextureHandle) -> bool {
        handle.0 < self.images@.len() && self.images@[handle.0 as int] is Some
    }

    /// The buffer a handle resolves to.
    pub open spec fn spec_buffer(&self, handle: NoiseTextureHandle) -> TextureBuffer
        recommends
            self.resolves(handle),
    {
        self.images@[handle.0 as int]->Some_0
    }

    /// An empty store.
    pub fn new() -> (a: ImageAssets)
        ensures
            a.images@.len() == 0,
            a.wf(),
    {
        ImageAssets { images: Vec::new() }
    }

    /// Stores a buffer and hands back its handle.
    pub fn add(&mut self, buffer: TextureBuffer) -> (handle: NoiseTextureHandle)
        requires
            buffer.wf(),
            old(self).images@.len() < usize::MAX,
        ensures
            handle.0 == old(self).images@.len(),
            final(self).images@ == old(self).images@.push(Some(buffer)),
            final(self).resolves(handle),
            old(self).wf() ==> final(self).wf(),
    {
        let handle = NoiseTextureHandle(self.images.len());
        self.images.push(Some(buffer));
        handle
    }

    /// A view of the buffer a handle resolves to, if it still does.
    pub fn get(&self, handle: NoiseTextureHandle) -> (r: Option<&TextureBuffer>)
        ensures
            match r {
                Some(b) => self.resolves(handle) && *b == self.spec_buffer(handle),
                None => !self.resolves(handle),
            },
    {
        if handle.0 < self.images.len() {
            match &self.images[handle.0] {
                Some(b) => Some(b),
                None => None,
            }
        } else {
            None
        }
    }

    /// Destroys the buffer a handle resolves to; the slot stays empty and
    /// later regenerations through this handle report failure.
    pub fn remove(&mut self, handle: NoiseTextureHandle) -> (r: Option<TextureBuffer>)
        ensures
            old(self).resolves(handle) ==> r == Some(old(self).spec_buffer(handle)) && final(self)
                .images@ == old(self).images@.update(handle.0 as int, None),
            !old(self).resolves(handle) ==> r is None && final(self).images@ == old(self).images@,
            !final(self).resolves(handle),
            final(self).images@.len() == old(self).images@.len(),
            old(self).wf() ==> final(self).wf(),
    {
        if handle.0 < self.images.len() {
            let slot: &mut Option<TextureBuffer> = &mut self.images[handle.0];
            let r = slot.take();
            proof {
                if !(old(self).images@[handle.0 as int] is Some) {
                    assert(self.images@ =~= old(self).images@);
                }
            }
            r
        } else {
            None
        }
    }
}

/// Regenerates the buffer behind the handle from the noise field: every pixel
/// is overwritten with the sampled grayscale value, the dimensions stay as
/// they were, and no other slot is touched. If the handle no longer resolves
/// the store is left untouched and failure is reported.
pub fn generate_noise_texture(
    settings: &NoiseSettings,
    images: &mut ImageAssets,
    handle: NoiseTextureHandle,
) -> (ok: bool)
    requires
        settings.bounded(),
        old(images).wf(),
    ensures
        final(images).wf(),
        ok == old(images).resolves(handle),
        !ok ==> *final(images) == *old(images),
        ok ==> {
            let buf = final(images).spec_buffer(handle);
            let old_buf = old(images).spec_buffer(handle);
            &&& final(images).images@.len() == old(images).images@.len()
            &&& forall|j: int|
                0 <= j < old(images).images@.len() && j != handle.0 ==> final(images).images@[j]
                    == old(images).images@[j]
            &&& final(images).resolves(handle)
            &&& buf.width == old_buf.width
            &&& buf.height == old_buf.height
            &&& buf.sampling == old_buf.sampling
            &&& buf.pixels@ == spec_pixels(*settings, old_buf.width as int, old_buf.height as int)
        },
{
    if handle.0 >= images.images.len() {
        return false;
    }
    let (width, height, sampling) = match &images.images[handle.0] {
        Some(b) => (b.width, b.height, b.sampling),
        None => {
            return false;
        },
    };
    proof {
        let buf = images.images@[handle.0 as int]->Some_0;
        assert(buf.wf());
        vstd::std_specs::vec::axiom_spec_len(&buf.pixels);
    }
    let data = generate_pixels(settings, width, height);
    images.images[handle.0] = Some(TextureBuffer { width, height, pixels: data, sampling });
    true
}

} // verus!
