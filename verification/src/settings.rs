//! Noise parameters, their clamping mutators, and the regeneration trigger.
//!
//! The parameters are stored in fixed point: a value of [`FIX_ONE`] stands for
//! 1.0. Out-of-range values handed to a mutator are clamped to the nearest
//! valid bound instead of being rejected, since silent correction suits an
//! interactive tool better than interrupting the session.

use vstd::prelude::*;

verus! {

use crate::FIX_ONE;

/// Default seed of the noise generator.
pub const DEFAULT_SEED: u32 = 1655470700;

/// Smallest positive frequency a mutator accepts, 0.001 in fixed point.
pub const FREQUENCY_MIN: u64 = 1_000;

/// Largest frequency a mutator accepts, 0.1 in fixed point.
pub const FREQUENCY_MAX: u64 = 100_000;

/// Default frequency, 0.01 in fixed point.
pub const FREQUENCY_DEFAULT: u64 = 10_000;

/// Fewest octaves a mutator accepts.
pub const OCTAVES_MIN: usize = 1;

/// Most octaves a mutator accepts.
pub const OCTAVES_MAX: usize = 8;

/// Default number of octaves.
pub const OCTAVES_DEFAULT: usize = 4;

/// Smallest lacunarity a mutator accepts, 1.0 in fixed point.
pub const LACUNARITY_MIN: u64 = 1_000_000;

/// Largest lacunarity a mutator accepts, 4.0 in fixed point.
pub const LACUNARITY_MAX: u64 = 4_000_000;

/// Default lacunarity, 2.0 in fixed point.
pub const LACUNARITY_DEFAULT: u64 = 2_000_000;

/// Largest persistence a mutator accepts, 1.0 in fixed point.
pub const PERSISTENCE_MAX: u64 = 1_000_000;

/// Default persistence, 0.5 in fixed point.
pub const PERSISTENCE_DEFAULT: u64 = 500_000;

/// A value clamped to the closed interval `[lo, hi]`.
pub open spec fn spec_clamp(v: int, lo: int, hi: int) -> int {
    if v < lo {
        lo
    } else if v > hi {
        hi
    } else {
        v
    }
}

/// Configuration of the noise field: seed, shape of the fractal sum, and pan
/// offset. All numeric fields except the offsets are fixed point with unit
/// [`FIX_ONE`].
pub struct NoiseSettings {
    /// Selects the lattice hash of the noise primitive.
    pub seed: u32,
    /// Spatial scale of sampling, in `[FREQUENCY_MIN, FREQUENCY_MAX]`.
    pub frequency: u64,
    /// Number of fractal layers summed, in `[OCTAVES_MIN, OCTAVES_MAX]`.
    pub octaves: usize,
    /// Frequency multiplier per octave, in `[LACUNARITY_MIN, LACUNARITY_MAX]`.
    pub lacunarity: u64,
    /// Amplitude multiplier per octave, in `[0, PERSISTENCE_MAX]`.
    pub persistence: u64,
    /// Pan offset along x, in tile units.
    pub offset_x: i32,
    /// Pan offset along y, in tile units.
    pub offset_y: i32,
}

impl NoiseSettings {
    /// Every field lies in its documented range. Mutators keep this; there is
    /// no cross-field invariant.
    pub open spec fn wf(&self) -> bool {
        &&& FREQUENCY_MIN <= self.frequency <= FREQUENCY_MAX
        &&& OCTAVES_MIN <= self.octaves <= OCTAVES_MAX
        &&& LACUNARITY_MIN <= self.lacunarity <= LACUNARITY_MAX
        &&& self.persistence <= PERSISTENCE_MAX
    }

    /// Every field is small enough to sample with. Weaker than [`Self::wf`]:
    /// it admits any frequency below the maximum and zero octaves, where the
    /// fractal sum is empty and the field degenerates to a constant one half.
    pub open spec fn bounded(&self) -> bool {
        &&& self.frequency <= FREQUENCY_MAX
        &&& self.octaves <= OCTAVES_MAX
        &&& LACUNARITY_MIN <= self.lacunarity <= LACUNARITY_MAX
        &&& self.persistence <= PERSISTENCE_MAX
    }

    /// Sets the seed; every 32-bit value is valid.
    pub fn set_seed(&mut self, seed: u32)
        ensures
            *final(self) == (NoiseSettings { seed, ..*old(self) }),
    {
        self.seed = seed;
    }

    /// Draws a fresh random seed. Only the seed changes; nothing is promised
    /// of its value.
    pub fn randomize_seed(&mut self)
        ensures
            final(self).frequency == old(self).frequency,
            final(self).octaves == old(self).octaves,
            final(self).lacunarity == old(self).lacunarity,
            final(self).persistence == old(self).persistence,
            final(self).offset_x == old(self).offset_x,
            final(self).offset_y == old(self).offset_y,
    {
        let seed: u32 = rand::random();
        self.seed = seed;
    }

    /// Sets the frequency, clamped into `[FREQUENCY_MIN, FREQUENCY_MAX]`;
    /// in particular a zero or negative value lands on the smallest positive
    /// bound.
    pub fn set_frequency(&mut self, frequency: i64)
        ensures
            final(self).frequency == spec_clamp(
                frequency as int,
                FREQUENCY_MIN as int,
                FREQUENCY_MAX as int,
            ),
            *final(self) == (NoiseSettings { frequency: final(self).frequency, ..*old(self) }),
    {
        if frequency < FREQUENCY_MIN as i64 {
            self.frequency = FREQUENCY_MIN;
        } else if frequency > FREQUENCY_MAX as i64 {
            self.frequency = FREQUENCY_MAX;
        } else {
            self.frequency = frequency as u64;
        }
    }

    /// Sets the octave count, clamped into `[OCTAVES_MIN, OCTAVES_MAX]`.
    pub fn set_octaves(&mut self, octaves: usize)
        ensures
            final(self).octaves == spec_clamp(
                octaves as int,
                OCTAVES_MIN as int,
                OCTAVES_MAX as int,
            ),
            *final(self) == (NoiseSettings { octaves: final(self).octaves, ..*old(self) }),
    {
        if octaves < OCTAVES_MIN {
            self.octaves = OCTAVES_MIN;
        } else if octaves > OCTAVES_MAX {
            self.octaves = OCTAVES_MAX;
        } else {
            self.octaves = octaves;
        }
    }

    /// Sets the lacunarity, clamped into `[LACUNARITY_MIN, LACUNARITY_MAX]`.
    pub fn set_lacunarity(&mut self, lacunarity: i64)
        ensures
            final(self).lacunarity == spec_clamp(
                lacunarity as int,
                LACUNARITY_MIN as int,
                LACUNARITY_MAX as int,
            ),
            *final(self) == (NoiseSettings { lacunarity: final(self).lacunarity, ..*old(self) }),
    {
        if lacunarity < LACUNARITY_MIN as i64 {
            self.lacunarity = LACUNARITY_MIN;
        } else if lacunarity > LACUNARITY_MAX as i64 {
            self.lacunarity = LACUNARITY_MAX;
        } else {
            self.lacunarity = lacunarity as u64;
        }
    }

    /// Sets the persistence, clamped into `[0, PERSISTENCE_MAX]`.
    pub fn set_persistence(&mut self, persistence: i64)
        ensures
            final(self).persistence == spec_clamp(
                persistence as int,
                0,
                PERSISTENCE_MAX as int,
            ),
            *final(self) == (NoiseSettings { persistence: final(self).persistence, ..*old(self) }),
    {
        if persistence < 0 {
            self.persistence = 0;
        } else if persistence > PERSISTENCE_MAX as i64 {
            self.persistence = PERSISTENCE_MAX;
        } else {
            self.persistence = persistence as u64;
        }
    }

    /// Shifts the pan offset by one step in each axis, saturating at the
    /// bounds of `i32`.
    pub fn pan_by(&mut self, dx: i32, dy: i32)
        ensures
            final(self).offset_x == spec_clamp(
                old(self).offset_x + dx,
                i32::MIN as int,
                i32::MAX as int,
            ),
            final(self).offset_y == spec_clamp(
                old(self).offset_y + dy,
                i32::MIN as int,
                i32::MAX as int,
            ),
            *final(self) == (NoiseSettings {
                offset_x: final(self).offset_x,
                offset_y: final(self).offset_y,
                ..*old(self)
            }),
    {
        let nx: i64 = self.offset_x as i64 + dx as i64;
        let ny: i64 = self.offset_y as i64 + dy as i64;
        self.offset_x = if nx < i32::MIN as i64 {
            i32::MIN
        } else if nx > i32::MAX as i64 {
            i32::MAX
        } else {
            nx as i32
        };
        self.offset_y = if ny < i32::MIN as i64 {
            i32::MIN
        } else if ny > i32::MAX as i64 {
            i32::MAX
        } else {
            ny as i32
        };
    }
}

impl Default for NoiseSettings {
    /// The startup configuration: a fixed seed, frequency 0.01, four octaves,
    /// lacunarity 2.0, persistence 0.5, no pan offset.
    fn default() -> (s: NoiseSettings)
        ensures
            s.seed == DEFAULT_SEED,
            s.frequency == FREQUENCY_DEFAULT,
            s.octaves == OCTAVES_DEFAULT,
            s.lacunarity == LACUNARITY_DEFAULT,
            s.persistence == PERSISTENCE_DEFAULT,
            s.offset_x == 0,
            s.offset_y == 0,
            s.wf(),
    {
        NoiseSettings {
            seed: DEFAULT_SEED,
            frequency: FREQUENCY_DEFAULT,
            octaves: OCTAVES_DEFAULT,
            lacunarity: LACUNARITY_DEFAULT,
            persistence: PERSISTENCE_DEFAULT,
            offset_x: 0,
            offset_y: 0,
        }
    }
}

/// Relies on rand::random: draws a value of the requested type from the
/// thread-local generator. Nothing can be promised of the result.
pub assume_specification<T>[ rand::random::<T> ]() -> (r: T)
    where
        rand::distributions::Standard: rand::distributions::Distribution<T>,
;

/// The keyboard protocol: the reseed key draws a fresh seed, and the pan keys
/// shift the offset by one tile while the pan modifier is held. Every change
/// raises a regeneration request on the trigger.
pub fn keyboard_input_system(
    reseed_pressed: bool,
    pan_held: bool,
    left_pressed: bool,
    right_pressed: bool,
    up_pressed: bool,
    down_pressed: bool,
    settings: &mut NoiseSettings,
    trigger: &mut RegenerationTrigger,
)
    ensures
        ({
            let dx = (if pan_held && left_pressed { 1int } else { 0int }) - (if pan_held
                && right_pressed { 1int } else { 0int });
            let dy = (if pan_held && up_pressed { 1int } else { 0int }) - (if pan_held
                && down_pressed { 1int } else { 0int });
            &&& final(settings).offset_x == spec_clamp(
                old(settings).offset_x + dx,
                i32::MIN as int,
                i32::MAX as int,
            )
            &&& final(settings).offset_y == spec_clamp(
                old(settings).offset_y + dy,
                i32::MIN as int,
                i32::MAX as int,
            )
        }),
        !reseed_pressed ==> final(settings).seed == old(settings).seed,
        final(settings).frequency == old(settings).frequency,
        final(settings).octaves == old(settings).octaves,
        final(settings).lacunarity == old(settings).lacunarity,
        final(settings).persistence == old(settings).persistence,
        final(trigger).pending() == (old(trigger).pending() || reseed_pressed || (pan_held && (
        left_pressed || right_pressed || up_pressed || down_pressed))),
{
    if reseed_pressed {
        settings.randomize_seed();
        trigger.request_regeneration();
    }
    if pan_held {
        let mut dx: i32 = 0;
        let mut dy: i32 = 0;
        if left_pressed {
            dx = dx + 1;
        }
        if right_pressed {
            dx = dx - 1;
        }
        if up_pressed {
            dy = dy + 1;
        }
        if down_pressed {
            dy = dy - 1;
        }
        if left_pressed || right_pressed || up_pressed || down_pressed {
            settings.pan_by(dx, dy);
            trigger.request_regeneration();
        }
    }
}

/// Applies one frame of edits from the settings panel: each edited control
/// stores its value through the clamping mutator of its field, the reseed
/// button draws a fresh seed, and any edit at all raises a single
/// regeneration request.
pub fn apply_ui_changes(
    settings: &mut NoiseSettings,
    trigger: &mut RegenerationTrigger,
    seed: Option<u32>,
    randomize: bool,
    frequency: Option<i64>,
    octaves: Option<usize>,
    lacunarity: Option<i64>,
    persistence: Option<i64>,
)
    ensures
        seed is Some && !randomize ==> final(settings).seed == seed->Some_0,
        seed is None && !randomize ==> final(settings).seed == old(settings).seed,
        final(settings).frequency == (match frequency {
            Some(v) => spec_clamp(v as int, FREQUENCY_MIN as int, FREQUENCY_MAX as int),
            None => old(settings).frequency as int,
        }),
        final(settings).octaves == (match octaves {
            Some(v) => spec_clamp(v as int, OCTAVES_MIN as int, OCTAVES_MAX as int),
            None => old(settings).octaves as int,
        }),
        final(settings).lacunarity == (match lacunarity {
            Some(v) => spec_clamp(v as int, LACUNARITY_MIN as int, LACUNARITY_MAX as int),
            None => old(settings).lacunarity as int,
        }),
        final(settings).persistence == (match persistence {
            Some(v) => spec_clamp(v as int, 0, PERSISTENCE_MAX as int),
            None => old(settings).persistence as int,
        }),
        final(settings).offset_x == old(settings).offset_x,
        final(settings).offset_y == old(settings).offset_y,
        final(trigger).pending() == (old(trigger).pending() || seed is Some || randomize
            || frequency is Some || octaves is Some || lacunarity is Some || persistence is Some),
{
    let mut changed = false;
    if let Some(v) = seed {
        settings.set_seed(v);
        changed = true;
    }
    if randomize {
        settings.randomize_seed();
        changed = true;
    }
    if let Some(v) = frequency {
        settings.set_frequency(v);
        changed = true;
    }
    if let Some(v) = octaves {
        settings.set_octaves(v);
        changed = true;
    }
    if let Some(v) = lacunarity {
        settings.set_lacunarity(v);
        changed = true;
    }
    if let Some(v) = persistence {
        settings.set_persistence(v);
        changed = true;
    }
    if changed {
        trigger.request_regeneration();
    }
}

/// The zero-payload signal that a regeneration was requested.
pub struct GenerateNoiseEvent;

/// Coalesces any number of regeneration requests raised within one cycle into
/// a single pending flag, checked and cleared exactly once per cycle.
pub struct RegenerationTrigger {
    pending: bool,
}

impl RegenerationTrigger {
    /// Whether at least one request was raised since the last consume.
    pub closed spec fn pending(&self) -> bool {
        self.pending
    }

    /// A fresh trigger with nothing pending.
    pub fn new() -> (t: RegenerationTrigger)
        ensures
            !t.pending(),
    {
        RegenerationTrigger { pending: false }
    }

    /// Whether at least one request was raised since the last consume.
    pub fn is_pending(&self) -> (b: bool)
        ensures
            b == self.pending(),
    {
        self.pending
    }

    /// Raises a regeneration request. Idempotent within a cycle: however many
    /// times it is called before the next consume, exactly one regeneration
    /// will follow.
    pub fn request_regeneration(&mut self)
        ensures
            final(self).pending(),
    {
        self.pending = true;
    }

    /// Raises a regeneration request carried by an event.
    pub fn send(&mut self, _event: GenerateNoiseEvent)
        ensures
            final(self).pending(),
    {
        self.request_regeneration();
    }

    /// Reads and clears the pending flag; called once per cycle by the
    /// swapper.
    pub fn consume(&mut self) -> (was_pending: bool)
        ensures
            was_pending == old(self).pending(),
            !final(self).pending(),
    {
        let was = self.pending;
        self.pending = false;
        was
    }
}

} // verus!
