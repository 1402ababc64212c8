//! The values that the post-processing shader reads: a word of flags, the parameters of
//! the field-of-view correction and the size of the crosshair.

use crate::config::{CrosshairKind, FovCorrection};
use vstd::prelude::*;

verus! {

/// Position of the flag that turns the field-of-view correction on.
pub const FOV_CORRECTION_FLAG: u32 = 0;

/// Position of the flag that selects the barrel correction over the fisheye one.
pub const BARREL_FLAG: u32 = 1;

/// Position of the lowest of the three bits that hold the crosshair kind.
pub const CROSSHAIR_SHIFT: u32 = 2;

/// The three bits of the flag word that hold the crosshair kind.
pub const CROSSHAIR_MASK: u32 = 0b11100;

/// The weakest correction that is still applied, in millionths.
pub const MIN_CORRECTION_STRENGTH: i64 = 50_000;

/// Whether the bit at `pos` is set in `flags`.
pub open spec fn spec_flag(flags: u32, pos: u32) -> bool {
    (flags >> pos) & 1 == 1
}

/// `flags` with the bit at `pos` set to `state`.
pub open spec fn spec_with_flag(flags: u32, state: bool, pos: u32) -> u32 {
    if state {
        flags | (1u32 << pos)
    } else {
        flags & !(1u32 << pos)
    }
}

/// `flags` with the crosshair bits replaced by `kind`.
pub open spec fn spec_with_crosshair(flags: u32, kind: u32) -> u32 {
    flags & !CROSSHAIR_MASK | (kind & 0b111) << CROSSHAIR_SHIFT
}

/// The crosshair kind that `flags` holds.
pub open spec fn spec_crosshair_bits(flags: u32) -> u32 {
    (flags & CROSSHAIR_MASK) >> CROSSHAIR_SHIFT
}

/// Writing one flag sets that bit and leaves all others as they were.
pub proof fn lemma_with_flag(flags: u32, state: bool, pos: u32, other: u32)
    requires
        pos < 32,
        other < 32,
    ensures
        spec_flag(spec_with_flag(flags, state, pos), pos) == state,
        other != pos ==> spec_flag(spec_with_flag(flags, state, pos), other) == spec_flag(
            flags,
            other,
        ),
{
    assert(((flags | (1u32 << pos)) >> pos) & 1 == 1) by (bit_vector)
        requires
            pos < 32,
    ;
    assert(((flags & !(1u32 << pos)) >> pos) & 1 == 0) by (bit_vector)
        requires
            pos < 32,
    ;
    assert(other != pos ==> ((flags | (1u32 << pos)) >> other) & 1 == (flags >> other) & 1)
        by (bit_vector)
        requires
            pos < 32,
            other < 32,
    ;
    assert(other != pos ==> ((flags & !(1u32 << pos)) >> other) & 1 == (flags >> other) & 1)
        by (bit_vector)
        requires
            pos < 32,
            other < 32,
    ;
}

/// Writing the crosshair kind stores it in its three bits and leaves all other bits as
/// they were.
pub proof fn lemma_with_crosshair(flags: u32, kind: u32)
    requires
        kind < 8,
    ensures
        spec_crosshair_bits(spec_with_crosshair(flags, kind)) == kind,
        spec_with_crosshair(flags, kind) & !CROSSHAIR_MASK == flags & !CROSSHAIR_MASK,
{
    assert(((flags & !0b11100u32 | (kind & 0b111) << 2u32) & 0b11100u32) >> 2u32 == kind)
        by (bit_vector)
        requires
            kind < 8,
    ;
    assert((flags & !0b11100u32 | (kind & 0b111) << 2u32) & !0b11100u32 == flags & !0b11100u32)
        by (bit_vector);
}

impl CrosshairKind {
    /// The number that stands for the kind in the shader's flag word.
    pub open spec fn spec_index(self) -> u32 {
        match self {
            CrosshairKind::Off => 0,
            CrosshairKind::Cross => 1,
            CrosshairKind::Dot => 2,
            CrosshairKind::Circle => 3,
            CrosshairKind::CircleDot => 4,
            CrosshairKind::Angled => 5,
        }
    }

    /// The number that stands for the kind in the shader's flag word.
    pub fn index(self) -> (index: u32)
        ensures
            index == self.spec_index(),
            index < 8,
    {
        match self {
            CrosshairKind::Off => 0,
            CrosshairKind::Cross => 1,
            CrosshairKind::Dot => 2,
            CrosshairKind::Circle => 3,
            CrosshairKind::CircleDot => 4,
            CrosshairKind::Angled => 5,
        }
    }
}

/// What the shader is told. The fixed-point values count millionths.
#[derive(Clone, Copy, Debug, PartialEq, Eq, Structural)]
pub struct ShaderState {
    /// The flag word: correction on, barrel correction, crosshair kind.
    pub flags: u32,
    /// Strength of the field-of-view correction.
    pub correction_strength: i64,
    /// Tangent of half the field of view that the correction is computed for.
    pub width_ratio: i64,
    /// Horizontal scale of the crosshair.
    pub crosshair_scale_x: i64,
    /// Vertical scale of the crosshair.
    pub crosshair_scale_y: i64,
    /// Whether distant effects fade out.
    pub vfx_fade: bool,
    /// Whether models close to the camera are dithered away.
    pub dithering: bool,
}

impl ShaderState {
    /// The state before anything was set: no flag, effects fading and dithering on.
    pub open spec fn spec_new() -> ShaderState {
        ShaderState {
            flags: 0,
            correction_strength: 0,
            width_ratio: 0,
            crosshair_scale_x: 0,
            crosshair_scale_y: 0,
            vfx_fade: true,
            dithering: true,
        }
    }

    /// The state before anything was set: no flag, effects fading and dithering on.
    pub fn new() -> (shaders: ShaderState)
        ensures
            shaders == ShaderState::spec_new(),
    {
        ShaderState {
            flags: 0,
            correction_strength: 0,
            width_ratio: 0,
            crosshair_scale_x: 0,
            crosshair_scale_y: 0,
            vfx_fade: true,
            dithering: true,
        }
    }

    /// The state after a request for the field-of-view correction. A correction weaker
    /// than a twentieth is not applied, and only an applied one replaces the parameters.
    pub open spec fn spec_enable_fov_correction(
        self,
        state: bool,
        strength: i64,
        use_barrel: bool,
        width_ratio: i64,
    ) -> ShaderState {
        let applied = state && strength > MIN_CORRECTION_STRENGTH;
        let flags = spec_with_flag(
            spec_with_flag(self.flags, applied, FOV_CORRECTION_FLAG),
            use_barrel,
            BARREL_FLAG,
        );
        if applied {
            ShaderState { flags, correction_strength: strength, width_ratio, ..self }
        } else {
            ShaderState { flags, ..self }
        }
    }

    /// The state after a crosshair was chosen.
    pub open spec fn spec_set_crosshair(
        self,
        crosshair: CrosshairKind,
        scale: (i64, i64),
    ) -> ShaderState {
        ShaderState {
            flags: spec_with_crosshair(self.flags, crosshair.spec_index()),
            crosshair_scale_x: scale.0,
            crosshair_scale_y: scale.1,
            ..self
        }
    }
}

/// Writes `state` to the flag at `pos` and returns the flag word as it was before.
pub fn set_shader_flag(shaders: &mut ShaderState, state: bool, pos: u32) -> (previous: u32)
    requires
        pos < 32,
    ensures
        previous == old(shaders).flags,
        *final(shaders) == (ShaderState {
            flags: spec_with_flag(old(shaders).flags, state, pos),
            ..*old(shaders)
        }),
        spec_flag(final(shaders).flags, pos) == state,
{
    let previous = shaders.flags;
    let flag: u32 = 1u32 << pos;
    shaders.flags = if state {
        previous | flag
    } else {
        previous & !flag
    };
    proof {
        lemma_with_flag(previous, state, pos, pos);
    }
    previous
}

/// Whether the flag at `pos` is set.
pub fn get_shader_flag(shaders: &ShaderState, pos: u32) -> (state: bool)
    requires
        pos < 32,
    ensures
        state == spec_flag(shaders.flags, pos),
{
    (shaders.flags >> pos) & 1 == 1
}

/// Turns the field-of-view correction on or off and selects its kind. `strength` and
/// `width_ratio`, the tangent of half the field of view, are stored only while the
/// correction is applied.
pub fn enable_fov_correction(
    shaders: &mut ShaderState,
    state: bool,
    strength: i64,
    use_barrel: bool,
    width_ratio: i64,
)
    ensures
        *final(shaders) == old(shaders).spec_enable_fov_correction(
            state,
            strength,
            use_barrel,
            width_ratio,
        ),
        spec_flag(final(shaders).flags, FOV_CORRECTION_FLAG) == (state && strength
            > MIN_CORRECTION_STRENGTH),
        spec_flag(final(shaders).flags, BARREL_FLAG) == use_barrel,
        spec_crosshair_bits(final(shaders).flags) == spec_crosshair_bits(old(shaders).flags),
{
    let state = state && strength > MIN_CORRECTION_STRENGTH;
    set_shader_flag(shaders, state, FOV_CORRECTION_FLAG);
    let ghost middle = shaders.flags;
    set_shader_flag(shaders, use_barrel, BARREL_FLAG);
    if state {
        shaders.correction_strength = strength;
        shaders.width_ratio = width_ratio;
    }
    proof {
        lemma_with_flag(middle, use_barrel, BARREL_FLAG, FOV_CORRECTION_FLAG);
        let before = old(shaders).flags;
        let after = shaders.flags;
        assert((after & 0b11100u32) >> 2u32 == (before & 0b11100u32) >> 2u32) by (bit_vector)
            requires
                after == (if use_barrel {
                    middle | (1u32 << 1u32)
                } else {
                    middle & !(1u32 << 1u32)
                }),
                middle == (if state {
                    before | (1u32 << 0u32)
                } else {
                    before & !(1u32 << 0u32)
                }),
        ;
    }
}

/// Chooses the crosshair and its scale.
pub fn set_crosshair(shaders: &mut ShaderState, crosshair: CrosshairKind, scale: (i64, i64))
    ensures
        *final(shaders) == old(shaders).spec_set_crosshair(crosshair, scale),
        spec_crosshair_bits(final(shaders).flags) == crosshair.spec_index(),
        spec_flag(final(shaders).flags, FOV_CORRECTION_FLAG) == spec_flag(
            old(shaders).flags,
            FOV_CORRECTION_FLAG,
        ),
        spec_flag(final(shaders).flags, BARREL_FLAG) == spec_flag(old(shaders).flags, BARREL_FLAG),
{
    let kind = crosshair.index();
    let before = shaders.flags;
    shaders.flags = before & !CROSSHAIR_MASK | (kind & 0b111) << CROSSHAIR_SHIFT;
    shaders.crosshair_scale_x = scale.0;
    shaders.crosshair_scale_y = scale.1;
    proof {
        lemma_with_crosshair(before, kind);
        let after = shaders.flags;
        assert((after >> 0u32) & 1 == (before >> 0u32) & 1 && (after >> 1u32) & 1 == (before
            >> 1u32) & 1) by (bit_vector)
            requires
                after == before & !0b11100u32 | (kind & 0b111) << 2u32,
        ;
    }
}

/// The correction that the flags ask for.
pub open spec fn spec_correction(flags: u32) -> FovCorrection {
    if !spec_flag(flags, FOV_CORRECTION_FLAG) {
        FovCorrection::Off
    } else if spec_flag(flags, BARREL_FLAG) {
        FovCorrection::Barrel
    } else {
        FovCorrection::Fisheye
    }
}

/// Tells which correction screen coordinates are to be put through, so that marks on
/// the screen stay on what they mark.
pub fn correction(shaders: &ShaderState) -> (kind: FovCorrection)
    ensures
        kind == spec_correction(shaders.flags),
{
    if !get_shader_flag(shaders, FOV_CORRECTION_FLAG) {
        FovCorrection::Off
    } else if get_shader_flag(shaders, BARREL_FLAG) {
        FovCorrection::Barrel
    } else {
        FovCorrection::Fisheye
    }
}

/// Lets distant effects fade out, or keeps them from being drawn at all.
pub fn enable_vfx_fade(shaders: &mut ShaderState, state: bool)
    ensures
        *final(shaders) == (ShaderState { vfx_fade: state, ..*old(shaders) }),
{
    shaders.vfx_fade = state;
}

/// Turns the dithering of models close to the camera on or off.
pub fn enable_dithering(shaders: &mut ShaderState, state: bool)
    ensures
        *final(shaders) == (ShaderState { dithering: state, ..*old(shaders) }),
{
    shaders.dithering = state;
}

/// Puts two 32-bit patterns into one word, `low` in the lower half.
pub fn pack_pair(low: u32, high: u32) -> (packed: u64)
    ensures
        packed & 0xffff_ffff == low,
        packed >> 32 == high,
{
    let packed = (low as u64) | ((high as u64) << 32);
    assert(((low as u64) | ((high as u64) << 32u64)) & 0xffff_ffff == low
        && ((low as u64) | ((high as u64) << 32u64)) >> 32u64 == high) by (bit_vector);
    packed
}

} // verus!
