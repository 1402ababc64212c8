//! The small offsets that frame the first-person view: the camera sits a little above
//! the head, and leans away from it as the camera and the head pitch.
//!
//! Lengths count millionths of the host's length unit, angles millionths of a radian and
//! shares millionths.

use crate::head_tracker::PI;
use crate::stabilizer::Point3;
use vstd::prelude::*;

verus! {

/// One whole, in millionths.
pub const WHOLE: i64 = 1_000_000;

/// How far the camera is lifted along the world's up axis.
pub const WORLD_LIFT: i64 = 100_000;

/// How far the camera is lowered along the head's up axis while the head is upright.
pub const HEAD_DROP: i64 = 100_000;

/// How far the camera is set back along the head's forward axis.
pub const HEAD_BACK: i64 = 50_000;

/// How far the camera is lifted along its own up axis while it looks level.
pub const CAMERA_LIFT: i64 = 30_000;

/// How far the camera is set back along its own forward axis while it looks level.
pub const CAMERA_BACK: i64 = 25_000;

/// The camera's pitch is divided by this before it is squared into a lift.
pub const LIFT_DIVISOR: i64 = 3;

/// The camera moves forward by its pitch divided by this.
pub const PUSH_DIVISOR: i64 = 12;

/// The largest pitch that offsets are computed for, a hundred radians.
pub const PITCH_LIMIT: i64 = 100_000_000;

/// The offsets of the camera from the head, each along the axes of another frame.
#[derive(Clone, Copy, Debug, PartialEq, Eq, Structural)]
pub struct FramingOffsets {
    /// The offset along the axes of the world.
    pub world: Point3,
    /// The offset along the axes of the head.
    pub head: Point3,
    /// The offset along the axes of the camera.
    pub camera: Point3,
}

/// Whether `root` is the largest number whose square does not exceed `x`.
pub open spec fn is_square_root(root: int, x: int) -> bool {
    0 <= root && root * root <= x < (root + 1) * (root + 1)
}

/// The largest number whose square does not exceed `x`.
pub open spec fn spec_square_root(x: int) -> int {
    choose|root: int| is_square_root(root, x)
}

/// The magnitude of `value`.
pub open spec fn spec_abs(value: int) -> int {
    if value < 0 {
        -value
    } else {
        value
    }
}

/// A number has at most one square root.
pub proof fn lemma_square_root_unique(root: int, other: int, x: int)
    requires
        is_square_root(root, x),
        is_square_root(other, x),
    ensures
        root == other,
{
    if root < other {
        assert((root + 1) * (root + 1) <= other * other) by (nonlinear_arith)
            requires
                0 <= root + 1 <= other,
        ;
    } else if other < root {
        assert((other + 1) * (other + 1) <= root * root) by (nonlinear_arith)
            requires
                0 <= other + 1 <= root,
        ;
    }
}

/// Computes the largest number whose square does not exceed `x`.
pub fn square_root(x: u64) -> (root: u64)
    ensures
        is_square_root(root as int, x as int),
        root == spec_square_root(x as int),
        root <= 0xffff_ffff,
{
    let mut low: u64 = 0;
    let mut high: u64 = 0x1_0000_0000;
    assert(0x1_0000_0000int * 0x1_0000_0000int > x) by (nonlinear_arith)
        requires
            x <= 0xffff_ffff_ffff_ffff,
    ;
    while high - low > 1
        invariant
            low < high <= 0x1_0000_0000,
            low * low <= x < high * high,
        decreases high - low,
    {
        let middle = low + (high - low) / 2;
        assert(middle * middle <= 0x1_0000_0000int * 0x1_0000_0000int) by (nonlinear_arith)
            requires
                0 <= middle <= 0x1_0000_0000,
        ;
        if (middle as u128) * (middle as u128) <= x as u128 {
            low = middle;
        } else {
            high = middle;
        }
    }
    proof {
        assert(is_square_root(low as int, x as int));
        let chosen = spec_square_root(x as int);
        lemma_square_root_unique(low as int, chosen, x as int);
    }
    low
}

/// How upright the head is, from one whole for a level head down to nothing for a head
/// that has pitched by a full turn: the square root of the share of a full turn that
/// the pitch leaves.
pub open spec fn spec_head_upright(head_pitch: int) -> int {
    let share = spec_abs(head_pitch) * WHOLE / (PI as int) / 2;
    if share >= WHOLE {
        0
    } else {
        spec_square_root((WHOLE - share) * WHOLE)
    }
}

/// The lift of the camera along its own up axis that its pitch adds: the square of a
/// third of the pitch.
pub open spec fn spec_pitch_lift(cam_pitch: int) -> int {
    let third = spec_abs(cam_pitch) / (LIFT_DIVISOR as int);
    third * third / (WHOLE as int)
}

/// `length` scaled by the share `upright`.
pub open spec fn spec_scaled(length: int, upright: int) -> int {
    if length >= 0 {
        length * upright / (WHOLE as int)
    } else {
        -((-length) * upright / (WHOLE as int))
    }
}

/// The offsets of the camera from the head for the pitch of the camera and the pitch of
/// the head. The world offset is fixed. The head offset lowers the camera by the
/// uprightness of the head and sets it back. The camera offset lifts the camera, the more
/// the further it pitches, and moves it from behind the head to before it as it pitches;
/// it fades with the uprightness of the head.
pub open spec fn spec_framing_offsets(cam_pitch: int, head_pitch: int) -> FramingOffsets {
    let upright = spec_head_upright(head_pitch);
    FramingOffsets {
        world: Point3 { x: 0, y: WORLD_LIFT, z: 0 },
        head: Point3 {
            x: 0,
            y: (-spec_scaled(HEAD_DROP as int, upright)) as i64,
            z: (-HEAD_BACK) as i64,
        },
        camera: Point3 {
            x: 0,
            y: spec_scaled(CAMERA_LIFT + spec_pitch_lift(cam_pitch), upright) as i64,
            z: spec_scaled(
                spec_abs(cam_pitch) / (PUSH_DIVISOR as int) - CAMERA_BACK,
                upright,
            ) as i64,
        },
    }
}

/// The uprightness of the head is a share: it lies between nothing and one whole. A
/// level head is fully upright, and a head that has pitched by a full turn or more is
/// not upright at all.
pub proof fn lemma_head_upright_is_a_share(head_pitch: int)
    ensures
        0 <= spec_head_upright(head_pitch) <= WHOLE,
        spec_head_upright(0) == WHOLE,
        spec_abs(head_pitch) >= 2 * PI ==> spec_head_upright(head_pitch) == 0,
{
    let magnitude = spec_abs(head_pitch);
    let pi = PI as int;
    let whole = WHOLE as int;
    let share = magnitude * whole / pi / 2;
    assert(share >= 0) by (nonlinear_arith)
        requires
            magnitude >= 0,
            share == magnitude * 1_000_000 / 3_141_593 / 2,
    ;
    if share < whole {
        let x = (whole - share) * whole;
        assert(0 <= x <= whole * whole) by (nonlinear_arith)
            requires
                0 <= share < whole,
                x == (whole - share) * whole,
                whole == 1_000_000,
        ;
        lemma_square_root_exists(x, 0, whole + 1);
        let root = spec_square_root(x);
        if root > whole {
            assert((whole + 1) * (whole + 1) <= root * root) by (nonlinear_arith)
                requires
                    0 <= whole + 1 <= root,
            ;
        }
    }
    assert(is_square_root(whole, whole * whole)) by (nonlinear_arith)
        requires
            whole == 1_000_000,
    ;
    lemma_square_root_exists(whole * whole, 0, whole + 1);
    lemma_square_root_unique(whole, spec_square_root(whole * whole), whole * whole);
    assert(0int * whole / pi / 2 == 0);
    if magnitude >= 2 * pi {
        assert(share >= whole) by (nonlinear_arith)
            requires
                magnitude >= 2 * 3_141_593,
                whole == 1_000_000,
                share == magnitude * whole / 3_141_593 / 2,
        ;
    }
}

/// Between a number whose square does not exceed `x` and one whose square does lies the
/// square root of `x`.
proof fn lemma_square_root_exists(x: int, low: int, high: int)
    requires
        0 <= low < high,
        low * low <= x < high * high,
    ensures
        is_square_root(spec_square_root(x), x),
    decreases high - low,
{
    if high - low == 1 {
        assert(is_square_root(low, x));
    } else {
        let middle = low + (high - low) / 2;
        if middle * middle <= x {
            lemma_square_root_exists(x, middle, high);
        } else {
            lemma_square_root_exists(x, low, middle);
        }
    }
}

/// Computes how upright the head is.
pub fn head_upright(head_pitch: i64) -> (upright: i64)
    ensures
        upright == spec_head_upright(head_pitch as int),
        0 <= upright <= WHOLE,
{
    proof {
        lemma_head_upright_is_a_share(head_pitch as int);
    }
    let magnitude: u128 = if head_pitch < 0 {
        (-(head_pitch as i128)) as u128
    } else {
        head_pitch as u128
    };
    let share: u128 = magnitude * (WHOLE as u128) / (PI as u128) / 2;
    if share >= WHOLE as u128 {
        0
    } else {
        let rest: u64 = (WHOLE as u64) - (share as u64);
        assert(rest * 1_000_000 <= 1_000_000_000_000) by (nonlinear_arith)
            requires
                0 <= rest <= 1_000_000,
        ;
        square_root(rest * 1_000_000) as i64
    }
}

/// Scales `length` by the share `upright`.
fn scaled(length: i64, upright: i64) -> (part: i64)
    requires
        0 <= upright <= WHOLE,
    ensures
        part == spec_scaled(length as int, upright as int),
        spec_abs(part as int) <= spec_abs(length as int),
{
    let magnitude: u128 = if length < 0 {
        (-(length as i128)) as u128
    } else {
        length as u128
    };
    proof {
        let m = magnitude as int;
        let u = upright as int;
        assert(0 <= m * u <= m * 1_000_000 && m * u / 1_000_000 <= m) by (nonlinear_arith)
            requires
                0 <= m,
                0 <= u <= 1_000_000,
        ;
    }
    let part: u128 = magnitude * (upright as u128) / (WHOLE as u128);
    if length < 0 {
        (-(part as i128)) as i64
    } else {
        part as i64
    }
}

/// Computes the offsets of the camera from the head for the pitch of the camera and the
/// pitch of the head.
pub fn framing_offsets(cam_pitch: i64, head_pitch: i64) -> (offsets: FramingOffsets)
    requires
        -PITCH_LIMIT <= cam_pitch <= PITCH_LIMIT,
    ensures
        offsets == spec_framing_offsets(cam_pitch as int, head_pitch as int),
{
    let upright = head_upright(head_pitch);
    let magnitude: i64 = if cam_pitch < 0 {
        -cam_pitch
    } else {
        cam_pitch
    };
    let third: i64 = magnitude / LIFT_DIVISOR;
    proof {
        assert(0 <= third * third <= 100_000_000int * 100_000_000int) by (nonlinear_arith)
            requires
                0 <= third <= 100_000_000,
        ;
    }
    let lift: i64 = third * third / WHOLE;
    let drop = scaled(HEAD_DROP, upright);
    FramingOffsets {
        world: Point3 { x: 0, y: WORLD_LIFT, z: 0 },
        head: Point3 { x: 0, y: -drop, z: -HEAD_BACK },
        camera: Point3 {
            x: 0,
            y: scaled(CAMERA_LIFT + lift, upright),
            z: scaled(magnitude / PUSH_DIVISOR - CAMERA_BACK, upright),
        },
    }
}

} // verus!
