//! The easing law of the rotation tracker: fast while far from the target, slowing down
//! sharply close to it.
//!
//! Angles are fixed-point numbers that count millionths of a radian; times are counted in
//! microseconds and rates in millionths.

use vstd::prelude::*;

verus! {

/// One whole unit of a fixed-point number.
pub const UNIT: u64 = 1_000_000;

/// The scale between a distance and the sixth power of its curve position: a distance of
/// `d` millionths lies at the position whose sixth power is `d` times this.
pub const CURVE_UNIT: u128 = 1_000_000_000_000_000_000_000_000_000_000;

/// The largest sum of distance and curve offset that the easing law is computed for, one
/// hundred units.
pub const RIP_LIMIT: u64 = 100_000_000;

/// The largest curve position that a distance within the limit can have.
pub const ROOT_LIMIT: u128 = 2_154_434;

/// The sixth power of `x`.
pub open spec fn pow6(x: int) -> int {
    x * x * x * x * x * x
}

/// Whether `root` is the largest number whose sixth power does not exceed `x`.
pub open spec fn is_sixth_root(root: int, x: int) -> bool {
    0 <= root && pow6(root) <= x < pow6(root + 1)
}

/// The largest number whose sixth power does not exceed `x`.
pub open spec fn spec_sixth_root(x: int) -> int {
    choose|root: int| is_sixth_root(root, x)
}

/// The sixth power of the first position beyond the limit lies above every distance
/// within the limit and still fits in 128 bits.
pub proof fn lemma_root_limit()
    ensures
        pow6(0) == 0,
        pow6(ROOT_LIMIT as int + 1) == 100_000_086_324_703_887_378_212_016_094_603_265_625,
        pow6(ROOT_LIMIT as int + 1) > RIP_LIMIT * CURVE_UNIT,
        pow6(ROOT_LIMIT as int + 1) < 0x1_0000_0000_0000_0000_0000_0000_0000_0000,
        RIP_LIMIT * CURVE_UNIT == 100_000_000_000_000_000_000_000_000_000_000_000_000,
{
    let a: int = 2_154_435;
    let a2: int = 4_641_590_169_225;
    let a3: int = 10_000_004_316_234_262_875;
    assert(a * a == a2) by (nonlinear_arith)
        requires
            a == 2_154_435,
            a2 == 4_641_590_169_225,
    ;
    assert(a2 * a == a3) by (nonlinear_arith)
        requires
            a == 2_154_435,
            a2 == 4_641_590_169_225,
            a3 == 10_000_004_316_234_262_875,
    ;
    assert(a3 * a3 == 100_000_086_324_703_887_378_212_016_094_603_265_625) by (nonlinear_arith)
        requires
            a3 == 10_000_004_316_234_262_875,
    ;
    assert(pow6(a) == a3 * a3) by (nonlinear_arith)
        requires
            a * a == a2,
            a2 * a == a3,
    ;
}

/// The sixth power grows with its base.
pub proof fn lemma_pow6_increases(a: int, b: int)
    requires
        0 <= a <= b,
    ensures
        0 <= pow6(a) <= pow6(b),
        a < b ==> pow6(a) < pow6(b),
{
    let a2 = a * a;
    let b2 = b * b;
    assert(0 <= a2 <= b2 && (a < b ==> a2 < b2)) by (nonlinear_arith)
        requires
            0 <= a <= b,
            a2 == a * a,
            b2 == b * b,
    ;
    let a3 = a2 * a;
    let b3 = b2 * b;
    assert(0 <= a3 <= b3 && (a < b ==> a3 < b3)) by (nonlinear_arith)
        requires
            0 <= a <= b,
            0 <= a2 <= b2,
            a < b ==> a2 < b2,
            a3 == a2 * a,
            b3 == b2 * b,
    ;
    let a6 = a3 * a3;
    let b6 = b3 * b3;
    assert(0 <= a6 <= b6 && (a < b ==> a6 < b6)) by (nonlinear_arith)
        requires
            0 <= a3 <= b3,
            a < b ==> a3 < b3,
            a6 == a3 * a3,
            b6 == b3 * b3,
    ;
    assert(pow6(a) == a6) by (nonlinear_arith)
        requires
            a2 == a * a,
            a3 == a2 * a,
            a6 == a3 * a3,
    ;
    assert(pow6(b) == b6) by (nonlinear_arith)
        requires
            b2 == b * b,
            b3 == b2 * b,
            b6 == b3 * b3,
    ;
}

/// A number has at most one sixth root.
pub proof fn lemma_sixth_root_unique(root: int, other: int, x: int)
    requires
        is_sixth_root(root, x),
        is_sixth_root(other, x),
    ensures
        root == other,
{
    if root < other {
        lemma_pow6_increases(root + 1, other);
    } else if other < root {
        lemma_pow6_increases(other + 1, root);
    }
}

/// The sixth root grows with its argument.
pub proof fn lemma_sixth_root_increases(root_a: int, a: int, root_b: int, b: int)
    requires
        is_sixth_root(root_a, a),
        is_sixth_root(root_b, b),
        a <= b,
    ensures
        root_a <= root_b,
{
    if root_b < root_a {
        lemma_pow6_increases(root_b + 1, root_a);
    }
}

/// Computes the sixth power of a curve position.
pub fn sixth_power(x: u128) -> (power: u128)
    requires
        x <= ROOT_LIMIT + 1,
    ensures
        power == pow6(x as int),
{
    proof {
        lemma_pow6_increases(x as int, ROOT_LIMIT as int + 1);
        lemma_root_limit();
        let a = x as int;
        let a2 = a * a;
        let a3 = a2 * a;
        assert(0 <= a2 <= a3 <= a3 * a3 && pow6(a) == a3 * a3) by (nonlinear_arith)
            requires
                0 <= a,
                a2 == a * a,
                a3 == a2 * a,
        ;
    }
    let square = x * x;
    let cube = square * x;
    cube * cube
}

/// Computes the largest number whose sixth power does not exceed `x`.
pub fn sixth_root(x: u128) -> (root: u128)
    requires
        x <= RIP_LIMIT * CURVE_UNIT,
    ensures
        is_sixth_root(root as int, x as int),
        root == spec_sixth_root(x as int),
        root <= ROOT_LIMIT,
{
    proof {
        lemma_root_limit();
    }
    let mut low: u128 = 0;
    let mut high: u128 = ROOT_LIMIT + 1;
    while high - low > 1
        invariant
            low < high <= ROOT_LIMIT + 1,
            pow6(low as int) <= x < pow6(high as int),
        decreases high - low,
    {
        let middle = low + (high - low) / 2;
        if sixth_power(middle) <= x {
            low = middle;
        } else {
            high = middle;
        }
    }
    proof {
        let chosen = spec_sixth_root(x as int);
        assert(is_sixth_root(low as int, x as int));
        lemma_sixth_root_unique(low as int, chosen, x as int);
    }
    low
}

/// The curve position, in millionths, of a distance of `distance` millionths: the sixth
/// root of the distance.
pub open spec fn spec_curve_position(distance: int) -> int {
    spec_sixth_root(distance * CURVE_UNIT)
}

/// The distance, in millionths, that lies at the curve position `position`: its sixth
/// power, rounded down.
pub open spec fn spec_curve_distance(position: int) -> int {
    pow6(position) / (CURVE_UNIT as int)
}

/// How far the curve position moves in `timedelta` microseconds at a rate of `scale`
/// millionths per second.
pub open spec fn spec_curve_advance(scale: int, timedelta: int) -> int {
    timedelta * scale / (UNIT as int)
}

/// The part of a distance of `magnitude` that is covered in `timedelta`. Where the curve
/// position does not advance, because no time has passed or the rate is zero, nothing is
/// covered. Otherwise the distance is taken to its position on the curve, the position is
/// moved toward zero by the elapsed time, and the distance left at the new position is
/// subtracted from the old one. The step never leaves the range from zero to `magnitude`.
pub open spec fn spec_rip_magnitude(
    magnitude: int,
    curve_offset: int,
    curve_scale: int,
    timedelta: int,
) -> int {
    let position = spec_curve_position(magnitude + curve_offset);
    let advance = spec_curve_advance(curve_scale, timedelta);
    let position_new = if advance < position {
        position - advance
    } else {
        0
    };
    let magnitude_new = spec_curve_distance(position_new) - curve_offset;
    let step = magnitude - magnitude_new;
    if advance == 0 || step < 0 {
        0
    } else if step > magnitude {
        magnitude
    } else {
        step
    }
}

/// The signed step that moves `distance` toward zero over `timedelta`.
pub open spec fn spec_rip(
    distance: int,
    curve_offset: int,
    curve_scale: int,
    timedelta: int,
) -> int {
    if distance < 0 {
        -spec_rip_magnitude(-distance, curve_offset, curve_scale, timedelta)
    } else {
        spec_rip_magnitude(distance, curve_offset, curve_scale, timedelta)
    }
}

/// Whether the easing law is computed for `distance` and `curve_offset`.
pub open spec fn rip_in_range(distance: int, curve_offset: int) -> bool {
    -(RIP_LIMIT as int) <= distance <= RIP_LIMIT && 0 <= curve_offset && (if distance < 0 {
        -distance
    } else {
        distance
    }) + curve_offset <= RIP_LIMIT
}

/// Every number within the limit has a sixth root on the curve.
pub proof fn lemma_curve_position_exists(distance: int)
    requires
        0 <= distance <= RIP_LIMIT,
    ensures
        is_sixth_root(spec_curve_position(distance), distance * CURVE_UNIT),
        0 <= spec_curve_position(distance) <= ROOT_LIMIT,
{
    let x = distance * CURVE_UNIT;
    assert(0 <= x <= RIP_LIMIT * CURVE_UNIT) by (nonlinear_arith)
        requires
            0 <= distance <= RIP_LIMIT,
            x == distance * CURVE_UNIT,
    ;
    lemma_root_limit();
    lemma_sixth_root_exists(x, 0, ROOT_LIMIT as int + 1);
    let root = spec_sixth_root(x);
    if root > ROOT_LIMIT {
        lemma_pow6_increases(ROOT_LIMIT as int + 1, root);
        lemma_root_limit();
    }
}

/// Between a number whose sixth power does not exceed `x` and one whose sixth power does
/// lies the sixth root of `x`.
proof fn lemma_sixth_root_exists(x: int, low: int, high: int)
    requires
        0 <= low < high,
        pow6(low) <= x < pow6(high),
    ensures
        is_sixth_root(spec_sixth_root(x), x),
    decreases high - low,
{
    if high - low == 1 {
        assert(is_sixth_root(low, x));
    } else {
        let middle = low + (high - low) / 2;
        if pow6(middle) <= x {
            lemma_sixth_root_exists(x, middle, high);
        } else {
            lemma_sixth_root_exists(x, low, middle);
        }
    }
}

/// The distance at a curve position is never larger than the distance the position was
/// taken from.
pub proof fn lemma_curve_distance_bounded(distance: int, position: int)
    requires
        0 <= distance <= RIP_LIMIT,
        0 <= position <= spec_curve_position(distance),
    ensures
        0 <= spec_curve_distance(position) <= distance,
{
    lemma_curve_position_exists(distance);
    lemma_pow6_increases(position, spec_curve_position(distance));
    let power = pow6(position);
    let unit = CURVE_UNIT as int;
    assert(0 <= power / unit <= distance) by (nonlinear_arith)
        requires
            0 <= power <= distance * unit,
            unit > 0,
    ;
}

/// The distance on the curve grows with the position.
pub proof fn lemma_curve_distance_increases(position_a: int, position_b: int)
    requires
        0 <= position_a <= position_b,
    ensures
        spec_curve_distance(position_a) <= spec_curve_distance(position_b),
{
    lemma_pow6_increases(position_a, position_b);
    let a = pow6(position_a);
    let b = pow6(position_b);
    let unit = CURVE_UNIT as int;
    assert(a / unit <= b / unit) by (nonlinear_arith)
        requires
            0 <= a <= b,
            unit > 0,
    ;
}

/// The step covers at least nothing and at most the whole distance, and points the way
/// the distance does.
pub proof fn lemma_rip_within_distance(
    distance: int,
    curve_offset: int,
    curve_scale: int,
    timedelta: int,
)
    ensures
        distance >= 0 ==> 0 <= spec_rip(distance, curve_offset, curve_scale, timedelta) <= distance,
        distance <= 0 ==> distance <= spec_rip(distance, curve_offset, curve_scale, timedelta) <= 0,
{
}

/// Nothing is covered where the curve position does not advance: without time, or at a
/// rate of zero, the step is zero for every distance.
pub proof fn lemma_rip_stands_still(
    distance: int,
    curve_offset: int,
    curve_scale: int,
    timedelta: int,
)
    requires
        curve_scale == 0 || timedelta == 0 || spec_curve_advance(curve_scale, timedelta) == 0,
    ensures
        spec_rip(distance, curve_offset, curve_scale, timedelta) == 0,
{
    assert(curve_scale == 0 || timedelta == 0 ==> timedelta * curve_scale == 0)
        by (nonlinear_arith);
}

/// Nothing is left to cover once the distance is zero.
pub proof fn lemma_rip_of_zero(curve_offset: int, curve_scale: int, timedelta: int)
    ensures
        spec_rip(0, curve_offset, curve_scale, timedelta) == 0,
{
}

/// With more time the step grows, so the distance that is left shrinks: it never grows
/// again as time adds up.
pub proof fn lemma_rip_grows_with_time(distance: int, curve_scale: int, shorter: int, longer: int)
    requires
        rip_in_range(distance, 0),
        0 <= curve_scale,
        0 <= shorter <= longer,
    ensures
        distance >= 0 ==> spec_rip(distance, 0, curve_scale, shorter) <= spec_rip(
            distance,
            0,
            curve_scale,
            longer,
        ),
        distance <= 0 ==> spec_rip(distance, 0, curve_scale, shorter) >= spec_rip(
            distance,
            0,
            curve_scale,
            longer,
        ),
{
    let magnitude = if distance < 0 {
        -distance
    } else {
        distance
    };
    lemma_curve_position_exists(magnitude);
    let position = spec_curve_position(magnitude);
    let advance_short = spec_curve_advance(curve_scale, shorter);
    let advance_long = spec_curve_advance(curve_scale, longer);
    let unit = UNIT as int;
    assert(0 <= shorter * curve_scale <= longer * curve_scale) by (nonlinear_arith)
        requires
            0 <= curve_scale,
            0 <= shorter <= longer,
    ;
    assert(0 <= advance_short <= advance_long) by (nonlinear_arith)
        requires
            0 <= shorter * curve_scale <= longer * curve_scale,
            advance_short == shorter * curve_scale / unit,
            advance_long == longer * curve_scale / unit,
            unit > 0,
    ;
    let new_short = if advance_short < position {
        position - advance_short
    } else {
        0
    };
    let new_long = if advance_long < position {
        position - advance_long
    } else {
        0
    };
    lemma_curve_distance_increases(new_long, new_short);
    lemma_curve_distance_bounded(magnitude, new_short);
    lemma_curve_distance_bounded(magnitude, new_long);
}

/// Enough time covers the whole distance: once the curve position would pass zero, the
/// step is the distance itself.
pub proof fn lemma_rip_reaches_zero(distance: int, curve_scale: int, timedelta: int)
    requires
        rip_in_range(distance, 0),
        spec_curve_advance(curve_scale, timedelta) >= ROOT_LIMIT,
    ensures
        spec_rip(distance, 0, curve_scale, timedelta) == distance,
{
    let magnitude = if distance < 0 {
        -distance
    } else {
        distance
    };
    lemma_curve_position_exists(magnitude);
    lemma_root_limit();
    assert(spec_curve_distance(0) == 0);
}

/// The distance that is left of `distance` after `frames` steps of `timedelta` each.
pub open spec fn spec_settle(distance: int, curve_scale: int, timedelta: int, frames: nat) -> int
    decreases frames,
{
    if frames == 0 {
        distance
    } else {
        let left = spec_settle(distance, curve_scale, timedelta, (frames - 1) as nat);
        left - spec_rip(left, 0, curve_scale, timedelta)
    }
}

/// Step by step the distance settles: what is left keeps its sign, never grows, and lies
/// no further along the curve than the start lowered by the advance of all steps.
pub proof fn lemma_settle_bounded(distance: int, curve_scale: int, timedelta: int, frames: nat)
    requires
        0 <= distance <= RIP_LIMIT,
        0 <= spec_curve_advance(curve_scale, timedelta),
    ensures
        0 <= spec_settle(distance, curve_scale, timedelta, frames) <= distance,
        spec_curve_position(spec_settle(distance, curve_scale, timedelta, frames))
            <= spec_curve_position(distance),
        spec_curve_position(spec_settle(distance, curve_scale, timedelta, frames)) == 0
            || spec_curve_position(spec_settle(distance, curve_scale, timedelta, frames))
            <= spec_curve_position(distance) - frames * spec_curve_advance(curve_scale, timedelta),
    decreases frames,
{
    let advance = spec_curve_advance(curve_scale, timedelta);
    lemma_curve_position_exists(distance);
    if frames > 0 {
        let before = (frames - 1) as nat;
        lemma_settle_bounded(distance, curve_scale, timedelta, before);
        let left = spec_settle(distance, curve_scale, timedelta, before);
        lemma_curve_position_exists(left);
        let position = spec_curve_position(left);
        let position_new = if advance < position {
            position - advance
        } else {
            0
        };
        lemma_curve_distance_bounded(left, position_new);
        let after = spec_settle(distance, curve_scale, timedelta, frames);
        assert(frames * advance == before * advance + advance) by (nonlinear_arith)
            requires
                frames == before + 1,
        ;
        assert(before * advance >= 0) by (nonlinear_arith)
            requires
                before >= 0,
                advance >= 0,
        ;
        if advance == 0 {
            assert(after == left);
        } else {
            assert(after == spec_curve_distance(position_new));
            lemma_curve_position_exists(after);
            lemma_curve_position_of_distance(position_new);
        }
    } else {
        assert(frames * advance == 0) by (nonlinear_arith)
            requires
                frames == 0,
        ;
    }
}

/// The distance found at a curve position lies at that position or before it.
pub proof fn lemma_curve_position_of_distance(position: int)
    requires
        0 <= position <= ROOT_LIMIT,
    ensures
        spec_curve_distance(position) <= RIP_LIMIT,
        spec_curve_position(spec_curve_distance(position)) <= position,
{
    lemma_root_limit();
    lemma_pow6_increases(position, ROOT_LIMIT as int);
    lemma_curve_position_exists(RIP_LIMIT as int);
    let power = pow6(position);
    let unit = CURVE_UNIT as int;
    let limit = RIP_LIMIT as int;
    let top = spec_curve_position(limit);
    if top < ROOT_LIMIT {
        lemma_pow6_increases(top + 1, ROOT_LIMIT as int);
    }
    assert(pow6(ROOT_LIMIT as int) <= limit * unit) by {
        lemma_pow6_increases(ROOT_LIMIT as int, top);
    }
    let reached = power / unit;
    assert(0 <= reached <= limit && reached * unit <= power) by (nonlinear_arith)
        requires
            0 <= power <= limit * unit,
            unit > 0,
            reached == power / unit,
    ;
    lemma_curve_position_exists(reached);
    let root = spec_curve_position(reached);
    if root > position {
        lemma_pow6_increases(position, position + 1);
        lemma_pow6_increases(position + 1, root);
        assert(spec_curve_distance(position) == reached);
        assert(pow6(root) <= reached * unit);
    }
}

/// The distance settles at zero for good once the steps have advanced past the whole
/// curve.
pub proof fn lemma_settles_at_zero(distance: int, curve_scale: int, timedelta: int, frames: nat)
    requires
        0 <= distance <= RIP_LIMIT,
        0 <= spec_curve_advance(curve_scale, timedelta),
        frames * spec_curve_advance(curve_scale, timedelta) > ROOT_LIMIT,
    ensures
        spec_settle(distance, curve_scale, timedelta, frames) == 0,
{
    lemma_settle_bounded(distance, curve_scale, timedelta, frames);
    lemma_curve_position_exists(distance);
    let left = spec_settle(distance, curve_scale, timedelta, frames);
    lemma_curve_position_exists(left);
    lemma_root_limit();
    assert(spec_curve_position(left) == 0);
    if left > 0 {
        let x = left * CURVE_UNIT;
        assert(x >= CURVE_UNIT) by (nonlinear_arith)
            requires
                left >= 1,
                x == left * CURVE_UNIT,
        ;
        assert(pow6(1) == 1) by (nonlinear_arith);
    }
}

/// Computes the signed step that moves `distance` toward zero over the next `timedelta`
/// microseconds, along the curve on which the distance is the sixth power of time times
/// `curve_scale`, lowered by `curve_offset`. Without time, or at a rate of zero, the step
/// is zero.
pub fn rip(distance: i64, curve_offset: u64, curve_scale: u64, timedelta: u64) -> (step: i64)
    requires
        rip_in_range(distance as int, curve_offset as int),
    ensures
        step == spec_rip(
            distance as int,
            curve_offset as int,
            curve_scale as int,
            timedelta as int,
        ),
        distance >= 0 ==> 0 <= step <= distance,
        distance <= 0 ==> distance <= step <= 0,
        spec_curve_advance(curve_scale as int, timedelta as int) == 0 ==> step == 0,
{
    let magnitude: u64 = if distance < 0 {
        (-distance) as u64
    } else {
        distance as u64
    };
    let total: u64 = magnitude + curve_offset;
    proof {
        lemma_curve_position_exists(total as int);
        assert(0 <= total * CURVE_UNIT <= RIP_LIMIT * CURVE_UNIT) by (nonlinear_arith)
            requires
                0 <= total <= RIP_LIMIT,
        ;
        assert(timedelta * curve_scale <= 0xffff_ffff_ffff_ffff * 0xffff_ffff_ffff_ffff)
            by (nonlinear_arith)
            requires
                0 <= timedelta <= 0xffff_ffff_ffff_ffff,
                0 <= curve_scale <= 0xffff_ffff_ffff_ffff,
        ;
    }
    let position: u128 = sixth_root((total as u128) * CURVE_UNIT);
    let advance: u128 = (timedelta as u128) * (curve_scale as u128) / (UNIT as u128);
    if advance == 0 {
        return 0;
    }
    let position_new: u128 = if advance < position {
        position - advance
    } else {
        0
    };
    proof {
        lemma_curve_distance_bounded(total as int, position_new as int);
    }
    let reached: u128 = sixth_power(position_new) / CURVE_UNIT;
    // The distance left is `reached - curve_offset`, so the step is what `total` exceeds
    // `reached` by, capped at the distance.
    let covered: u128 = (total as u128) - reached;
    let step: u64 = if covered > magnitude as u128 {
        magnitude
    } else {
        covered as u64
    };
    if distance < 0 {
        -(step as i64)
    } else {
        step as i64
    }
}

} // verus!
