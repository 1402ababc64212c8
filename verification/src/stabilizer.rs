//! Sliding-window average of a point over consecutive frames.

use std::collections::VecDeque;
use vstd::prelude::*;

verus! {

/// A point in space. Each coordinate counts millionths of the host's length unit.
#[derive(Clone, Copy, Debug, PartialEq, Eq, Structural)]
pub struct Point3 {
    pub x: i64,
    pub y: i64,
    pub z: i64,
}

/// One of the three coordinate axes.
pub enum Axis {
    X,
    Y,
    Z,
}

impl Point3 {
    /// The coordinate of the point along `axis`.
    pub open spec fn component(self, axis: Axis) -> int {
        match axis {
            Axis::X => self.x as int,
            Axis::Y => self.y as int,
            Axis::Z => self.z as int,
        }
    }
}

/// The sum of the coordinates along `axis` of all points in `points`.
pub open spec fn component_sum(points: Seq<Point3>, axis: Axis) -> int
    decreases points.len(),
{
    if points.len() == 0 {
        0
    } else {
        component_sum(points.drop_last(), axis) + points.last().component(axis)
    }
}

/// The quotient of `total` by `count`, rounded toward zero.
pub open spec fn quotient_toward_zero(total: int, count: int) -> int
    recommends
        count > 0,
{
    if total >= 0 {
        total / count
    } else {
        -((-total) / count)
    }
}

/// The arithmetic mean of `points` along `axis`, rounded toward zero.
pub open spec fn component_mean(points: Seq<Point3>, axis: Axis) -> int
    recommends
        points.len() > 0,
{
    quotient_toward_zero(component_sum(points, axis), points.len() as int)
}

/// The arithmetic mean of `points`, coordinate by coordinate, or `default` where there is
/// no point to average.
pub open spec fn mean_of(points: Seq<Point3>, default: Point3) -> Point3 {
    if points.len() == 0 {
        default
    } else {
        Point3 {
            x: component_mean(points, Axis::X) as i64,
            y: component_mean(points, Axis::Y) as i64,
            z: component_mean(points, Axis::Z) as i64,
        }
    }
}

/// `points` cut down to its first `limit` entries.
pub open spec fn truncated(points: Seq<Point3>, limit: nat) -> Seq<Point3> {
    if limit < points.len() {
        points.take(limit as int)
    } else {
        points
    }
}

/// What a stabilizer knows: the frame it last saw, the size of its window and the points
/// of the latest frames, newest first.
pub struct StabilizerState {
    pub frame: nat,
    pub samples: nat,
    pub points: Seq<Point3>,
}

impl StabilizerState {
    /// The state after the point `new` was sampled in `frame`. A second sample in one
    /// frame changes nothing; a frame that does not follow the last one directly empties
    /// the window first.
    pub open spec fn advance(self, frame: nat, new: Point3) -> StabilizerState {
        if frame == self.frame {
            self
        } else {
            let kept = if self.frame + 1 == frame {
                self.points
            } else {
                Seq::empty()
            };
            StabilizerState {
                frame,
                samples: self.samples,
                points: truncated(seq![new] + kept, self.samples),
            }
        }
    }

    /// The state after `count` further frames, each following the last one directly, in
    /// all of which `point` was sampled.
    pub open spec fn feed(self, point: Point3, count: nat) -> StabilizerState
        decreases count,
    {
        if count == 0 {
            self
        } else {
            let before = self.feed(point, (count - 1) as nat);
            before.advance(before.frame + 1, point)
        }
    }
}

/// The sum of `points` along an axis lies between the extremes that as many `i64` values
/// can reach.
pub proof fn lemma_component_sum_bounds(points: Seq<Point3>, axis: Axis)
    ensures
        points.len() * (i64::MIN as int) <= component_sum(points, axis),
        component_sum(points, axis) <= points.len() * (i64::MAX as int),
    decreases points.len(),
{
    if points.len() > 0 {
        lemma_component_sum_bounds(points.drop_last(), axis);
        let n = points.len() as int;
        assert((n - 1) * (i64::MIN as int) + (i64::MIN as int) == n * (i64::MIN as int))
            by (nonlinear_arith);
        assert((n - 1) * (i64::MAX as int) + (i64::MAX as int) == n * (i64::MAX as int))
            by (nonlinear_arith);
    }
}

/// A quotient rounded toward zero stays between the bounds that hold of each summand.
pub proof fn lemma_quotient_bounds(total: int, count: int, low: int, high: int)
    requires
        count > 0,
        low <= 0 <= high,
        count * low <= total <= count * high,
    ensures
        low <= quotient_toward_zero(total, count) <= high,
{
    if total >= 0 {
        assert(total / count <= high) by (nonlinear_arith)
            requires
                count > 0,
                0 <= total <= count * high,
        ;
        assert(0 <= total / count) by (nonlinear_arith)
            requires
                count > 0,
                0 <= total,
        ;
    } else {
        let flipped = -total;
        assert(count * (-low) == -(count * low)) by (nonlinear_arith);
        assert(flipped / count <= -low) by (nonlinear_arith)
            requires
                count > 0,
                0 <= flipped <= count * (-low),
        ;
        assert(0 <= flipped / count) by (nonlinear_arith)
            requires
                count > 0,
                0 <= flipped,
        ;
    }
}

/// The sum of a window in which every point is `point` is that point's coordinate times
/// the number of points.
pub proof fn lemma_component_sum_constant(points: Seq<Point3>, point: Point3, axis: Axis)
    requires
        forall|i: int| 0 <= i < points.len() ==> points[i] == point,
    ensures
        component_sum(points, axis) == points.len() * point.component(axis),
    decreases points.len(),
{
    if points.len() > 0 {
        lemma_component_sum_constant(points.drop_last(), point, axis);
        let n = points.len() as int;
        let c = point.component(axis);
        assert((n - 1) * c + c == n * c) by (nonlinear_arith);
    }
}

/// The mean of a window in which every point is the same point is that point.
pub proof fn lemma_mean_of_constant(points: Seq<Point3>, point: Point3)
    requires
        forall|i: int| 0 <= i < points.len() ==> points[i] == point,
    ensures
        mean_of(points, point) == point,
{
    if points.len() > 0 {
        let n = points.len() as int;
        assert forall|axis: Axis| component_mean(points, axis) == point.component(axis) by {
            lemma_component_sum_constant(points, point, axis);
            let c = point.component(axis);
            if c >= 0 {
                assert(n * c >= 0) by (nonlinear_arith)
                    requires
                        n > 0,
                        c >= 0,
                ;
                assert((n * c) / n == c) by (nonlinear_arith)
                    requires
                        n > 0,
                ;
            } else {
                assert(n * c < 0) by (nonlinear_arith)
                    requires
                        n > 0,
                        c < 0,
                ;
                assert((-(n * c)) / n == -c) by (nonlinear_arith)
                    requires
                        n > 0,
                ;
            }
        }
        assert(component_mean(points, Axis::X) == point.x);
        assert(component_mean(points, Axis::Y) == point.y);
        assert(component_mean(points, Axis::Z) == point.z);
    }
}

/// On the first frame after a gap the window holds at most the new point, so the
/// stabilized point is the new point itself.
pub proof fn lemma_gap_returns_raw(state: StabilizerState, frame: nat, new: Point3)
    requires
        frame != state.frame,
        frame != state.frame + 1,
    ensures
        mean_of(state.advance(frame, new).points, new) == new,
{
    let points = state.advance(frame, new).points;
    assert(seq![new] + Seq::<Point3>::empty() =~= seq![new]);
    assert forall|i: int| 0 <= i < points.len() implies points[i] == new by {}
    lemma_mean_of_constant(points, new);
}

/// Once the same point was sampled in as many consecutive frames as the window is long,
/// the window holds nothing else and the stabilized point is that point.
pub proof fn lemma_full_window_of_one_point(state: StabilizerState, point: Point3, count: nat)
    requires
        state.points.len() <= state.samples,
        count >= state.samples,
    ensures
        mean_of(state.feed(point, count).points, point) == point,
{
    lemma_feed_fills_window(state, point, count);
    lemma_mean_of_constant(state.feed(point, count).points, point);
}

/// After `count` consecutive frames with one point, the newest `count` entries of the
/// window are that point.
proof fn lemma_feed_fills_window(state: StabilizerState, point: Point3, count: nat)
    requires
        state.points.len() <= state.samples,
    ensures
        state.feed(point, count).samples == state.samples,
        state.feed(point, count).points.len() <= state.samples,
        forall|i: int|
            0 <= i < state.feed(point, count).points.len() && i < count ==> state.feed(
                point,
                count,
            ).points[i] == point,
    decreases count,
{
    if count > 0 {
        lemma_feed_fills_window(state, point, (count - 1) as nat);
    }
}

/// Averages the sampled point over the latest frames, as long as the frames follow one
/// another without a gap.
pub struct CameraStabilizer {
    frame: u64,
    samples: u32,
    buf: VecDeque<Point3>,
}

impl View for CameraStabilizer {
    type V = StabilizerState;

    closed spec fn view(&self) -> StabilizerState {
        StabilizerState {
            frame: self.frame as nat,
            samples: self.samples as nat,
            points: self.buf@,
        }
    }
}

impl CameraStabilizer {
    #[verifier::type_invariant]
    spec fn within_window(self) -> bool {
        self.buf@.len() <= self.samples
    }

    /// A stabilizer with an empty window of `samples` frames that has seen frame 0.
    pub fn new(samples: u32) -> (stabilizer: CameraStabilizer)
        ensures
            stabilizer@ == (StabilizerState {
                frame: 0,
                samples: samples as nat,
                points: Seq::empty(),
            }),
    {
        CameraStabilizer { frame: 0, samples, buf: VecDeque::new() }
    }

    /// The number of frames that the window spans.
    pub fn sample_count(&self) -> (samples: u32)
        ensures
            samples == self@.samples,
    {
        self.samples
    }

    /// The number of points that the window holds.
    pub fn len(&self) -> (len: usize)
        ensures
            len == self@.points.len(),
            len <= self@.samples,
    {
        proof {
            use_type_invariant(self);
        }
        self.buf.len()
    }

    /// Resizes the window to `samples` frames; points beyond the new size are dropped.
    pub fn set_sample_count(&mut self, samples: u32)
        ensures
            final(self)@ == (StabilizerState {
                frame: old(self)@.frame,
                samples: samples as nat,
                points: truncated(old(self)@.points, samples as nat),
            }),
    {
        proof {
            use_type_invariant(&*self);
        }
        let mut buf = VecDeque::new();
        std::mem::swap(&mut self.buf, &mut buf);
        buf.truncate(samples as usize);
        self.samples = samples;
        std::mem::swap(&mut self.buf, &mut buf);
        assert(self@.points =~= truncated(old(self)@.points, samples as nat));
    }

    /// Empties the window.
    pub fn reset(&mut self)
        ensures
            final(self)@ == (StabilizerState {
                frame: old(self)@.frame,
                samples: old(self)@.samples,
                points: Seq::empty(),
            }),
    {
        let mut buf = VecDeque::new();
        std::mem::swap(&mut self.buf, &mut buf);
    }

    /// Takes the sample `new` of `frame` and returns the stabilized point: the mean of the
    /// window, or `new` itself while the window is empty.
    pub fn next(&mut self, frame: u64, new: Point3) -> (mean: Point3)
        ensures
            final(self)@ == old(self)@.advance(frame as nat, new),
            mean == mean_of(final(self)@.points, new),
            frame != old(self)@.frame && frame != old(self)@.frame + 1 ==> mean == new,
    {
        proof {
            use_type_invariant(&*self);
            if frame != old(self)@.frame && frame != old(self)@.frame + 1 {
                lemma_gap_returns_raw(old(self)@, frame as nat, new);
            }
        }
        let prev_frame = self.frame;
        if prev_frame != frame {
            let mut buf = VecDeque::new();
            std::mem::swap(&mut self.buf, &mut buf);
            if frame == 0 || prev_frame != frame - 1 {
                buf.clear();
            }
            buf.push_front(new);
            buf.truncate(self.samples as usize);
            self.frame = frame;
            std::mem::swap(&mut self.buf, &mut buf);
        }
        assert(self@.points =~= old(self)@.advance(frame as nat, new).points);
        self.average(new)
    }

    /// The mean of the window, or `default` while the window is empty.
    pub fn average(&self, default: Point3) -> (mean: Point3)
        ensures
            mean == mean_of(self@.points, default),
    {
        let len = self.buf.len();
        if len == 0 {
            return default;
        }
        let mut sum_x: i128 = 0;
        let mut sum_y: i128 = 0;
        let mut sum_z: i128 = 0;
        let mut i: usize = 0;
        while i < len
            invariant
                i <= len,
                len == self.buf@.len(),
                sum_x == component_sum(self.buf@.take(i as int), Axis::X),
                sum_y == component_sum(self.buf@.take(i as int), Axis::Y),
                sum_z == component_sum(self.buf@.take(i as int), Axis::Z),
            decreases len - i,
        {
            let point = self.buf[i];
            proof {
                let next = self.buf@.take(i + 1);
                assert(next.drop_last() =~= self.buf@.take(i as int));
                lemma_component_sum_bounds(next, Axis::X);
                lemma_component_sum_bounds(next, Axis::Y);
                lemma_component_sum_bounds(next, Axis::Z);
                lemma_window_sum_fits(next.len());
            }
            sum_x = sum_x + point.x as i128;
            sum_y = sum_y + point.y as i128;
            sum_z = sum_z + point.z as i128;
            i += 1;
        }
        assert(self.buf@.take(len as int) =~= self.buf@);
        Point3 {
            x: mean_component(sum_x, len, Ghost(self.buf@), Ghost(Axis::X)),
            y: mean_component(sum_y, len, Ghost(self.buf@), Ghost(Axis::Y)),
            z: mean_component(sum_z, len, Ghost(self.buf@), Ghost(Axis::Z)),
        }
    }
}

/// The extremes that a sum of `count` values of `i64` can reach fit in an `i128`.
proof fn lemma_window_sum_fits(count: nat)
    requires
        count <= usize::MAX,
    ensures
        i128::MIN <= count * (i64::MIN as int),
        count * (i64::MAX as int) <= i128::MAX,
{
    assert(count * (i64::MIN as int) >= 0x1_0000_0000_0000_0000 * (i64::MIN as int))
        by (nonlinear_arith)
        requires
            count <= 0x1_0000_0000_0000_0000,
    ;
    assert(count * (i64::MAX as int) <= 0x1_0000_0000_0000_0000 * (i64::MAX as int))
        by (nonlinear_arith)
        requires
            count <= 0x1_0000_0000_0000_0000,
    ;
}

/// Divides the sum of a window along one axis by the number of its points.
fn mean_component(
    sum: i128,
    len: usize,
    Ghost(points): Ghost<Seq<Point3>>,
    Ghost(axis): Ghost<Axis>,
) -> (mean: i64)
    requires
        len > 0,
        len == points.len(),
        sum == component_sum(points, axis),
    ensures
        mean == component_mean(points, axis),
{
    proof {
        lemma_component_sum_bounds(points, axis);
        lemma_quotient_bounds(sum as int, len as int, i64::MIN as int, i64::MAX as int);
        lemma_window_sum_fits(len as nat);
    }
    if sum >= 0 {
        ((sum as u128) / (len as u128)) as i64
    } else {
        let flipped: u128 = (-sum) as u128;
        let quotient: u128 = flipped / (len as u128);
        (-(quotient as i128)) as i64
    }
}

} // verus!
