//! Decides, frame by frame, how the camera follows the rotation of the character's head,
//! and keeps the stabilizer of the head position.
//!
//! The tracker holds no rotation itself. It tells its caller what to do with the target
//! rotation and computes the angles by which rotations are to be turned; angles count
//! millionths of a radian, times are in microseconds and rates in millionths.

use crate::behavior::{BehaviorHistory, BehaviorState, BehaviorStates};
use crate::config::Config;
use crate::easing::{rip, rip_in_range, spec_curve_advance, spec_rip, RIP_LIMIT};
use crate::stabilizer::{mean_of, truncated, CameraStabilizer, Point3, StabilizerState};
use vstd::prelude::*;

verus! {

/// Half a turn.
pub const PI: i64 = 3_141_593;

/// Three quarters of a turn.
pub const THREE_HALVES_PI: i64 = 4_712_389;

/// The catch-up rate of all modes but the fast one.
pub const NORMAL_SPEED: i64 = 1_000_000;

/// The catch-up rate while dodging.
pub const FAST_SPEED: i64 = 1_400_000;

/// How fast an untracked target returns to the neutral rotation: the share of the way
/// that it covers per second.
pub const RELAX_RATE: u64 = 10;

/// Whether and how head rotation reaches the camera.
#[derive(Clone, Copy, Debug, PartialEq, Eq, Structural)]
pub enum TrackingMode {
    /// No tracking: the target returns to the neutral rotation.
    Off,
    /// The head's rotation in the world is tracked in full.
    Global,
    /// The head's rotation relative to the character's facing is tracked.
    PlayerRelative,
    /// As `PlayerRelative`, with a higher catch-up rate.
    PlayerRelativeFast,
}

/// The parameters of one tracking mode.
#[derive(Clone, Copy, Debug, PartialEq, Eq, Structural)]
pub struct RotationArgs {
    /// Whether changes of the head's rotation are added to the target.
    pub track: bool,
    /// The catch-up rate of the camera.
    pub speed: i64,
    /// Targets that deviate from neutral by less than this angle are pulled toward neutral.
    pub center_bias_until: i64,
    /// Whether the head's rotation is taken relative to the character's facing.
    pub player_local: bool,
}

impl TrackingMode {
    /// The parameters of the mode.
    pub open spec fn spec_rotation_args(self) -> RotationArgs {
        match self {
            TrackingMode::Off => RotationArgs {
                track: false,
                speed: NORMAL_SPEED,
                center_bias_until: THREE_HALVES_PI,
                player_local: false,
            },
            TrackingMode::Global => RotationArgs {
                track: true,
                speed: NORMAL_SPEED,
                center_bias_until: PI,
                player_local: false,
            },
            TrackingMode::PlayerRelative => RotationArgs {
                track: true,
                speed: NORMAL_SPEED,
                center_bias_until: THREE_HALVES_PI,
                player_local: true,
            },
            TrackingMode::PlayerRelativeFast => RotationArgs {
                track: true,
                speed: FAST_SPEED,
                center_bias_until: THREE_HALVES_PI,
                player_local: true,
            },
        }
    }

    /// The mode that applies to a character: a throw comes first, then a damage reaction
    /// or death animation, then an attack, then a dodge, each only where the settings ask
    /// for it.
    pub open spec fn spec_select(
        config: Config,
        in_throw: bool,
        states: BehaviorHistory,
    ) -> TrackingMode {
        if in_throw || (config.track_damage && states.is_active(BehaviorState::Damage)) || (
        config.track_damage && states.is_active(BehaviorState::DeathAnim) && !states.is_active(
            BehaviorState::DeathIdle,
        )) {
            TrackingMode::Global
        } else if config.track_attacks && states.is_active(BehaviorState::Attack) {
            TrackingMode::PlayerRelative
        } else if config.track_dodges && states.is_active(BehaviorState::Evasion) {
            TrackingMode::PlayerRelativeFast
        } else {
            TrackingMode::Off
        }
    }

    /// The parameters of the mode.
    pub fn rotation_args(self) -> (args: RotationArgs)
        ensures
            args == self.spec_rotation_args(),
    {
        match self {
            TrackingMode::Off => RotationArgs {
                track: false,
                speed: NORMAL_SPEED,
                center_bias_until: THREE_HALVES_PI,
                player_local: false,
            },
            TrackingMode::Global => RotationArgs {
                track: true,
                speed: NORMAL_SPEED,
                center_bias_until: PI,
                player_local: false,
            },
            TrackingMode::PlayerRelative => RotationArgs {
                track: true,
                speed: NORMAL_SPEED,
                center_bias_until: THREE_HALVES_PI,
                player_local: true,
            },
            TrackingMode::PlayerRelativeFast => RotationArgs {
                track: true,
                speed: FAST_SPEED,
                center_bias_until: THREE_HALVES_PI,
                player_local: true,
            },
        }
    }

    /// Selects the mode for the current frame from what the character is doing.
    pub fn select(config: &Config, in_throw: bool, states: &BehaviorStates) -> (mode: TrackingMode)
        ensures
            mode == Self::spec_select(*config, in_throw, states@),
    {
        if in_throw || (config.track_damage && states.has_state(BehaviorState::Damage)) || (
        config.track_damage && states.has_state(BehaviorState::DeathAnim) && !states.has_state(
            BehaviorState::DeathIdle,
        )) {
            TrackingMode::Global
        } else if config.track_attacks && states.has_state(BehaviorState::Attack) {
            TrackingMode::PlayerRelative
        } else if config.track_dodges && states.has_state(BehaviorState::Evasion) {
            TrackingMode::PlayerRelativeFast
        } else {
            TrackingMode::Off
        }
    }
}

/// What is done with the target rotation in one frame.
#[derive(Clone, Copy, Debug, PartialEq, Eq, Structural)]
pub enum TargetUpdate {
    /// The change of the head's rotation since the last frame is added to the target.
    Accumulate,
    /// The target moves toward the neutral rotation by the given share of the way, in
    /// millionths.
    Relax(u64),
}

/// The steps that bring the tracked rotation of one frame about, in the order of the
/// fields.
#[derive(Clone, Copy, Debug, PartialEq, Eq, Structural)]
pub struct RotationPlan {
    /// Whether the target is first set back to the neutral rotation and the last sample
    /// of the head's rotation is forgotten.
    pub reset: bool,
    /// Whether the head's rotation is taken relative to the character's facing.
    pub player_local: bool,
    /// How the target changes.
    pub target: TargetUpdate,
    /// The catch-up rate at which the camera then eases toward the target.
    pub speed: i64,
    /// Targets that deviate from neutral by less than this angle are pulled toward neutral
    /// before the camera eases toward them.
    pub center_bias_until: i64,
}

/// What the tracker remembers between frames.
pub struct TrackerState {
    /// The mode of the last planned frame.
    pub mode: TrackingMode,
    /// Whether a sample of the head's rotation is at hand to take a change from.
    pub has_previous: bool,
    /// Whether the target is to be set back to neutral in the next frame.
    pub pending_reset: bool,
    /// The frame whose result is cached, if any.
    pub cached_frame: Option<u64>,
    /// The stabilizer of the head position.
    pub stabilizer: StabilizerState,
}

/// The share of the way toward neutral that an untracked target covers in `frame_time`.
pub open spec fn spec_relax_share(frame_time: u64) -> u64 {
    if frame_time * RELAX_RATE > u64::MAX {
        u64::MAX
    } else {
        (frame_time * RELAX_RATE) as u64
    }
}

/// Computes the share of the way toward neutral that an untracked target covers in
/// `frame_time`, in millionths.
pub fn relax_share(frame_time: u64) -> (share: u64)
    ensures
        share == spec_relax_share(frame_time),
{
    if frame_time > u64::MAX / RELAX_RATE {
        u64::MAX
    } else {
        frame_time * RELAX_RATE
    }
}

impl TrackerState {
    /// The plan for a frame of `frame_time` microseconds in `mode`. A change of mode
    /// resets the target, as does a reset of the tracker, and the target only
    /// accumulates when tracking is on and there is a last sample to take the change from.
    pub open spec fn plan(self, mode: TrackingMode, frame_time: u64) -> RotationPlan {
        let args = mode.spec_rotation_args();
        let reset = mode != self.mode || self.pending_reset;
        let has_previous = self.has_previous && !reset;
        RotationPlan {
            reset,
            player_local: args.player_local,
            target: if has_previous && args.track {
                TargetUpdate::Accumulate
            } else {
                TargetUpdate::Relax(spec_relax_share(frame_time))
            },
            speed: args.speed,
            center_bias_until: args.center_bias_until,
        }
    }

    /// The state after a frame was planned in `mode`.
    pub open spec fn after_frame(self, mode: TrackingMode) -> TrackerState {
        TrackerState { mode, has_previous: true, pending_reset: false, ..self }
    }

    /// The state after tracking was reset: the window of the stabilizer is empty, no last
    /// sample is at hand, and the next frame sets the target back to neutral.
    pub open spec fn after_reset(self) -> TrackerState {
        TrackerState {
            has_previous: false,
            pending_reset: true,
            stabilizer: StabilizerState { points: Seq::empty(), ..self.stabilizer },
            ..self
        }
    }

    /// Whether `frame` follows the cached frame directly, or nothing is cached yet.
    pub open spec fn continues(self, frame: u64) -> bool {
        match self.cached_frame {
            Some(cached) => cached + 1 == frame,
            None => true,
        }
    }

    /// The state after work on `frame` began: a frame whose result is cached changes
    /// nothing, and a frame that does not follow the cached one resets tracking.
    pub open spec fn begun(self, frame: u64) -> TrackerState {
        if self.cached_frame == Some(frame) {
            self
        } else if self.continues(frame) {
            TrackerState { cached_frame: Some(frame), ..self }
        } else {
            TrackerState { cached_frame: Some(frame), ..self.after_reset() }
        }
    }
}

/// The number of frames of `frame_time` microseconds that a window of `window`
/// microseconds spans, rounded up.
pub open spec fn spec_sample_count(window: i64, frame_time: u64) -> u32 {
    if window <= 0 {
        0
    } else if frame_time == 0 {
        u32::MAX
    } else {
        let frames = (window + frame_time - 1) / (frame_time as int);
        if frames > u32::MAX {
            u32::MAX
        } else {
            frames as u32
        }
    }
}

/// The window spans enough frames to cover its whole length, and no frame more.
pub proof fn lemma_sample_count_covers_window(window: i64, frame_time: u64)
    requires
        window > 0,
        frame_time > 0,
        spec_sample_count(window, frame_time) < u32::MAX,
    ensures
        spec_sample_count(window, frame_time) * frame_time >= window,
        (spec_sample_count(window, frame_time) - 1) * frame_time < window,
{
    let w = window as int;
    let t = frame_time as int;
    let frames = (w + t - 1) / t;
    assert(frames * t >= w && (frames - 1) * t < w) by (nonlinear_arith)
        requires
            w > 0,
            t > 0,
            frames == (w + t - 1) / t,
    ;
}

/// Counts the frames of `frame_time` microseconds that a window of `window` microseconds
/// spans, rounded up. A window without length spans no frame, and frames without length
/// give the largest count there is.
pub fn sample_count(window: i64, frame_time: u64) -> (samples: u32)
    ensures
        samples == spec_sample_count(window, frame_time),
{
    if window <= 0 {
        0
    } else if frame_time == 0 {
        u32::MAX
    } else {
        let total: u128 = window as u128 + frame_time as u128 - 1;
        let frames: u128 = total / (frame_time as u128);
        if frames > u32::MAX as u128 {
            u32::MAX
        } else {
            frames as u32
        }
    }
}

/// The angle by which a target that deviates from neutral by `angle` is pulled back
/// toward neutral: the deviation times the square of the share by which it falls short
/// of `center_bias_until`. Targets at or beyond that angle are not pulled.
pub open spec fn spec_center_bias_pull(angle: int, center_bias_until: int) -> int {
    if 0 <= angle < center_bias_until {
        angle * ((center_bias_until - angle) * (center_bias_until - angle)) / (center_bias_until
            * center_bias_until)
    } else {
        0
    }
}

/// The pull toward neutral is never negative and never larger than the deviation.
pub proof fn lemma_center_bias_pull_bounded(angle: int, center_bias_until: int)
    ensures
        0 <= spec_center_bias_pull(angle, center_bias_until),
        angle >= 0 ==> spec_center_bias_pull(angle, center_bias_until) <= angle,
{
    if 0 <= angle < center_bias_until {
        let rest = center_bias_until - angle;
        let square = rest * rest;
        let full = center_bias_until * center_bias_until;
        assert(0 <= square <= full && full > 0) by (nonlinear_arith)
            requires
                0 < rest <= center_bias_until,
                square == rest * rest,
                full == center_bias_until * center_bias_until,
        ;
        assert(0 <= angle * square <= angle * full) by (nonlinear_arith)
            requires
                0 <= angle,
                0 <= square <= full,
        ;
        assert(0 <= (angle * square) / full <= angle) by (nonlinear_arith)
            requires
                0 <= angle * square <= angle * full,
                full > 0,
        ;
    }
}

/// Computes the angle by which a target that deviates from neutral by `angle` is pulled
/// back toward neutral.
pub fn center_bias_pull(angle: i64, center_bias_until: i64) -> (pull: i64)
    requires
        center_bias_until <= RIP_LIMIT,
    ensures
        pull == spec_center_bias_pull(angle as int, center_bias_until as int),
        0 <= pull,
        angle >= 0 ==> pull <= angle,
{
    proof {
        lemma_center_bias_pull_bounded(angle as int, center_bias_until as int);
    }
    if 0 <= angle && angle < center_bias_until {
        let rest: u128 = (center_bias_until - angle) as u128;
        let until: u128 = center_bias_until as u128;
        proof {
            let limit = RIP_LIMIT as int;
            assert(rest * rest <= limit * limit && until * until <= limit * limit && 0 < until
                * until) by (nonlinear_arith)
                requires
                    0 < rest <= until <= limit,
            ;
            assert(angle * (rest * rest) <= limit * (limit * limit)) by (nonlinear_arith)
                requires
                    0 <= angle <= limit,
                    0 <= rest * rest <= limit * limit,
            ;
            assert(limit * (limit * limit) == 1_000_000_000_000_000_000_000_000)
                by (nonlinear_arith)
                requires
                    limit == 100_000_000,
            ;
        }
        let square: u128 = rest * rest;
        let full: u128 = until * until;
        ((angle as u128) * square / full) as i64
    } else {
        0
    }
}

/// The angle by which the camera's rotation is turned toward the pulled target that lies
/// `distance` away, in a frame of `frame_time` microseconds at the catch-up rate `speed`.
pub fn rotation_step(distance: i64, speed: u64, frame_time: u64) -> (step: i64)
    requires
        rip_in_range(distance as int, 0),
    ensures
        step == spec_rip(distance as int, 0, speed as int, frame_time as int),
        distance >= 0 ==> 0 <= step <= distance,
        distance <= 0 ==> distance <= step <= 0,
        spec_curve_advance(speed as int, frame_time as int) == 0 ==> step == 0,
{
    rip(distance, 0, speed, frame_time)
}

/// Follows the rotation of the head and smooths its position.
pub struct HeadTracker {
    mode: TrackingMode,
    has_previous: bool,
    pending_reset: bool,
    cached_frame: Option<u64>,
    stabilizer: CameraStabilizer,
}

impl View for HeadTracker {
    type V = TrackerState;

    closed spec fn view(&self) -> TrackerState {
        TrackerState {
            mode: self.mode,
            has_previous: self.has_previous,
            pending_reset: self.pending_reset,
            cached_frame: self.cached_frame,
            stabilizer: self.stabilizer@,
        }
    }
}

/// What is to be done for a frame.
#[derive(Clone, Copy, Debug, PartialEq, Eq, Structural)]
pub enum FrameStep {
    /// The frame was worked on before: its cached result stands.
    Cached,
    /// The frame follows the last one: tracking goes on.
    Continue,
    /// Frames were skipped: tracking starts again from the neutral rotation.
    Restart,
}

impl HeadTracker {
    /// A tracker that has seen no frame, with a stabilizer window of `samples` frames.
    pub fn new(samples: u32) -> (tracker: HeadTracker)
        ensures
            tracker@ == (TrackerState {
                mode: TrackingMode::Off,
                has_previous: false,
                pending_reset: false,
                cached_frame: None,
                stabilizer: StabilizerState {
                    frame: 0,
                    samples: samples as nat,
                    points: Seq::empty(),
                },
            }),
    {
        HeadTracker {
            mode: TrackingMode::Off,
            has_previous: false,
            pending_reset: false,
            cached_frame: None,
            stabilizer: CameraStabilizer::new(samples),
        }
    }

    /// The mode of the last planned frame.
    pub fn mode(&self) -> (mode: TrackingMode)
        ensures
            mode == self@.mode,
    {
        self.mode
    }

    /// Sets the stabilizer's window to `window` microseconds of frames that last
    /// `frame_time` microseconds each.
    pub fn set_stabilizer_window(&mut self, window: i64, frame_time: u64)
        ensures
            final(self)@ == (TrackerState {
                stabilizer: StabilizerState {
                    samples: spec_sample_count(window, frame_time) as nat,
                    points: truncated(
                        old(self)@.stabilizer.points,
                        spec_sample_count(window, frame_time) as nat,
                    ),
                    ..old(self)@.stabilizer
                },
                ..old(self)@
            }),
    {
        self.stabilizer.set_sample_count(sample_count(window, frame_time));
    }

    /// Begins the work on `frame` and says what it takes.
    pub fn begin_frame(&mut self, frame: u64) -> (step: FrameStep)
        ensures
            final(self)@ == old(self)@.begun(frame),
            step == (if old(self)@.cached_frame == Some(frame) {
                FrameStep::Cached
            } else if old(self)@.continues(frame) {
                FrameStep::Continue
            } else {
                FrameStep::Restart
            }),
    {
        let step = match self.cached_frame {
            Some(cached) => {
                if cached == frame {
                    FrameStep::Cached
                } else if frame > 0 && cached == frame - 1 {
                    FrameStep::Continue
                } else {
                    FrameStep::Restart
                }
            },
            None => FrameStep::Continue,
        };
        match step {
            FrameStep::Cached => {},
            FrameStep::Continue => {
                self.cached_frame = Some(frame);
            },
            FrameStep::Restart => {
                self.reset();
                self.cached_frame = Some(frame);
            },
        }
        step
    }

    /// Takes the head position `local_head_pos` of `frame`, given in the character's own
    /// space, and returns its average over the window.
    pub fn stabilize_head(&mut self, frame: u64, local_head_pos: Point3) -> (stabilized: Point3)
        ensures
            final(self)@ == (TrackerState {
                stabilizer: old(self)@.stabilizer.advance(frame as nat, local_head_pos),
                ..old(self)@
            }),
            stabilized == mean_of(final(self)@.stabilizer.points, local_head_pos),
    {
        self.stabilizer.next(frame, local_head_pos)
    }

    /// Plans the tracking of one frame of `frame_time` microseconds in `mode`.
    pub fn track_head_rotation(
        &mut self,
        mode: TrackingMode,
        frame_time: u64,
    ) -> (plan: RotationPlan)
        ensures
            plan == old(self)@.plan(mode, frame_time),
            final(self)@ == old(self)@.after_frame(mode),
    {
        let args = mode.rotation_args();
        let reset = mode != self.mode || self.pending_reset;
        if reset {
            self.mode = mode;
            self.has_previous = false;
            self.pending_reset = false;
        }
        let target = if self.has_previous && args.track {
            TargetUpdate::Accumulate
        } else {
            TargetUpdate::Relax(relax_share(frame_time))
        };
        self.has_previous = true;
        RotationPlan {
            reset,
            player_local: args.player_local,
            target,
            speed: args.speed,
            center_bias_until: args.center_bias_until,
        }
    }

    /// Forgets the window of the stabilizer and the last sample of the head's rotation, and
    /// has the next frame start from the neutral rotation.
    pub fn reset(&mut self)
        ensures
            final(self)@ == old(self)@.after_reset(),
    {
        self.stabilizer.reset();
        self.has_previous = false;
        self.pending_reset = true;
    }
}

/// A change of mode sets the target back to neutral and adds nothing to it in that frame,
/// however far the head has turned since the last one.
pub proof fn lemma_mode_change_resets_target(
    state: TrackerState,
    mode: TrackingMode,
    frame_time: u64,
)
    requires
        mode != state.mode,
    ensures
        state.plan(mode, frame_time).reset,
        state.plan(mode, frame_time).target == TargetUpdate::Relax(spec_relax_share(frame_time)),
{
}

impl TrackerState {
    /// The state after `frames` further frames that were all planned in `mode`.
    pub open spec fn after_frames(self, mode: TrackingMode, frames: nat) -> TrackerState
        decreases frames,
    {
        if frames == 0 {
            self
        } else {
            self.after_frames(mode, (frames - 1) as nat).after_frame(mode)
        }
    }
}

/// However long tracking stays off, the target never accumulates: after any number of
/// untracked frames the next one moves the target toward neutral by the fixed share of
/// the way, and from the second frame on nothing resets it. The share is more than
/// nothing as soon as the frame takes any time.
pub proof fn lemma_untracked_frames_relax(state: TrackerState, frame_time: u64, frames: nat)
    ensures
        state.after_frames(TrackingMode::Off, frames).plan(TrackingMode::Off, frame_time).target
            == TargetUpdate::Relax(spec_relax_share(frame_time)),
        frames > 0 ==> !state.after_frames(TrackingMode::Off, frames).plan(
            TrackingMode::Off,
            frame_time,
        ).reset,
        frame_time > 0 ==> spec_relax_share(frame_time) > 0,
    decreases frames,
{
    if frames > 0 {
        lemma_untracked_frames_relax(state, frame_time, (frames - 1) as nat);
    }
}

/// While tracking is off the target never accumulates: in every frame it moves toward
/// neutral.
pub proof fn lemma_untracked_target_relaxes(state: TrackerState, frame_time: u64)
    ensures
        state.plan(TrackingMode::Off, frame_time).target == TargetUpdate::Relax(
            spec_relax_share(frame_time),
        ),
        state.after_frame(TrackingMode::Off).plan(TrackingMode::Off, frame_time).target
            == TargetUpdate::Relax(spec_relax_share(frame_time)),
        !state.after_frame(TrackingMode::Off).plan(TrackingMode::Off, frame_time).reset,
{
}

} // verus!
