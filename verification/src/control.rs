//! The camera controller: the perspective state, the settings, and what is known of the
//! world while the character and the cameras can be found.

use crate::behavior::{BehaviorHistory, BehaviorState, BehaviorStateSet, BehaviorStates};
use crate::camera::{CameraState, Command, FollowCam, FovSelection, FrameSample};
use crate::config::Config;
use crate::head_tracker::{
    spec_sample_count, FrameStep, HeadTracker, RotationPlan, TrackerState, TrackingMode,
};
use crate::lock_on::{self, spec_last_match, spec_locked, spec_selected, LockOn, LockOnCandidate};
use crate::stabilizer::{mean_of, truncated, Point3, StabilizerState};
use vstd::prelude::*;

verus! {

/// The flag of a behavior-graph node that marks it as inactive.
pub const NODE_INACTIVE: u8 = 1;

/// The share of the stabilizer factor by which the average may pull the head position.
pub const BLEND_DIVISOR: i64 = 10;

/// The largest distance by which the average may pull the head position at the stabilizer
/// factor `factor`: a tenth of the factor.
pub open spec fn spec_max_blend(factor: i64) -> i64 {
    if factor > 0 {
        (factor / BLEND_DIVISOR) as i64
    } else {
        0
    }
}

/// Computes the largest distance by which the average may pull the head position.
pub fn max_blend(factor: i64) -> (distance: i64)
    ensures
        distance == spec_max_blend(factor),
{
    if factor > 0 {
        factor / BLEND_DIVISOR
    } else {
        0
    }
}

/// A leaf node of the character's behavior graph.
pub struct BehaviorNode {
    /// The flags of the node.
    pub flags: u8,
    /// The name of the node, if it has one that is valid text.
    pub name: Option<String>,
}

impl BehaviorNode {
    /// The behavior state that the node stands for, if it is active and has a known name.
    pub open spec fn spec_state(self) -> Option<BehaviorState> {
        if self.flags & NODE_INACTIVE != 0 {
            None
        } else {
            match self.name {
                Some(name) => BehaviorState::spec_from_state_name(name@),
                None => None,
            }
        }
    }

    /// The behavior state that the node stands for, if it is active and has a known name.
    pub fn state(&self) -> (state: Option<BehaviorState>)
        ensures
            state == self.spec_state(),
    {
        if self.flags & NODE_INACTIVE != 0 {
            return None;
        }
        match &self.name {
            Some(name) => BehaviorState::try_from_state_name(name.as_str()),
            None => None,
        }
    }
}

/// The behavior states that the nodes of a behavior graph stand for.
pub open spec fn spec_active_states(nodes: Seq<BehaviorNode>) -> Set<BehaviorState>
    decreases nodes.len(),
{
    if nodes.len() == 0 {
        Set::empty()
    } else {
        let rest = spec_active_states(nodes.drop_last());
        match nodes.last().spec_state() {
            Some(state) => rest.insert(state),
            None => rest,
        }
    }
}

/// A state is among the active ones exactly if some node stands for it.
pub proof fn lemma_active_states(nodes: Seq<BehaviorNode>, state: BehaviorState)
    ensures
        spec_active_states(nodes).contains(state) <==> exists|i: int|
            0 <= i < nodes.len() && #[trigger] nodes[i].spec_state() == Some(state),
    decreases nodes.len(),
{
    if nodes.len() > 0 {
        let rest = nodes.drop_last();
        lemma_active_states(rest, state);
        if spec_active_states(nodes).contains(state) {
            if nodes.last().spec_state() == Some(state) {
                assert(nodes[nodes.len() - 1].spec_state() == Some(state));
            } else {
                let i = choose|i: int|
                    0 <= i < rest.len() && #[trigger] rest[i].spec_state() == Some(state);
                assert(nodes[i].spec_state() == Some(state));
            }
        }
        if exists|i: int| 0 <= i < nodes.len() && #[trigger] nodes[i].spec_state() == Some(state) {
            let i = choose|i: int|
                0 <= i < nodes.len() && #[trigger] nodes[i].spec_state() == Some(state);
            if i < rest.len() {
                assert(rest[i].spec_state() == Some(state));
            }
        }
    }
}

/// What the controller remembers of earlier frames while the world stays in reach.
pub struct PersistentCameraContext {
    /// The number of the current frame.
    pub frame: u64,
    /// The tracker of the head.
    pub head_tracker: HeadTracker,
    /// The behavior states of the latest frames.
    pub behavior_states: BehaviorStates,
}

/// What a persistent context knows.
pub struct ContextState {
    pub frame: u64,
    pub head_tracker: TrackerState,
    pub behavior_states: BehaviorHistory,
}

impl View for PersistentCameraContext {
    type V = ContextState;

    open spec fn view(&self) -> ContextState {
        ContextState {
            frame: self.frame,
            head_tracker: self.head_tracker@,
            behavior_states: self.behavior_states@,
        }
    }
}

/// What is done to place the camera in one frame.
#[derive(Clone, Copy, Debug, PartialEq, Eq, Structural)]
pub struct PosePlan {
    /// The average of the head position over the stabilizer's window, in the character's
    /// own space, if the stabilizer is on.
    pub stabilized: Option<Point3>,
    /// The largest distance by which the head position may be moved toward the average.
    pub max_blend: i64,
    /// How the tracked rotation is brought up to date.
    pub rotation: RotationPlan,
}

/// What it takes to place the camera.
#[derive(Clone, Copy, Debug, PartialEq, Eq, Structural)]
pub enum PoseStep {
    /// The camera was placed in this frame before: the cached pose stands.
    Cached,
    /// The pose is computed by this plan.
    Compute(PosePlan),
}

impl ContextState {
    /// The context of a new session, with a stabilizer window of `samples` frames.
    pub open spec fn spec_new(samples: u32) -> ContextState {
        ContextState {
            frame: 0,
            head_tracker: TrackerState {
                mode: TrackingMode::Off,
                has_previous: false,
                pending_reset: false,
                cached_frame: None,
                stabilizer: StabilizerState {
                    frame: 0,
                    samples: samples as nat,
                    points: Seq::empty(),
                },
            },
            behavior_states: BehaviorHistory::empty(),
        }
    }

    /// The number of the frame after this one.
    pub open spec fn spec_next_frame_number(self) -> u64 {
        if self.frame == u64::MAX {
            0
        } else {
            (self.frame + 1) as u64
        }
    }

    /// The context after a new frame began, with frames of `tpf` microseconds.
    pub open spec fn spec_next_frame(self, config: Config, tpf: u64) -> ContextState {
        let samples = spec_sample_count(config.stabilizer_window, tpf);
        ContextState {
            frame: self.spec_next_frame_number(),
            head_tracker: TrackerState {
                stabilizer: StabilizerState {
                    samples: samples as nat,
                    points: truncated(self.head_tracker.stabilizer.points, samples as nat),
                    ..self.head_tracker.stabilizer
                },
                ..self.head_tracker
            },
            ..self
        }
    }

    /// The tracker after the frame began in it.
    pub open spec fn spec_begun(self) -> TrackerState {
        self.head_tracker.begun(self.frame)
    }

    /// The tracking mode of the current frame.
    pub open spec fn spec_mode(self, config: Config, in_throw: bool) -> TrackingMode {
        TrackingMode::spec_select(config, in_throw, self.behavior_states)
    }

    /// The tracker after the head position `local_head_pos` was sampled, where the
    /// stabilizer is on.
    pub open spec fn spec_sampled(self, config: Config, local_head_pos: Point3) -> TrackerState {
        let begun = self.spec_begun();
        if config.use_stabilizer {
            TrackerState {
                stabilizer: begun.stabilizer.advance(self.frame as nat, local_head_pos),
                ..begun
            }
        } else {
            begun
        }
    }

    /// What it takes to place the camera for the head position `local_head_pos`.
    pub open spec fn spec_pose_step(
        self,
        config: Config,
        tpf: u64,
        in_throw: bool,
        local_head_pos: Point3,
    ) -> PoseStep {
        if self.head_tracker.cached_frame == Some(self.frame) {
            PoseStep::Cached
        } else {
            let sampled = self.spec_sampled(config, local_head_pos);
            PoseStep::Compute(
                PosePlan {
                    stabilized: if config.use_stabilizer {
                        Some(mean_of(sampled.stabilizer.points, local_head_pos))
                    } else {
                        None
                    },
                    max_blend: spec_max_blend(config.stabilizer_factor),
                    rotation: sampled.plan(self.spec_mode(config, in_throw), tpf),
                },
            )
        }
    }

    /// The context after the camera was placed.
    pub open spec fn spec_posed(
        self,
        config: Config,
        in_throw: bool,
        local_head_pos: Point3,
    ) -> ContextState {
        if self.head_tracker.cached_frame == Some(self.frame) {
            self
        } else {
            ContextState {
                head_tracker: self.spec_sampled(config, local_head_pos).after_frame(
                    self.spec_mode(config, in_throw),
                ),
                ..self
            }
        }
    }
}

impl PersistentCameraContext {
    /// The context of a new session, with a stabilizer window of `samples` frames.
    pub fn new(samples: u32) -> (context: PersistentCameraContext)
        ensures
            context@ == ContextState::spec_new(samples),
    {
        PersistentCameraContext {
            frame: 0,
            head_tracker: HeadTracker::new(samples),
            behavior_states: BehaviorStates::new(),
        }
    }

    /// Begins a new frame: the frame number goes up by one, and the stabilizer's window
    /// is fitted to the frame time `tpf`.
    pub fn next_frame(&mut self, config: &Config, tpf: u64)
        ensures
            final(self)@ == old(self)@.spec_next_frame(*config, tpf),
    {
        self.frame = if self.frame == u64::MAX {
            0
        } else {
            self.frame + 1
        };
        self.head_tracker.set_stabilizer_window(config.stabilizer_window, tpf);
    }

    /// Takes the behavior states of a frame from the leaf nodes of the character's
    /// behavior graph. Inactive nodes and nodes without a known name count for nothing.
    pub fn update_behavior_states(&mut self, nodes: &Vec<BehaviorNode>)
        ensures
            final(self)@ == (ContextState {
                behavior_states: old(self)@.behavior_states.push(spec_active_states(nodes@)),
                ..old(self)@
            }),
    {
        let mut behavior_set = BehaviorStateSet::new();
        let mut i: usize = 0;
        while i < nodes.len()
            invariant
                i <= nodes@.len(),
                behavior_set@ == spec_active_states(nodes@.take(i as int)),
            decreases nodes@.len() - i,
        {
            proof {
                assert(nodes@.take(i + 1).drop_last() =~= nodes@.take(i as int));
                assert(nodes@.take(i + 1).last() == nodes@[i as int]);
            }
            match nodes[i].state() {
                Some(state) => {
                    behavior_set.set_state(state);
                },
                None => {},
            }
            i += 1;
        }
        assert(nodes@.take(nodes@.len() as int) =~= nodes@);
        self.behavior_states.push_state_set(behavior_set);
    }

    /// Records that `state` was seen in the current frame.
    pub fn push_state(&mut self, state: BehaviorState)
        ensures
            final(self)@ == (ContextState {
                behavior_states: old(self)@.behavior_states.mark(state),
                ..old(self)@
            }),
    {
        self.behavior_states.push_state(state);
    }

    /// Whether `state` was seen in the current frame or the one before.
    pub fn has_state(&self, state: BehaviorState) -> (active: bool)
        ensures
            active == self@.behavior_states.is_active(state),
    {
        self.behavior_states.has_state(state)
    }

    /// Plans the placing of the camera for the head position `local_head_pos`, given in
    /// the character's own space. Within one frame only the first call plans anything.
    pub fn camera_position(
        &mut self,
        config: &Config,
        tpf: u64,
        in_throw: bool,
        local_head_pos: Point3,
    ) -> (step: PoseStep)
        ensures
            step == old(self)@.spec_pose_step(*config, tpf, in_throw, local_head_pos),
            final(self)@ == old(self)@.spec_posed(*config, in_throw, local_head_pos),
    {
        let frame = self.frame;
        match self.head_tracker.begin_frame(frame) {
            FrameStep::Cached => {
                return PoseStep::Cached;
            },
            _ => {},
        }
        let stabilized = if config.use_stabilizer {
            Some(self.head_tracker.stabilize_head(frame, local_head_pos))
        } else {
            None
        };
        let mode = TrackingMode::select(config, in_throw, &self.behavior_states);
        let rotation = self.head_tracker.track_head_rotation(mode, tpf);
        PoseStep::Compute(
            PosePlan { stabilized, max_blend: max_blend(config.stabilizer_factor), rotation },
        )
    }
}

/// What the host shows of the world in one frame.
pub struct WorldSnapshot {
    /// The lock-on flags.
    pub lock_tgt: LockOn,
    /// The list of lock-on candidates.
    pub candidates: Vec<LockOnCandidate>,
    /// The follow camera.
    pub follow_cam: FollowCam,
    /// What was sampled of the character and the inputs.
    pub sample: FrameSample,
}

/// The world of one frame together with what is remembered of earlier frames.
pub struct CameraContext {
    /// The lock-on flags.
    pub lock_tgt: LockOn,
    /// The list of lock-on candidates.
    pub candidates: Vec<LockOnCandidate>,
    /// The follow camera.
    pub follow_cam: FollowCam,
    /// What was sampled of the character and the inputs.
    pub sample: FrameSample,
    /// What is remembered of earlier frames.
    pub persistent_context: PersistentCameraContext,
}

/// The movement that the host lets the character make.
#[derive(Clone, Copy, Debug, PartialEq, Eq, Structural)]
pub enum MovementLimit {
    NoLimit,
    LimitToDash,
    Other,
}

/// The least alignment of movement and facing at which the character may sprint, in
/// millionths: the cosine of a third of half a turn.
pub const SPRINT_ALIGNMENT: i64 = 500_000;

impl CameraContext {
    /// What the host is told after the camera step of a frame.
    pub open spec fn spec_chr_cam_commands(
        self,
        state: CameraState,
        config: Config,
    ) -> Seq<Command> {
        let sample = self.sample;
        let first_person = state.spec_first_person(sample.in_cutscene);
        let crosshair = seq![
            CameraState::spec_crosshair(
                config,
                first_person && (!self.lock_tgt.is_locked_on || config.soft_lock_on)
                    && !sample.precision_aim,
                sample.hud_enabled,
            ),
        ];
        if !first_person {
            crosshair
        } else {
            crosshair + seq![Command::SetFaceVisibility(false), Command::SetWeaponVisibility(false)]
                + (if config.unobtrusive_dodges {
                seq![
                    Command::SetTransparency(
                        self.persistent_context@.behavior_states.is_active(BehaviorState::Evasion),
                    ),
                ]
            } else {
                Seq::empty()
            }) + (if config.restricted_sprint {
                seq![Command::RestrictSprint]
            } else {
                Seq::empty()
            }) + (if config.soft_lock_on {
                seq![Command::SoftLockOn]
            } else {
                Seq::empty()
            }) + seq![
                Command::SetCameraTransform,
                Command::SetFov(
                    CameraState::spec_fov(config, sample.precision_aim, sample.aim_cam_fov),
                ),
            ]
        }
    }

    /// What the host is told in the cutscene-camera step of a frame.
    pub open spec fn spec_cs_cam_commands(
        self,
        state: CameraState,
        config: Config,
    ) -> Seq<Command> {
        let sample = self.sample;
        if !state.spec_first_person(sample.in_cutscene) {
            Seq::empty()
        } else {
            (if config.soft_lock_on || !self.lock_tgt.is_locked_on {
                seq![Command::AimAhead]
            } else {
                Seq::empty()
            }) + seq![
                Command::SetCameraPosition,
                Command::SetFov(
                    CameraState::spec_fov(config, sample.precision_aim, sample.aim_cam_fov),
                ),
            ]
        }
    }

    /// Whether the character counts as sprinting: with restricted sprint it must be
    /// sprinting indeed, otherwise it is enough that the player asks for it.
    pub open spec fn spec_is_player_sprinting(self, config: Config) -> bool {
        if config.restricted_sprint {
            self.sample.sprinting
        } else {
            self.sample.sprint_requested
        }
    }

    /// Whether the character is kept facing the way the camera looks, as it is while a
    /// target is locked.
    pub open spec fn spec_holds_lock_on(self, state: CameraState, config: Config) -> bool {
        &&& state.spec_first_person(self.sample.in_cutscene)
        &&& !state.spec_can_transition()
        &&& !self.spec_is_player_sprinting(config)
        &&& !self.sample.riding
        &&& !self.sample.action_requested
        &&& !self.sample.in_throw
        &&& !self.persistent_context@.behavior_states.is_active(BehaviorState::Gesture)
        &&& !self.sample.disguised
    }

    /// Runs one step of the perspective state machine on the world of this frame. The
    /// time for which the interact input has been held is brought up to date; a pending
    /// change of perspective takes place unless lock-on has priority and a target is
    /// locked; and a new change is asked for when a lock-on press comes in after the
    /// interact input was held for long enough. Returns what the host is to do, in order.
    pub fn try_transition(
        &mut self,
        state: &mut CameraState,
        config: &Config,
    ) -> (commands: Vec<Command>)
        ensures
            ({
                let after = old(state).spec_try_transition(
                    *config,
                    old(self).sample,
                    old(self).lock_tgt,
                    old(self).follow_cam,
                );
                &&& *final(state) == after.state
                &&& final(self).lock_tgt == after.lock
                &&& final(self).follow_cam == after.follow_cam
                &&& commands@ == after.commands
            }),
            final(self).candidates == old(self).candidates,
            final(self).sample == old(self).sample,
            final(self).persistent_context == old(self).persistent_context,
            final(state).first_person != old(state).first_person <==> old(state).spec_fires(
                *config,
                old(self).lock_tgt,
            ),
            config.prioritize_lock_on && old(self).lock_tgt.is_locked_on ==> final(
                state
            ).first_person == old(state).first_person && commands@.len() <= 1,
            !old(self).sample.use_pressed ==> final(state).trans_time == 0
                && !final(state).should_transition,
            old(self).sample.use_pressed ==> final(state).trans_time >= old(state).trans_time,
    {
        let sample = self.sample;
        let mut lock = self.lock_tgt;
        let mut follow_cam = self.follow_cam;
        let commands = state.run_transition(config, &sample, &mut lock, &mut follow_cam);
        self.lock_tgt = lock;
        self.follow_cam = follow_cam;
        commands
    }

    /// Runs one step of the perspective state machine if the host can tell whether the
    /// interact input is held. Where it cannot, the step is skipped and nothing changes:
    /// the perspective, the hold time and a pending change all stay for the next frame.
    /// Where it can, the sample takes the input as told and the step runs as
    /// `try_transition` does.
    pub fn try_transition_if(
        &mut self,
        state: &mut CameraState,
        config: &Config,
        use_pressed: Option<bool>,
    ) -> (commands: Vec<Command>)
        ensures
            final(self).candidates == old(self).candidates,
            final(self).persistent_context == old(self).persistent_context,
            match use_pressed {
                None => {
                    &&& *final(state) == *old(state)
                    &&& final(self).lock_tgt == old(self).lock_tgt
                    &&& final(self).follow_cam == old(self).follow_cam
                    &&& final(self).sample == old(self).sample
                    &&& commands@ == Seq::<Command>::empty()
                },
                Some(held) => {
                    let sample = FrameSample { use_pressed: held, ..old(self).sample };
                    let after = old(state).spec_try_transition(
                        *config,
                        sample,
                        old(self).lock_tgt,
                        old(self).follow_cam,
                    );
                    &&& *final(state) == after.state
                    &&& final(self).lock_tgt == after.lock
                    &&& final(self).follow_cam == after.follow_cam
                    &&& final(self).sample == sample
                    &&& commands@ == after.commands
                },
            },
    {
        match use_pressed {
            None => Vec::new(),
            Some(held) => {
                self.sample.use_pressed = held;
                self.try_transition(state, config)
            },
        }
    }

    /// Plans the placing of the camera for the head position `local_head_pos`, given in
    /// the character's own space.
    pub fn camera_position(
        &mut self,
        state: &CameraState,
        config: &Config,
        local_head_pos: Point3,
    ) -> (step: PoseStep)
        ensures
            step == old(self).persistent_context@.spec_pose_step(
                *config,
                state.tpf,
                old(self).sample.in_throw,
                local_head_pos,
            ),
            final(self).persistent_context@ == old(self).persistent_context@.spec_posed(
                *config,
                old(self).sample.in_throw,
                local_head_pos,
            ),
            final(self).lock_tgt == old(self).lock_tgt,
            final(self).candidates == old(self).candidates,
            final(self).follow_cam == old(self).follow_cam,
            final(self).sample == old(self).sample,
    {
        self.persistent_context.camera_position(
            config,
            state.tpf,
            self.sample.in_throw,
            local_head_pos,
        )
    }

    /// The cutscene-camera step of a frame: in first person the cameras are moved to the
    /// head, and the aim point is put ahead of the camera unless a target is locked
    /// without soft lock-on.
    pub fn update_cs_cam(&self, state: &CameraState, config: &Config) -> (commands: Vec<Command>)
        ensures
            commands@ == self.spec_cs_cam_commands(*state, *config),
    {
        let mut commands: Vec<Command> = Vec::new();
        if !state.first_person(self.sample.in_cutscene) {
            return commands;
        }
        if config.soft_lock_on || !self.lock_tgt.is_locked_on {
            commands.push(Command::AimAhead);
        }
        commands.push(Command::SetCameraPosition);
        commands.push(Command::SetFov(self.fov(config)));
        assert(commands@ =~= self.spec_cs_cam_commands(*state, *config));
        commands
    }

    /// The camera step of a frame: the crosshair is chosen, and in first person the
    /// character's head and sheathed weapons are hidden, a dodging character is made
    /// see-through where the settings ask for it, and the cameras are placed.
    pub fn update_chr_cam(&self, state: &CameraState, config: &Config) -> (commands: Vec<Command>)
        ensures
            commands@ == self.spec_chr_cam_commands(*state, *config),
    {
        let first_person = state.first_person(self.sample.in_cutscene);
        let mut commands: Vec<Command> = Vec::new();
        commands.push(
            CameraState::set_crosshair_if(
                config,
                first_person && (!self.lock_tgt.is_locked_on || config.soft_lock_on)
                    && !self.sample.precision_aim,
                self.sample.hud_enabled,
            ),
        );
        if !first_person {
            assert(commands@ =~= self.spec_chr_cam_commands(*state, *config));
            return commands;
        }
        commands.push(Command::SetFaceVisibility(false));
        commands.push(Command::SetWeaponVisibility(false));
        if config.unobtrusive_dodges {
            let is_dodging = self.has_state(BehaviorState::Evasion);
            commands.push(Command::SetTransparency(is_dodging));
        }
        if config.restricted_sprint {
            commands.push(Command::RestrictSprint);
        }
        if config.soft_lock_on {
            commands.push(Command::SoftLockOn);
        }
        commands.push(Command::SetCameraTransform);
        commands.push(Command::SetFov(self.fov(config)));
        assert(commands@ =~= self.spec_chr_cam_commands(*state, *config));
        commands
    }

    /// Selects the field of view of the cameras.
    pub fn fov(&self, config: &Config) -> (fov: FovSelection)
        ensures
            fov == CameraState::spec_fov(
                *config,
                self.sample.precision_aim,
                self.sample.aim_cam_fov,
            ),
    {
        CameraState::fov(config, self.sample.precision_aim, self.sample.aim_cam_fov)
    }

    /// Whether the character counts as sprinting.
    pub fn is_player_sprinting(&self, config: &Config) -> (sprinting: bool)
        ensures
            sprinting == self.spec_is_player_sprinting(*config),
    {
        if config.restricted_sprint {
            self.sample.sprinting
        } else {
            self.sample.sprint_requested
        }
    }

    /// Decides what the character may do when its movement is aligned with its facing by
    /// `alignment`, the cosine of the angle between the two in millionths: below a half,
    /// a character that is free to sprint is held to a dash.
    pub fn restrict_sprint(alignment: i64, limit: MovementLimit) -> (restricted: MovementLimit)
        ensures
            restricted == (if alignment < SPRINT_ALIGNMENT && limit == MovementLimit::NoLimit {
                MovementLimit::LimitToDash
            } else {
                limit
            }),
    {
        if alignment < SPRINT_ALIGNMENT {
            match limit {
                MovementLimit::NoLimit => MovementLimit::LimitToDash,
                other => other,
            }
        } else {
            limit
        }
    }

    /// Selects the character `chr_handle` among the lock-on candidates, if it is one of
    /// them, and returns its position in the list.
    pub fn lock_on_to(&mut self, chr_handle: u64) -> (target: Option<usize>)
        ensures
            final(self).candidates@ == spec_selected(old(self).candidates@, chr_handle),
            final(self).lock_tgt == spec_locked(old(self).lock_tgt, target is Some),
            match target {
                Some(at) => spec_last_match(old(self).candidates@, chr_handle) == Some(at as int),
                None => spec_last_match(old(self).candidates@, chr_handle) is None,
            },
            final(self).follow_cam == old(self).follow_cam,
            final(self).sample == old(self).sample,
            final(self).persistent_context == old(self).persistent_context,
    {
        lock_on::lock_on_to(&mut self.lock_tgt, &mut self.candidates, chr_handle)
    }

    /// Records that `state` was seen in the current frame.
    pub fn push_state(&mut self, state: BehaviorState)
        ensures
            final(self).persistent_context@ == (ContextState {
                behavior_states: old(self).persistent_context@.behavior_states.mark(state),
                ..old(self).persistent_context@
            }),
            final(self).lock_tgt == old(self).lock_tgt,
            final(self).candidates == old(self).candidates,
            final(self).follow_cam == old(self).follow_cam,
            final(self).sample == old(self).sample,
    {
        self.persistent_context.push_state(state);
    }

    /// Whether `state` was seen in the current frame or the one before.
    pub fn has_state(&self, state: BehaviorState) -> (active: bool)
        ensures
            active == self.persistent_context@.behavior_states.is_active(state),
    {
        self.persistent_context.has_state(state)
    }

    /// Whether the character is kept facing the way the camera looks: in first person it
    /// is, unless the perspective is about to change or the character sprints, rides,
    /// acts, is in a throw, gestures or is disguised.
    pub fn holds_lock_on(&self, state: &CameraState, config: &Config) -> (held: bool)
        ensures
            held == self.spec_holds_lock_on(*state, *config),
    {
        state.first_person(self.sample.in_cutscene) && !state.can_transition()
            && !self.is_player_sprinting(config) && !self.sample.riding
            && !self.sample.action_requested && !self.sample.in_throw && !self.has_state(
            BehaviorState::Gesture,
        ) && !self.sample.disguised
    }
}

/// The controller of the camera rig.
pub struct CameraControl {
    /// The perspective state.
    pub state: CameraState,
    /// The world of the current frame, while the character and the cameras can be found.
    pub context: Option<CameraContext>,
    /// The active settings.
    pub config: Config,
}

impl CameraControl {
    /// A controller at the start of a session.
    pub fn new(config: Config) -> (control: CameraControl)
        ensures
            control.state == CameraState::spec_from_config(config),
            control.context is None,
            control.config == config,
    {
        CameraControl { state: CameraState::from_config(&config), context: None, config }
    }

    /// Takes new settings, if there are any, and the world of this frame, if the host
    /// can show it. New settings replace the old ones as a whole and leave the
    /// perspective state alone; the shader is told of them. Without a world there is no
    /// context, and what was remembered of earlier frames is lost; with one, what was
    /// remembered is kept, or started anew where nothing was.
    pub fn state_and_context(
        &mut self,
        reloaded: Option<Config>,
        world: Option<WorldSnapshot>,
    ) -> (command: Option<Command>)
        ensures
            final(self).state == old(self).state,
            final(self).config == (match reloaded {
                Some(config) => config,
                None => old(self).config,
            }),
            command == (match reloaded {
                Some(config) => Some(
                    old(self).state.spec_fov_correction(config, FovSelection::Fixed(config.fov)),
                ),
                None => None,
            }),
            world is None ==> final(self).context is None,
            world is Some ==> {
                &&& final(self).context is Some
                &&& final(self).context->0.lock_tgt == world->0.lock_tgt
                &&& final(self).context->0.candidates == world->0.candidates
                &&& final(self).context->0.follow_cam == world->0.follow_cam
                &&& final(self).context->0.sample == world->0.sample
                &&& final(self).context->0.persistent_context@ == (match old(self).context {
                    Some(context) => context.persistent_context@,
                    None => ContextState::spec_new(
                        spec_sample_count(
                            final(self).config.stabilizer_window,
                            old(self).state.tpf,
                        ),
                    ),
                })
            },
    {
        let command = match reloaded {
            Some(config) => {
                self.config = config;
                Some(self.state.update_fov_correction(&config, FovSelection::Fixed(config.fov)))
            },
            None => None,
        };
        let mut context: Option<CameraContext> = None;
        std::mem::swap(&mut self.context, &mut context);
        match world {
            Some(world) => {
                let persistent_context = match context {
                    Some(context) => context.persistent_context,
                    None => PersistentCameraContext::new(
                        crate::head_tracker::sample_count(
                            self.config.stabilizer_window,
                            self.state.tpf,
                        ),
                    ),
                };
                self.context = Some(
                    CameraContext {
                        lock_tgt: world.lock_tgt,
                        candidates: world.candidates,
                        follow_cam: world.follow_cam,
                        sample: world.sample,
                        persistent_context,
                    },
                );
            },
            None => {},
        }
        command
    }

    /// Begins a new frame, if there is a context to count it in, and tells the shader of
    /// the configured field of view.
    pub fn next_frame(&mut self) -> (command: Command)
        ensures
            final(self).state == old(self).state,
            final(self).config == old(self).config,
            command == old(self).state.spec_fov_correction(
                old(self).config,
                FovSelection::Fixed(old(self).config.fov),
            ),
            old(self).context is None ==> final(self).context is None,
            old(self).context is Some ==> {
                &&& final(self).context is Some
                &&& final(self).context->0.lock_tgt == old(self).context->0.lock_tgt
                &&& final(self).context->0.candidates == old(self).context->0.candidates
                &&& final(self).context->0.follow_cam == old(self).context->0.follow_cam
                &&& final(self).context->0.sample == old(self).context->0.sample
                &&& final(self).context->0.persistent_context@ == old(
                    self
                ).context->0.persistent_context@.spec_next_frame(
                    old(self).config,
                    old(self).state.tpf,
                )
            },
    {
        let mut context: Option<CameraContext> = None;
        std::mem::swap(&mut self.context, &mut context);
        match context {
            Some(context) => {
                let mut context = context;
                context.persistent_context.next_frame(&self.config, self.state.tpf);
                self.context = Some(context);
            },
            None => {},
        }
        self.state.update_fov_correction(&self.config, FovSelection::Fixed(self.config.fov))
    }
}

} // verus!
