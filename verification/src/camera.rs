//! The perspective state machine: when the camera changes between third and first
//! person, and what the host is told to do about it.
//!
//! Fractional values are fixed-point numbers that count millionths of their unit; times
//! are in microseconds and fields of view in millionths of a degree.

use crate::config::{Config, CrosshairKind};
use crate::lock_on::LockOn;
use vstd::prelude::*;

verus! {

/// How long the interact input must be held before a lock-on press toggles the
/// perspective, in microseconds.
pub const STATE_TRANS_TIME: u64 = 233_000;

/// The frame time that is assumed until the host reports one: a sixtieth of a second.
pub const DEFAULT_FRAME_TIME: u64 = 16_667;

/// The slowest rate at which the follow camera chases a locked target.
pub const MIN_LOCK_CHASE_RATE: i64 = 300_000;

/// The fastest rate at which the follow camera chases a locked target.
pub const MAX_LOCK_CHASE_RATE: i64 = 1_000_000;

/// How far a locked target may leave the center of the view in third person.
pub const THIRD_PERSON_LOCK_TARGET_OFFSET: i64 = 50_000;

/// The field of view that the camera is to take.
#[derive(Clone, Copy, Debug, PartialEq, Eq, Structural)]
pub enum FovSelection {
    /// This field of view, as it is.
    Fixed(i64),
    /// The field of view `base`, rescaled by the ratio between the half-widths of the
    /// aim camera's field of view `aim` and of the aim camera's usual one.
    Rescaled { base: i64, aim: i64 },
}

/// What the host is told to do.
#[derive(Clone, Copy, Debug, PartialEq, Eq, Structural)]
pub enum Command {
    /// Dither models close to the camera away, or stop doing so.
    SetDithering(bool),
    /// Let distant effects fade out, or stop doing so.
    SetVfxFade(bool),
    /// Draw this crosshair at this scale.
    SetCrosshair { kind: CrosshairKind, scale_x: i64, scale_y: i64 },
    /// Show or hide the character's head.
    SetFaceVisibility(bool),
    /// Show or hide the character's sheathed weapons.
    SetWeaponVisibility(bool),
    /// Make the character see-through, or solid again.
    SetTransparency(bool),
    /// Set up the field-of-view correction of the shader.
    SetFovCorrection {
        enabled: bool,
        strength: i64,
        cylindricity: i64,
        use_barrel: bool,
        fov: FovSelection,
    },
    /// Show the tutorial, unless it was shown before.
    ShowTutorial,
    /// Stop the character from sprinting where it does not move along the view.
    RestrictSprint,
    /// Look for a lock-on target along the view.
    SoftLockOn,
    /// Put the aim point ahead of the camera.
    AimAhead,
    /// Move the cameras to the head without turning them.
    SetCameraPosition,
    /// Move the cameras to the head and turn them along the view.
    SetCameraTransform,
    /// Set the field of view of the cameras.
    SetFov(FovSelection),
}

/// What the host samples once per frame for the state machine.
#[derive(Clone, Copy, Debug, PartialEq, Eq, Structural)]
pub struct FrameSample {
    /// Whether the interact input is held.
    pub use_pressed: bool,
    /// Whether the lock-on input was pressed.
    pub lock_on_pressed: bool,
    /// Whether the player has been asking to move for more than a moment.
    pub movement_requested: bool,
    /// Whether a cutscene is playing.
    pub in_cutscene: bool,
    /// Whether the heads-up display is shown.
    pub hud_enabled: bool,
    /// Whether the character aims a ranged weapon.
    pub precision_aim: bool,
    /// The field of view of the host's aim camera.
    pub aim_cam_fov: i64,
    /// Whether the character sprints.
    pub sprinting: bool,
    /// Whether the player asks to sprint.
    pub sprint_requested: bool,
    /// Whether the character rides.
    pub riding: bool,
    /// Whether an action of the character is pending.
    pub action_requested: bool,
    /// Whether the character walks up to a ladder.
    pub approaching_ladder: bool,
    /// Whether the character throws or is thrown.
    pub in_throw: bool,
    /// Whether the character is disguised as an object.
    pub disguised: bool,
}

/// The parts of the host's follow camera that the state machine reads and writes.
#[derive(Clone, Copy, Debug, PartialEq, Eq, Structural)]
pub struct FollowCam {
    /// Whether the camera moves away from walls by itself.
    pub wall_recovery: bool,
    /// Whether the camera turns behind the character by itself.
    pub camera_auto_rotation: bool,
    /// Lowest camera pitch.
    pub angle_limit_down: i64,
    /// Highest camera pitch.
    pub angle_limit_up: i64,
    /// Whether the camera's yaw is to be reset.
    pub reset_camera_x: bool,
    /// Whether the camera's pitch is to be reset.
    pub reset_camera_y: bool,
    /// The rate at which the camera chases a locked target.
    pub lock_chase_rate: i64,
    /// How far a locked target may leave the center of the view.
    pub max_lock_target_offset: i64,
}

/// The perspective and what decides its next change.
#[derive(Clone, Copy, Debug, PartialEq, Eq, Structural)]
pub struct CameraState {
    /// Whether the camera is in first person; otherwise it is in third person.
    pub first_person: bool,
    /// Whether a change of perspective is pending.
    pub should_transition: bool,
    /// The time per frame.
    pub tpf: u64,
    /// For how long the interact input has been held.
    pub trans_time: u64,
    /// The highest camera pitch of third person, kept while first person overrides it.
    pub saved_angle_limit: Option<i64>,
}

/// The outcome of one step of the state machine.
pub struct Transition {
    pub state: CameraState,
    pub lock: LockOn,
    pub follow_cam: FollowCam,
    pub commands: Seq<Command>,
}

impl CameraState {
    /// The state at the start of a session.
    pub open spec fn spec_from_config(config: Config) -> CameraState {
        CameraState {
            first_person: false,
            should_transition: config.start_in_first_person,
            tpf: DEFAULT_FRAME_TIME,
            trans_time: 0,
            saved_angle_limit: None,
        }
    }

    /// Whether the view is in first person: the perspective is, and no cutscene plays.
    pub open spec fn spec_first_person(self, in_cutscene: bool) -> bool {
        self.first_person && !in_cutscene
    }

    /// The state after the player asked for a change of perspective.
    pub open spec fn spec_notified(self) -> CameraState {
        CameraState { should_transition: true, ..self }
    }

    /// Whether the interact input has been held for long enough.
    pub open spec fn spec_can_transition(self) -> bool {
        self.trans_time > STATE_TRANS_TIME
    }

    /// The field of view to take: the configured one, unless the character aims. Then
    /// the aim camera's field of view is taken if it is not wider, and the configured
    /// one is rescaled by it if it is.
    pub open spec fn spec_fov(
        config: Config,
        precision_aim: bool,
        aim_cam_fov: i64,
    ) -> FovSelection {
        if !precision_aim {
            FovSelection::Fixed(config.fov)
        } else if aim_cam_fov <= config.fov {
            FovSelection::Fixed(aim_cam_fov)
        } else {
            FovSelection::Rescaled { base: config.fov, aim: aim_cam_fov }
        }
    }

    /// The command that sets the shader's correction up for the field of view `fov`.
    pub open spec fn spec_fov_correction(self, config: Config, fov: FovSelection) -> Command {
        Command::SetFovCorrection {
            enabled: self.first_person && config.use_fov_correction,
            strength: config.correction_strength,
            cylindricity: config.correction_cylindricity,
            use_barrel: config.use_barrel_correction,
            fov,
        }
    }

    /// The command that draws the configured crosshair if `cond` holds and the heads-up
    /// display is shown, and none otherwise.
    pub open spec fn spec_crosshair(config: Config, cond: bool, hud_enabled: bool) -> Command {
        Command::SetCrosshair {
            kind: if cond && hud_enabled {
                config.crosshair
            } else {
                CrosshairKind::Off
            },
            scale_x: config.crosshair_scale.0,
            scale_y: config.crosshair_scale.1,
        }
    }

    /// The time for which the interact input has been held after a frame.
    pub open spec fn spec_trans_time(self, use_pressed: bool) -> u64 {
        if !use_pressed {
            0
        } else if self.trans_time + self.tpf > u64::MAX {
            u64::MAX
        } else {
            (self.trans_time + self.tpf) as u64
        }
    }

    /// Whether the pending change of perspective takes place: it does unless lock-on has
    /// priority and a target is locked.
    pub open spec fn spec_fires(self, config: Config, lock: LockOn) -> bool {
        self.should_transition && (!config.prioritize_lock_on || !lock.is_locked_on)
    }

    /// Whether a change of perspective is asked for: the interact input has been held for
    /// long enough, a lock-on press has just come in, and it was not meant to lock on.
    pub open spec fn spec_requests(
        trans_time: u64,
        config: Config,
        sample: FrameSample,
        lock: LockOn,
    ) -> bool {
        trans_time > STATE_TRANS_TIME && (!lock.is_locked_on || !config.prioritize_lock_on)
            && lock.is_locked_on != lock.is_lock_on_requested && sample.lock_on_pressed
    }

    /// What the host is told when the perspective has changed, in order.
    pub open spec fn spec_switch_commands(
        self,
        config: Config,
        sample: FrameSample,
    ) -> Seq<Command> {
        let first_person = self.spec_first_person(sample.in_cutscene);
        let always = seq![
            self.spec_fov_correction(
                config,
                Self::spec_fov(config, sample.precision_aim, sample.aim_cam_fov),
            ),
            Command::SetDithering(!first_person),
            Command::SetVfxFade(!first_person),
            Self::spec_crosshair(config, first_person, sample.hud_enabled),
            Command::SetFaceVisibility(!first_person),
            Command::SetWeaponVisibility(!first_person),
        ];
        if first_person {
            always
        } else {
            always.push(Command::SetTransparency(false))
        }
    }

    /// One step of the state machine.
    pub open spec fn spec_try_transition(
        self,
        config: Config,
        sample: FrameSample,
        lock: LockOn,
        follow_cam: FollowCam,
    ) -> Transition {
        let trans_time = self.spec_trans_time(sample.use_pressed);
        let fires = self.spec_fires(config, lock);
        let switched = CameraState {
            first_person: if fires {
                !self.first_person
            } else {
                self.first_person
            },
            should_transition: false,
            trans_time,
            ..self
        };
        let first_person = switched.spec_first_person(sample.in_cutscene);
        let lock_switched = if !fires {
            lock
        } else if first_person {
            LockOn { is_lock_on_requested: false, ..lock }
        } else {
            LockOn { is_lock_on_requested: false, lock_camera: true, ..lock }
        };
        let follow_cam_switched = if !fires {
            follow_cam
        } else if first_person {
            FollowCam { max_lock_target_offset: 0, ..follow_cam }
        } else {
            FollowCam {
                lock_chase_rate: MIN_LOCK_CHASE_RATE,
                max_lock_target_offset: THIRD_PERSON_LOCK_TARGET_OFFSET,
                ..follow_cam
            }
        };
        let switch_commands = if fires {
            switched.spec_switch_commands(config, sample)
        } else {
            Seq::empty()
        };
        let commands = if first_person && sample.movement_requested && config.show_tutorial {
            switch_commands.push(Command::ShowTutorial)
        } else {
            switch_commands
        };
        let requests = Self::spec_requests(trans_time, config, sample, lock_switched);
        Transition {
            state: CameraState { should_transition: requests, ..switched },
            lock: if requests && !config.prioritize_lock_on {
                LockOn { is_lock_on_requested: false, ..lock_switched }
            } else {
                lock_switched
            },
            follow_cam: follow_cam_switched,
            commands,
        }
    }

    /// The rate at which the follow camera chases a locked target after a frame: it
    /// rises to the fastest rate while a target is locked and falls to the slowest rate
    /// while none is.
    pub open spec fn spec_lock_chase_rate(self, rate: i64, locked_on: bool) -> i64 {
        if locked_on && rate <= MAX_LOCK_CHASE_RATE {
            if rate + self.tpf > MAX_LOCK_CHASE_RATE {
                MAX_LOCK_CHASE_RATE
            } else {
                (rate + self.tpf) as i64
            }
        } else if rate > MIN_LOCK_CHASE_RATE {
            if rate - self.tpf < MIN_LOCK_CHASE_RATE {
                MIN_LOCK_CHASE_RATE
            } else {
                (rate - self.tpf) as i64
            }
        } else {
            rate
        }
    }

    /// The follow camera after it was prepared for a frame.
    pub open spec fn spec_follow_cam(
        self,
        config: Config,
        follow_cam: FollowCam,
        in_cutscene: bool,
        approaching_ladder: bool,
        locked_on: Option<bool>,
    ) -> FollowCam {
        if !self.spec_first_person(in_cutscene) {
            FollowCam {
                angle_limit_up: match self.saved_angle_limit {
                    Some(saved) => saved,
                    None => follow_cam.angle_limit_up,
                },
                ..follow_cam
            }
        } else {
            FollowCam {
                wall_recovery: false,
                camera_auto_rotation: false,
                angle_limit_down: config.angle_limit.0,
                angle_limit_up: config.angle_limit.1,
                reset_camera_x: follow_cam.reset_camera_x || approaching_ladder,
                reset_camera_y: follow_cam.reset_camera_y || approaching_ladder,
                lock_chase_rate: match locked_on {
                    Some(locked_on) => self.spec_lock_chase_rate(
                        follow_cam.lock_chase_rate,
                        locked_on,
                    ),
                    None => follow_cam.lock_chase_rate,
                },
                ..follow_cam
            }
        }
    }

    /// The highest camera pitch that is kept for third person after the follow camera
    /// was prepared for a frame.
    pub open spec fn spec_saved_angle_limit(
        self,
        config: Config,
        follow_cam: FollowCam,
        in_cutscene: bool,
    ) -> Option<i64> {
        if !self.spec_first_person(in_cutscene) {
            None
        } else if follow_cam.angle_limit_up != config.angle_limit.1 {
            Some(follow_cam.angle_limit_up)
        } else {
            self.saved_angle_limit
        }
    }

    /// The state at the start of a session: third person, with a change to first person
    /// pending if the settings ask to start there.
    pub fn from_config(config: &Config) -> (state: CameraState)
        ensures
            state == Self::spec_from_config(*config),
    {
        CameraState {
            first_person: false,
            should_transition: config.start_in_first_person,
            tpf: DEFAULT_FRAME_TIME,
            trans_time: 0,
            saved_angle_limit: None,
        }
    }

    /// Whether the view is in first person: the perspective is, and no cutscene plays.
    pub fn first_person(&self, in_cutscene: bool) -> (first_person: bool)
        ensures
            first_person == self.spec_first_person(in_cutscene),
    {
        self.first_person && !in_cutscene
    }

    /// Whether the perspective is first person, whatever is shown at the moment.
    pub fn is_first_person(&self) -> (first_person: bool)
        ensures
            first_person == self.first_person,
    {
        self.first_person
    }

    /// Takes the frame time that the host reports.
    pub fn update_tpf(&mut self, tpf: u64)
        ensures
            *final(self) == (CameraState { tpf, ..*old(self) }),
    {
        self.tpf = tpf;
    }

    /// Notes that the player asked for a change of perspective. It takes place in the
    /// next step of the state machine that lets it.
    pub fn notify_mode_toggle_requested(&mut self)
        ensures
            *final(self) == old(self).spec_notified(),
    {
        self.should_transition = true;
    }

    /// Whether the interact input has been held for long enough to change perspective.
    pub fn can_transition(&self) -> (ready: bool)
        ensures
            ready == self.spec_can_transition(),
    {
        self.trans_time > STATE_TRANS_TIME
    }

    /// Selects the field of view of the cameras.
    pub fn fov(config: &Config, precision_aim: bool, aim_cam_fov: i64) -> (fov: FovSelection)
        ensures
            fov == Self::spec_fov(*config, precision_aim, aim_cam_fov),
    {
        if !precision_aim {
            return FovSelection::Fixed(config.fov);
        }
        if aim_cam_fov <= config.fov {
            return FovSelection::Fixed(aim_cam_fov);
        }
        FovSelection::Rescaled { base: config.fov, aim: aim_cam_fov }
    }

    /// The command that sets the shader's correction up for the field of view `fov`.
    pub fn update_fov_correction(&self, config: &Config, fov: FovSelection) -> (command: Command)
        ensures
            command == self.spec_fov_correction(*config, fov),
    {
        Command::SetFovCorrection {
            enabled: self.first_person && config.use_fov_correction,
            strength: config.correction_strength,
            cylindricity: config.correction_cylindricity,
            use_barrel: config.use_barrel_correction,
            fov,
        }
    }

    /// The command that draws the configured crosshair if `cond` holds and the heads-up
    /// display is shown, and none otherwise.
    pub fn set_crosshair_if(config: &Config, cond: bool, hud_enabled: bool) -> (command: Command)
        ensures
            command == Self::spec_crosshair(*config, cond, hud_enabled),
    {
        let kind = if cond && hud_enabled {
            config.crosshair
        } else {
            CrosshairKind::Off
        };
        Command::SetCrosshair {
            kind,
            scale_x: config.crosshair_scale.0,
            scale_y: config.crosshair_scale.1,
        }
    }

    /// Runs one step of the state machine on the lock-on flags and the follow camera of
    /// the host, and returns what the host is to do, in order.
    pub(crate) fn run_transition(
        &mut self,
        config: &Config,
        sample: &FrameSample,
        lock: &mut LockOn,
        follow_cam: &mut FollowCam,
    ) -> (commands: Vec<Command>)
        ensures
            *final(self) == old(self).spec_try_transition(
                *config,
                *sample,
                *old(lock),
                *old(follow_cam),
            ).state,
            *final(lock) == old(self).spec_try_transition(
                *config,
                *sample,
                *old(lock),
                *old(follow_cam),
            ).lock,
            *final(follow_cam) == old(self).spec_try_transition(
                *config,
                *sample,
                *old(lock),
                *old(follow_cam),
            ).follow_cam,
            commands@ == old(self).spec_try_transition(
                *config,
                *sample,
                *old(lock),
                *old(follow_cam),
            ).commands,
            final(self).first_person != old(self).first_person <==> old(self).spec_fires(
                *config,
                *old(lock),
            ),
            config.prioritize_lock_on && old(lock).is_locked_on ==> final(self).first_person
                == old(self).first_person && commands@.len() <= 1,
            !sample.use_pressed ==> final(self).trans_time == 0 && !final(self).should_transition,
            sample.use_pressed ==> final(self).trans_time >= old(self).trans_time,
    {
        let mut commands: Vec<Command> = Vec::new();
        self.trans_time = if !sample.use_pressed {
            0
        } else if self.trans_time > u64::MAX - self.tpf {
            u64::MAX
        } else {
            self.trans_time + self.tpf
        };
        let should_transition = self.should_transition;
        self.should_transition = false;
        if should_transition && (!config.prioritize_lock_on || !lock.is_locked_on) {
            self.first_person = !self.first_person;
            lock.is_lock_on_requested = false;
            let fov = Self::fov(config, sample.precision_aim, sample.aim_cam_fov);
            commands.push(self.update_fov_correction(config, fov));
            let first_person = self.first_person(sample.in_cutscene);
            commands.push(Command::SetDithering(!first_person));
            commands.push(Command::SetVfxFade(!first_person));
            commands.push(Self::set_crosshair_if(config, first_person, sample.hud_enabled));
            commands.push(Command::SetFaceVisibility(!first_person));
            commands.push(Command::SetWeaponVisibility(!first_person));
            if !first_person {
                commands.push(Command::SetTransparency(false));
                lock.lock_camera = true;
                follow_cam.lock_chase_rate = MIN_LOCK_CHASE_RATE;
                follow_cam.max_lock_target_offset = THIRD_PERSON_LOCK_TARGET_OFFSET;
            } else {
                follow_cam.max_lock_target_offset = 0;
            }
            assert(commands@ =~= self.spec_switch_commands(*config, *sample));
        }
        if self.first_person(sample.in_cutscene) && sample.movement_requested
            && config.show_tutorial {
            commands.push(Command::ShowTutorial);
        }
        let is_lock_on_toggled = lock.is_locked_on != lock.is_lock_on_requested;
        let should_not_lock_on = (!lock.is_locked_on || !config.prioritize_lock_on)
            && is_lock_on_toggled;
        if self.can_transition() && should_not_lock_on && sample.lock_on_pressed {
            self.should_transition = true;
            if !config.prioritize_lock_on {
                lock.is_lock_on_requested = false;
            }
        }
        commands
    }

    /// Prepares the host's follow camera for a frame. In first person the camera's own
    /// wall recovery and rotation are switched off, the configured pitch limits replace
    /// the host's, and the highest pitch that was in place is kept; outside first person
    /// the kept pitch is put back, once. `locked_on` says whether a target is locked, if
    /// the host can tell.
    pub fn update_follow_cam(
        &mut self,
        config: &Config,
        follow_cam: &mut FollowCam,
        in_cutscene: bool,
        approaching_ladder: bool,
        locked_on: Option<bool>,
    )
        ensures
            *final(follow_cam) == old(self).spec_follow_cam(
                *config,
                *old(follow_cam),
                in_cutscene,
                approaching_ladder,
                locked_on,
            ),
            *final(self) == (CameraState {
                saved_angle_limit: old(self).spec_saved_angle_limit(
                    *config,
                    *old(follow_cam),
                    in_cutscene,
                ),
                ..*old(self)
            }),
            !old(self).spec_first_person(in_cutscene) ==> final(self).saved_angle_limit is None,
    {
        let first_person = self.first_person(in_cutscene);
        follow_cam.wall_recovery = follow_cam.wall_recovery && !first_person;
        follow_cam.camera_auto_rotation = follow_cam.camera_auto_rotation && !first_person;
        if !first_person {
            match self.saved_angle_limit {
                Some(saved) => {
                    follow_cam.angle_limit_up = saved;
                    self.saved_angle_limit = None;
                },
                None => {},
            }
            return ;
        }
        let angle_limit_up = follow_cam.angle_limit_up;
        follow_cam.angle_limit_down = config.angle_limit.0;
        follow_cam.angle_limit_up = config.angle_limit.1;
        if angle_limit_up != config.angle_limit.1 {
            self.saved_angle_limit = Some(angle_limit_up);
        }
        if approaching_ladder {
            follow_cam.reset_camera_y = true;
            follow_cam.reset_camera_x = true;
        }
        match locked_on {
            Some(locked_on) => {
                follow_cam.lock_chase_rate = self.lock_chase_rate(
                    follow_cam.lock_chase_rate,
                    locked_on,
                );
            },
            None => {},
        }
    }

    /// The rate at which the follow camera chases a locked target after a frame.
    pub fn lock_chase_rate(&self, rate: i64, locked_on: bool) -> (next: i64)
        ensures
            next == self.spec_lock_chase_rate(rate, locked_on),
    {
        if locked_on && rate <= MAX_LOCK_CHASE_RATE {
            let raised: i128 = rate as i128 + self.tpf as i128;
            if raised > MAX_LOCK_CHASE_RATE as i128 {
                MAX_LOCK_CHASE_RATE
            } else {
                raised as i64
            }
        } else if rate > MIN_LOCK_CHASE_RATE {
            let lowered: i128 = rate as i128 - self.tpf as i128;
            if lowered < MIN_LOCK_CHASE_RATE as i128 {
                MIN_LOCK_CHASE_RATE
            } else {
                lowered as i64
            }
        } else {
            rate
        }
    }
}

/// The field of view is rescaled only where the character aims and the aim camera looks
/// wider than the settings ask for; a narrower or equal aim camera is taken as it is, and
/// without aiming the configured field of view stands.
pub proof fn lemma_fov_selection(config: Config, precision_aim: bool, aim_cam_fov: i64)
    ensures
        !precision_aim ==> CameraState::spec_fov(config, precision_aim, aim_cam_fov)
            == FovSelection::Fixed(config.fov),
        precision_aim && aim_cam_fov <= config.fov ==> CameraState::spec_fov(
            config,
            precision_aim,
            aim_cam_fov,
        ) == FovSelection::Fixed(aim_cam_fov),
        precision_aim && aim_cam_fov > config.fov ==> CameraState::spec_fov(
            config,
            precision_aim,
            aim_cam_fov,
        ) == (FovSelection::Rescaled { base: config.fov, aim: aim_cam_fov }),
{
}

/// While lock-on has priority and a target is locked, no step of the state machine
/// changes the perspective, whatever was asked for.
pub proof fn lemma_locked_target_blocks_transition(
    state: CameraState,
    config: Config,
    sample: FrameSample,
    lock: LockOn,
    follow_cam: FollowCam,
)
    requires
        config.prioritize_lock_on,
        lock.is_locked_on,
    ensures
        state.spec_try_transition(config, sample, lock, follow_cam).state.first_person
            == state.first_person,
        !state.spec_try_transition(config, sample, lock, follow_cam).state.should_transition,
{
}

/// A pending change that is free to take place flips the perspective, and the host is
/// told to draw the crosshair and to dither accordingly.
pub proof fn lemma_pending_transition_fires(
    state: CameraState,
    config: Config,
    sample: FrameSample,
    lock: LockOn,
    follow_cam: FollowCam,
)
    requires
        state.should_transition,
        !config.prioritize_lock_on || !lock.is_locked_on,
    ensures
        ({
            let after = state.spec_try_transition(config, sample, lock, follow_cam);
            let first_person = after.state.spec_first_person(sample.in_cutscene);
            &&& after.state.first_person == !state.first_person
            &&& !after.lock.is_lock_on_requested
            &&& after.commands.len() >= 6
            &&& after.commands[1] == Command::SetDithering(!first_person)
            &&& after.commands[2] == Command::SetVfxFade(!first_person)
            &&& after.commands[3] == CameraState::spec_crosshair(
                config,
                first_person,
                sample.hud_enabled,
            )
        }),
{
}

/// A change of perspective that is asked for while lock-on has priority and a target is
/// locked does not take place, however often it is asked for; asked for again once the
/// target is released, it takes place, and outside cutscenes the host is told to draw the
/// crosshair and to stop dithering.
pub proof fn lemma_transition_waits_for_release(
    state: CameraState,
    config: Config,
    locked: FrameSample,
    released: FrameSample,
    lock: LockOn,
    follow_cam: FollowCam,
)
    requires
        !state.first_person,
        config.prioritize_lock_on,
        lock.is_locked_on,
        !released.in_cutscene,
    ensures
        ({
            let blocked = state.spec_notified().spec_try_transition(
                config,
                locked,
                lock,
                follow_cam,
            );
            let free = blocked.state.spec_notified().spec_try_transition(
                config,
                released,
                LockOn { is_locked_on: false, ..blocked.lock },
                blocked.follow_cam,
            );
            &&& !blocked.state.first_person
            &&& blocked.commands.len() == 0
            &&& free.state.first_person
            &&& free.commands[1] == Command::SetDithering(false)
            &&& free.commands[3] == CameraState::spec_crosshair(config, true, released.hud_enabled)
        }),
{
}

/// The time for which the interact input has been held only grows while the input is
/// held and is zero as soon as it is not; without a hold no change is asked for.
pub proof fn lemma_trans_time(
    state: CameraState,
    config: Config,
    sample: FrameSample,
    lock: LockOn,
    follow_cam: FollowCam,
)
    ensures
        ({
            let after = state.spec_try_transition(config, sample, lock, follow_cam);
            &&& sample.use_pressed ==> after.state.trans_time >= state.trans_time
            &&& !sample.use_pressed ==> after.state.trans_time == 0
            &&& !sample.use_pressed ==> !after.state.should_transition
        }),
{
}

/// Leaving first person puts the kept pitch limit back and forgets it, so that it is
/// never put back twice.
pub proof fn lemma_angle_limit_restored_once(
    state: CameraState,
    config: Config,
    follow_cam: FollowCam,
    in_cutscene: bool,
    approaching_ladder: bool,
    locked_on: Option<bool>,
    saved: i64,
)
    requires
        state.saved_angle_limit == Some(saved),
        !state.spec_first_person(in_cutscene),
    ensures
        state.spec_follow_cam(
            config,
            follow_cam,
            in_cutscene,
            approaching_ladder,
            locked_on,
        ).angle_limit_up == saved,
        state.spec_saved_angle_limit(config, follow_cam, in_cutscene) is None,
{
}

} // verus!
