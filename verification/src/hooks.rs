//! What the hooks into the host decide besides the camera itself.

use crate::behavior::BehaviorState;
use crate::camera::CameraState;
use crate::config::Config;
use crate::control::CameraContext;
use vstd::prelude::*;

verus! {

/// The angle that is added to the posture of the right hand in first person.
pub const HAND_POSTURE_ANGLE: i32 = 15;

/// The least movement input that steers an attack, in millionths.
pub const MIN_MOVEMENT: i64 = 10_000;

/// The factor by which steered root motion is scaled, per unit of movement input: five
/// quarters.
pub const ROOT_MOTION_NUMERATOR: i64 = 5;

/// The divisor that belongs to `ROOT_MOTION_NUMERATOR`.
pub const ROOT_MOTION_DENOMINATOR: i64 = 4;

/// Whether the host's own camera update is replaced in this frame: it is in first person
/// while the world can be found.
pub fn update_camera(state: &CameraState, has_context: bool, in_cutscene: bool) -> (replaced: bool)
    ensures
        replaced == (state.spec_first_person(in_cutscene) && has_context),
{
    state.first_person(in_cutscene) && has_context
}

/// The angle that is added to the posture of a character's right hand: the first-person
/// angle for the player's own character unless it holds its weapon in both hands.
pub fn hand_posture_control(
    is_main_player: bool,
    is_2h: bool,
    first_person: bool,
) -> (angle: Option<i32>)
    ensures
        angle == (if !is_main_player || is_2h || !first_person {
            None
        } else {
            Some(HAND_POSTURE_ANGLE)
        }),
{
    if !is_main_player || is_2h || !first_person {
        return None;
    }
    Some(HAND_POSTURE_ANGLE)
}

/// Whether the motion of an attack follows the movement input: it does for the player's
/// own character in first person while it attacks, where the settings unlock movement.
pub open spec fn spec_steers_root_motion(
    context: CameraContext,
    state: CameraState,
    config: Config,
    is_main_player: bool,
) -> bool {
    is_main_player && config.unlocked_movement && state.spec_first_person(
        context.sample.in_cutscene,
    ) && context.persistent_context@.behavior_states.is_active(BehaviorState::Attack)
}

/// The factor, in millionths, by which the motion of an attack is scaled before it is
/// turned along the movement input of strength `magnitude`, or `None` where the motion
/// stays as it is. The factor is five quarters of the strength, as far as it can be told.
pub open spec fn spec_root_motion_scale(steers: bool, magnitude: i64) -> Option<i64> {
    if !steers || magnitude < MIN_MOVEMENT {
        None
    } else if magnitude * ROOT_MOTION_NUMERATOR / (ROOT_MOTION_DENOMINATOR as int) > i64::MAX {
        Some(i64::MAX)
    } else {
        Some((magnitude * ROOT_MOTION_NUMERATOR / (ROOT_MOTION_DENOMINATOR as int)) as i64)
    }
}

/// Decides whether the motion of an attack follows the movement input of strength
/// `magnitude`, and by which factor it is scaled if so.
pub fn root_motion_modifier(
    context: &CameraContext,
    state: &CameraState,
    config: &Config,
    is_main_player: bool,
    magnitude: i64,
) -> (scale: Option<i64>)
    ensures
        scale == spec_root_motion_scale(
            spec_steers_root_motion(*context, *state, *config, is_main_player),
            magnitude,
        ),
{
    let steers = is_main_player && config.unlocked_movement && state.first_person(
        context.sample.in_cutscene,
    ) && context.has_state(BehaviorState::Attack);
    if !steers || magnitude < MIN_MOVEMENT {
        return None;
    }
    let scaled: i128 = magnitude as i128 * ROOT_MOTION_NUMERATOR as i128
        / ROOT_MOTION_DENOMINATOR as i128;
    if scaled > i64::MAX as i128 {
        Some(i64::MAX)
    } else {
        Some(scaled as i64)
    }
}

} // verus!
