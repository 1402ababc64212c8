use erfps2::behavior::{BehaviorState, BehaviorStates};
use erfps2::config::Config;
use erfps2::head_tracker::{
    center_bias_pull, relax_share, rotation_step, sample_count, FrameStep, HeadTracker,
    RotationArgs, RotationPlan, TargetUpdate, TrackingMode, FAST_SPEED, NORMAL_SPEED, PI,
    THREE_HALVES_PI,
};
use erfps2::stabilizer::Point3;

fn states_with(seen: &[BehaviorState]) -> BehaviorStates {
    let mut states = BehaviorStates::new();
    for state in seen {
        states.push_state(*state);
    }
    states
}

fn tracking_config() -> Config {
    let mut config = Config::default();
    config.track_damage = true;
    config.track_attacks = true;
    config.track_dodges = true;
    config
}

#[test]
fn modes_have_their_parameters() {
    assert_eq!(
        TrackingMode::Off.rotation_args(),
        RotationArgs { track: false, speed: 1_000_000, center_bias_until: 4_712_389, player_local: false }
    );
    assert_eq!(
        TrackingMode::Global.rotation_args(),
        RotationArgs { track: true, speed: 1_000_000, center_bias_until: 3_141_593, player_local: false }
    );
    assert_eq!(
        TrackingMode::PlayerRelative.rotation_args(),
        RotationArgs { track: true, speed: 1_000_000, center_bias_until: 4_712_389, player_local: true }
    );
    assert_eq!(
        TrackingMode::PlayerRelativeFast.rotation_args(),
        RotationArgs { track: true, speed: 1_400_000, center_bias_until: 4_712_389, player_local: true }
    );
    assert_eq!(NORMAL_SPEED, 1_000_000);
    assert_eq!(FAST_SPEED, 1_400_000);
    assert_eq!(PI, 3_141_593);
    assert_eq!(THREE_HALVES_PI, 4_712_389);
}

#[test]
fn throw_comes_before_everything() {
    let config = Config::default();
    let states = states_with(&[BehaviorState::Attack, BehaviorState::Evasion]);
    assert_eq!(TrackingMode::select(&config, true, &states), TrackingMode::Global);
}

#[test]
fn damage_comes_before_attack_and_dodge() {
    let config = tracking_config();
    let states =
        states_with(&[BehaviorState::Damage, BehaviorState::Attack, BehaviorState::Evasion]);
    assert_eq!(TrackingMode::select(&config, false, &states), TrackingMode::Global);
}

#[test]
fn death_animation_is_followed_until_the_character_lies_still() {
    let config = tracking_config();
    let dying = states_with(&[BehaviorState::DeathAnim]);
    assert_eq!(TrackingMode::select(&config, false, &dying), TrackingMode::Global);
    let dead = states_with(&[BehaviorState::DeathAnim, BehaviorState::DeathIdle]);
    assert_eq!(TrackingMode::select(&config, false, &dead), TrackingMode::Off);
}

#[test]
fn attack_comes_before_dodge() {
    let config = tracking_config();
    let states = states_with(&[BehaviorState::Attack, BehaviorState::Evasion]);
    assert_eq!(TrackingMode::select(&config, false, &states), TrackingMode::PlayerRelative);
    let dodging = states_with(&[BehaviorState::Evasion]);
    assert_eq!(
        TrackingMode::select(&config, false, &dodging),
        TrackingMode::PlayerRelativeFast
    );
}

#[test]
fn states_count_only_where_the_settings_ask_for_them() {
    let mut config = Config::default();
    config.track_damage = false;
    config.track_attacks = false;
    config.track_dodges = false;
    let states = states_with(&[
        BehaviorState::Damage,
        BehaviorState::DeathAnim,
        BehaviorState::Attack,
        BehaviorState::Evasion,
    ]);
    assert_eq!(TrackingMode::select(&config, false, &states), TrackingMode::Off);
    config.track_dodges = true;
    assert_eq!(TrackingMode::select(&config, false, &states), TrackingMode::PlayerRelativeFast);
    config.track_attacks = true;
    assert_eq!(TrackingMode::select(&config, false, &states), TrackingMode::PlayerRelative);
    config.track_damage = true;
    assert_eq!(TrackingMode::select(&config, false, &states), TrackingMode::Global);
}

#[test]
fn nothing_to_follow_means_no_tracking() {
    let config = tracking_config();
    let states = states_with(&[BehaviorState::Gesture]);
    assert_eq!(TrackingMode::select(&config, false, &states), TrackingMode::Off);
}

#[test]
fn untracked_frames_relax_the_target() {
    let mut tracker = HeadTracker::new(4);
    for _ in 0..5 {
        let plan = tracker.track_head_rotation(TrackingMode::Off, 16_667);
        assert_eq!(
            plan,
            RotationPlan {
                reset: false,
                player_local: false,
                target: TargetUpdate::Relax(166_670),
                speed: 1_000_000,
                center_bias_until: 4_712_389,
            }
        );
    }
    assert_eq!(tracker.mode(), TrackingMode::Off);
}

#[test]
fn mode_change_resets_before_it_accumulates() {
    let mut tracker = HeadTracker::new(4);
    tracker.track_head_rotation(TrackingMode::Off, 16_667);
    let switched = tracker.track_head_rotation(TrackingMode::Global, 16_667);
    assert_eq!(
        switched,
        RotationPlan {
            reset: true,
            player_local: false,
            target: TargetUpdate::Relax(166_670),
            speed: 1_000_000,
            center_bias_until: 3_141_593,
        }
    );
    let next = tracker.track_head_rotation(TrackingMode::Global, 16_667);
    assert_eq!(
        next,
        RotationPlan {
            reset: false,
            player_local: false,
            target: TargetUpdate::Accumulate,
            speed: 1_000_000,
            center_bias_until: 3_141_593,
        }
    );
    let fast = tracker.track_head_rotation(TrackingMode::PlayerRelativeFast, 16_667);
    assert!(fast.reset);
    assert!(fast.player_local);
    assert_eq!(fast.target, TargetUpdate::Relax(166_670));
    assert_eq!(fast.speed, 1_400_000);
    assert_eq!(tracker.mode(), TrackingMode::PlayerRelativeFast);
}

#[test]
fn reset_starts_tracking_over() {
    let mut tracker = HeadTracker::new(4);
    tracker.track_head_rotation(TrackingMode::Global, 16_667);
    assert_eq!(
        tracker.track_head_rotation(TrackingMode::Global, 16_667).target,
        TargetUpdate::Accumulate
    );
    tracker.stabilize_head(1, Point3 { x: 1, y: 2, z: 3 });
    tracker.reset();
    let plan = tracker.track_head_rotation(TrackingMode::Global, 16_667);
    assert!(plan.reset);
    assert_eq!(plan.target, TargetUpdate::Relax(166_670));
    let mean = tracker.stabilize_head(2, Point3 { x: 5, y: 5, z: 5 });
    assert_eq!(mean, Point3 { x: 5, y: 5, z: 5 });
}

#[test]
fn frames_are_cached_continued_or_restarted() {
    let mut tracker = HeadTracker::new(4);
    assert_eq!(tracker.begin_frame(7), FrameStep::Continue);
    assert_eq!(tracker.begin_frame(7), FrameStep::Cached);
    assert_eq!(tracker.begin_frame(8), FrameStep::Continue);
    tracker.track_head_rotation(TrackingMode::Global, 16_667);
    assert_eq!(tracker.begin_frame(10), FrameStep::Restart);
    let plan = tracker.track_head_rotation(TrackingMode::Global, 16_667);
    assert!(plan.reset);
    assert_eq!(tracker.begin_frame(0), FrameStep::Restart);
    assert_eq!(tracker.begin_frame(0), FrameStep::Cached);
}

#[test]
fn stabilizer_window_follows_the_frame_time() {
    let mut tracker = HeadTracker::new(8);
    for frame in 1..9 {
        tracker.stabilize_head(frame, Point3 { x: frame as i64 * 10, y: 0, z: 0 });
    }
    tracker.set_stabilizer_window(100_000, 50_000);
    let mean = tracker.stabilize_head(9, Point3 { x: 100, y: 0, z: 0 });
    assert_eq!(mean, Point3 { x: 90, y: 0, z: 0 });
}

#[test]
fn sample_count_rounds_up() {
    assert_eq!(sample_count(300_000, 16_667), 18);
    assert_eq!(sample_count(100_000, 16_667), 6);
    assert_eq!(sample_count(1_000_000, 16_667), 60);
    assert_eq!(sample_count(300_000, 33_333), 10);
    assert_eq!(sample_count(300_000, 300_000), 1);
    assert_eq!(sample_count(300_000, 300_001), 1);
    assert_eq!(sample_count(1, 1), 1);
}

#[test]
fn sample_count_at_the_edges() {
    assert_eq!(sample_count(0, 16_667), 0);
    assert_eq!(sample_count(-5, 16_667), 0);
    assert_eq!(sample_count(300_000, 0), u32::MAX);
    assert_eq!(sample_count(i64::MAX, 1), u32::MAX);
    assert_eq!(sample_count(i64::MAX, u64::MAX), 1);
}

#[test]
fn relax_share_is_ten_times_the_frame_time() {
    assert_eq!(relax_share(0), 0);
    assert_eq!(relax_share(16_667), 166_670);
    assert_eq!(relax_share(100_000), 1_000_000);
    assert_eq!(relax_share(u64::MAX), u64::MAX);
    assert_eq!(relax_share(u64::MAX / 10), u64::MAX / 10 * 10);
    assert_eq!(relax_share(u64::MAX / 10 + 1), u64::MAX);
}

#[test]
fn center_bias_pulls_small_deviations() {
    assert_eq!(center_bias_pull(1_000_000, 3_141_593), 464_701);
    assert_eq!(center_bias_pull(100_000, 4_712_389), 95_800);
    assert_eq!(center_bias_pull(4_000_000, 4_712_389), 91_413);
}

#[test]
fn center_bias_leaves_the_rest_alone() {
    assert_eq!(center_bias_pull(0, 3_141_593), 0);
    assert_eq!(center_bias_pull(3_141_593, 3_141_593), 0);
    assert_eq!(center_bias_pull(5_000_000, 3_141_593), 0);
    assert_eq!(center_bias_pull(-1, 3_141_593), 0);
    assert_eq!(center_bias_pull(10, 0), 0);
    assert_eq!(center_bias_pull(10, -7), 0);
}

#[test]
fn rotation_step_is_the_easing_step() {
    assert_eq!(rotation_step(1_000_000, 1_000_000, 16_667), 95_927);
    assert_eq!(rotation_step(1_000_000, 1_400_000, 16_667), 132_082);
    assert_eq!(rotation_step(0, 1_000_000, 16_667), 0);
    assert_eq!(rotation_step(3_141_593, 0, 16_667), 0);
    assert_eq!(rotation_step(3_141_593, 1_000_000, 0), 0);
    assert_eq!(rotation_step(-2_000_000, 0, 0), 0);
}
