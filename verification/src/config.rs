//! The active camera settings, with every value inside its documented range.
//!
//! Fractional settings are fixed-point numbers that count millionths of their unit: angles
//! are held in millionths of a degree, times in microseconds.

use vstd::prelude::*;
use vstd::std_specs::convert::FromSpecImpl;

pub mod toml;

pub use self::toml::CrosshairKind;
pub use self::toml::FovCorrection;

verus! {

/// One whole unit of a fixed-point setting.
pub const MICRO: i64 = 1_000_000;

/// The narrowest horizontal field of view that can be set, 45 degrees.
pub const FOV_MIN: i64 = 45_000_000;

/// The widest horizontal field of view that can be set, 130 degrees.
pub const FOV_MAX: i64 = 130_000_000;

/// The lowest pitch that the first-person camera may take, -80 degrees.
pub const ANGLE_LIMIT_DOWN: i64 = -80_000_000;

/// The highest pitch that the first-person camera may take, 70 degrees.
pub const ANGLE_LIMIT_UP: i64 = 70_000_000;

/// The shortest stabilizer window, a tenth of a second.
pub const STABILIZER_WINDOW_MIN: i64 = 100_000;

/// The longest stabilizer window, one second.
pub const STABILIZER_WINDOW_MAX: i64 = 1_000_000;

/// The smallest crosshair scale, a tenth.
pub const CROSSHAIR_SCALE_MIN: i64 = 100_000;

/// The largest crosshair scale, four.
pub const CROSSHAIR_SCALE_MAX: i64 = 4_000_000;

/// `value` moved to the nearest point of the range from `low` to `high`.
pub open spec fn spec_clamp(value: int, low: int, high: int) -> int {
    if value < low {
        low
    } else if value > high {
        high
    } else {
        value
    }
}

/// Moves `value` to the nearest point of the range from `low` to `high`.
pub fn clamp(value: i64, low: i64, high: i64) -> (clamped: i64)
    requires
        low <= high,
    ensures
        clamped == spec_clamp(value as int, low as int, high as int),
{
    if value < low {
        low
    } else if value > high {
        high
    } else {
        value
    }
}

/// The camera settings that the controller works with.
#[derive(Clone, Copy, Debug)]
pub struct Config {
    /// Horizontal field of view, in millionths of a degree.
    pub fov: i64,
    /// Lowest and highest camera pitch in first person, in millionths of a degree.
    pub angle_limit: (i64, i64),
    pub start_in_first_person: bool,
    pub soft_lock_on: bool,
    pub prioritize_lock_on: bool,
    pub unlocked_movement: bool,
    pub unobtrusive_dodges: bool,
    pub track_dodges: bool,
    pub track_attacks: bool,
    pub track_damage: bool,
    pub restricted_sprint: bool,
    pub show_tutorial: bool,
    pub use_stabilizer: bool,
    /// Length of the stabilizer's averaging window, in microseconds.
    pub stabilizer_window: i64,
    /// How far the stabilizer may pull the camera from the sampled position, in millionths.
    pub stabilizer_factor: i64,
    pub crosshair: CrosshairKind,
    /// Horizontal and vertical crosshair scale, in millionths.
    pub crosshair_scale: (i64, i64),
    pub use_fov_correction: bool,
    pub use_barrel_correction: bool,
    /// Strength of the field-of-view correction, in millionths.
    pub correction_strength: i64,
    /// Cylindricity of the barrel correction, in millionths, from a half to two.
    pub correction_cylindricity: i64,
}

impl Config {
    /// Whether every setting is inside its documented range.
    pub open spec fn in_range(self) -> bool {
        &&& FOV_MIN <= self.fov <= FOV_MAX
        &&& self.angle_limit == (ANGLE_LIMIT_DOWN, ANGLE_LIMIT_UP)
        &&& STABILIZER_WINDOW_MIN <= self.stabilizer_window <= STABILIZER_WINDOW_MAX
        &&& 0 <= self.stabilizer_factor <= MICRO
        &&& CROSSHAIR_SCALE_MIN <= self.crosshair_scale.0 <= CROSSHAIR_SCALE_MAX
        &&& CROSSHAIR_SCALE_MIN <= self.crosshair_scale.1 <= CROSSHAIR_SCALE_MAX
        &&& 0 <= self.correction_strength <= MICRO
        &&& MICRO / 2 <= self.correction_cylindricity <= 2 * MICRO
        &&& self.use_barrel_correction ==> self.use_fov_correction
    }

    /// The settings that a configuration file asks for: each value is moved into its
    /// range, and the cylindricity is mapped from zero to one onto a half to two.
    pub open spec fn spec_from_file(config: toml::Config) -> Config {
        Config {
            fov: spec_clamp(
                config.fov.horizontal_fov as int,
                FOV_MIN as int,
                FOV_MAX as int,
            ) as i64,
            angle_limit: (ANGLE_LIMIT_DOWN, ANGLE_LIMIT_UP),
            start_in_first_person: config.gameplay.start_in_first_person,
            soft_lock_on: config.gameplay.soft_lock_on,
            prioritize_lock_on: config.gameplay.prioritize_lock_on,
            unlocked_movement: config.gameplay.unlocked_movement,
            unobtrusive_dodges: config.gameplay.unobtrusive_dodges,
            track_dodges: config.gameplay.track_dodges,
            track_attacks: config.gameplay.track_attacks,
            track_damage: config.gameplay.track_damage,
            restricted_sprint: config.gameplay.restricted_sprint,
            show_tutorial: config.gameplay.show_tutorial,
            use_stabilizer: config.stabilizer.enabled,
            stabilizer_window: spec_clamp(
                config.stabilizer.smoothing_window as int,
                STABILIZER_WINDOW_MIN as int,
                STABILIZER_WINDOW_MAX as int,
            ) as i64,
            stabilizer_factor: spec_clamp(
                config.stabilizer.smoothing_factor as int,
                0,
                MICRO as int,
            ) as i64,
            crosshair: config.crosshair.kind,
            crosshair_scale: (
                spec_clamp(
                    config.crosshair.scale_x as int,
                    CROSSHAIR_SCALE_MIN as int,
                    CROSSHAIR_SCALE_MAX as int,
                ) as i64,
                spec_clamp(
                    config.crosshair.scale_y as int,
                    CROSSHAIR_SCALE_MIN as int,
                    CROSSHAIR_SCALE_MAX as int,
                ) as i64,
            ),
            use_fov_correction: config.fov.fov_correction != FovCorrection::Off,
            use_barrel_correction: config.fov.fov_correction == FovCorrection::Barrel,
            correction_strength: spec_clamp(
                config.fov.fov_correction_strength as int,
                0,
                MICRO as int,
            ) as i64,
            correction_cylindricity: (spec_clamp(
                config.fov.fov_correction_cylindricity as int,
                0,
                MICRO as int,
            ) * 3 / 2 + MICRO / 2) as i64,
        }
    }

    /// The settings that apply where the configuration file gives none.
    pub open spec fn spec_default() -> Config {
        Config {
            fov: 90_000_000,
            angle_limit: (ANGLE_LIMIT_DOWN, ANGLE_LIMIT_UP),
            start_in_first_person: true,
            soft_lock_on: false,
            prioritize_lock_on: true,
            unlocked_movement: true,
            unobtrusive_dodges: false,
            track_dodges: false,
            track_attacks: false,
            track_damage: false,
            restricted_sprint: false,
            show_tutorial: true,
            use_stabilizer: true,
            stabilizer_window: 300_000,
            stabilizer_factor: 800_000,
            crosshair: CrosshairKind::Cross,
            crosshair_scale: (MICRO, MICRO),
            use_fov_correction: true,
            use_barrel_correction: true,
            correction_strength: 550_000,
            correction_cylindricity: MICRO,
        }
    }
}

impl From<toml::Config> for Config {
    fn from(config: toml::Config) -> (settings: Config)
        ensures
            settings == Config::spec_from_file(config),
            settings.in_range(),
    {
        let cylindricity = clamp(config.fov.fov_correction_cylindricity, 0, MICRO);
        let (use_fov_correction, use_barrel_correction) = match config.fov.fov_correction {
            FovCorrection::Off => (false, false),
            FovCorrection::Fisheye => (true, false),
            FovCorrection::Barrel => (true, true),
        };
        Config {
            fov: clamp(config.fov.horizontal_fov, FOV_MIN, FOV_MAX),
            angle_limit: (ANGLE_LIMIT_DOWN, ANGLE_LIMIT_UP),
            start_in_first_person: config.gameplay.start_in_first_person,
            soft_lock_on: config.gameplay.soft_lock_on,
            prioritize_lock_on: config.gameplay.prioritize_lock_on,
            unlocked_movement: config.gameplay.unlocked_movement,
            unobtrusive_dodges: config.gameplay.unobtrusive_dodges,
            track_dodges: config.gameplay.track_dodges,
            track_attacks: config.gameplay.track_attacks,
            track_damage: config.gameplay.track_damage,
            restricted_sprint: config.gameplay.restricted_sprint,
            show_tutorial: config.gameplay.show_tutorial,
            use_stabilizer: config.stabilizer.enabled,
            stabilizer_window: clamp(
                config.stabilizer.smoothing_window,
                STABILIZER_WINDOW_MIN,
                STABILIZER_WINDOW_MAX,
            ),
            stabilizer_factor: clamp(config.stabilizer.smoothing_factor, 0, MICRO),
            crosshair: config.crosshair.kind,
            crosshair_scale: (
                clamp(config.crosshair.scale_x, CROSSHAIR_SCALE_MIN, CROSSHAIR_SCALE_MAX),
                clamp(config.crosshair.scale_y, CROSSHAIR_SCALE_MIN, CROSSHAIR_SCALE_MAX),
            ),
            use_fov_correction,
            use_barrel_correction,
            correction_strength: clamp(config.fov.fov_correction_strength, 0, MICRO),
            correction_cylindricity: cylindricity * 3 / 2 + MICRO / 2,
        }
    }
}

impl FromSpecImpl<toml::Config> for Config {
    open spec fn obeys_from_spec() -> bool {
        true
    }

    open spec fn from_spec(config: toml::Config) -> Config {
        Config::spec_from_file(config)
    }
}

impl Default for Config {
    fn default() -> (settings: Config)
        ensures
            settings == Config::spec_default(),
            settings.in_range(),
    {
        Config {
            fov: 90_000_000,
            angle_limit: (ANGLE_LIMIT_DOWN, ANGLE_LIMIT_UP),
            start_in_first_person: true,
            soft_lock_on: false,
            prioritize_lock_on: true,
            unlocked_movement: true,
            unobtrusive_dodges: false,
            track_dodges: false,
            track_attacks: false,
            track_damage: false,
            restricted_sprint: false,
            show_tutorial: true,
            use_stabilizer: true,
            stabilizer_window: 300_000,
            stabilizer_factor: 800_000,
            crosshair: CrosshairKind::Cross,
            crosshair_scale: (MICRO, MICRO),
            use_fov_correction: true,
            use_barrel_correction: true,
            correction_strength: 550_000,
            correction_cylindricity: MICRO,
        }
    }
}

} // verus!
