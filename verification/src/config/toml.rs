//! The settings as the configuration file spells them, before any value is checked.
//!
//! Fractional settings are fixed-point numbers that count millionths of their unit.

use vstd::prelude::*;

verus! {

/// How the image is corrected for a wide field of view.
#[derive(Clone, Copy, Debug, PartialEq, Eq, Structural)]
pub enum FovCorrection {
    Off,
    Fisheye,
    Barrel,
}

/// The crosshair drawn in first person.
#[derive(Clone, Copy, Debug, PartialEq, Eq, Structural)]
pub enum CrosshairKind {
    Off,
    Cross,
    Dot,
    Circle,
    CircleDot,
    Angled,
}

/// Field-of-view settings.
#[derive(Clone, Copy, Debug)]
pub struct Fov {
    /// Horizontal field of view, in millionths of a degree.
    pub horizontal_fov: i64,
    pub fov_correction: FovCorrection,
    /// Strength of the correction, in millionths.
    pub fov_correction_strength: i64,
    /// Cylindricity of the barrel correction, in millionths.
    pub fov_correction_cylindricity: i64,
}

/// Gameplay toggles.
#[derive(Clone, Copy, Debug)]
pub struct Gameplay {
    pub start_in_first_person: bool,
    pub prioritize_lock_on: bool,
    pub soft_lock_on: bool,
    pub unlocked_movement: bool,
    pub unobtrusive_dodges: bool,
    pub track_dodges: bool,
    pub track_attacks: bool,
    pub track_damage: bool,
    pub restricted_sprint: bool,
    pub show_tutorial: bool,
}

/// Settings of the head-position stabilizer.
#[derive(Clone, Copy, Debug)]
pub struct Stabilizer {
    pub enabled: bool,
    /// Length of the averaging window, in microseconds.
    pub smoothing_window: i64,
    /// How far the average may pull the camera from the sampled position, in millionths.
    pub smoothing_factor: i64,
}

/// Crosshair settings.
#[derive(Clone, Copy, Debug)]
pub struct Crosshair {
    pub kind: CrosshairKind,
    /// Horizontal scale, in millionths.
    pub scale_x: i64,
    /// Vertical scale, in millionths.
    pub scale_y: i64,
}

/// All sections of the configuration file.
#[derive(Clone, Copy, Debug)]
pub struct Config {
    pub fov: Fov,
    pub gameplay: Gameplay,
    pub stabilizer: Stabilizer,
    pub crosshair: Crosshair,
}

} // verus!
