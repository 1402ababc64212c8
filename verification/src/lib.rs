//! Fixed-point core of a first-person camera rig controller.

pub mod behavior;
pub mod bits;
pub mod camera;
pub mod config;
pub mod control;
pub mod easing;
pub mod framing;
pub mod head_tracker;
pub mod hooks;
pub mod lock_on;
pub mod player;
pub mod rva;
pub mod shaders;
pub mod stabilizer;
pub mod text;
