use erfps2::config::toml;
use erfps2::config::{clamp, Config, CrosshairKind, FovCorrection};

fn file_config() -> toml::Config {
    toml::Config {
        fov: toml::Fov {
            horizontal_fov: 85_000_000,
            fov_correction: FovCorrection::Barrel,
            fov_correction_strength: 550_000,
            fov_correction_cylindricity: 333_333,
        },
        gameplay: toml::Gameplay {
            start_in_first_person: false,
            prioritize_lock_on: true,
            soft_lock_on: true,
            unlocked_movement: false,
            unobtrusive_dodges: true,
            track_dodges: true,
            track_attacks: false,
            track_damage: true,
            restricted_sprint: true,
            show_tutorial: false,
        },
        stabilizer: toml::Stabilizer { enabled: false, smoothing_window: 250_000, smoothing_factor: 800_000 },
        crosshair: toml::Crosshair { kind: CrosshairKind::Dot, scale_x: 1_500_000, scale_y: 2_000_000 },
    }
}

#[test]
fn values_in_range_are_taken_as_they_are() {
    let config = Config::from(file_config());
    assert_eq!(config.fov, 85_000_000);
    assert_eq!(config.angle_limit, (-80_000_000, 70_000_000));
    assert!(!config.start_in_first_person);
    assert!(config.prioritize_lock_on);
    assert!(config.soft_lock_on);
    assert!(!config.unlocked_movement);
    assert!(config.unobtrusive_dodges);
    assert!(config.track_dodges);
    assert!(!config.track_attacks);
    assert!(config.track_damage);
    assert!(config.restricted_sprint);
    assert!(!config.show_tutorial);
    assert!(!config.use_stabilizer);
    assert_eq!(config.stabilizer_window, 250_000);
    assert_eq!(config.stabilizer_factor, 800_000);
    assert_eq!(config.crosshair, CrosshairKind::Dot);
    assert_eq!(config.crosshair_scale, (1_500_000, 2_000_000));
    assert!(config.use_fov_correction);
    assert!(config.use_barrel_correction);
    assert_eq!(config.correction_strength, 550_000);
    assert_eq!(config.correction_cylindricity, 999_999);
}

#[test]
fn values_below_range_are_raised() {
    let mut file = file_config();
    file.fov.horizontal_fov = 10_000_000;
    file.fov.fov_correction_strength = -1;
    file.fov.fov_correction_cylindricity = -500_000;
    file.stabilizer.smoothing_window = 0;
    file.stabilizer.smoothing_factor = i64::MIN;
    file.crosshair.scale_x = 0;
    file.crosshair.scale_y = 99_999;
    let config = Config::from(file);
    assert_eq!(config.fov, 45_000_000);
    assert_eq!(config.correction_strength, 0);
    assert_eq!(config.correction_cylindricity, 500_000);
    assert_eq!(config.stabilizer_window, 100_000);
    assert_eq!(config.stabilizer_factor, 0);
    assert_eq!(config.crosshair_scale, (100_000, 100_000));
}

#[test]
fn values_above_range_are_lowered() {
    let mut file = file_config();
    file.fov.horizontal_fov = 130_000_001;
    file.fov.fov_correction_strength = 2_000_000;
    file.fov.fov_correction_cylindricity = i64::MAX;
    file.stabilizer.smoothing_window = 5_000_000;
    file.stabilizer.smoothing_factor = 1_000_001;
    file.crosshair.scale_x = 4_000_001;
    file.crosshair.scale_y = i64::MAX;
    let config = Config::from(file);
    assert_eq!(config.fov, 130_000_000);
    assert_eq!(config.correction_strength, 1_000_000);
    assert_eq!(config.correction_cylindricity, 2_000_000);
    assert_eq!(config.stabilizer_window, 1_000_000);
    assert_eq!(config.stabilizer_factor, 1_000_000);
    assert_eq!(config.crosshair_scale, (4_000_000, 4_000_000));
}

#[test]
fn correction_kind_sets_both_toggles() {
    let mut file = file_config();
    file.fov.fov_correction = FovCorrection::Off;
    let off = Config::from(file);
    assert!(!off.use_fov_correction);
    assert!(!off.use_barrel_correction);
    file.fov.fov_correction = FovCorrection::Fisheye;
    let fisheye = Config::from(file);
    assert!(fisheye.use_fov_correction);
    assert!(!fisheye.use_barrel_correction);
    file.fov.fov_correction = FovCorrection::Barrel;
    let barrel = Config::from(file);
    assert!(barrel.use_fov_correction);
    assert!(barrel.use_barrel_correction);
}

#[test]
fn defaults_are_in_place() {
    let config = Config::default();
    assert_eq!(config.fov, 90_000_000);
    assert_eq!(config.angle_limit, (-80_000_000, 70_000_000));
    assert!(config.start_in_first_person);
    assert!(!config.soft_lock_on);
    assert!(config.prioritize_lock_on);
    assert!(config.unlocked_movement);
    assert!(!config.unobtrusive_dodges);
    assert!(!config.track_dodges);
    assert!(!config.restricted_sprint);
    assert!(config.use_stabilizer);
    assert_eq!(config.stabilizer_window, 300_000);
    assert_eq!(config.stabilizer_factor, 800_000);
    assert_eq!(config.crosshair, CrosshairKind::Cross);
    assert_eq!(config.crosshair_scale, (1_000_000, 1_000_000));
    assert!(config.use_fov_correction);
    assert!(config.use_barrel_correction);
    assert_eq!(config.correction_strength, 550_000);
    assert_eq!(config.correction_cylindricity, 1_000_000);
}

#[test]
fn clamp_moves_to_the_nearest_bound() {
    assert_eq!(clamp(5, 0, 10), 5);
    assert_eq!(clamp(-5, 0, 10), 0);
    assert_eq!(clamp(15, 0, 10), 10);
    assert_eq!(clamp(0, 0, 10), 0);
    assert_eq!(clamp(10, 0, 10), 10);
    assert_eq!(clamp(i64::MIN, -3, -3), -3);
}
