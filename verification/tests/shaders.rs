use erfps2::config::CrosshairKind;
use erfps2::rva::{GameVersion, Rva};
use erfps2::shaders::{
    enable_dithering, enable_fov_correction, enable_vfx_fade, get_shader_flag, pack_pair,
    set_crosshair, set_shader_flag, ShaderState,
};

#[test]
fn new_state_has_no_flags() {
    let shaders = ShaderState::new();
    assert_eq!(shaders.flags, 0);
    assert!(shaders.vfx_fade);
    assert!(shaders.dithering);
}

#[test]
fn flags_are_set_and_cleared() {
    let mut shaders = ShaderState::new();
    assert_eq!(set_shader_flag(&mut shaders, true, 0), 0);
    assert_eq!(shaders.flags, 1);
    assert_eq!(set_shader_flag(&mut shaders, true, 1), 1);
    assert_eq!(shaders.flags, 3);
    assert_eq!(set_shader_flag(&mut shaders, true, 31), 3);
    assert_eq!(shaders.flags, 0x8000_0003);
    assert!(get_shader_flag(&shaders, 0));
    assert!(get_shader_flag(&shaders, 31));
    assert!(!get_shader_flag(&shaders, 2));
    assert_eq!(set_shader_flag(&mut shaders, false, 0), 0x8000_0003);
    assert_eq!(shaders.flags, 0x8000_0002);
    assert_eq!(set_shader_flag(&mut shaders, false, 5), 0x8000_0002);
    assert_eq!(shaders.flags, 0x8000_0002);
    assert!(!get_shader_flag(&shaders, 0));
    assert!(get_shader_flag(&shaders, 1));
}

#[test]
fn fov_correction_sets_flags_and_parameters() {
    let mut shaders = ShaderState::new();
    enable_fov_correction(&mut shaders, true, 550_000, true, 916_331);
    assert_eq!(shaders.flags, 0b11);
    assert_eq!(shaders.correction_strength, 550_000);
    assert_eq!(shaders.width_ratio, 916_331);
    enable_fov_correction(&mut shaders, true, 700_000, false, 1_000_000);
    assert_eq!(shaders.flags, 0b01);
    assert_eq!(shaders.correction_strength, 700_000);
    assert_eq!(shaders.width_ratio, 1_000_000);
}

#[test]
fn weak_or_disabled_correction_keeps_the_parameters() {
    let mut shaders = ShaderState::new();
    enable_fov_correction(&mut shaders, true, 550_000, true, 916_331);
    enable_fov_correction(&mut shaders, true, 50_000, true, 5);
    assert_eq!(shaders.flags, 0b10);
    assert_eq!(shaders.correction_strength, 550_000);
    assert_eq!(shaders.width_ratio, 916_331);
    enable_fov_correction(&mut shaders, true, 50_001, false, 6);
    assert_eq!(shaders.flags, 0b01);
    assert_eq!(shaders.correction_strength, 50_001);
    assert_eq!(shaders.width_ratio, 6);
    enable_fov_correction(&mut shaders, false, 900_000, true, 7);
    assert_eq!(shaders.flags, 0b10);
    assert_eq!(shaders.correction_strength, 50_001);
    assert_eq!(shaders.width_ratio, 6);
}

#[test]
fn crosshair_takes_three_bits() {
    let mut shaders = ShaderState::new();
    enable_fov_correction(&mut shaders, true, 550_000, true, 916_331);
    set_crosshair(&mut shaders, CrosshairKind::Angled, (1_000_000, 2_000_000));
    assert_eq!(shaders.flags, 0b10111);
    assert_eq!(shaders.crosshair_scale_x, 1_000_000);
    assert_eq!(shaders.crosshair_scale_y, 2_000_000);
    set_crosshair(&mut shaders, CrosshairKind::Cross, (500_000, 500_000));
    assert_eq!(shaders.flags, 0b00111);
    set_crosshair(&mut shaders, CrosshairKind::Dot, (500_000, 500_000));
    assert_eq!(shaders.flags, 0b01011);
    set_crosshair(&mut shaders, CrosshairKind::Circle, (500_000, 500_000));
    assert_eq!(shaders.flags, 0b01111);
    set_crosshair(&mut shaders, CrosshairKind::CircleDot, (500_000, 500_000));
    assert_eq!(shaders.flags, 0b10011);
    set_crosshair(&mut shaders, CrosshairKind::Off, (500_000, 500_000));
    assert_eq!(shaders.flags, 0b00011);
    shaders.flags = 0xffff_ffff;
    set_crosshair(&mut shaders, CrosshairKind::Dot, (1, 1));
    assert_eq!(shaders.flags, 0xffff_ffeb);
}

#[test]
fn crosshair_kinds_are_numbered() {
    assert_eq!(CrosshairKind::Off.index(), 0);
    assert_eq!(CrosshairKind::Cross.index(), 1);
    assert_eq!(CrosshairKind::Dot.index(), 2);
    assert_eq!(CrosshairKind::Circle.index(), 3);
    assert_eq!(CrosshairKind::CircleDot.index(), 4);
    assert_eq!(CrosshairKind::Angled.index(), 5);
}

#[test]
fn fade_and_dithering_are_switched() {
    let mut shaders = ShaderState::new();
    enable_vfx_fade(&mut shaders, false);
    assert!(!shaders.vfx_fade);
    assert!(shaders.dithering);
    enable_dithering(&mut shaders, false);
    assert!(!shaders.dithering);
    enable_vfx_fade(&mut shaders, true);
    assert!(shaders.vfx_fade);
    assert!(!shaders.dithering);
    enable_dithering(&mut shaders, true);
    assert_eq!(shaders, ShaderState::new());
}

#[test]
fn pairs_are_packed_low_half_first() {
    assert_eq!(pack_pair(0, 0), 0);
    assert_eq!(pack_pair(1, 0), 1);
    assert_eq!(pack_pair(0, 1), 0x1_0000_0000);
    assert_eq!(pack_pair(0x3f0c_cccd, 0x3f6a_9a6c), 0x3f6a_9a6c_3f0c_cccd);
    assert_eq!(pack_pair(u32::MAX, u32::MAX), u64::MAX);
}

#[test]
fn addresses_are_picked_by_version() {
    let rva = Rva::new(0x1234, 0x5678);
    assert_eq!(rva.resolve(GameVersion::Ww), 0x1234);
    assert_eq!(rva.resolve(GameVersion::Jp), 0x5678);
}
