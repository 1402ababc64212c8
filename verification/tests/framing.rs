use erfps2::framing::{framing_offsets, head_upright, square_root, FramingOffsets};
use erfps2::stabilizer::Point3;

fn offsets(head_y: i64, camera_y: i64, camera_z: i64) -> FramingOffsets {
    FramingOffsets {
        world: Point3 { x: 0, y: 100_000, z: 0 },
        head: Point3 { x: 0, y: head_y, z: -50_000 },
        camera: Point3 { x: 0, y: camera_y, z: camera_z },
    }
}

#[test]
fn square_roots_are_rounded_down() {
    assert_eq!(square_root(0), 0);
    assert_eq!(square_root(1), 1);
    assert_eq!(square_root(3), 1);
    assert_eq!(square_root(4), 2);
    assert_eq!(square_root(1_000_000_000_000), 1_000_000);
    assert_eq!(square_root(840_846_000_000), 916_976);
    assert_eq!(square_root(u64::MAX), 4_294_967_295);
}

#[test]
fn level_head_is_fully_upright() {
    assert_eq!(head_upright(0), 1_000_000);
    assert_eq!(head_upright(1_000_000), 916_976);
    assert_eq!(head_upright(-1_000_000), 916_976);
    assert_eq!(head_upright(-1_570_796), 866_025);
    assert_eq!(head_upright(3_141_593), 707_106);
}

#[test]
fn head_that_has_turned_over_is_not_upright() {
    assert_eq!(head_upright(6_283_185), 1_000);
    assert_eq!(head_upright(6_283_186), 0);
    assert_eq!(head_upright(-6_283_186), 0);
    assert_eq!(head_upright(i64::MAX), 0);
    assert_eq!(head_upright(i64::MIN), 0);
}

#[test]
fn level_view_sits_above_and_behind_the_head() {
    assert_eq!(framing_offsets(0, 0), offsets(-100_000, 30_000, -25_000));
}

#[test]
fn pitching_camera_rises_and_moves_forward() {
    assert_eq!(framing_offsets(300_000, 0), offsets(-100_000, 40_000, 0));
    assert_eq!(framing_offsets(-300_000, 0), offsets(-100_000, 40_000, 0));
    assert_eq!(framing_offsets(1_570_796, 0), offsets(-100_000, 304_154, 105_899));
    assert_eq!(framing_offsets(100_000_000, 0), offsets(-100_000, 1_111_141_088, 8_308_333));
}

#[test]
fn offsets_fade_as_the_head_pitches() {
    assert_eq!(framing_offsets(-300_000, 1_000_000), offsets(-91_697, 36_679, 0));
    assert_eq!(framing_offsets(1_570_796, -1_570_796), offsets(-86_602, 263_404, 91_711));
    assert_eq!(framing_offsets(-100_000_000, 3_141_593), offsets(-70_710, 785_694_530, 5_874_872));
    assert_eq!(framing_offsets(0, 6_283_185), offsets(-100, 30, -25));
    assert_eq!(framing_offsets(0, 6_283_186), offsets(0, 0, 0));
    assert_eq!(framing_offsets(7, -9), offsets(-99_999, 29_999, -24_999));
}
