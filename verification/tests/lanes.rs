use slick_ricks_luge_lounge::Resolution;
use slick_ricks_luge_lounge::luge::{Lane, LaneLocation, Lanes, PlayerLane};
use slick_ricks_luge_lounge::settings;

#[test]
fn shift_left_absorbs_at_left_boundary() {
    assert_eq!(LaneLocation::Left.shift_left(), LaneLocation::Left);
}

#[test]
fn shift_right_absorbs_at_right_boundary() {
    assert_eq!(LaneLocation::Right.shift_right(), LaneLocation::Right);
}

#[test]
fn shift_transitions_between_lanes() {
    assert_eq!(LaneLocation::Center.shift_left(), LaneLocation::Left);
    assert_eq!(LaneLocation::Center.shift_right(), LaneLocation::Right);
    assert_eq!(LaneLocation::Left.shift_right(), LaneLocation::Center);
    assert_eq!(LaneLocation::Right.shift_left(), LaneLocation::Center);
}

#[test]
fn default_lane_is_center() {
    assert_eq!(LaneLocation::default(), LaneLocation::Center);
    assert_eq!(PlayerLane::default().0, LaneLocation::Center);
}

#[test]
fn settings_hd_lane_half_width_is_198() {
    let (left, right) = settings::Resolution::Hd.calculate_lanes();
    assert_eq!(left, -198);
    assert_eq!(right, 198);
}

#[test]
fn settings_lane_table_is_66_per_scale_step() {
    assert_eq!(settings::Resolution::Sd.calculate_lanes(), (-132, 132));
    assert_eq!(settings::Resolution::Hd.calculate_lanes(), (-198, 198));
    assert_eq!(settings::Resolution::Qhd.calculate_lanes(), (-264, 264));
    assert_eq!(settings::Resolution::Uhd.calculate_lanes(), (-330, 330));
}

#[test]
fn root_lane_table_is_61_per_scale_step() {
    assert_eq!(Resolution::Sd.calculate_lanes(), (-122, 122));
    assert_eq!(Resolution::Hd.calculate_lanes(), (-183, 183));
    assert_eq!(Resolution::Qhd.calculate_lanes(), (-244, 244));
    assert_eq!(Resolution::Uhd.calculate_lanes(), (-366, 366));
}

#[test]
fn x_for_settings_hd_left_is_minus_198() {
    let (left, right) = settings::Resolution::Hd.calculate_lanes();
    let lanes = Lanes {
        left: Lane { x: left },
        center: Lane { x: 0 },
        right: Lane { x: right },
    };
    assert_eq!(lanes.x_for(LaneLocation::Left), -198);
    assert_eq!(lanes.x_for(LaneLocation::Center), 0);
    assert_eq!(lanes.x_for(LaneLocation::Right), 198);
}

#[test]
fn lanes_init_reads_the_resolution() {
    let lanes = Lanes::init(&Resolution::Hd);
    assert_eq!(lanes.x_for(LaneLocation::Left), -183);
    assert_eq!(lanes.x_for(LaneLocation::Center), 0);
    assert_eq!(lanes.x_for(LaneLocation::Right), 183);
    let bigger = Lanes::init(&Resolution::Uhd);
    assert_eq!(bigger.x_for(LaneLocation::Left), -366);
}

#[test]
fn resolution_tables() {
    assert_eq!(Resolution::Sd.vec2(), (1280, 720));
    assert_eq!(Resolution::Hd.vec2(), (1920, 1080));
    assert_eq!(Resolution::Qhd.vec2(), (2560, 1440));
    assert_eq!(Resolution::Uhd.vec2(), (3840, 2160));
    assert_eq!(Resolution::Hd.scale(), 3);
    assert_eq!(Resolution::Uhd.scale(), 6);
    assert_eq!(settings::Resolution::Uhd.scale(), 5);
    assert_eq!(Resolution::Hd.label(), "1080p");
    assert_eq!(settings::Resolution::Uhd.label(), "4k");
    assert_eq!(Resolution::default().label(), "1080p");
}
