use udp_command_sender::pose::{
    pose_action, Field, PoseAction, SimStatus, Waypoint, ALTITUDE_STEP, ALTITUDE_UNITS_PER_METER,
    ANGLE_STEP, ANGLE_UNITS_PER_DEGREE, POSITION_STEP, POSITION_UNITS_PER_DEGREE,
};

fn eddm() -> SimStatus {
    SimStatus { lat: 4_836_196_100, lon: 1_175_035_300, alt: 2_100, yaw: 82, pitch: 0, roll: 0 }
}

fn lowi() -> SimStatus {
    SimStatus { lat: 4_725_899_000, lon: 1_133_090_000, alt: 2_100, yaw: 84, pitch: 0, roll: 0 }
}

fn tunnel() -> SimStatus {
    SimStatus { lat: 4_833_842_534, lon: 1_145_679_864, alt: 5_101, yaw: 84, pitch: 0, roll: 0 }
}

fn somewhere() -> SimStatus {
    SimStatus { lat: 11, lon: -22, alt: 33, yaw: -44, pitch: 55, roll: -66 }
}

#[test]
fn units_and_steps() {
    assert_eq!(POSITION_UNITS_PER_DEGREE, 100_000_000);
    assert_eq!(ALTITUDE_UNITS_PER_METER, 3);
    assert_eq!(ANGLE_UNITS_PER_DEGREE, 1);
    // 0.0005 degrees, 10 metres, 1 degree
    assert_eq!(POSITION_STEP * 2_000, POSITION_UNITS_PER_DEGREE);
    assert_eq!(ALTITUDE_STEP, 10 * ALTITUDE_UNITS_PER_METER);
    assert_eq!(ANGLE_STEP, ANGLE_UNITS_PER_DEGREE);
    assert_eq!(Field::Lat.step_size(), 50_000);
    assert_eq!(Field::Lon.step_size(), 50_000);
    assert_eq!(Field::Alt.step_size(), 30);
    assert_eq!(Field::Yaw.step_size(), 1);
    assert_eq!(Field::Pitch.step_size(), 1);
    assert_eq!(Field::Roll.step_size(), 1);
}

#[test]
fn waypoints_hold_their_poses() {
    assert_eq!(Waypoint::Eddm.pose(), eddm());
    assert_eq!(Waypoint::Lowi.pose(), lowi());
    assert_eq!(Waypoint::Tunnel.pose(), tunnel());
    assert_eq!(SimStatus::initial(), eddm());
}

#[test]
fn waypoints_in_floating_point() {
    let degrees = |units: i64| units as f64 / POSITION_UNITS_PER_DEGREE as f64;
    let meters = |units: i64| units as f64 / ALTITUDE_UNITS_PER_METER as f64;
    assert_eq!(degrees(eddm().lat), 48.361961);
    assert_eq!(degrees(eddm().lon), 11.750353);
    assert_eq!(meters(eddm().alt), 700.0);
    assert_eq!(degrees(lowi().lat), 47.25899);
    assert_eq!(degrees(lowi().lon), 11.33090);
    assert_eq!(meters(lowi().alt), 700.0);
    assert_eq!(degrees(tunnel().lat), 48.33842534);
    assert_eq!(degrees(tunnel().lon), 11.45679864);
    assert_eq!(meters(tunnel().alt), 5101.0 / 3.0);
}

#[test]
fn waypoint_keys_overwrite_the_whole_pose() {
    for (key, want) in [('1', eddm()), ('2', lowi()), ('3', tunnel())] {
        let mut pose = somewhere();
        assert!(pose.press(key));
        assert_eq!(pose, want);
        assert!(pose.press(key));
        assert_eq!(pose, want);
    }
}

#[test]
fn every_nudge_key_moves_one_field_by_its_step() {
    let base = somewhere();
    let expected = [
        ('w', SimStatus { lat: 11 + 50_000, ..base }),
        ('s', SimStatus { lat: 11 - 50_000, ..base }),
        ('d', SimStatus { lon: -22 + 50_000, ..base }),
        ('a', SimStatus { lon: -22 - 50_000, ..base }),
        ('e', SimStatus { alt: 33 + 30, ..base }),
        ('q', SimStatus { alt: 33 - 30, ..base }),
        ('i', SimStatus { yaw: -44 + 1, ..base }),
        ('k', SimStatus { yaw: -44 - 1, ..base }),
        ('l', SimStatus { pitch: 55 + 1, ..base }),
        ('j', SimStatus { pitch: 55 - 1, ..base }),
        ('o', SimStatus { roll: -66 + 1, ..base }),
        ('u', SimStatus { roll: -66 - 1, ..base }),
    ];
    for (key, want) in expected {
        let mut pose = base;
        assert!(pose.press(key));
        assert_eq!(pose, want, "key {}", key);
    }
}

#[test]
fn keys_without_effect_leave_the_pose() {
    for key in ['p', 'x', '0', '4', 'W', ' ', '+', 'z'] {
        let mut pose = somewhere();
        assert!(!pose.press(key));
        assert_eq!(pose, somewhere());
        assert_eq!(pose_action(key), None);
    }
}

#[test]
fn keys_map_to_actions() {
    assert_eq!(pose_action('1'), Some(PoseAction::Snap(Waypoint::Eddm)));
    assert_eq!(pose_action('2'), Some(PoseAction::Snap(Waypoint::Lowi)));
    assert_eq!(pose_action('3'), Some(PoseAction::Snap(Waypoint::Tunnel)));
    assert_eq!(pose_action('w'), Some(PoseAction::Nudge { field: Field::Lat, increase: true }));
    assert_eq!(pose_action('q'), Some(PoseAction::Nudge { field: Field::Alt, increase: false }));
    assert_eq!(pose_action('o'), Some(PoseAction::Nudge { field: Field::Roll, increase: true }));
}

#[test]
fn apply_carries_out_an_action() {
    let mut pose = eddm();
    pose.apply(PoseAction::Nudge { field: Field::Alt, increase: true });
    assert_eq!(pose.alt, 2_130);
    pose.apply(PoseAction::Nudge { field: Field::Yaw, increase: false });
    assert_eq!(pose.yaw, 81);
    pose.apply(PoseAction::Snap(Waypoint::Tunnel));
    assert_eq!(pose, tunnel());
}

#[test]
fn nudges_stop_at_the_ends_of_the_range() {
    let mut pose = SimStatus { lat: i64::MAX - 1, lon: i64::MIN + 7, alt: i64::MAX, yaw: i64::MIN, pitch: 0, roll: 0 };
    pose.press('w');
    assert_eq!(pose.lat, i64::MAX);
    pose.press('a');
    assert_eq!(pose.lon, i64::MIN);
    pose.press('e');
    assert_eq!(pose.alt, i64::MAX);
    pose.press('k');
    assert_eq!(pose.yaw, i64::MIN);
    pose.press('q');
    assert_eq!(pose.alt, i64::MAX - 30);
}

#[test]
fn a_step_up_and_a_step_down_cancel() {
    let mut pose = eddm();
    for key in ['w', 's', 'd', 'a', 'e', 'q', 'i', 'k', 'l', 'j', 'o', 'u'] {
        pose.press(key);
    }
    assert_eq!(pose, eddm());
}
