use udp_command_sender::frame::{encode_frame, PoseRecord, FRAME_LEN, FRAME_TAG, PADDING_LEN};
use udp_command_sender::pose::{
    SimStatus, Waypoint, ALTITUDE_UNITS_PER_METER, ANGLE_UNITS_PER_DEGREE,
    POSITION_UNITS_PER_DEGREE,
};

fn record_of(pose: &SimStatus) -> PoseRecord {
    let deg_to_rad = 3.1415926 / 180.0;
    let position = |units: i64| units as f64 / POSITION_UNITS_PER_DEGREE as f64;
    let angle = |units: i64| units as f64 / ANGLE_UNITS_PER_DEGREE as f64;
    PoseRecord {
        lat_radians: (position(pose.lat) * deg_to_rad).to_bits(),
        lon_radians: (position(pose.lon) * deg_to_rad).to_bits(),
        alt_meters: (pose.alt as f64 / ALTITUDE_UNITS_PER_METER as f64).to_bits(),
        roll_radians: (angle(pose.roll) * deg_to_rad).to_bits(),
        pitch_radians: (angle(pose.pitch) * deg_to_rad).to_bits(),
        yaw_radians: (angle(pose.yaw) * deg_to_rad).to_bits(),
    }
}

fn by_hand(lat: f64, lon: f64, alt: f64, roll: f64, pitch: f64, yaw: f64) -> Vec<u8> {
    let deg_to_rad = 3.1415926 / 180.0;
    let mut cmd = vec![0u8];
    cmd.extend((lat * deg_to_rad).to_le_bytes());
    cmd.extend((lon * deg_to_rad).to_le_bytes());
    cmd.extend(alt.to_le_bytes());
    cmd.extend((roll * deg_to_rad).to_le_bytes());
    cmd.extend((pitch * deg_to_rad).to_le_bytes());
    cmd.extend((yaw * deg_to_rad).to_le_bytes());
    cmd.extend([0u8; 6]);
    cmd
}

#[test]
fn frame_constants() {
    assert_eq!(FRAME_LEN, 55);
    assert_eq!(FRAME_LEN, 1 + 6 * 8 + PADDING_LEN);
    assert_eq!(FRAME_TAG, 0);
}

#[test]
fn eddm_frame_has_tag_and_padding() {
    let mut pose = SimStatus { lat: 1, lon: 2, alt: 3, yaw: 4, pitch: 5, roll: 6 };
    pose.press('1');
    let frame = encode_frame(&record_of(&pose));
    assert_eq!(frame.len(), 55);
    assert_eq!(frame[0], 0x00);
    assert_eq!(&frame[49..55], &[0u8; 6]);
    assert_eq!(frame, by_hand(48.361961, 11.750353, 700.0, 0.0, 0.0, 82.0));
}

#[test]
fn other_waypoints_frame_like_their_constants() {
    let lowi = encode_frame(&record_of(&Waypoint::Lowi.pose()));
    assert_eq!(lowi, by_hand(47.25899, 11.33090, 700.0, 0.0, 0.0, 84.0));
    let tunnel = encode_frame(&record_of(&Waypoint::Tunnel.pose()));
    assert_eq!(tunnel, by_hand(48.33842534, 11.45679864, 5101.0 / 3.0, 0.0, 0.0, 84.0));
}

#[test]
fn fields_travel_in_order_least_significant_byte_first() {
    let record = PoseRecord {
        lat_radians: 0x0102030405060708,
        lon_radians: 0x1112131415161718,
        alt_meters: 0x2122232425262728,
        roll_radians: 0x3132333435363738,
        pitch_radians: 0x4142434445464748,
        yaw_radians: 0x5152535455565758,
    };
    let frame = encode_frame(&record);
    let mut want = vec![0u8];
    for high in 0u8..6 {
        for low in (1u8..9).rev() {
            want.push(high * 16 + low);
        }
    }
    want.extend([0u8; 6]);
    assert_eq!(frame, want);
}

#[test]
fn every_frame_is_55_bytes_long() {
    let samples = [0u64, 1, u64::MAX, 0x7ff0000000000000, 0xfff8000000000001, 0x8000000000000000];
    for a in samples {
        for b in samples {
            let record = PoseRecord {
                lat_radians: a,
                lon_radians: b,
                alt_meters: a ^ b,
                roll_radians: b,
                pitch_radians: a,
                yaw_radians: !a,
            };
            let frame = encode_frame(&record);
            assert_eq!(frame.len(), FRAME_LEN);
            assert_eq!(frame[0], FRAME_TAG);
            assert!(frame[49..].iter().all(|byte| *byte == 0));
            assert_eq!(&frame[1..9], &a.to_le_bytes());
            assert_eq!(&frame[9..17], &b.to_le_bytes());
            assert_eq!(&frame[41..49], &(!a).to_le_bytes());
        }
    }
}
