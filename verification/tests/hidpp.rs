use mxbattery::hidpp::{
    decode, decode_battery_status, encode_get_battery_level_status, encode_get_feature,
    ChargingStateRaw, FrameShape, HidppFrame,
};

const SHAPE: FrameShape = FrameShape::NoDevIdx18;

#[test]
fn encode_get_feature_18b_no_devidx() {
    let f = encode_get_feature(SHAPE, 0x1000, 0xE);
    assert_eq!(f.len(), 18);
    assert_eq!(&f[..4], &[0x00, 0x0E, 0x10, 0x00]);
    assert!(f[4..].iter().all(|b| *b == 0));
}

#[test]
fn encode_get_battery_level_status_18b_no_devidx() {
    let f = encode_get_battery_level_status(SHAPE, 0x08, 0xF);
    assert_eq!(f.len(), 18);
    assert_eq!(&f[..2], &[0x08, 0x0F]);
    assert!(f[2..].iter().all(|b| *b == 0));
}

#[test]
fn decode_get_feature_response() {
    let buf = hex::decode("000e0800010000000000000000000000000000").unwrap();
    let f = decode(SHAPE, &buf).unwrap();
    assert_eq!(f.feature_index, 0x00);
    assert_eq!(f.function, 0);
    assert_eq!(f.swid, 0xE);
    assert_eq!(f.params[0], 0x08);
}

#[test]
fn decode_unsolicited_event_swid_zero() {
    let buf = hex::decode("08006432000000000000000000000000000000").unwrap();
    let f = decode(SHAPE, &buf).unwrap();
    assert_eq!(f.feature_index, 0x08);
    assert_eq!(f.function, 0);
    assert_eq!(f.swid, 0);
    assert!(f.is_event());
    assert_eq!(f.params[0], 0x64);
    assert_eq!(f.params[1], 0x32);
    assert_eq!(f.params[2], 0x00);
}

#[test]
fn decode_short_buffer_returns_none() {
    let buf = vec![0u8; 1];
    assert!(decode(SHAPE, &buf).is_none());
}

#[test]
fn frame_lengths_per_shape() {
    assert_eq!(FrameShape::NoDevIdx18.frame_len(), 18);
    assert_eq!(FrameShape::WithDevIdx19.frame_len(), 19);
    assert_eq!(FrameShape::WithReportId20.frame_len(), 20);
}

#[test]
fn encode_get_feature_19b_has_device_index() {
    let f = encode_get_feature(FrameShape::WithDevIdx19, 0x1000, 3);
    assert_eq!(f.len(), 19);
    assert_eq!(&f[..5], &[0xFF, 0x00, 0x03, 0x10, 0x00]);
    assert!(f[5..].iter().all(|b| *b == 0));
}

#[test]
fn encode_get_feature_20b_has_report_id() {
    let f = encode_get_feature(FrameShape::WithReportId20, 0x1004, 0x1F);
    assert_eq!(f.len(), 20);
    assert_eq!(&f[..6], &[0x11, 0xFF, 0x00, 0x0F, 0x10, 0x04]);
    assert!(f[6..].iter().all(|b| *b == 0));
}

#[test]
fn encode_then_decode_round_trips() {
    for shape in [FrameShape::NoDevIdx18, FrameShape::WithDevIdx19, FrameShape::WithReportId20] {
        let f = encode_get_feature(shape, 0x1000, 7);
        let d = decode(shape, &f).unwrap();
        assert_eq!(d.feature_index, 0);
        assert_eq!(d.function, 0);
        assert_eq!(d.swid, 7);
        assert_eq!(&d.params[..2], &[0x10, 0x00]);
        assert_eq!(d.params.len(), shape.frame_len() - shape.featidx_off() - 2);
    }
}

#[test]
fn decode_keeps_every_trailing_byte() {
    let f = decode(FrameShape::WithDevIdx19, &[0xFF, 0x08, 0x21, 1, 2]).unwrap();
    assert_eq!(
        f,
        HidppFrame { feature_index: 0x08, function: 2, swid: 1, params: vec![1, 2] }
    );
    assert!(!f.is_event());
    assert!(decode(FrameShape::WithReportId20, &[0x11, 0xFF, 0x08]).is_none());
}

#[test]
fn charging_bytes_map_to_states() {
    assert_eq!(ChargingStateRaw::from_byte(0), ChargingStateRaw::Discharging);
    assert_eq!(ChargingStateRaw::from_byte(1), ChargingStateRaw::Recharging);
    assert_eq!(ChargingStateRaw::from_byte(2), ChargingStateRaw::ChargeInFinalState);
    assert_eq!(ChargingStateRaw::from_byte(3), ChargingStateRaw::ChargeComplete);
    assert_eq!(ChargingStateRaw::from_byte(9), ChargingStateRaw::Other(9));
}

#[test]
fn battery_status_needs_three_bytes() {
    assert_eq!(decode_battery_status(&[50, 40]), None);
    assert_eq!(
        decode_battery_status(&[50, 40, 1, 7]),
        Some((50, 40, ChargingStateRaw::Recharging))
    );
}
