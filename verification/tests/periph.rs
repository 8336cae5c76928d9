use mxbattery::battery::periph::{
    char_kind, model_text, next_swid, service_kind, Admission, CharKind, PeriphState,
    ServiceKind, VendorAction,
};
use mxbattery::config::DeviceFilter;
use mxbattery::hidpp::{encode_get_battery_level_status, encode_get_feature, FrameShape};
use mxbattery::state::ChargingState;

fn discovered() -> PeriphState {
    let mut st = PeriphState::new("ID-1".into(), "MX Master 3".into(), false);
    st.services_discovered(&[
        ServiceKind::Battery,
        ServiceKind::DeviceInformation,
        ServiceKind::LogitechVendor,
        ServiceKind::Other,
    ]);
    assert!(st.probe.has_logitech_vendor_service);
    assert_eq!(st.expected_services, 3);
    for (svc, ch) in [
        (ServiceKind::Battery, CharKind::BatteryLevel),
        (ServiceKind::DeviceInformation, CharKind::ModelNumber),
        (ServiceKind::DeviceInformation, CharKind::PnpId),
        (ServiceKind::LogitechVendor, CharKind::VendorPipe),
    ] {
        assert_eq!(st.record_characteristic(svc, ch), Some(ch));
    }
    assert_eq!(st.finish_service(ServiceKind::Battery), None);
    assert_eq!(st.finish_service(ServiceKind::DeviceInformation), None);
    let reads = st.finish_service(ServiceKind::LogitechVendor).unwrap();
    assert!(reads.model_number && reads.pnp_id);
    st
}

#[test]
fn uuids_classify_ignoring_case() {
    assert_eq!(service_kind("180f"), ServiceKind::Battery);
    assert_eq!(service_kind("180A"), ServiceKind::DeviceInformation);
    assert_eq!(
        service_kind("00010000-0000-1000-8000-011f2000046d"),
        ServiceKind::LogitechVendor
    );
    assert_eq!(service_kind("1812"), ServiceKind::Other);
    assert_eq!(char_kind("2a19"), CharKind::BatteryLevel);
    assert_eq!(char_kind("2A24"), CharKind::ModelNumber);
    assert_eq!(char_kind("2A50"), CharKind::PnpId);
    assert_eq!(char_kind("00010001-0000-1000-8000-011F2000046D"), CharKind::VendorPipe);
    assert_eq!(char_kind("2A25"), CharKind::Other);
}

#[test]
fn characteristic_in_wrong_service_fills_no_slot() {
    let mut st = PeriphState::new("x".into(), "y".into(), false);
    assert_eq!(st.record_characteristic(ServiceKind::Battery, CharKind::ModelNumber), None);
    assert!(!st.has_model_number);
}

#[test]
fn swid_counter_cycles_one_to_fifteen() {
    let mut c = 14u8;
    assert_eq!(next_swid(&mut c), 14);
    assert_eq!(next_swid(&mut c), 15);
    assert_eq!(c, 1);
    assert_eq!(next_swid(&mut c), 1);
    assert_eq!(c, 2);
}

#[test]
fn model_text_strips_trailing_nuls_and_rejects_bad_utf8() {
    assert_eq!(model_text(b"MX Master 3\0\0"), "MX Master 3");
    assert_eq!(model_text(b"MX\0 3"), "MX\0 3");
    assert_eq!(model_text(&[0xFF, 0xFE]), "");
    assert_eq!(model_text(b""), "");
}

#[test]
fn filter_runs_once_both_infos_landed_then_handshake() {
    let mut st = discovered();
    let filter = DeviceFilter::AnyMx;
    assert!(matches!(st.on_model_number(b"MX Master 3\0", &filter), Admission::Pending));
    assert!(matches!(st.on_pnp_id(&[2, 0x6D], &filter), Admission::Pending));
    match st.on_pnp_id(&[2, 0x6D, 0x04, 0x23, 0xB0, 0x01, 0x00], &filter) {
        Admission::Accepted { name, subscribe_battery, resolve_request } => {
            assert_eq!(name, "MX Master 3");
            assert!(subscribe_battery);
            assert_eq!(
                resolve_request.unwrap(),
                encode_get_feature(FrameShape::NoDevIdx18, 0x1000, 1)
            );
        }
        other => panic!("unexpected {:?}", other),
    }
    assert_eq!(st.probe.pnp_vid, Some(0x046D));
    assert_eq!(st.probe.pnp_pid, Some(0xB023));
    assert!(st.connected_emitted);
    assert_eq!(st.pending_resolve_swid, Some(1));
    assert!(matches!(st.on_model_number(b"MX Master 3", &filter), Admission::AlreadyConnected));

    // The device answers the GetFeature with index 8.
    let answer = hex::decode("00010800010000000000000000000000000000").unwrap();
    match st.on_vendor_value(&answer) {
        VendorAction::Write(f) => {
            assert_eq!(f, encode_get_battery_level_status(FrameShape::NoDevIdx18, 8, 2))
        }
        other => panic!("unexpected {:?}", other),
    }
    assert_eq!(st.feature_index_1000, Some(8));
    assert_eq!(st.pending_resolve_swid, None);

    let event = hex::decode("08003200010000000000000000000000000000").unwrap();
    assert!(matches!(
        st.on_vendor_value(&event),
        VendorAction::EmitCharging(ChargingState::Recharging)
    ));
    assert_eq!(st.on_battery_level(&[120]), Some(100));
    assert_eq!(st.on_battery_level(&[42, 1]), Some(42));
    assert_eq!(st.on_battery_level(&[]), None);
}

#[test]
fn rejected_device_reports_nothing() {
    let mut st = discovered();
    let filter = DeviceFilter::AnyMx;
    assert!(matches!(st.on_model_number(b"AirPods Pro", &filter), Admission::Pending));
    assert!(matches!(
        st.on_pnp_id(&[1, 0x4C, 0x00, 0x14, 0x20], &filter),
        Admission::Rejected
    ));
    assert!(!st.connected_emitted);
    assert_eq!(st.on_battery_level(&[50]), None);
    let event = hex::decode("08003200010000000000000000000000000000").unwrap();
    assert!(matches!(st.on_vendor_value(&event), VendorAction::Nothing));
}

#[test]
fn write_errors_walk_the_frame_shapes() {
    let mut st = discovered();
    assert_eq!(st.on_write_error(5), None);
    assert_eq!(st.shape, FrameShape::NoDevIdx18);
    let f = st.on_write_error(13).unwrap();
    assert_eq!(st.shape, FrameShape::WithDevIdx19);
    assert_eq!(f, encode_get_feature(FrameShape::WithDevIdx19, 0x1000, 1));
    assert_eq!(st.pending_resolve_swid, Some(1));
    let f = st.on_write_error(13).unwrap();
    assert_eq!(st.shape, FrameShape::WithReportId20);
    assert_eq!(f, encode_get_feature(FrameShape::WithReportId20, 0x1000, 2));
    assert_eq!(st.on_write_error(13), None);
    assert_eq!(st.shape, FrameShape::WithReportId20);
    assert_eq!(st.pending_resolve_swid, None);
}

#[test]
fn empty_vendor_payload_is_ignored() {
    let mut st = discovered();
    assert!(matches!(st.on_vendor_value(&[]), VendorAction::Nothing));
}
