//! Properties of the per-peripheral handshake that span several callbacks.

use crate::battery::periph::{
    spec_next_counter, spec_on_vendor, spec_run_filter, Admission, PeriphState, VendorAction,
};
use crate::config::DeviceFilter;
use crate::battery::{spec_map_charging, spec_vendor_outcome, VendorOutcome};
use crate::hidpp::FrameShape;
use crate::state::ChargingState;
use crate::hidpp::{
    request_frame_round_trip, spec_charging_from_byte, ChargingStateRaw, spec_decode, spec_request_frame,
    FN_GET_BATTERY_LEVEL_STATUS, FN_GET_FEATURE, ROOT_FEATURE_INDEX,
};
use vstd::prelude::*;

verus! {

/// The battery-status handshake: when the device answers the pending
/// GetFeature request with a non-zero feature index, the feature index is
/// recorded, nothing stays pending, and a GetBatteryLevelStatus request for
/// that index goes out under the next software id; a later event from that
/// feature carrying a charging byte is then reported (for a device that
/// passed the filter) with the charging state that byte encodes.
pub proof fn battery_status_handshake(
    st: PeriphState,
    swid: u8,
    index: u8,
    p1: u8,
    event: Seq<u8>,
    after_answer: PeriphState,
    answer_action: VendorAction,
    after_event: PeriphState,
    event_action: VendorAction,
)
    requires
        st.wf(),
        st.pending_resolve_swid == Some(swid),
        1 <= swid <= 15,
        index != 0,
        spec_on_vendor(
            st,
            spec_request_frame(st.shape, ROOT_FEATURE_INDEX, FN_GET_FEATURE, swid, index, p1),
            after_answer,
            answer_action,
        ),
        spec_decode(st.shape, event) matches Some((fi, _f, sw, params)) && fi == index && sw == 0
            && params.len() >= 3,
        spec_on_vendor(after_answer, event, after_event, event_action),
    ensures
        after_answer.feature_index_1000 == Some(index),
        after_answer.pending_resolve_swid is None,
        after_answer.swid_counter == spec_next_counter(st.swid_counter),
        answer_action matches VendorAction::Write(f) && f@ == spec_request_frame(
            st.shape,
            index,
            FN_GET_BATTERY_LEVEL_STATUS,
            st.swid_counter,
            0,
            0,
        ),
        after_event == after_answer,
        st.connected_emitted ==> event_action == VendorAction::EmitCharging(
            spec_map_charging(spec_charging_from_byte(spec_decode(st.shape, event).unwrap().3[2])),
        ),
{
    request_frame_round_trip(st.shape, ROOT_FEATURE_INDEX, FN_GET_FEATURE, swid, index, p1);
    assert((swid & 0x0Fu8) as u8 == swid) by (bit_vector)
        requires
            1 <= swid <= 15,
    ;
}

/// Requests never carry the event software id: the GetFeature request sent
/// when a device passes the filter decodes with a non-zero software id (the
/// pending one), so the device's answer cannot be mistaken for an event.
pub proof fn resolve_request_is_not_an_event(
    st: PeriphState,
    filter: DeviceFilter,
    after: PeriphState,
    name: String,
    subscribe_battery: bool,
    frame: Vec<u8>,
)
    requires
        st.wf(),
        spec_run_filter(
            st,
            filter,
            after,
            Admission::Accepted { name, subscribe_battery, resolve_request: Some(frame) },
        ),
    ensures
        spec_decode(st.shape, frame@) matches Some((_fi, _f, swid, _p)) && swid != 0 && after.pending_resolve_swid
            == Some(swid),
        after.wf(),
{
    request_frame_round_trip(
        st.shape,
        ROOT_FEATURE_INDEX,
        FN_GET_FEATURE,
        st.swid_counter,
        (crate::hidpp::FEATURE_BATTERY_STATUS >> 8u16) as u8,
        (crate::hidpp::FEATURE_BATTERY_STATUS & 0xFFu16) as u8,
    );
    let c = st.swid_counter;
    assert((c & 0x0Fu8) as u8 == c) by (bit_vector)
        requires
            1 <= c <= 15,
    ;
}

/// The charging state reported for a battery event is the state its
/// charging byte names, over every byte: 0 discharging, 1 recharging, 2 the
/// final charging stage, 3 charge complete, and any other byte unknown. So a
/// device still in its final charging stage is never reported as fully
/// charged, nor the reverse.
pub proof fn charging_byte_names_the_reported_state(
    shape: FrameShape,
    bytes: Seq<u8>,
    expected_swid: u8,
    index: u8,
)
    requires
        spec_decode(shape, bytes) matches Some((fi, _f, sw, params)) && fi == index && sw == 0
            && params.len() >= 3,
    ensures
        ({
            let b = spec_decode(shape, bytes).unwrap().3[2];
            let (outcome, idx) = spec_vendor_outcome(shape, bytes, expected_swid, Some(index));
            &&& idx == Some(index)
            &&& outcome is Charging
            &&& (b == 0 <==> outcome == VendorOutcome::Charging(ChargingState::Discharging))
            &&& (b == 1 <==> outcome == VendorOutcome::Charging(ChargingState::Recharging))
            &&& (b == 2 <==> outcome == VendorOutcome::Charging(ChargingState::ChargeInFinalState))
            &&& (b == 3 <==> outcome == VendorOutcome::Charging(ChargingState::ChargeComplete))
            &&& (b > 3 <==> outcome == VendorOutcome::Charging(ChargingState::Unknown))
        }),
{
}

/// Mapping a raw charging state never merges two named states: distinct raw
/// states that are not both unrecognised map to distinct states, and each
/// named raw state maps to the library state of the same name.
pub proof fn raw_states_keep_their_names(a: ChargingStateRaw, b: ChargingStateRaw)
    ensures
        !(a is Other && b is Other) && a != b ==> spec_map_charging(a) != spec_map_charging(b),
        a is ChargeInFinalState <==> spec_map_charging(a) == ChargingState::ChargeInFinalState,
        a is ChargeComplete <==> spec_map_charging(a) == ChargingState::ChargeComplete,
        a is Recharging <==> spec_map_charging(a) == ChargingState::Recharging,
        a is Discharging <==> spec_map_charging(a) == ChargingState::Discharging,
        a is Other <==> spec_map_charging(a) == ChargingState::Unknown,
{
}

/// Any device that passes the filter is marked connected, with or without
/// the vendor pipe: afterwards its battery levels are reported (see
/// `on_battery_level`) and running the filter again no longer accepts it.
pub proof fn accepted_device_is_connected(
    st: PeriphState,
    filter: DeviceFilter,
    after: PeriphState,
    r: Admission,
    again_after: PeriphState,
    again: Admission,
)
    requires
        spec_run_filter(st, filter, after, r),
        r is Accepted,
        spec_run_filter(after, filter, again_after, again),
    ensures
        after.connected_emitted,
        !st.connected_emitted,
        again is AlreadyConnected,
        again_after == after,
{
}

} // verus!
