//! Battery events and the handling of bytes received on the HID++ vendor
//! characteristic.

pub mod laws;
pub mod periph;

use crate::hidpp::{
    self, spec_decode, spec_decode_battery_status, ChargingStateRaw, FrameShape, FN_GET_FEATURE,
    ROOT_FEATURE_INDEX,
};
use crate::state::ChargingState;
use vstd::prelude::*;

verus! {

/// An event a battery backend reports.
#[derive(Clone, Debug)]
pub enum BatteryEvent {
    Connected { name: String },
    Percent(u8),
    Charging(ChargingState),
    Disconnected,
}

/// What a vendor-characteristic payload meant.
#[derive(Clone, Copy, Debug, PartialEq, Eq, Structural)]
pub enum VendorOutcome {
    /// A GetFeature response resolved the battery-status feature to this index.
    ResolvedBatteryStatusFeature(u8),
    /// A battery-status event reported this charging state.
    Charging(ChargingState),
    Ignored,
}

pub open spec fn spec_map_charging(raw: ChargingStateRaw) -> ChargingState {
    match raw {
        ChargingStateRaw::Discharging => ChargingState::Discharging,
        ChargingStateRaw::Recharging => ChargingState::Recharging,
        ChargingStateRaw::ChargeInFinalState => ChargingState::ChargeInFinalState,
        ChargingStateRaw::ChargeComplete => ChargingState::ChargeComplete,
        ChargingStateRaw::Other(_) => ChargingState::Unknown,
    }
}

pub fn map_charging(raw: ChargingStateRaw) -> (s: ChargingState)
    ensures
        s == spec_map_charging(raw),
        raw is Discharging <==> s == ChargingState::Discharging,
        raw is Recharging <==> s == ChargingState::Recharging,
        raw is ChargeInFinalState <==> s == ChargingState::ChargeInFinalState,
        raw is ChargeComplete <==> s == ChargingState::ChargeComplete,
        raw is Other <==> s == ChargingState::Unknown,
{
    match raw {
        ChargingStateRaw::Discharging => ChargingState::Discharging,
        ChargingStateRaw::Recharging => ChargingState::Recharging,
        ChargingStateRaw::ChargeInFinalState => ChargingState::ChargeInFinalState,
        ChargingStateRaw::ChargeComplete => ChargingState::ChargeComplete,
        ChargingStateRaw::Other(_) => ChargingState::Unknown,
    }
}

/// The meaning of `bytes` and the battery-status feature index afterwards:
/// - an event (software id 0) addressed to the known battery-status feature
///   with at least three parameter bytes reports a charging state;
/// - a root GetFeature response carrying the expected software id and a
///   non-zero index resolves the battery-status feature to that index;
/// - anything else (including an undecodable buffer) is ignored.
pub open spec fn spec_vendor_outcome(
    shape: FrameShape,
    bytes: Seq<u8>,
    expected_swid: u8,
    feature_index: Option<u8>,
) -> (VendorOutcome, Option<u8>) {
    match spec_decode(shape, bytes) {
        None => (VendorOutcome::Ignored, feature_index),
        Some((fi, function, swid, params)) => if swid == 0 {
            if feature_index == Some(fi) && spec_decode_battery_status(params) is Some {
                (
                    VendorOutcome::Charging(
                        spec_map_charging(spec_decode_battery_status(params).unwrap().2),
                    ),
                    feature_index,
                )
            } else {
                (VendorOutcome::Ignored, feature_index)
            }
        } else if fi == ROOT_FEATURE_INDEX && function == FN_GET_FEATURE && swid == expected_swid
            && params.len() > 0 && params[0] != 0 {
            (VendorOutcome::ResolvedBatteryStatusFeature(params[0]), Some(params[0]))
        } else {
            (VendorOutcome::Ignored, feature_index)
        },
    }
}

pub fn handle_vendor_bytes(
    shape: FrameShape,
    bytes: &[u8],
    expected_swid_for_resolve: u8,
    feature_index_1000: &mut Option<u8>,
) -> (r: VendorOutcome)
    ensures
        (r, *final(feature_index_1000)) == spec_vendor_outcome(
            shape,
            bytes@,
            expected_swid_for_resolve,
            *old(feature_index_1000),
        ),
{
    let frame = match hidpp::decode(shape, bytes) {
        Some(f) => f,
        None => return VendorOutcome::Ignored,
    };
    if frame.is_event() {
        let known = match *feature_index_1000 {
            Some(i) => i == frame.feature_index,
            None => false,
        };
        if known {
            if let Some((_, _, raw)) = hidpp::decode_battery_status(frame.params.as_slice()) {
                return VendorOutcome::Charging(map_charging(raw));
            }
        }
        return VendorOutcome::Ignored;
    }
    if frame.feature_index == ROOT_FEATURE_INDEX && frame.function == FN_GET_FEATURE && frame.swid
        == expected_swid_for_resolve {
        let resolved = if frame.params.len() > 0 {
            frame.params[0]
        } else {
            0
        };
        if resolved != 0 {
            *feature_index_1000 = Some(resolved);
            return VendorOutcome::ResolvedBatteryStatusFeature(resolved);
        }
    }
    VendorOutcome::Ignored
}

} // verus!
