//! Per-peripheral progress through discovery, filtering and the HID++
//! battery-status handshake. A CoreBluetooth delegate feeds each callback in
//! as a method call and performs the action that comes back.

use crate::battery::{handle_vendor_bytes, spec_vendor_outcome, VendorOutcome};
use crate::config::DeviceFilter;
use crate::device_filter::{spec_matches, DeviceProbe};
use crate::hidpp::{
    encode_get_battery_level_status, encode_get_feature, spec_request_frame, FrameShape,
    FEATURE_BATTERY_STATUS, FN_GET_BATTERY_LEVEL_STATUS, FN_GET_FEATURE, ROOT_FEATURE_INDEX,
};
use crate::state::ChargingState;
use crate::text::{eq_ascii_ci, eq_ignore_ascii_case};
use vstd::prelude::*;
use vstd::utf8::{decode_utf8, valid_utf8};

verus! {

pub const UUID_180F: &'static str = "180F";

pub const UUID_180A: &'static str = "180A";

pub const UUID_VENDOR_SVC: &'static str = "00010000-0000-1000-8000-011F2000046D";

pub const UUID_2A19: &'static str = "2A19";

pub const UUID_2A24: &'static str = "2A24";

pub const UUID_2A50: &'static str = "2A50";

pub const UUID_VENDOR_CHAR: &'static str = "00010001-0000-1000-8000-011F2000046D";

/// ATT error "invalid attribute value length", which a device answers when a
/// frame has the wrong shape.
pub const ATT_ERROR_INVALID_LENGTH: isize = 13;

/// The GATT services of interest.
#[derive(Clone, Copy, Debug, PartialEq, Eq, Structural)]
pub enum ServiceKind {
    Battery,
    DeviceInformation,
    LogitechVendor,
    Other,
}

/// The GATT characteristics of interest.
#[derive(Clone, Copy, Debug, PartialEq, Eq, Structural)]
pub enum CharKind {
    BatteryLevel,
    ModelNumber,
    PnpId,
    VendorPipe,
    Other,
}

pub open spec fn spec_service_kind(uuid: Seq<char>) -> ServiceKind {
    if eq_ascii_ci(uuid, UUID_180F@) {
        ServiceKind::Battery
    } else if eq_ascii_ci(uuid, UUID_180A@) {
        ServiceKind::DeviceInformation
    } else if eq_ascii_ci(uuid, UUID_VENDOR_SVC@) {
        ServiceKind::LogitechVendor
    } else {
        ServiceKind::Other
    }
}

/// Classifies a service UUID string, ignoring ASCII case.
pub fn service_kind(uuid: &str) -> (k: ServiceKind)
    ensures
        k == spec_service_kind(uuid@),
{
    if eq_ignore_ascii_case(uuid, UUID_180F) {
        ServiceKind::Battery
    } else if eq_ignore_ascii_case(uuid, UUID_180A) {
        ServiceKind::DeviceInformation
    } else if eq_ignore_ascii_case(uuid, UUID_VENDOR_SVC) {
        ServiceKind::LogitechVendor
    } else {
        ServiceKind::Other
    }
}

pub open spec fn spec_char_kind(uuid: Seq<char>) -> CharKind {
    if eq_ascii_ci(uuid, UUID_2A19@) {
        CharKind::BatteryLevel
    } else if eq_ascii_ci(uuid, UUID_2A24@) {
        CharKind::ModelNumber
    } else if eq_ascii_ci(uuid, UUID_2A50@) {
        CharKind::PnpId
    } else if eq_ascii_ci(uuid, UUID_VENDOR_CHAR@) {
        CharKind::VendorPipe
    } else {
        CharKind::Other
    }
}

/// Classifies a characteristic UUID string, ignoring ASCII case.
pub fn char_kind(uuid: &str) -> (k: CharKind)
    ensures
        k == spec_char_kind(uuid@),
{
    if eq_ignore_ascii_case(uuid, UUID_2A19) {
        CharKind::BatteryLevel
    } else if eq_ignore_ascii_case(uuid, UUID_2A24) {
        CharKind::ModelNumber
    } else if eq_ignore_ascii_case(uuid, UUID_2A50) {
        CharKind::PnpId
    } else if eq_ignore_ascii_case(uuid, UUID_VENDOR_CHAR) {
        CharKind::VendorPipe
    } else {
        CharKind::Other
    }
}

/// Which stored characteristic a discovered one fills, if any: the battery
/// level of the battery service, model number and PnP id of the device
/// information service, and the HID++ pipe of the vendor service.
pub open spec fn spec_char_slot(service: ServiceKind, c: CharKind) -> Option<CharKind> {
    if (service == ServiceKind::Battery && c == CharKind::BatteryLevel) || (service
        == ServiceKind::DeviceInformation && (c == CharKind::ModelNumber || c == CharKind::PnpId))
        || (service == ServiceKind::LogitechVendor && c == CharKind::VendorPipe) {
        Some(c)
    } else {
        None
    }
}

/// Software ids cycle through 1..=15; 0 is reserved for device events.
pub open spec fn spec_next_counter(counter: u8) -> u8 {
    if counter >= 15 {
        1
    } else {
        (counter + 1) as u8
    }
}

/// Returns the current software id and advances the counter, wrapping 15 back
/// to 1.
pub fn next_swid(counter: &mut u8) -> (swid: u8)
    ensures
        swid == *old(counter),
        *final(counter) == spec_next_counter(*old(counter)),
{
    let swid = *counter;
    *counter = if swid >= 15 {
        1
    } else {
        swid + 1
    };
    swid
}

/// The shape tried after `shape`, or `None` once all three were tried.
pub open spec fn spec_next_shape(shape: FrameShape) -> Option<FrameShape> {
    match shape {
        FrameShape::NoDevIdx18 => Some(FrameShape::WithDevIdx19),
        FrameShape::WithDevIdx19 => Some(FrameShape::WithReportId20),
        FrameShape::WithReportId20 => None,
    }
}

/// Number of known (non-`Other`) services in `s`.
pub open spec fn count_known(s: Seq<ServiceKind>) -> nat
    decreases s.len(),
{
    if s.len() == 0 {
        0
    } else {
        count_known(s.drop_last()) + if s.last() != ServiceKind::Other {
            1nat
        } else {
            0nat
        }
    }
}

/// Device-information reads to issue once every service reported its
/// characteristics.
#[derive(Clone, Copy, Debug, PartialEq, Eq, Structural)]
pub struct InfoReads {
    pub model_number: bool,
    pub pnp_id: bool,
}

/// What to do with a vendor-pipe payload.
#[derive(Clone, Debug)]
pub enum VendorAction {
    /// Write this frame to the vendor pipe.
    Write(Vec<u8>),
    /// Report this charging state.
    EmitCharging(ChargingState),
    Nothing,
}

/// What a device-information value led to.
#[derive(Clone, Debug)]
pub enum Admission {
    /// The value was unusable or the other device-information value is
    /// still missing.
    Pending,
    /// The device already passed the filter earlier.
    AlreadyConnected,
    /// The device does not pass the filter.
    Rejected,
    /// The device passed the filter: report `Connected { name }`, subscribe
    /// to (and read) the battery level when present, and write
    /// `resolve_request` to the vendor pipe when present.
    Accepted { name: String, subscribe_battery: bool, resolve_request: Option<Vec<u8>> },
}

/// All mutable state for a single connected peripheral.
pub struct PeriphState {
    pub id: String,
    pub name: String,
    /// How many of the expected services the peripheral advertised.
    pub expected_services: usize,
    /// How many of the expected services completed characteristic discovery.
    pub services_done: usize,
    /// Whether the device passed the filter and `Connected` was reported.
    pub connected_emitted: bool,
    pub has_battery_level: bool,
    pub has_model_number: bool,
    pub has_pnp_id: bool,
    pub has_vendor_pipe: bool,
    pub probe: DeviceProbe,
    pub shape: FrameShape,
    pub feature_index_1000: Option<u8>,
    pub swid_counter: u8,
    pub pending_resolve_swid: Option<u8>,
}

/// `std::str::from_utf8`: `Some` exactly for valid UTF-8, holding the
/// decoded characters (as `vstd::utf8` defines validity and decoding).
#[verifier::external_body]
fn utf8_to_str(bytes: &[u8]) -> (r: Option<&str>)
    ensures
        r is Some <==> valid_utf8(bytes@),
        r matches Some(s) ==> s@ == decode_utf8(bytes@),
{
    std::str::from_utf8(bytes).ok()
}

/// `s` without its trailing NUL characters.
pub open spec fn strip_trailing_nul(s: Seq<char>) -> Seq<char>
    decreases s.len(),
{
    if s.len() > 0 && s.last() == '\0' {
        strip_trailing_nul(s.drop_last())
    } else {
        s
    }
}

/// The model number carried by a Model Number String value: the UTF-8 text
/// without trailing NULs, or the empty string when it is not valid UTF-8.
pub open spec fn spec_model_text(bytes: Seq<u8>) -> Seq<char> {
    if valid_utf8(bytes) {
        strip_trailing_nul(decode_utf8(bytes))
    } else {
        Seq::empty()
    }
}

proof fn lemma_strip_prefix(s: Seq<char>, k: int)
    requires
        0 <= k <= s.len(),
        forall|j: int| k <= j < s.len() ==> s[j] == '\0',
    ensures
        strip_trailing_nul(s) == strip_trailing_nul(s.subrange(0, k)),
    decreases s.len() - k,
{
    if k < s.len() {
        assert(s.drop_last() =~= s.subrange(0, s.len() - 1));
        assert(s.subrange(0, s.len() - 1).subrange(0, k) =~= s.subrange(0, k));
        lemma_strip_prefix(s.subrange(0, s.len() - 1), k);
    } else {
        assert(s.subrange(0, k) =~= s);
    }
}

pub fn model_text(bytes: &[u8]) -> (m: String)
    ensures
        m@ == spec_model_text(bytes@),
{
    match utf8_to_str(bytes) {
        Some(s) => {
            let mut k = s.unicode_len();
            while k > 0 && s.get_char(k - 1) == '\0'
                invariant
                    k <= s@.len(),
                    forall|j: int| k <= j < s@.len() ==> s@[j] == '\0',
                decreases k,
            {
                k = k - 1;
            }
            proof {
                lemma_strip_prefix(s@, k as int);
                let p = s@.subrange(0, k as int);
                if p.len() > 0 {
                    assert(p.last() != '\0');
                }
            }
            String::from_str(s.substring_char(0, k))
        },
        None => String::new(),
    }
}

/// The state and action after a vendor-pipe payload: an empty payload is
/// ignored; otherwise the payload is dispatched with the pending resolve
/// software id (0 when none is pending) as the expected one. A resolution
/// clears the pending id, records the feature index and answers with a
/// GetBatteryLevelStatus request under the current software id; a charging
/// event is reported only for a device that passed the filter.
pub open spec fn spec_on_vendor(st: PeriphState, payload: Seq<u8>, after: PeriphState, a: VendorAction) -> bool {
    if payload.len() == 0 {
        after == st && a is Nothing
    } else {
        let expected = match st.pending_resolve_swid {
            Some(s) => s,
            None => 0u8,
        };
        let (outcome, idx) = spec_vendor_outcome(st.shape, payload, expected, st.feature_index_1000);
        match outcome {
            VendorOutcome::ResolvedBatteryStatusFeature(fi) => {
                &&& after == (PeriphState {
                    feature_index_1000: idx,
                    pending_resolve_swid: None,
                    swid_counter: spec_next_counter(st.swid_counter),
                    ..st
                })
                &&& a matches VendorAction::Write(f) && f@ == spec_request_frame(
                    st.shape,
                    fi,
                    FN_GET_BATTERY_LEVEL_STATUS,
                    st.swid_counter,
                    0,
                    0,
                )
            },
            VendorOutcome::Charging(c) => after == st && if st.connected_emitted {
                a == VendorAction::EmitCharging(c)
            } else {
                a is Nothing
            },
            VendorOutcome::Ignored => after == st && a is Nothing,
        }
    }
}

/// The outcome of running the filter on `st`:
/// - `Pending` until model number, vendor id and product id are all known;
/// - `AlreadyConnected` when the device passed before;
/// - `Rejected` when it does not pass `filter`;
/// - otherwise `Accepted`, the device marked connected, and, when it has the
///   vendor pipe, a GetFeature(0x1000) request under the current software id,
///   which becomes the pending resolve id.
pub open spec fn spec_run_filter(st: PeriphState, filter: DeviceFilter, after: PeriphState, r: Admission) -> bool {
    if st.probe.model_number is None || st.probe.pnp_vid is None || st.probe.pnp_pid is None {
        r is Pending && after == st
    } else if st.connected_emitted {
        r is AlreadyConnected && after == st
    } else if !spec_matches(filter, st.probe) {
        r is Rejected && after == st
    } else {
        r matches Admission::Accepted { name, subscribe_battery, resolve_request } && name
            == st.name && subscribe_battery == st.has_battery_level && if st.has_vendor_pipe {
            &&& after == (PeriphState {
                connected_emitted: true,
                pending_resolve_swid: Some(st.swid_counter),
                swid_counter: spec_next_counter(st.swid_counter),
                ..st
            })
            &&& resolve_request matches Some(f) && f@ == spec_request_frame(
                st.shape,
                ROOT_FEATURE_INDEX,
                FN_GET_FEATURE,
                st.swid_counter,
                (FEATURE_BATTERY_STATUS >> 8u16) as u8,
                (FEATURE_BATTERY_STATUS & 0xFFu16) as u8,
            )
        } else {
            after == (PeriphState { connected_emitted: true, ..st }) && resolve_request is None
        }
    }
}

impl PeriphState {
    /// The software-id counter stays within 1..=15.
    pub open spec fn wf(&self) -> bool {
        1 <= self.swid_counter <= 15
    }

    pub fn new(id: String, name: String, has_vendor_svc: bool) -> (s: Self)
        ensures
            s.wf(),
            s.id == id,
            s.name == name,
            s.probe.peripheral_identifier == id,
            s.probe.model_number is None,
            s.probe.pnp_vid is None,
            s.probe.pnp_pid is None,
            s.probe.has_logitech_vendor_service == has_vendor_svc,
            s.expected_services == 0,
            s.services_done == 0,
            !s.connected_emitted,
            !s.has_battery_level && !s.has_model_number && !s.has_pnp_id && !s.has_vendor_pipe,
            s.shape == FrameShape::NoDevIdx18,
            s.feature_index_1000 is None,
            s.swid_counter == 1,
            s.pending_resolve_swid is None,
    {
        let pid = id.clone();
        PeriphState {
            probe: DeviceProbe {
                peripheral_identifier: pid,
                model_number: None,
                pnp_vid: None,
                pnp_pid: None,
                has_logitech_vendor_service: has_vendor_svc,
            },
            id,
            name,
            expected_services: 0,
            services_done: 0,
            connected_emitted: false,
            has_battery_level: false,
            has_model_number: false,
            has_pnp_id: false,
            has_vendor_pipe: false,
            shape: FrameShape::NoDevIdx18,
            feature_index_1000: None,
            swid_counter: 1,
            pending_resolve_swid: None,
        }
    }

    /// Records the services a peripheral advertised: whether the vendor
    /// service is among them, and how many known services to wait for.
    pub fn services_discovered(&mut self, services: &[ServiceKind])
        ensures
            final(self).probe.has_logitech_vendor_service == services@.contains(
                ServiceKind::LogitechVendor,
            ),
            final(self).expected_services == count_known(services@),
            *final(self) == (PeriphState {
                probe: DeviceProbe {
                    has_logitech_vendor_service: final(self).probe.has_logitech_vendor_service,
                    ..old(self).probe
                },
                expected_services: final(self).expected_services,
                ..*old(self)
            }),
    {
        let mut has_vendor = false;
        let mut count: usize = 0;
        let mut i: usize = 0;
        while i < services.len()
            invariant
                i <= services@.len(),
                count == count_known(services@.subrange(0, i as int)),
                count <= i,
                has_vendor == services@.subrange(0, i as int).contains(ServiceKind::LogitechVendor),
            decreases services@.len() - i,
        {
            let k = services[i];
            proof {
                let p = services@.subrange(0, i + 1);
                assert(p.drop_last() =~= services@.subrange(0, i as int));
                assert(p.last() == k);
                if has_vendor {
                    let w = choose|w: int| 0 <= w < i && services@.subrange(0, i as int)[w]
                        == ServiceKind::LogitechVendor;
                    assert(p[w] == ServiceKind::LogitechVendor);
                }
                if k == ServiceKind::LogitechVendor {
                    assert(p[i as int] == ServiceKind::LogitechVendor);
                }
                if !has_vendor && k != ServiceKind::LogitechVendor {
                    assert forall|w: int| 0 <= w < i + 1 implies p[w]
                        != ServiceKind::LogitechVendor by {
                        if w < i {
                            assert(p[w] == services@.subrange(0, i as int)[w]);
                        }
                    }
                }
            }
            if k != ServiceKind::Other {
                count = count + 1;
            }
            if k == ServiceKind::LogitechVendor {
                has_vendor = true;
            }
            i = i + 1;
        }
        assert(services@.subrange(0, services@.len() as int) =~= services@);
        self.probe.has_logitech_vendor_service = has_vendor;
        self.expected_services = count;
    }

    /// Records one discovered characteristic of `service`; returns the slot it
    /// fills, if any.
    pub fn record_characteristic(&mut self, service: ServiceKind, c: CharKind) -> (slot: Option<
        CharKind,
    >)
        ensures
            slot == spec_char_slot(service, c),
            *final(self) == (PeriphState {
                has_battery_level: old(self).has_battery_level || slot == Some(
                    CharKind::BatteryLevel,
                ),
                has_model_number: old(self).has_model_number || slot == Some(CharKind::ModelNumber),
                has_pnp_id: old(self).has_pnp_id || slot == Some(CharKind::PnpId),
                has_vendor_pipe: old(self).has_vendor_pipe || slot == Some(CharKind::VendorPipe),
                ..*old(self)
            }),
    {
        if service == ServiceKind::Battery && c == CharKind::BatteryLevel {
            self.has_battery_level = true;
            Some(c)
        } else if service == ServiceKind::DeviceInformation && c == CharKind::ModelNumber {
            self.has_model_number = true;
            Some(c)
        } else if service == ServiceKind::DeviceInformation && c == CharKind::PnpId {
            self.has_pnp_id = true;
            Some(c)
        } else if service == ServiceKind::LogitechVendor && c == CharKind::VendorPipe {
            self.has_vendor_pipe = true;
            Some(c)
        } else {
            None
        }
    }

    /// Marks characteristic discovery of `service` as complete. Once every
    /// expected service is done (and at least one is expected), returns the
    /// device-information reads to issue.
    pub fn finish_service(&mut self, service: ServiceKind) -> (reads: Option<InfoReads>)
        requires
            old(self).services_done < usize::MAX,
        ensures
            final(self).services_done == old(self).services_done + if service
                != ServiceKind::Other {
                1int
            } else {
                0int
            },
            *final(self) == (PeriphState { services_done: final(self).services_done, ..*old(self) }),
            reads == if final(self).expected_services > 0 && final(self).services_done
                >= final(self).expected_services {
                Some(
                    InfoReads {
                        model_number: old(self).has_model_number,
                        pnp_id: old(self).has_pnp_id,
                    },
                )
            } else {
                None
            },
    {
        if service != ServiceKind::Other {
            self.services_done = self.services_done + 1;
        }
        if self.expected_services > 0 && self.services_done >= self.expected_services {
            Some(InfoReads { model_number: self.has_model_number, pnp_id: self.has_pnp_id })
        } else {
            None
        }
    }

    /// The level to report for a Battery Level value: its first byte capped at
    /// 100, reported only for a non-empty value of a device that passed the
    /// filter.
    pub fn on_battery_level(&self, data: &[u8]) -> (p: Option<u8>)
        ensures
            p == if data@.len() > 0 && self.connected_emitted {
                Some(if data@[0] > 100 { 100u8 } else { data@[0] })
            } else {
                None
            },
    {
        if data.len() == 0 {
            return None;
        }
        let raw = data[0];
        let percent = if raw > 100 {
            100
        } else {
            raw
        };
        if self.connected_emitted {
            Some(percent)
        } else {
            None
        }
    }

    /// Handles a vendor-pipe payload. A resolved battery-status feature is
    /// followed by a GetBatteryLevelStatus request with the next software id;
    /// a charging event is reported once the device passed the filter.
    pub fn on_vendor_value(&mut self, payload: &[u8]) -> (a: VendorAction)
        requires
            old(self).wf(),
        ensures
            final(self).wf(),
            spec_on_vendor(*old(self), payload@, *final(self), a),
    {
        if payload.len() == 0 {
            return VendorAction::Nothing;
        }
        let expected = match self.pending_resolve_swid {
            Some(s) => s,
            None => 0,
        };
        let outcome = handle_vendor_bytes(
            self.shape,
            payload,
            expected,
            &mut self.feature_index_1000,
        );
        match outcome {
            VendorOutcome::ResolvedBatteryStatusFeature(idx) => {
                self.pending_resolve_swid = None;
                let swid = next_swid(&mut self.swid_counter);
                let frame = encode_get_battery_level_status(self.shape, idx, swid);
                VendorAction::Write(frame)
            },
            VendorOutcome::Charging(s) => {
                if self.connected_emitted {
                    VendorAction::EmitCharging(s)
                } else {
                    VendorAction::Nothing
                }
            },
            VendorOutcome::Ignored => VendorAction::Nothing,
        }
    }

    /// Runs the filter once both device-information values landed. A device
    /// that passes is marked connected; when it has the vendor pipe, a
    /// GetFeature(0x1000) request under the next software id is prepared and
    /// that id recorded as pending.
    pub fn run_filter(&mut self, filter: &DeviceFilter) -> (r: Admission)
        requires
            old(self).wf(),
        ensures
            final(self).wf(),
            spec_run_filter(*old(self), *filter, *final(self), r),
            r is Accepted ==> final(self).connected_emitted && !old(self).connected_emitted,
            r is Accepted <==> (old(self).probe.model_number is Some && old(self).probe.pnp_vid is Some
                && old(self).probe.pnp_pid is Some && !old(self).connected_emitted && spec_matches(
                *filter,
                old(self).probe,
            )),
    {
        if self.probe.model_number.is_none() || self.probe.pnp_vid.is_none()
            || self.probe.pnp_pid.is_none() {
            return Admission::Pending;
        }
        if self.connected_emitted {
            return Admission::AlreadyConnected;
        }
        if !crate::device_filter::matches(filter, &self.probe) {
            return Admission::Rejected;
        }
        self.connected_emitted = true;
        let resolve_request = if self.has_vendor_pipe {
            let swid = next_swid(&mut self.swid_counter);
            self.pending_resolve_swid = Some(swid);
            Some(encode_get_feature(self.shape, FEATURE_BATTERY_STATUS, swid))
        } else {
            None
        };
        Admission::Accepted {
            name: self.name.clone(),
            subscribe_battery: self.has_battery_level,
            resolve_request,
        }
    }

    /// Handles a Model Number String value: records the model text and runs
    /// the filter. An empty value is ignored.
    pub fn on_model_number(&mut self, data: &[u8], filter: &DeviceFilter) -> (r: Admission)
        requires
            old(self).wf(),
        ensures
            final(self).wf(),
            data@.len() == 0 ==> r is Pending && *final(self) == *old(self),
            data@.len() > 0 ==> exists|m: String|
                m@ == spec_model_text(data@) && spec_run_filter(
                    PeriphState {
                        probe: DeviceProbe { model_number: Some(m), ..old(self).probe },
                        ..*old(self)
                    },
                    *filter,
                    *final(self),
                    r,
                ),
    {
        if data.len() == 0 {
            return Admission::Pending;
        }
        let m = model_text(data);
        let ghost mm = m;
        self.probe.model_number = Some(m);
        let r = self.run_filter(filter);
        assert(mm@ == spec_model_text(data@));
        r
    }

    /// Handles a PnP ID value (vendor-id source, vendor id and product id,
    /// little endian): records vendor and product id and runs the filter. A
    /// value shorter than five bytes is ignored.
    pub fn on_pnp_id(&mut self, data: &[u8], filter: &DeviceFilter) -> (r: Admission)
        requires
            old(self).wf(),
        ensures
            final(self).wf(),
            data@.len() < 5 ==> r is Pending && *final(self) == *old(self),
            data@.len() >= 5 ==> spec_run_filter(
                PeriphState {
                    probe: DeviceProbe {
                        pnp_vid: Some((data@[1] + 256 * data@[2]) as u16),
                        pnp_pid: Some((data@[3] + 256 * data@[4]) as u16),
                        ..old(self).probe
                    },
                    ..*old(self)
                },
                *filter,
                *final(self),
                r,
            ),
    {
        if data.len() < 5 {
            return Admission::Pending;
        }
        let vid: u16 = data[1] as u16 + (data[2] as u16) * 256;
        let pid: u16 = data[3] as u16 + (data[4] as u16) * 256;
        self.probe.pnp_vid = Some(vid);
        self.probe.pnp_pid = Some(pid);
        self.run_filter(filter)
    }

    /// Moves to the next frame shape, forgetting any pending resolution and
    /// resolved feature index; `false` once all three shapes were tried.
    pub fn try_next_shape(&mut self) -> (advanced: bool)
        ensures
            advanced == spec_next_shape(old(self).shape) is Some,
            *final(self) == (PeriphState {
                pending_resolve_swid: None,
                feature_index_1000: None,
                shape: match spec_next_shape(old(self).shape) {
                    Some(n) => n,
                    None => old(self).shape,
                },
                ..*old(self)
            }),
    {
        self.pending_resolve_swid = None;
        self.feature_index_1000 = None;
        match self.shape {
            FrameShape::NoDevIdx18 => {
                self.shape = FrameShape::WithDevIdx19;
                true
            },
            FrameShape::WithDevIdx19 => {
                self.shape = FrameShape::WithReportId20;
                true
            },
            FrameShape::WithReportId20 => false,
        }
    }

    /// Handles a failed write to the vendor pipe. An invalid-length error
    /// means the frame shape is wrong: the next shape is tried with a fresh
    /// GetFeature(0x1000) request, until the shapes are exhausted. Other
    /// errors are ignored.
    pub fn on_write_error(&mut self, code: isize) -> (retry: Option<Vec<u8>>)
        requires
            old(self).wf(),
        ensures
            final(self).wf(),
            code != ATT_ERROR_INVALID_LENGTH ==> retry is None && *final(self) == *old(self),
            code == ATT_ERROR_INVALID_LENGTH ==> match spec_next_shape(old(self).shape) {
                None => retry is None && *final(self) == (PeriphState {
                    pending_resolve_swid: None,
                    feature_index_1000: None,
                    ..*old(self)
                }),
                Some(next) => {
                    &&& *final(self) == (PeriphState {
                        pending_resolve_swid: Some(old(self).swid_counter),
                        feature_index_1000: None,
                        shape: next,
                        swid_counter: spec_next_counter(old(self).swid_counter),
                        ..*old(self)
                    })
                    &&& retry matches Some(f) && f@ == spec_request_frame(
                        next,
                        ROOT_FEATURE_INDEX,
                        FN_GET_FEATURE,
                        old(self).swid_counter,
                        (FEATURE_BATTERY_STATUS >> 8u16) as u8,
                        (FEATURE_BATTERY_STATUS & 0xFFu16) as u8,
                    )
                },
            },
    {
        if code != ATT_ERROR_INVALID_LENGTH {
            return None;
        }
        if !self.try_next_shape() {
            return None;
        }
        let swid = next_swid(&mut self.swid_counter);
        self.pending_resolve_swid = Some(swid);
        Some(encode_get_feature(self.shape, FEATURE_BATTERY_STATUS, swid))
    }
}

} // verus!
