//! Deciding whether a discovered peripheral is the device to follow.

use crate::config::DeviceFilter;
use crate::text::{eq_ascii_ci, eq_ignore_ascii_case, has_prefix, starts_with};
use vstd::prelude::*;

verus! {

pub const LOGITECH_VID: u16 = 0x046D;

/// What is known of a peripheral once its device-information reads landed.
#[derive(Clone, Debug, PartialEq, Eq)]
pub struct DeviceProbe {
    pub peripheral_identifier: String,
    pub model_number: Option<String>,
    pub pnp_vid: Option<u16>,
    pub pnp_pid: Option<u16>,
    pub has_logitech_vendor_service: bool,
}

/// Whether `probe` passes `filter`.
pub open spec fn spec_matches(filter: DeviceFilter, probe: DeviceProbe) -> bool {
    match filter {
        DeviceFilter::Specific { identifier } => eq_ascii_ci(
            identifier@,
            probe.peripheral_identifier@,
        ),
        DeviceFilter::AnyMx => probe.model_number matches Some(m) && has_prefix(m@, "MX "@),
        DeviceFilter::AnyLogitech => probe.has_logitech_vendor_service || probe.pnp_vid == Some(
            LOGITECH_VID,
        ),
    }
}

pub fn matches(filter: &DeviceFilter, probe: &DeviceProbe) -> (r: bool)
    ensures
        r == spec_matches(*filter, *probe),
{
    match filter {
        DeviceFilter::Specific { identifier } => {
            eq_ignore_ascii_case(identifier.as_str(), probe.peripheral_identifier.as_str())
        },
        DeviceFilter::AnyMx => match &probe.model_number {
            Some(m) => starts_with(m.as_str(), "MX "),
            None => false,
        },
        DeviceFilter::AnyLogitech => {
            probe.has_logitech_vendor_service || match probe.pnp_vid {
                Some(v) => v == LOGITECH_VID,
                None => false,
            }
        },
    }
}

} // verus!
