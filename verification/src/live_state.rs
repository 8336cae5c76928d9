//! The live device state the daemon publishes for the preferences window.

use crate::state::ChargingState;
use vstd::prelude::*;

verus! {

#[derive(Clone, Debug)]
pub struct LiveDeviceState {
    pub connected: bool,
    pub device_name: Option<String>,
    pub identifier: Option<String>,
    pub last_percent: Option<u8>,
    pub charging: ChargingState,
}

impl Default for LiveDeviceState {
    fn default() -> (s: Self)
        ensures
            !s.connected,
            s.device_name is None,
            s.identifier is None,
            s.last_percent is None,
            s.charging == ChargingState::Unknown,
    {
        LiveDeviceState {
            connected: false,
            device_name: None,
            identifier: None,
            last_percent: None,
            charging: ChargingState::Unknown,
        }
    }
}

} // verus!
