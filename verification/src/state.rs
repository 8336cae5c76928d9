//! Persistent notifier state and battery readings.

use crate::clock::{Day, LocalTime};
use vstd::prelude::*;

verus! {

/// Charging state of the device as the library reports it.
#[derive(Clone, Copy, Debug, PartialEq, Eq, Structural)]
pub enum ChargingState {
    Unknown,
    Discharging,
    Recharging,
    ChargeInFinalState,
    ChargeComplete,
}

impl Default for ChargingState {
    fn default() -> (s: Self)
        ensures
            s == ChargingState::Unknown,
    {
        ChargingState::Unknown
    }
}

/// One observation of the device: level in percent and charging state.
#[derive(Clone, Copy, Debug, PartialEq, Eq, Structural)]
pub struct BatteryReadingSnapshot {
    pub percent: u8,
    pub charging: ChargingState,
}

impl Default for BatteryReadingSnapshot {
    fn default() -> (s: Self)
        ensures
            s.percent == 0,
            s.charging == ChargingState::Unknown,
    {
        BatteryReadingSnapshot { percent: 0, charging: ChargingState::Unknown }
    }
}

/// What the notifier remembers between readings.
#[derive(Clone, Copy, Debug, PartialEq, Eq)]
pub struct State {
    /// Day on which the warn notification last fired.
    pub last_warn_notified_date: Option<Day>,
    /// When the critical notification last fired.
    pub last_critical_notified_at: Option<LocalTime>,
    /// Notifications are silenced before this instant.
    pub mute_until: Option<LocalTime>,
    /// The most recent reading.
    pub last_seen: Option<BatteryReadingSnapshot>,
}

impl State {
    /// Every instant held is well formed.
    pub open spec fn wf(self) -> bool {
        &&& (self.last_critical_notified_at matches Some(t) ==> t.wf())
        &&& (self.mute_until matches Some(t) ==> t.wf())
    }
}

impl Default for State {
    fn default() -> (s: Self)
        ensures
            s.last_warn_notified_date is None,
            s.last_critical_notified_at is None,
            s.mute_until is None,
            s.last_seen is None,
    {
        State {
            last_warn_notified_date: None,
            last_critical_notified_at: None,
            mute_until: None,
            last_seen: None,
        }
    }
}

} // verus!
