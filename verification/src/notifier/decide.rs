//! The notification policy: when a reading warrants a warn or critical
//! notification, and how the remembered state re-arms and records them.

use crate::clock::{trunc_div, LocalTime, NANOS_PER_SEC};
use crate::config::Config;
use crate::state::{BatteryReadingSnapshot, ChargingState, State};
use vstd::prelude::*;

verus! {

#[derive(Clone, Copy, Debug, PartialEq, Eq, Structural)]
pub enum NotificationKind {
    Warn,
    Critical,
}

/// Whether notifications are silenced at `now`.
pub open spec fn is_muted(state: State, now: LocalTime) -> bool {
    state.mute_until matches Some(until) && now.instant() < until.instant()
}

/// Whole seconds elapsed from `earlier` to `now`, rounded toward zero.
pub open spec fn elapsed_secs(now: LocalTime, earlier: LocalTime) -> int {
    trunc_div(now.instant() - earlier.instant(), NANOS_PER_SEC as int)
}

/// The critical notification is due: it never fired, or at least the
/// critical period has passed since it did (the elapsed seconds read as an
/// unsigned number, so a last firing in the future also counts as due).
pub open spec fn critical_due(state: State, cfg: Config, now: LocalTime) -> bool {
    match state.last_critical_notified_at {
        None => true,
        Some(t) => (elapsed_secs(now, t) as u64) >= cfg.cadence.critical_period.secs,
    }
}

/// The reading is at or below an enabled critical threshold.
pub open spec fn in_critical_territory(reading: BatteryReadingSnapshot, cfg: Config) -> bool {
    cfg.thresholds.critical_enabled && reading.percent <= cfg.thresholds.critical
}

/// The warn notification has not fired on the local day of `now`.
pub open spec fn warn_not_yet_today(state: State, now: LocalTime) -> bool {
    match state.last_warn_notified_date {
        None => true,
        Some(d) => d != now.spec_date(),
    }
}

/// The notification to fire for `reading`:
/// - none while muted or while the device is not discharging;
/// - in critical territory, `Critical` when it is due and nothing otherwise
///   (a warn on top of a silenced critical would only add noise);
/// - otherwise `Warn` when warn is enabled, the level is at or below the warn
///   threshold and warn has not fired today;
/// - otherwise none.
pub open spec fn spec_decide(
    reading: BatteryReadingSnapshot,
    state: State,
    cfg: Config,
    now: LocalTime,
) -> Option<NotificationKind> {
    if is_muted(state, now) {
        None
    } else if reading.charging != ChargingState::Discharging {
        None
    } else if in_critical_territory(reading, cfg) {
        if critical_due(state, cfg, now) {
            Some(NotificationKind::Critical)
        } else {
            None
        }
    } else if cfg.thresholds.warn_enabled && reading.percent <= cfg.thresholds.warn
        && warn_not_yet_today(state, now) {
        Some(NotificationKind::Warn)
    } else {
        None
    }
}

/// Returns the notification kind to fire, or `None`.
pub fn decide(
    reading: &BatteryReadingSnapshot,
    state: &State,
    cfg: &Config,
    now: LocalTime,
) -> (r: Option<NotificationKind>)
    requires
        state.wf(),
        now.wf(),
    ensures
        r == spec_decide(*reading, *state, *cfg, now),
        is_muted(*state, now) ==> r is None,
        reading.charging != ChargingState::Discharging ==> r is None,
{
    if let Some(until) = state.mute_until {
        if now.is_before(&until) {
            return None;
        }
    }
    if reading.charging != ChargingState::Discharging {
        return None;
    }
    if cfg.thresholds.critical_enabled && reading.percent <= cfg.thresholds.critical {
        let critical_due = match state.last_critical_notified_at {
            Some(t) => {
                let elapsed_secs = now.whole_seconds_since(&t) as u64;
                let period_secs = cfg.cadence.critical_period.as_secs();
                elapsed_secs >= period_secs
            },
            None => true,
        };
        if critical_due {
            return Some(NotificationKind::Critical);
        }
        return None;
    }
    let warn_due = cfg.thresholds.warn_enabled && reading.percent <= cfg.thresholds.warn
        && match state.last_warn_notified_date {
        Some(d) => d != now.date_naive(),
        None => true,
    };
    if warn_due {
        Some(NotificationKind::Warn)
    } else {
        None
    }
}

/// `a + b`, saturating at 255.
pub open spec fn sat_add_u8(a: u8, b: u8) -> u8 {
    if a + b > 255 {
        255
    } else {
        (a + b) as u8
    }
}

/// The state after a reading re-arms notifications: rising to the warn
/// threshold plus the hysteresis forgets the last warn, rising to the
/// critical threshold plus the hysteresis forgets the last critical.
pub open spec fn spec_clear_armed(reading: BatteryReadingSnapshot, state: State, cfg: Config) -> State {
    let t = cfg.thresholds;
    State {
        last_warn_notified_date: if reading.percent >= sat_add_u8(t.warn, t.rearm_hysteresis) {
            None
        } else {
            state.last_warn_notified_date
        },
        last_critical_notified_at: if reading.percent >= sat_add_u8(
            t.critical,
            t.rearm_hysteresis,
        ) {
            None
        } else {
            state.last_critical_notified_at
        },
        ..state
    }
}

pub fn clear_armed_if_rose(reading: &BatteryReadingSnapshot, state: &mut State, cfg: &Config)
    ensures
        *final(state) == spec_clear_armed(*reading, *old(state), *cfg),
{
    let warn_re = cfg.thresholds.warn.saturating_add(cfg.thresholds.rearm_hysteresis);
    if reading.percent >= warn_re {
        state.last_warn_notified_date = None;
    }
    let crit_re = cfg.thresholds.critical.saturating_add(cfg.thresholds.rearm_hysteresis);
    if reading.percent >= crit_re {
        state.last_critical_notified_at = None;
    }
}

/// The state after `kind` fired at `now`: a warn records the local day, a
/// critical records the instant.
pub open spec fn spec_record(state: State, kind: Option<NotificationKind>, now: LocalTime) -> State {
    match kind {
        Some(NotificationKind::Warn) => State {
            last_warn_notified_date: Some(now.spec_date()),
            ..state
        },
        Some(NotificationKind::Critical) => State { last_critical_notified_at: Some(now), ..state },
        None => state,
    }
}

/// The state once a reading is seen: re-armed, with the reading remembered.
pub open spec fn spec_observe(reading: BatteryReadingSnapshot, state: State, cfg: Config) -> State {
    State { last_seen: Some(reading), ..spec_clear_armed(reading, state, cfg) }
}

/// Processes one reading: re-arms, remembers the reading, decides, and
/// records the notification that fires (which the caller posts).
pub fn handle_reading(
    state: &mut State,
    cfg: &Config,
    percent: u8,
    charging: ChargingState,
    now: LocalTime,
) -> (kind: Option<NotificationKind>)
    requires
        old(state).wf(),
        now.wf(),
    ensures
        kind == spec_decide(
            BatteryReadingSnapshot { percent, charging },
            spec_observe(BatteryReadingSnapshot { percent, charging }, *old(state), *cfg),
            *cfg,
            now,
        ),
        *final(state) == spec_record(
            spec_observe(BatteryReadingSnapshot { percent, charging }, *old(state), *cfg),
            kind,
            now,
        ),
        final(state).wf(),
{
    let snap = BatteryReadingSnapshot { percent, charging };
    clear_armed_if_rose(&snap, state, cfg);
    state.last_seen = Some(snap);
    let kind = decide(&snap, state, cfg, now);
    match kind {
        Some(NotificationKind::Warn) => {
            state.last_warn_notified_date = Some(now.date_naive());
        },
        Some(NotificationKind::Critical) => {
            state.last_critical_notified_at = Some(now);
        },
        None => {},
    }
    kind
}

/// Toggles "mute today": an active mute is lifted, otherwise notifications
/// are muted until `next_midnight`. Returns whether notifications are muted
/// afterwards.
pub fn toggle_mute_today(state: &mut State, now: LocalTime, next_midnight: LocalTime) -> (muted: bool)
    requires
        old(state).wf(),
        now.wf(),
        next_midnight.wf(),
    ensures
        *final(state) == (State {
            mute_until: if is_muted(*old(state), now) {
                None
            } else {
                Some(next_midnight)
            },
            ..*old(state)
        }),
        muted == is_muted(*final(state), now),
        final(state).wf(),
{
    let active = match state.mute_until {
        Some(t) => now.is_before(&t),
        None => false,
    };
    if active {
        state.mute_until = None;
    } else {
        state.mute_until = Some(next_midnight);
    }
    match state.mute_until {
        Some(t) => now.is_before(&t),
        None => false,
    }
}

} // verus!
