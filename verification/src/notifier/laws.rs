//! Properties of the notification policy that span several readings.

use crate::clock::LocalTime;
use crate::config::Config;
use crate::notifier::decide::{
    elapsed_secs, in_critical_territory, is_muted, sat_add_u8, spec_decide, spec_observe, spec_record,
    NotificationKind,
};
use crate::state::{BatteryReadingSnapshot, ChargingState, State};
use vstd::prelude::*;

verus! {

/// The warn notification fires at most once per local day: once a reading
/// fired it, a later reading on the same day that has not risen to the warn
/// threshold plus the hysteresis does not fire it again.
pub proof fn warn_fires_at_most_once_per_day(
    state: State,
    cfg: Config,
    first: BatteryReadingSnapshot,
    now: LocalTime,
    second: BatteryReadingSnapshot,
    later: LocalTime,
)
    requires
        state.wf(),
        now.wf(),
        later.wf(),
        later.spec_date() == now.spec_date(),
        spec_decide(first, spec_observe(first, state, cfg), cfg, now) == Some(NotificationKind::Warn),
        second.percent < sat_add_u8(cfg.thresholds.warn, cfg.thresholds.rearm_hysteresis),
    ensures
        ({
            let after = spec_record(
                spec_observe(first, state, cfg),
                Some(NotificationKind::Warn),
                now,
            );
            spec_decide(second, spec_observe(second, after, cfg), cfg, later) != Some(
                NotificationKind::Warn,
            )
        }),
{
}

/// The critical notification re-fires only once the critical period has
/// passed: after it fired at `t1`, a later critical reading that is not
/// muted and has not risen to re-arm fires it again exactly when the elapsed
/// whole seconds reach the period, and fires nothing otherwise.
pub proof fn critical_refires_only_after_period(
    state: State,
    cfg: Config,
    first: BatteryReadingSnapshot,
    t1: LocalTime,
    second: BatteryReadingSnapshot,
    t2: LocalTime,
)
    requires
        state.wf(),
        t1.wf(),
        t2.wf(),
        spec_decide(first, spec_observe(first, state, cfg), cfg, t1) == Some(
            NotificationKind::Critical,
        ),
        second.charging == ChargingState::Discharging,
        in_critical_territory(second, cfg),
        second.percent < sat_add_u8(cfg.thresholds.critical, cfg.thresholds.rearm_hysteresis),
    ensures
        ({
            let after = spec_record(
                spec_observe(first, state, cfg),
                Some(NotificationKind::Critical),
                t1,
            );
            let seen = spec_observe(second, after, cfg);
            !is_muted(seen, t2) ==> spec_decide(second, seen, cfg, t2) == if (elapsed_secs(t2, t1) as u64)
                >= cfg.cadence.critical_period.secs {
                Some(NotificationKind::Critical)
            } else {
                None
            }
        }),
{
}

/// Critical wins over warn: an unmuted, discharging reading at or below an
/// enabled critical threshold, with no critical fired yet, fires `Critical`
/// even though it is also at or below the warn threshold.
pub proof fn critical_wins_over_warn(
    reading: BatteryReadingSnapshot,
    state: State,
    cfg: Config,
    now: LocalTime,
)
    requires
        !is_muted(state, now),
        reading.charging == ChargingState::Discharging,
        in_critical_territory(reading, cfg),
        state.last_critical_notified_at is None,
    ensures
        spec_decide(reading, state, cfg, now) == Some(NotificationKind::Critical),
{
}

/// Rising to the warn threshold plus the hysteresis re-arms warn: the next
/// unmuted, discharging reading at or below an enabled warn threshold that is
/// outside critical territory fires `Warn`, whatever day the last warn was.
pub proof fn warn_rearms_after_rise(
    state: State,
    cfg: Config,
    high: BatteryReadingSnapshot,
    low: BatteryReadingSnapshot,
    now: LocalTime,
)
    requires
        high.percent >= sat_add_u8(cfg.thresholds.warn, cfg.thresholds.rearm_hysteresis),
        low.percent < sat_add_u8(cfg.thresholds.warn, cfg.thresholds.rearm_hysteresis),
        low.charging == ChargingState::Discharging,
        cfg.thresholds.warn_enabled,
        low.percent <= cfg.thresholds.warn,
        !in_critical_territory(low, cfg),
    ensures
        ({
            let rearmed = spec_observe(low, spec_observe(high, state, cfg), cfg);
            !is_muted(rearmed, now) ==> spec_decide(low, rearmed, cfg, now) == Some(
                NotificationKind::Warn,
            )
        }),
{
}

/// Toggling "mute today" twice at the same instant, with the next midnight
/// still ahead, mutes and then unmutes: the mute is gone afterwards.
pub proof fn mute_toggle_twice_unmutes(state: State, now: LocalTime, next_midnight: LocalTime)
    requires
        !is_muted(state, now),
        now.instant() < next_midnight.instant(),
    ensures
        ({
            let once = State { mute_until: Some(next_midnight), ..state };
            &&& is_muted(once, now)
            &&& State { mute_until: if is_muted(once, now) {
                None
            } else {
                Some(next_midnight)
            }, ..once } == State { mute_until: None, ..state }
        }),
{
}

} // verus!
