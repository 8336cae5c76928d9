use chrono::{DateTime, Local, TimeZone};
use mxbattery::clock::LocalTime;
use mxbattery::config::Config;
use mxbattery::notifier::{
    clear_armed_if_rose, decide, handle_reading, notification_content, toggle_mute_today,
    NotificationKind,
};
use mxbattery::state::{BatteryReadingSnapshot, ChargingState, State};

fn lt(dt: DateTime<Local>) -> LocalTime {
    LocalTime::from_parts(
        dt.timestamp(),
        dt.timestamp_subsec_nanos(),
        dt.offset().local_minus_utc(),
    )
    .unwrap()
}

fn cfg() -> Config { Config::default() }
fn now_dt() -> DateTime<Local> { Local.with_ymd_and_hms(2026, 5, 8, 14, 0, 0).unwrap() }
fn now() -> LocalTime { lt(now_dt()) }

fn discharging(p: u8) -> BatteryReadingSnapshot {
    BatteryReadingSnapshot { percent: p, charging: ChargingState::Discharging }
}

#[test]
fn at_30_no_notification() {
    let s = State::default();
    let r = decide(&discharging(30), &s, &cfg(), now());
    assert!(r.is_none());
}

#[test]
fn at_20_warn_fires_once_per_day() {
    let mut s = State::default();
    let r = decide(&discharging(20), &s, &cfg(), now()).unwrap();
    assert_eq!(r, NotificationKind::Warn);
    s.last_warn_notified_date = Some(now().date_naive());
    let r2 = decide(&discharging(20), &s, &cfg(), now());
    assert!(r2.is_none(), "second call same day should be silent");
}

#[test]
fn at_5_critical_wins_over_warn() {
    let s = State::default();
    let r = decide(&discharging(5), &s, &cfg(), now()).unwrap();
    assert_eq!(r, NotificationKind::Critical);
}

#[test]
fn critical_re_fires_after_period() {
    let mut s = State::default();
    s.last_critical_notified_at = Some(lt(now_dt() - chrono::Duration::minutes(35)));
    let r = decide(&discharging(4), &s, &cfg(), now()).unwrap();
    assert_eq!(r, NotificationKind::Critical);
}

#[test]
fn critical_silent_within_period() {
    let mut s = State::default();
    s.last_critical_notified_at = Some(lt(now_dt() - chrono::Duration::minutes(10)));
    let r = decide(&discharging(4), &s, &cfg(), now());
    assert!(r.is_none());
}

#[test]
fn charging_silences_everything() {
    let s = State::default();
    let r = decide(
        &BatteryReadingSnapshot { percent: 4, charging: ChargingState::Recharging },
        &s, &cfg(), now(),
    );
    assert!(r.is_none());
}

#[test]
fn mute_until_silences_everything() {
    let mut s = State::default();
    s.mute_until = Some(lt(now_dt() + chrono::Duration::hours(1)));
    let r = decide(&discharging(4), &s, &cfg(), now());
    assert!(r.is_none());
}

#[test]
fn warn_disabled_skips_warn_but_critical_still_fires() {
    let mut c = cfg();
    c.thresholds.warn_enabled = false;
    let s = State::default();
    assert!(decide(&discharging(15), &s, &c, now()).is_none());
    assert_eq!(decide(&discharging(4), &s, &c, now()).unwrap(), NotificationKind::Critical);
}

#[test]
fn critical_disabled_skips_critical_but_warn_still_fires() {
    let mut c = cfg();
    c.thresholds.critical_enabled = false;
    let s = State::default();
    assert_eq!(decide(&discharging(4), &s, &c, now()).unwrap(), NotificationKind::Warn);
}

#[test]
fn warn_re_arms_after_rise_above_threshold_plus_hysteresis() {
    let mut s = State::default();
    s.last_warn_notified_date = Some(now().date_naive());
    clear_armed_if_rose(&BatteryReadingSnapshot { percent: 25, charging: ChargingState::Discharging }, &mut s, &cfg());
    assert_eq!(s.last_warn_notified_date, None, "rising above warn+hysteresis re-arms warn");
}

#[test]
fn warn_stays_armed_just_below_hysteresis() {
    let mut s = State::default();
    s.last_warn_notified_date = Some(now().date_naive());
    s.last_critical_notified_at = Some(now());
    clear_armed_if_rose(&discharging(24), &mut s, &cfg());
    assert_eq!(s.last_warn_notified_date, Some(now().date_naive()));
    assert_eq!(s.last_critical_notified_at, None);
}

#[test]
fn warn_fires_again_next_day() {
    let mut s = State::default();
    s.last_warn_notified_date = Some(now().date_naive());
    let tomorrow = lt(now_dt() + chrono::Duration::days(1));
    assert_eq!(decide(&discharging(20), &s, &cfg(), tomorrow), Some(NotificationKind::Warn));
}

#[test]
fn critical_exactly_at_period_fires() {
    let mut s = State::default();
    s.last_critical_notified_at = Some(lt(now_dt() - chrono::Duration::minutes(30)));
    assert_eq!(decide(&discharging(4), &s, &cfg(), now()), Some(NotificationKind::Critical));
    s.last_critical_notified_at =
        Some(lt(now_dt() - chrono::Duration::minutes(30) + chrono::Duration::milliseconds(1)));
    assert_eq!(decide(&discharging(4), &s, &cfg(), now()), None);
}

#[test]
fn critical_in_the_future_counts_as_due() {
    let mut s = State::default();
    s.last_critical_notified_at = Some(lt(now_dt() + chrono::Duration::minutes(5)));
    assert_eq!(decide(&discharging(4), &s, &cfg(), now()), Some(NotificationKind::Critical));
}

#[test]
fn expired_mute_does_not_silence() {
    let mut s = State::default();
    s.mute_until = Some(lt(now_dt() - chrono::Duration::seconds(1)));
    assert_eq!(decide(&discharging(4), &s, &cfg(), now()), Some(NotificationKind::Critical));
    s.mute_until = Some(now());
    assert_eq!(decide(&discharging(4), &s, &cfg(), now()), Some(NotificationKind::Critical));
}

#[test]
fn unknown_charging_state_is_silent() {
    let s = State::default();
    let r = decide(
        &BatteryReadingSnapshot { percent: 4, charging: ChargingState::Unknown },
        &s,
        &cfg(),
        now(),
    );
    assert_eq!(r, None);
}

#[test]
fn handle_reading_records_warn_day_and_stays_quiet() {
    let mut s = State::default();
    let k = handle_reading(&mut s, &cfg(), 18, ChargingState::Discharging, now());
    assert_eq!(k, Some(NotificationKind::Warn));
    assert_eq!(s.last_warn_notified_date, Some(now().date_naive()));
    assert_eq!(s.last_seen, Some(discharging(18)));
    let later = lt(now_dt() + chrono::Duration::hours(2));
    let k2 = handle_reading(&mut s, &cfg(), 17, ChargingState::Discharging, later);
    assert_eq!(k2, None);
}

#[test]
fn handle_reading_records_critical_instant() {
    let mut s = State::default();
    let k = handle_reading(&mut s, &cfg(), 3, ChargingState::Discharging, now());
    assert_eq!(k, Some(NotificationKind::Critical));
    assert_eq!(s.last_critical_notified_at, Some(now()));
    let soon = lt(now_dt() + chrono::Duration::minutes(29));
    assert_eq!(handle_reading(&mut s, &cfg(), 3, ChargingState::Discharging, soon), None);
    let later = lt(now_dt() + chrono::Duration::minutes(31));
    assert_eq!(
        handle_reading(&mut s, &cfg(), 3, ChargingState::Discharging, later),
        Some(NotificationKind::Critical)
    );
}

#[test]
fn mute_toggle_mutes_then_unmutes() {
    let mut s = State::default();
    let midnight = lt(Local.with_ymd_and_hms(2026, 5, 9, 0, 0, 0).unwrap());
    assert!(toggle_mute_today(&mut s, now(), midnight));
    assert_eq!(s.mute_until, Some(midnight));
    assert!(!toggle_mute_today(&mut s, now(), midnight));
    assert_eq!(s.mute_until, None);
}

#[test]
fn notification_text_for_each_kind() {
    let (t, b) = notification_content(NotificationKind::Warn, 20, "MX Master 3");
    assert_eq!(t, "Mouse battery low");
    assert_eq!(b, "MX Master 3 is at 20%. Consider charging soon.");
    let (t, b) = notification_content(NotificationKind::Critical, 4, "MX Master 3");
    assert_eq!(t, "Mouse battery critical");
    assert_eq!(b, "MX Master 3 is at 4%. Charge now.");
}
