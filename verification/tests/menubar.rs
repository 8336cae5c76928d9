use mxbattery::menubar::{
    format_status, icon_plan, is_charging, mute_item_title, BoltStyle, Bucket, FillColor,
};
use mxbattery::state::ChargingState;

#[test]
fn buckets_follow_the_table() {
    assert_eq!(Bucket::from_percent(0), Bucket::Critical);
    assert_eq!(Bucket::from_percent(4), Bucket::Critical);
    assert_eq!(Bucket::from_percent(5), Bucket::Warning);
    assert_eq!(Bucket::from_percent(19), Bucket::Warning);
    assert_eq!(Bucket::from_percent(20), Bucket::Medium);
    assert_eq!(Bucket::from_percent(59), Bucket::Medium);
    assert_eq!(Bucket::from_percent(60), Bucket::Good);
    assert_eq!(Bucket::from_percent(79), Bucket::Good);
    assert_eq!(Bucket::from_percent(80), Bucket::Full);
    assert_eq!(Bucket::from_percent(100), Bucket::Full);
    assert_eq!(Bucket::Critical.render_percent(), 15);
    assert_eq!(Bucket::Warning.render_percent(), 32);
    assert_eq!(Bucket::Medium.render_percent(), 50);
    assert_eq!(Bucket::Good.render_percent(), 70);
    assert_eq!(Bucket::Full.render_percent(), 100);
    assert!(Bucket::Warning.is_low() && !Bucket::Medium.is_low());
}

#[test]
fn status_line_per_state() {
    assert_eq!(format_status(42, ChargingState::Discharging), "Battery: 42%");
    assert_eq!(format_status(42, ChargingState::Recharging), "Battery: 42% — charging");
    assert_eq!(format_status(99, ChargingState::ChargeInFinalState), "Battery: 99% — charging");
    assert_eq!(format_status(100, ChargingState::ChargeComplete), "Battery: 100% — fully charged");
    assert_eq!(format_status(0, ChargingState::Unknown), "Battery: 0% — connecting…");
}

#[test]
fn charging_states() {
    assert!(!is_charging(ChargingState::Discharging));
    assert!(!is_charging(ChargingState::Unknown));
    assert!(is_charging(ChargingState::Recharging));
    assert!(is_charging(ChargingState::ChargeComplete));
}

#[test]
fn icon_plans() {
    let p = icon_plan(3, ChargingState::Discharging);
    assert_eq!((p.fill, p.bolt, p.render_percent), (FillColor::Red, BoltStyle::NoBolt, 15));
    let p = icon_plan(12, ChargingState::Recharging);
    assert_eq!((p.fill, p.bolt), (FillColor::Green, BoltStyle::Split));
    let p = icon_plan(12, ChargingState::Discharging);
    assert_eq!(p.fill, FillColor::Yellow);
    let p = icon_plan(70, ChargingState::ChargeComplete);
    assert_eq!((p.fill, p.bolt), (FillColor::Green, BoltStyle::Bright));
    let p = icon_plan(70, ChargingState::Discharging);
    assert_eq!((p.fill, p.bolt), (FillColor::Label, BoltStyle::NoBolt));
}

#[test]
fn mute_titles() {
    assert_eq!(mute_item_title(true), "Unmute");
    assert_eq!(mute_item_title(false), "Mute today");
}
