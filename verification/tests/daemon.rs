use mxbattery::battery::BatteryEvent;
use mxbattery::daemon::{
    menubar_slot_action, step, GlueEvent, GlueState, HideTimer, MainMsg, SlotAction,
};
use mxbattery::ipc::IpcCommand;
use mxbattery::menubar::MenubarCommand;
use mxbattery::state::ChargingState;

#[test]
fn first_reading_renders_and_shows() {
    let mut s = GlueState::new(true);
    let r = step(&mut s, GlueEvent::Battery(BatteryEvent::Connected { name: "MX".into() }));
    assert!(r.messages.is_empty());
    assert_eq!(s.device_name, "MX");
    let r = step(&mut s, GlueEvent::Battery(BatteryEvent::Percent(42)));
    assert_eq!(
        r.messages,
        vec![
            MainMsg::Render { percent: 42, charging: ChargingState::Unknown },
            MainMsg::SetVisible(true)
        ]
    );
    assert_eq!(r.reading, Some((42, ChargingState::Unknown)));
    let r = step(&mut s, GlueEvent::Battery(BatteryEvent::Charging(ChargingState::Recharging)));
    assert_eq!(
        r.messages,
        vec![MainMsg::Render { percent: 42, charging: ChargingState::Recharging }]
    );
}

#[test]
fn last_disconnect_arms_grace_and_deadline_hides() {
    let mut s = GlueState::new(true);
    step(&mut s, GlueEvent::Battery(BatteryEvent::Connected { name: "A".into() }));
    step(&mut s, GlueEvent::Battery(BatteryEvent::Connected { name: "B".into() }));
    step(&mut s, GlueEvent::Battery(BatteryEvent::Percent(50)));
    let r = step(&mut s, GlueEvent::Battery(BatteryEvent::Disconnected));
    assert_eq!(r.hide, HideTimer::Keep);
    let r = step(&mut s, GlueEvent::Battery(BatteryEvent::Disconnected));
    assert_eq!(r.hide, HideTimer::Arm);
    assert!(r.messages.is_empty());
    let r = step(&mut s, GlueEvent::HideDeadline);
    assert_eq!(r.messages, vec![MainMsg::SetVisible(false)]);
    let r = step(&mut s, GlueEvent::HideDeadline);
    assert!(r.messages.is_empty());
    let r = step(&mut s, GlueEvent::Battery(BatteryEvent::Connected { name: "A".into() }));
    assert_eq!(r.messages, vec![MainMsg::SetVisible(true)]);
}

#[test]
fn reconnect_cancels_hide() {
    let mut s = GlueState::new(true);
    step(&mut s, GlueEvent::Battery(BatteryEvent::Connected { name: "A".into() }));
    step(&mut s, GlueEvent::Battery(BatteryEvent::Percent(50)));
    assert_eq!(step(&mut s, GlueEvent::Battery(BatteryEvent::Disconnected)).hide, HideTimer::Arm);
    let r = step(&mut s, GlueEvent::Battery(BatteryEvent::Connected { name: "A".into() }));
    assert_eq!(r.hide, HideTimer::Cancel);
    assert!(s.visible && !s.hide_armed);
}

#[test]
fn commands_map_to_main_messages() {
    let mut s = GlueState::new(true);
    assert_eq!(step(&mut s, GlueEvent::Ipc(IpcCommand::OpenPrefs)).messages, vec![MainMsg::OpenPrefs]);
    assert_eq!(
        step(&mut s, GlueEvent::Menubar(MenubarCommand::OpenPrefs)).messages,
        vec![MainMsg::OpenPrefs]
    );
    assert_eq!(step(&mut s, GlueEvent::Menubar(MenubarCommand::Quit)).messages, vec![MainMsg::Quit]);
    assert!(step(&mut s, GlueEvent::Menubar(MenubarCommand::ToggleMuteToday)).toggle_mute);
}

#[test]
fn menubar_setting_change_is_reported_once() {
    let mut s = GlueState::new(true);
    assert!(step(&mut s, GlueEvent::ConfigTick { menubar_enabled: true }).messages.is_empty());
    assert_eq!(
        step(&mut s, GlueEvent::ConfigTick { menubar_enabled: false }).messages,
        vec![MainMsg::SetMenubarEnabled(false)]
    );
    assert!(step(&mut s, GlueEvent::ConfigTick { menubar_enabled: false }).messages.is_empty());
}

#[test]
fn slot_actions() {
    assert_eq!(menubar_slot_action(true, false), SlotAction::Install);
    assert_eq!(menubar_slot_action(false, true), SlotAction::Remove);
    assert_eq!(menubar_slot_action(true, true), SlotAction::Nothing);
    assert_eq!(menubar_slot_action(false, false), SlotAction::Nothing);
}
