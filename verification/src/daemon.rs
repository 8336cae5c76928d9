//! The decisions of the daemon's event loop: what each backend, socket,
//! menu or timer event means for the menu-bar icon, the notifier and the
//! hide timer. The loop itself (waiting, clocks, AppKit) lives outside.

use crate::battery::BatteryEvent;
use crate::ipc::IpcCommand;
use crate::menubar::MenubarCommand;
use crate::state::ChargingState;
use vstd::prelude::*;

verus! {

/// Seconds the icon stays up after the last device disconnected, so that
/// brief Bluetooth drops do not make it flicker.
pub const HIDE_GRACE_SECS: u64 = 5;

/// Messages for the main (AppKit) thread.
#[derive(Clone, Copy, Debug, PartialEq, Eq, Structural)]
pub enum MainMsg {
    Render { percent: u8, charging: ChargingState },
    SetVisible(bool),
    OpenPrefs,
    SetMuted(bool),
    SetMenubarEnabled(bool),
    Quit,
}

/// What woke the event loop.
#[derive(Clone, Debug)]
pub enum GlueEvent {
    /// The periodic configuration check, with the current menu-bar setting.
    ConfigTick { menubar_enabled: bool },
    /// The hide timer ran out.
    HideDeadline,
    Battery(BatteryEvent),
    Ipc(IpcCommand),
    Menubar(MenubarCommand),
}

/// What to do with the hide timer.
#[derive(Clone, Copy, Debug, PartialEq, Eq, Structural)]
pub enum HideTimer {
    Keep,
    /// Start it: hide after `HIDE_GRACE_SECS`.
    Arm,
    Cancel,
}

/// The loop's response to one event.
#[derive(Clone, Debug)]
pub struct GlueStep {
    pub messages: Vec<MainMsg>,
    pub hide: HideTimer,
    /// A reading to run through the notifier (and then persist).
    pub reading: Option<(u8, ChargingState)>,
    /// Toggle "mute today" (and report the result with `SetMuted`).
    pub toggle_mute: bool,
}

/// The loop's memory.
#[derive(Clone, Debug)]
pub struct GlueState {
    pub last_percent: u8,
    pub last_charging: ChargingState,
    pub device_name: String,
    pub last_menubar_enabled: bool,
    pub connected_count: usize,
    pub have_reading: bool,
    pub visible: bool,
    /// Whether the hide timer is running.
    pub hide_armed: bool,
}

impl GlueState {
    /// The icon is shown only once a reading exists, and the hide timer runs
    /// only while the icon is shown.
    pub open spec fn wf(&self) -> bool {
        &&& self.visible ==> self.have_reading
        &&& self.hide_armed ==> self.visible
    }

    pub fn new(menubar_enabled: bool) -> (s: Self)
        ensures
            s.wf(),
            s.last_percent == 0,
            s.last_charging == ChargingState::Unknown,
            s.device_name@ == "Logitech mouse"@,
            s.last_menubar_enabled == menubar_enabled,
            s.connected_count == 0,
            !s.have_reading,
            !s.visible,
            !s.hide_armed,
    {
        GlueState {
            last_percent: 0,
            last_charging: ChargingState::Unknown,
            device_name: String::from_str("Logitech mouse"),
            last_menubar_enabled: menubar_enabled,
            connected_count: 0,
            have_reading: false,
            visible: false,
            hide_armed: false,
        }
    }
}

/// The response to a new reading: render it, show the icon if hidden, run
/// the notifier, and stop any pending hide.
pub open spec fn reading_response(
    old: GlueState,
    new: GlueState,
    step: GlueStep,
    percent: u8,
    charging: ChargingState,
) -> bool {
    &&& new == (GlueState {
        last_percent: percent,
        last_charging: charging,
        have_reading: true,
        visible: true,
        hide_armed: false,
        ..old
    })
    &&& step.messages@ == if old.visible {
        seq![MainMsg::Render { percent, charging }]
    } else {
        seq![MainMsg::Render { percent, charging }, MainMsg::SetVisible(true)]
    }
    &&& step.hide == HideTimer::Cancel
    &&& step.reading == Some((percent, charging))
    &&& !step.toggle_mute
}

/// A response that only sends `messages`.
pub open spec fn plain_response(step: GlueStep, messages: Seq<MainMsg>) -> bool {
    step.messages@ == messages && step.hide == HideTimer::Keep && step.reading is None
        && !step.toggle_mute
}

/// The loop's transition for one event:
/// - a configuration tick reports a changed menu-bar setting;
/// - the hide deadline hides a shown icon;
/// - `Connected` remembers the name, counts the device, stops any pending
///   hide and shows the icon if a reading exists;
/// - `Disconnected` counts the device out and, when none is left and the
///   icon is shown, starts the hide timer;
/// - `Percent` and `Charging` update the reading (see `reading_response`);
/// - a socket request or the Preferences item opens the preferences, Quit
///   quits, and "Mute today" asks for the mute toggle.
pub open spec fn spec_step(old: GlueState, event: GlueEvent, new: GlueState, step: GlueStep) -> bool {
    match event {
        GlueEvent::ConfigTick { menubar_enabled } => if menubar_enabled != old.last_menubar_enabled {
            new == (GlueState { last_menubar_enabled: menubar_enabled, ..old }) && plain_response(
                step,
                seq![MainMsg::SetMenubarEnabled(menubar_enabled)],
            )
        } else {
            new == old && plain_response(step, seq![])
        },
        GlueEvent::HideDeadline => {
            &&& new == (GlueState { hide_armed: false, visible: false, ..old })
            &&& step.messages@ == if old.visible {
                seq![MainMsg::SetVisible(false)]
            } else {
                seq![]
            }
            &&& step.hide == HideTimer::Cancel
            &&& step.reading is None
            &&& !step.toggle_mute
        },
        GlueEvent::Battery(BatteryEvent::Connected { name }) => {
            &&& new == (GlueState {
                device_name: name,
                connected_count: (old.connected_count + 1) as usize,
                hide_armed: false,
                visible: old.visible || old.have_reading,
                ..old
            })
            &&& step.messages@ == if old.have_reading && !old.visible {
                seq![MainMsg::SetVisible(true)]
            } else {
                seq![]
            }
            &&& step.hide == HideTimer::Cancel
            &&& step.reading is None
            &&& !step.toggle_mute
        },
        GlueEvent::Battery(BatteryEvent::Disconnected) => {
            let count = if old.connected_count == 0 {
                0usize
            } else {
                (old.connected_count - 1) as usize
            };
            let arm = count == 0 && old.visible;
            &&& new == (GlueState {
                connected_count: count,
                hide_armed: old.hide_armed || arm,
                ..old
            })
            &&& step.messages@ == Seq::<MainMsg>::empty()
            &&& step.hide == if arm {
                HideTimer::Arm
            } else {
                HideTimer::Keep
            }
            &&& step.reading is None
            &&& !step.toggle_mute
        },
        GlueEvent::Battery(BatteryEvent::Percent(p)) => reading_response(
            old,
            new,
            step,
            p,
            old.last_charging,
        ),
        GlueEvent::Battery(BatteryEvent::Charging(c)) => reading_response(
            old,
            new,
            step,
            old.last_percent,
            c,
        ),
        GlueEvent::Ipc(_) => new == old && plain_response(step, seq![MainMsg::OpenPrefs]),
        GlueEvent::Menubar(MenubarCommand::OpenPrefs) => new == old && plain_response(
            step,
            seq![MainMsg::OpenPrefs],
        ),
        GlueEvent::Menubar(MenubarCommand::Quit) => new == old && plain_response(
            step,
            seq![MainMsg::Quit],
        ),
        GlueEvent::Menubar(MenubarCommand::ToggleMuteToday) => {
            &&& new == old
            &&& step.messages@ == Seq::<MainMsg>::empty()
            &&& step.hide == HideTimer::Keep
            &&& step.reading is None
            &&& step.toggle_mute
        },
    }
}

fn reading_step(state: &mut GlueState, percent: u8, charging: ChargingState) -> (step: GlueStep)
    requires
        old(state).wf(),
    ensures
        final(state).wf(),
        reading_response(*old(state), *final(state), step, percent, charging),
{
    state.last_percent = percent;
    state.last_charging = charging;
    state.have_reading = true;
    state.hide_armed = false;
    let mut messages: Vec<MainMsg> = Vec::new();
    messages.push(MainMsg::Render { percent, charging });
    if !state.visible {
        state.visible = true;
        messages.push(MainMsg::SetVisible(true));
        assert(messages@ =~= seq![MainMsg::Render { percent, charging }, MainMsg::SetVisible(true)]);
    } else {
        assert(messages@ =~= seq![MainMsg::Render { percent, charging }]);
    }
    GlueStep { messages, hide: HideTimer::Cancel, reading: Some((percent, charging)), toggle_mute: false }
}

fn plain_step(messages: Vec<MainMsg>) -> (step: GlueStep)
    ensures
        plain_response(step, messages@),
{
    GlueStep { messages, hide: HideTimer::Keep, reading: None, toggle_mute: false }
}

/// Advances the loop by one event.
pub fn step(state: &mut GlueState, event: GlueEvent) -> (r: GlueStep)
    requires
        old(state).wf(),
        event matches GlueEvent::Battery(BatteryEvent::Connected { .. }) ==> old(
            state,
        ).connected_count < usize::MAX,
    ensures
        final(state).wf(),
        spec_step(*old(state), event, *final(state), r),
        event matches GlueEvent::Battery(BatteryEvent::Percent(p)) ==> {
            &&& final(state).last_charging == old(state).last_charging
            &&& final(state).last_percent == p
            &&& r.reading == Some((p, old(state).last_charging))
            &&& r.messages@[0] == (MainMsg::Render { percent: p, charging: old(state).last_charging })
        },
        event matches GlueEvent::Battery(BatteryEvent::Charging(c)) ==> {
            &&& final(state).last_percent == old(state).last_percent
            &&& final(state).last_charging == c
            &&& r.reading == Some((old(state).last_percent, c))
            &&& r.messages@[0] == (MainMsg::Render { percent: old(state).last_percent, charging: c })
        },
{
    match event {
        GlueEvent::ConfigTick { menubar_enabled } => {
            if menubar_enabled != state.last_menubar_enabled {
                state.last_menubar_enabled = menubar_enabled;
                let mut m: Vec<MainMsg> = Vec::new();
                m.push(MainMsg::SetMenubarEnabled(menubar_enabled));
                plain_step(m)
            } else {
                plain_step(Vec::new())
            }
        },
        GlueEvent::HideDeadline => {
            state.hide_armed = false;
            let mut messages: Vec<MainMsg> = Vec::new();
            if state.visible {
                state.visible = false;
                messages.push(MainMsg::SetVisible(false));
            }
            GlueStep { messages, hide: HideTimer::Cancel, reading: None, toggle_mute: false }
        },
        GlueEvent::Battery(BatteryEvent::Connected { name }) => {
            state.device_name = name;
            state.connected_count = state.connected_count + 1;
            state.hide_armed = false;
            let mut messages: Vec<MainMsg> = Vec::new();
            if state.have_reading && !state.visible {
                state.visible = true;
                messages.push(MainMsg::SetVisible(true));
            }
            GlueStep { messages, hide: HideTimer::Cancel, reading: None, toggle_mute: false }
        },
        GlueEvent::Battery(BatteryEvent::Disconnected) => {
            state.connected_count = state.connected_count.saturating_sub(1);
            let arm = state.connected_count == 0 && state.visible;
            if arm {
                state.hide_armed = true;
            }
            GlueStep {
                messages: Vec::new(),
                hide: if arm {
                    HideTimer::Arm
                } else {
                    HideTimer::Keep
                },
                reading: None,
                toggle_mute: false,
            }
        },
        GlueEvent::Battery(BatteryEvent::Percent(p)) => {
            let c = state.last_charging;
            reading_step(state, p, c)
        },
        GlueEvent::Battery(BatteryEvent::Charging(c)) => {
            let p = state.last_percent;
            reading_step(state, p, c)
        },
        GlueEvent::Ipc(_) => {
            let mut m: Vec<MainMsg> = Vec::new();
            m.push(MainMsg::OpenPrefs);
            plain_step(m)
        },
        GlueEvent::Menubar(MenubarCommand::OpenPrefs) => {
            let mut m: Vec<MainMsg> = Vec::new();
            m.push(MainMsg::OpenPrefs);
            plain_step(m)
        },
        GlueEvent::Menubar(MenubarCommand::Quit) => {
            let mut m: Vec<MainMsg> = Vec::new();
            m.push(MainMsg::Quit);
            plain_step(m)
        },
        GlueEvent::Menubar(MenubarCommand::ToggleMuteToday) => {
            GlueStep { messages: Vec::new(), hide: HideTimer::Keep, reading: None, toggle_mute: true }
        },
    }
}

/// What the main thread does with the menu-bar item when the setting is
/// reported.
#[derive(Clone, Copy, Debug, PartialEq, Eq, Structural)]
pub enum SlotAction {
    Install,
    Remove,
    Nothing,
}

pub fn menubar_slot_action(enabled: bool, installed: bool) -> (a: SlotAction)
    ensures
        a == if enabled && !installed {
            SlotAction::Install
        } else if !enabled && installed {
            SlotAction::Remove
        } else {
            SlotAction::Nothing
        },
{
    if enabled && !installed {
        SlotAction::Install
    } else if !enabled && installed {
        SlotAction::Remove
    } else {
        SlotAction::Nothing
    }
}

/// The icon is never hidden by a disconnect itself: a `Disconnected` event
/// sends no message, and the only way it leads to hiding is by starting the
/// grace timer, which it does only when the last device left.
pub proof fn disconnect_never_hides_at_once(
    old: GlueState,
    new: GlueState,
    step: GlueStep,
)
    requires
        old.wf(),
        spec_step(old, GlueEvent::Battery(BatteryEvent::Disconnected), new, step),
    ensures
        step.messages@.len() == 0,
        new.visible == old.visible,
        step.hide == HideTimer::Arm ==> new.connected_count == 0,
{
}

/// A reconnect within the grace period keeps the icon: after the timer was
/// started by the last disconnect, a `Connected` event cancels it and the
/// icon stays shown; a later deadline event, if one is still delivered,
/// would hide it only if no event cancelled the timer in between.
pub proof fn reconnect_within_grace_keeps_icon(
    s0: GlueState,
    s1: GlueState,
    step1: GlueStep,
    name: String,
    s2: GlueState,
    step2: GlueStep,
)
    requires
        s0.wf(),
        s0.visible,
        s0.connected_count == 1,
        spec_step(s0, GlueEvent::Battery(BatteryEvent::Disconnected), s1, step1),
        spec_step(s1, GlueEvent::Battery(BatteryEvent::Connected { name }), s2, step2),
    ensures
        step1.hide == HideTimer::Arm,
        step2.hide == HideTimer::Cancel,
        s2.visible,
        !s2.hide_armed,
        step2.messages@.len() == 0,
{
}

/// A level update keeps the last reported charging state, and a charging
/// update keeps the last reported level: the reading that is rendered and
/// handed to the notifier pairs the new value with the remembered other one,
/// and the remembered values are updated accordingly.
pub proof fn updates_keep_the_other_half_of_the_reading(
    old: GlueState,
    p: u8,
    new_p: GlueState,
    step_p: GlueStep,
    c: ChargingState,
    new_c: GlueState,
    step_c: GlueStep,
)
    requires
        spec_step(old, GlueEvent::Battery(BatteryEvent::Percent(p)), new_p, step_p),
        spec_step(old, GlueEvent::Battery(BatteryEvent::Charging(c)), new_c, step_c),
    ensures
        new_p.last_charging == old.last_charging,
        new_p.last_percent == p,
        step_p.reading == Some((p, old.last_charging)),
        step_p.messages@[0] == (MainMsg::Render { percent: p, charging: old.last_charging }),
        new_c.last_percent == old.last_percent,
        new_c.last_charging == c,
        step_c.reading == Some((old.last_percent, c)),
        step_c.messages@[0] == (MainMsg::Render { percent: old.last_percent, charging: c }),
{
}

/// A level then a charging update yields the reading made of both: the
/// second event renders and notifies (level of the first, state of the
/// second).
pub proof fn level_then_charging_combines(
    s0: GlueState,
    p: u8,
    s1: GlueState,
    step1: GlueStep,
    c: ChargingState,
    s2: GlueState,
    step2: GlueStep,
)
    requires
        spec_step(s0, GlueEvent::Battery(BatteryEvent::Percent(p)), s1, step1),
        spec_step(s1, GlueEvent::Battery(BatteryEvent::Charging(c)), s2, step2),
    ensures
        step2.reading == Some((p, c)),
        s2.last_percent == p && s2.last_charging == c,
{
}

/// Every reading leaves the icon shown, with the reading rendered first.
pub proof fn reading_shows_icon(
    old: GlueState,
    event: GlueEvent,
    new: GlueState,
    step: GlueStep,
)
    requires
        event matches GlueEvent::Battery(b) && (b is Percent || b is Charging),
        spec_step(old, event, new, step),
    ensures
        new.visible,
        new.have_reading,
        !new.hide_armed,
        step.messages@.len() > 0 && step.messages@[0] is Render,
        step.reading is Some,
{
}

} // verus!
