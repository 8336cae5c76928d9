//! The preferences form: how a configuration fills the form, how the form
//! becomes a configuration again, and the rules that keep the form valid.

use crate::config::{
    Autostart, Cadence, Config, DeviceFilter, MenubarConfig, Period, Thresholds,
    DEFAULT_WARN_PERIOD_SECS,
};
use vstd::prelude::*;

verus! {

/// Popup index of each device choice.
pub const DEVICE_INDEX_ANY_MX: isize = 0;

pub const DEVICE_INDEX_ANY_LOGITECH: isize = 1;

pub const DEVICE_INDEX_SPECIFIC: isize = 2;

/// The values shown in the preferences window.
#[derive(Clone, Debug)]
pub struct PrefsForm {
    /// 0 = Any MX, 1 = Any Logitech, 2 = Specific.
    pub device_index: isize,
    pub identifier: String,
    pub identifier_hidden: bool,
    pub warn_enabled: bool,
    pub critical_enabled: bool,
    pub warn: u8,
    pub critical: u8,
    /// Critical re-notify period in minutes.
    pub critical_period_mins: u64,
    pub menubar_enabled: bool,
    pub autostart_enabled: bool,
}

/// Settings kept from the configuration the form was opened with, which the
/// form does not show.
#[derive(Clone, Copy, Debug, PartialEq, Eq, Structural)]
pub struct FormBaseline {
    pub warn_period: Period,
    pub rearm_hysteresis: u8,
    pub autostart_enabled: bool,
}

impl FormBaseline {
    /// The baseline before any configuration is loaded.
    pub fn initial() -> (b: Self)
        ensures
            b.warn_period == (Period { secs: DEFAULT_WARN_PERIOD_SECS, nanos: 0 }),
            b.rearm_hysteresis == 5,
            !b.autostart_enabled,
    {
        FormBaseline {
            warn_period: Period::from_secs(DEFAULT_WARN_PERIOD_SECS),
            rearm_hysteresis: 5,
            autostart_enabled: false,
        }
    }
}

/// The identifier field is shown only for the "Specific" choice.
pub fn identifier_hidden_for(device_index: isize) -> (h: bool)
    ensures
        h == (device_index != DEVICE_INDEX_SPECIFIC),
{
    device_index != DEVICE_INDEX_SPECIFIC
}

/// The device filter a popup choice stands for; unknown indices mean Any MX.
pub open spec fn spec_device_for(index: isize, identifier: String) -> DeviceFilter {
    if index == DEVICE_INDEX_SPECIFIC {
        DeviceFilter::Specific { identifier }
    } else if index == DEVICE_INDEX_ANY_LOGITECH {
        DeviceFilter::AnyLogitech
    } else {
        DeviceFilter::AnyMx
    }
}

/// The configuration the form describes.
pub open spec fn spec_build_config(form: PrefsForm, base: FormBaseline) -> Config {
    Config {
        schema_version: 1,
        device: spec_device_for(form.device_index, form.identifier),
        thresholds: Thresholds {
            warn: form.warn,
            critical: form.critical,
            rearm_hysteresis: base.rearm_hysteresis,
            warn_enabled: form.warn_enabled,
            critical_enabled: form.critical_enabled,
        },
        cadence: Cadence {
            warn_period: base.warn_period,
            critical_period: Period { secs: (form.critical_period_mins * 60) as u64, nanos: 0 },
        },
        menubar: MenubarConfig { enabled: form.menubar_enabled },
        autostart: Autostart { enabled: form.autostart_enabled },
    }
}

pub fn build_config(form: &PrefsForm, base: &FormBaseline) -> (c: Config)
    requires
        form.critical_period_mins * 60 <= u64::MAX,
    ensures
        c == spec_build_config(*form, *base),
        c.thresholds.warn == form.warn,
        c.thresholds.critical == form.critical,
        c.thresholds.warn_enabled == form.warn_enabled,
        c.thresholds.critical_enabled == form.critical_enabled,
{
    let device = if form.device_index == DEVICE_INDEX_SPECIFIC {
        DeviceFilter::Specific { identifier: form.identifier.clone() }
    } else if form.device_index == DEVICE_INDEX_ANY_LOGITECH {
        DeviceFilter::AnyLogitech
    } else {
        DeviceFilter::AnyMx
    };
    Config {
        schema_version: 1,
        device,
        thresholds: Thresholds {
            warn: form.warn,
            critical: form.critical,
            rearm_hysteresis: base.rearm_hysteresis,
            warn_enabled: form.warn_enabled,
            critical_enabled: form.critical_enabled,
        },
        cadence: Cadence {
            warn_period: base.warn_period,
            critical_period: Period::from_secs(form.critical_period_mins * 60),
        },
        menubar: MenubarConfig { enabled: form.menubar_enabled },
        autostart: Autostart { enabled: form.autostart_enabled },
    }
}

/// The form after loading `cfg`: the device choice (the identifier text is
/// replaced only for a specific device), the thresholds, the period in whole
/// minutes and the switches. The baseline keeps the warn period, the
/// hysteresis and the autostart setting.
pub open spec fn spec_loaded(
    form: PrefsForm,
    base: FormBaseline,
    cfg: Config,
    new_form: PrefsForm,
    new_base: FormBaseline,
) -> bool {
    &&& new_form.device_index == match cfg.device {
        DeviceFilter::AnyMx => DEVICE_INDEX_ANY_MX,
        DeviceFilter::AnyLogitech => DEVICE_INDEX_ANY_LOGITECH,
        DeviceFilter::Specific { .. } => DEVICE_INDEX_SPECIFIC,
    }
    &&& new_form.identifier_hidden == !(cfg.device is Specific)
    &&& new_form.identifier == match cfg.device {
        DeviceFilter::Specific { identifier } => identifier,
        _ => form.identifier,
    }
    &&& new_form.warn_enabled == cfg.thresholds.warn_enabled
    &&& new_form.critical_enabled == cfg.thresholds.critical_enabled
    &&& new_form.warn == cfg.thresholds.warn
    &&& new_form.critical == cfg.thresholds.critical
    &&& new_form.critical_period_mins == cfg.cadence.critical_period.secs / 60
    &&& new_form.menubar_enabled == cfg.menubar.enabled
    &&& new_form.autostart_enabled == cfg.autostart.enabled
    &&& new_base == (FormBaseline {
        warn_period: cfg.cadence.warn_period,
        rearm_hysteresis: cfg.thresholds.rearm_hysteresis,
        autostart_enabled: cfg.autostart.enabled,
    })
}

/// Fills the form from `cfg`.
pub fn load_config(form: &mut PrefsForm, base: &mut FormBaseline, cfg: &Config)
    ensures
        spec_loaded(*old(form), *old(base), *cfg, *final(form), *final(base)),
        final(form).warn == cfg.thresholds.warn,
        final(form).critical == cfg.thresholds.critical,
        final(form).warn_enabled == cfg.thresholds.warn_enabled,
        final(form).critical_enabled == cfg.thresholds.critical_enabled,
{
    base.warn_period = cfg.cadence.warn_period;
    base.autostart_enabled = cfg.autostart.enabled;
    match &cfg.device {
        DeviceFilter::AnyMx => {
            form.device_index = DEVICE_INDEX_ANY_MX;
            form.identifier_hidden = true;
        },
        DeviceFilter::AnyLogitech => {
            form.device_index = DEVICE_INDEX_ANY_LOGITECH;
            form.identifier_hidden = true;
        },
        DeviceFilter::Specific { identifier } => {
            form.device_index = DEVICE_INDEX_SPECIFIC;
            form.identifier_hidden = false;
            form.identifier = identifier.clone();
        },
    }
    form.warn_enabled = cfg.thresholds.warn_enabled;
    form.critical_enabled = cfg.thresholds.critical_enabled;
    form.warn = cfg.thresholds.warn;
    form.critical = cfg.thresholds.critical;
    base.rearm_hysteresis = cfg.thresholds.rearm_hysteresis;
    form.critical_period_mins = cfg.cadence.critical_period.as_secs() / 60;
    form.menubar_enabled = cfg.menubar.enabled;
    form.autostart_enabled = cfg.autostart.enabled;
}

/// Stepper ranges that keep `critical < warn`.
#[derive(Clone, Copy, Debug, PartialEq, Eq, Structural)]
pub struct StepperBounds {
    pub critical_min: u8,
    pub critical_max: u8,
    pub warn_min: u8,
    pub warn_max: u8,
}

/// Critical may range over `1..=max(warn - 1, 1)`, warn over
/// `min(critical + 1, 99)..=99`.
pub fn stepper_bounds(warn: u8, critical: u8) -> (b: StepperBounds)
    ensures
        b.critical_min == 1,
        b.critical_max == if warn >= 2 {
            (warn - 1) as u8
        } else {
            1u8
        },
        b.warn_min == if critical >= 98 {
            99u8
        } else {
            (critical + 1) as u8
        },
        b.warn_max == 99,
{
    StepperBounds {
        critical_min: 1,
        critical_max: if warn >= 2 {
            warn - 1
        } else {
            1
        },
        warn_min: if critical >= 98 {
            99
        } else {
            critical + 1
        },
        warn_max: 99,
    }
}

/// Save is offered only while `critical < warn`.
pub fn save_enabled(warn: u8, critical: u8) -> (b: bool)
    ensures
        b == (critical < warn),
{
    critical < warn
}

/// What saving does about the login item.
#[derive(Clone, Copy, Debug, PartialEq, Eq, Structural)]
pub enum AutostartChange {
    Unchanged,
    Install,
    Uninstall,
}

pub fn autostart_change(previous: bool, requested: bool) -> (c: AutostartChange)
    ensures
        c == if previous == requested {
            AutostartChange::Unchanged
        } else if requested {
            AutostartChange::Install
        } else {
            AutostartChange::Uninstall
        },
{
    if previous == requested {
        AutostartChange::Unchanged
    } else if requested {
        AutostartChange::Install
    } else {
        AutostartChange::Uninstall
    }
}

/// Opening the preferences on a configuration and saving without edits
/// writes the same configuration back, provided it is expressible in the
/// form: schema version 1 and a critical period of whole minutes.
pub proof fn save_unedited_form_keeps_config(
    form: PrefsForm,
    base: FormBaseline,
    cfg: Config,
    loaded: PrefsForm,
    loaded_base: FormBaseline,
)
    requires
        cfg.schema_version == 1,
        cfg.cadence.critical_period.nanos == 0,
        cfg.cadence.critical_period.secs % 60 == 0,
        spec_loaded(form, base, cfg, loaded, loaded_base),
    ensures
        spec_build_config(loaded, loaded_base) == cfg,
{
    assert(loaded.critical_period_mins * 60 == cfg.cadence.critical_period.secs);
}

/// The warn controls hold the warn threshold and the critical controls the
/// critical threshold: loading any configuration shows its warn threshold in
/// the warn field and its critical threshold in the critical field, and any
/// form builds a configuration whose thresholds are the form's fields.
/// Consequently a valid configuration loads into a form on which Save is
/// offered and whose values lie within the stepper bounds, and a form on
/// which Save is offered builds thresholds with critical below warn.
pub proof fn thresholds_keep_their_roles(
    form: PrefsForm,
    base: FormBaseline,
    cfg: Config,
    loaded: PrefsForm,
    loaded_base: FormBaseline,
    edited: PrefsForm,
    edited_base: FormBaseline,
)
    requires
        spec_loaded(form, base, cfg, loaded, loaded_base),
    ensures
        loaded.warn == cfg.thresholds.warn,
        loaded.critical == cfg.thresholds.critical,
        spec_build_config(edited, edited_base).thresholds.warn == edited.warn,
        spec_build_config(edited, edited_base).thresholds.critical == edited.critical,
        crate::config::thresholds_valid(cfg.thresholds) ==> {
            &&& loaded.critical < loaded.warn
            &&& 1 <= loaded.critical <= (if loaded.warn >= 2 { loaded.warn - 1 } else { 1 })
            &&& (if loaded.critical >= 98 { 99 } else { loaded.critical + 1 }) <= loaded.warn <= 99
        },
        edited.critical < edited.warn ==> spec_build_config(edited, edited_base).thresholds.critical
            < spec_build_config(edited, edited_base).thresholds.warn,
{
}

} // verus!
