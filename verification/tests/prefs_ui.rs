use mxbattery::config::{Config, DeviceFilter, Period};
use mxbattery::prefs_ui::{
    autostart_change, build_config, identifier_hidden_for, load_config, save_enabled,
    stepper_bounds, AutostartChange, FormBaseline, PrefsForm,
};

fn blank_form() -> PrefsForm {
    PrefsForm {
        device_index: 0,
        identifier: String::new(),
        identifier_hidden: true,
        warn_enabled: true,
        critical_enabled: true,
        warn: 20,
        critical: 5,
        critical_period_mins: 30,
        menubar_enabled: true,
        autostart_enabled: false,
    }
}

#[test]
fn unedited_form_saves_the_same_config() {
    let mut cfg = Config::default();
    cfg.device = DeviceFilter::Specific { identifier: "ABC".into() };
    cfg.thresholds.rearm_hysteresis = 7;
    cfg.cadence.warn_period = Period::from_secs(3600);
    cfg.cadence.critical_period = Period::from_secs(45 * 60);
    cfg.autostart.enabled = true;
    let mut form = blank_form();
    let mut base = FormBaseline::initial();
    load_config(&mut form, &mut base, &cfg);
    assert_eq!(form.device_index, 2);
    assert!(!form.identifier_hidden);
    assert_eq!(form.critical_period_mins, 45);
    assert_eq!(build_config(&form, &base), cfg);
}

#[test]
fn form_choices_build_filters() {
    let mut form = blank_form();
    form.identifier = "XYZ".into();
    let base = FormBaseline::initial();
    form.device_index = 1;
    assert_eq!(build_config(&form, &base).device, DeviceFilter::AnyLogitech);
    form.device_index = 2;
    assert_eq!(
        build_config(&form, &base).device,
        DeviceFilter::Specific { identifier: "XYZ".into() }
    );
    form.device_index = -1;
    assert_eq!(build_config(&form, &base).device, DeviceFilter::AnyMx);
    assert_eq!(build_config(&form, &base).cadence.warn_period, Period::from_secs(24 * 60 * 60));
    assert_eq!(build_config(&form, &base).thresholds.rearm_hysteresis, 5);
    assert!(identifier_hidden_for(0) && !identifier_hidden_for(2));
}

#[test]
fn bounds_keep_critical_below_warn() {
    let b = stepper_bounds(20, 5);
    assert_eq!((b.critical_min, b.critical_max, b.warn_min, b.warn_max), (1, 19, 6, 99));
    let b = stepper_bounds(1, 99);
    assert_eq!((b.critical_max, b.warn_min), (1, 99));
    assert!(save_enabled(20, 5));
    assert!(!save_enabled(20, 20));
}

#[test]
fn autostart_changes() {
    assert_eq!(autostart_change(false, false), AutostartChange::Unchanged);
    assert_eq!(autostart_change(false, true), AutostartChange::Install);
    assert_eq!(autostart_change(true, false), AutostartChange::Uninstall);
}
