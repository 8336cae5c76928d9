use mxbattery::config::{
    Autostart, Cadence, Config, ConfigError, DeviceFilter, MenubarConfig, Period, Thresholds,
};

fn valid() -> Config {
    Config {
        schema_version: 1,
        device: DeviceFilter::Specific {
            identifier: "798C4CBB-C8BE-9C3C-F286-195F08C01978".into(),
        },
        thresholds: Thresholds {
            warn: 20,
            critical: 5,
            rearm_hysteresis: 5,
            warn_enabled: true,
            critical_enabled: true,
        },
        cadence: Cadence {
            warn_period: Period::from_secs(24 * 60 * 60),
            critical_period: Period::from_secs(30 * 60),
        },
        menubar: MenubarConfig { enabled: true },
        autostart: Autostart { enabled: false },
    }
}

#[test]
fn rejects_critical_ge_warn() {
    let mut cfg = valid();
    cfg.thresholds.critical = 30;
    let err = cfg.validate().unwrap_err();
    assert!(matches!(err, ConfigError::InvariantViolated(_)));
}

#[test]
fn defaults_are_sensible() {
    let c = Config::default();
    assert_eq!(c.thresholds.warn, 20);
    assert_eq!(c.thresholds.critical, 5);
    assert!(c.thresholds.warn_enabled);
    assert!(c.thresholds.critical_enabled);
    assert_eq!(c.cadence.warn_period.as_secs(), 24 * 60 * 60);
    assert_eq!(c.cadence.critical_period.as_secs(), 30 * 60);
    assert!(c.menubar.enabled);
    assert!(matches!(c.device, DeviceFilter::AnyMx));
    c.validate().unwrap();
}

#[test]
fn valid_config_passes_validation() {
    assert!(valid().validate().is_ok());
}

#[test]
fn critical_ge_warn_message_names_both_values() {
    let mut cfg = valid();
    cfg.thresholds.critical = 30;
    match cfg.validate() {
        Err(ConfigError::InvariantViolated(m)) => {
            assert_eq!(m, "critical (30) must be < warn (20)")
        }
        other => panic!("unexpected {:?}", other),
    }
}

#[test]
fn critical_equal_to_warn_is_rejected() {
    let mut cfg = valid();
    cfg.thresholds.critical = 20;
    match cfg.validate() {
        Err(ConfigError::InvariantViolated(m)) => {
            assert_eq!(m, "critical (20) must be < warn (20)")
        }
        other => panic!("unexpected {:?}", other),
    }
}

#[test]
fn warn_above_99_is_rejected() {
    let mut cfg = valid();
    cfg.thresholds.warn = 100;
    match cfg.validate() {
        Err(ConfigError::InvariantViolated(m)) => {
            assert_eq!(m, "warn must be 1..=99, critical must be >=1")
        }
        other => panic!("unexpected {:?}", other),
    }
}

#[test]
fn critical_zero_is_rejected() {
    let mut cfg = valid();
    cfg.thresholds.critical = 0;
    assert!(matches!(cfg.validate(), Err(ConfigError::InvariantViolated(_))));
}

#[test]
fn boundary_thresholds_are_accepted() {
    let mut cfg = valid();
    cfg.thresholds.warn = 99;
    cfg.thresholds.critical = 1;
    assert!(cfg.validate().is_ok());
    cfg.thresholds.warn = 2;
    assert!(cfg.validate().is_ok());
}

#[test]
fn missing_switches_default_to_enabled() {
    assert!(mxbattery::config::yes());
}

#[test]
fn period_keeps_seconds_and_nanos() {
    let p = Period { secs: 90, nanos: 5 };
    assert_eq!(p.as_secs(), 90);
    assert_eq!(p.subsec_nanos(), 5);
    assert_eq!(Period::from_secs(7).subsec_nanos(), 0);
}
