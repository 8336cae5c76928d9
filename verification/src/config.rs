//! User configuration: which device to watch, notification thresholds and
//! cadence, and the menu-bar and autostart switches.

use crate::text::{decimal, push_decimal};
use vstd::prelude::*;

verus! {

#[verifier::external_type_specification]
#[verifier::external_body]
pub struct ExTomlDeError(toml::de::Error);

#[verifier::external_type_specification]
#[verifier::external_body]
pub struct ExIoError(std::io::Error);

/// A span of time: whole seconds plus a sub-second part in nanoseconds.
#[derive(Clone, Copy, Debug, PartialEq, Eq, Structural)]
pub struct Period {
    pub secs: u64,
    pub nanos: u32,
}

impl Period {
    pub fn from_secs(secs: u64) -> (p: Period)
        ensures
            p.secs == secs,
            p.nanos == 0,
    {
        Period { secs, nanos: 0 }
    }

    /// Whole seconds, the sub-second part dropped.
    pub fn as_secs(&self) -> (s: u64)
        ensures
            s == self.secs,
    {
        self.secs
    }

    pub fn subsec_nanos(&self) -> (n: u32)
        ensures
            n == self.nanos,
    {
        self.nanos
    }
}

/// Which peripheral the daemon follows.
#[derive(Clone, Debug, PartialEq, Eq)]
pub enum DeviceFilter {
    /// The peripheral with this identifier (compared ignoring ASCII case).
    Specific { identifier: String },
    /// Any device whose model number starts with "MX ".
    AnyMx,
    /// Any device with the Logitech vendor service or Logitech's vendor id.
    AnyLogitech,
}

#[derive(Clone, Copy, Debug, PartialEq, Eq, Structural)]
pub struct Thresholds {
    pub warn: u8,
    pub critical: u8,
    pub rearm_hysteresis: u8,
    pub warn_enabled: bool,
    pub critical_enabled: bool,
}

#[derive(Clone, Copy, Debug, PartialEq, Eq, Structural)]
pub struct Cadence {
    pub warn_period: Period,
    pub critical_period: Period,
}

#[derive(Clone, Copy, Debug, PartialEq, Eq, Structural)]
pub struct MenubarConfig {
    pub enabled: bool,
}

#[derive(Clone, Copy, Debug, PartialEq, Eq, Structural)]
pub struct Autostart {
    pub enabled: bool,
}

#[derive(Clone, Debug, PartialEq, Eq)]
pub struct Config {
    pub schema_version: u32,
    pub device: DeviceFilter,
    pub thresholds: Thresholds,
    pub cadence: Cadence,
    pub menubar: MenubarConfig,
    pub autostart: Autostart,
}

/// The value a missing `warn_enabled` / `critical_enabled` key takes.
pub fn yes() -> (b: bool)
    ensures
        b,
{
    true
}

pub const DEFAULT_WARN_PERIOD_SECS: u64 = 24 * 60 * 60;

pub const DEFAULT_CRITICAL_PERIOD_SECS: u64 = 30 * 60;

/// The configuration written on first start.
pub open spec fn is_default_config(c: Config) -> bool {
    &&& c.schema_version == 1
    &&& c.device == DeviceFilter::AnyMx
    &&& c.thresholds == (Thresholds {
        warn: 20,
        critical: 5,
        rearm_hysteresis: 5,
        warn_enabled: true,
        critical_enabled: true,
    })
    &&& c.cadence == (Cadence {
        warn_period: Period { secs: DEFAULT_WARN_PERIOD_SECS, nanos: 0 },
        critical_period: Period { secs: DEFAULT_CRITICAL_PERIOD_SECS, nanos: 0 },
    })
    &&& c.menubar.enabled
    &&& !c.autostart.enabled
}

impl Default for Config {
    fn default() -> (c: Self)
        ensures
            is_default_config(c),
    {
        Config {
            schema_version: 1,
            device: DeviceFilter::AnyMx,
            thresholds: Thresholds {
                warn: 20,
                critical: 5,
                rearm_hysteresis: 5,
                warn_enabled: true,
                critical_enabled: true,
            },
            cadence: Cadence {
                warn_period: Period::from_secs(DEFAULT_WARN_PERIOD_SECS),
                critical_period: Period::from_secs(DEFAULT_CRITICAL_PERIOD_SECS),
            },
            menubar: MenubarConfig { enabled: true },
            autostart: Autostart { enabled: false },
        }
    }
}

#[derive(Debug)]
pub enum ConfigError {
    /// The file is not valid TOML for a configuration.
    Parse(toml::de::Error),
    /// The thresholds break an invariant; the text says which.
    InvariantViolated(String),
    /// Reading or writing the file failed.
    Io(std::io::Error),
}

/// The threshold invariant: `1 <= critical < warn <= 99`.
pub open spec fn thresholds_valid(t: Thresholds) -> bool {
    t.critical < t.warn && t.warn <= 99 && t.critical != 0
}

/// The message `validate` reports for thresholds that break the invariant.
pub open spec fn violation_message(t: Thresholds) -> Seq<char> {
    if t.critical >= t.warn {
        "critical ("@ + decimal(t.critical as nat) + ") must be < warn ("@ + decimal(t.warn as nat)
            + ")"@
    } else {
        "warn must be 1..=99, critical must be >=1"@
    }
}

/// The configuration written on first start satisfies the threshold
/// invariant.
pub proof fn default_config_is_valid(c: Config)
    requires
        is_default_config(c),
    ensures
        thresholds_valid(c.thresholds),
{
}

impl Config {
    pub fn validate(&self) -> (r: Result<(), ConfigError>)
        ensures
            r is Ok <==> thresholds_valid(self.thresholds),
            r matches Err(e) ==> e matches ConfigError::InvariantViolated(m) && m@
                == violation_message(self.thresholds),
    {
        let t = self.thresholds;
        if t.critical >= t.warn {
            let mut m = String::from_str("critical (");
            push_decimal(&mut m, t.critical as u64);
            m.append(") must be < warn (");
            push_decimal(&mut m, t.warn as u64);
            m.append(")");
            return Err(ConfigError::InvariantViolated(m));
        }
        if t.warn > 99 || t.critical == 0 {
            return Err(
                ConfigError::InvariantViolated(
                    String::from_str("warn must be 1..=99, critical must be >=1"),
                ),
            );
        }
        Ok(())
    }
}

} // verus!
