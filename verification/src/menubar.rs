//! What the menu-bar icon and its menu show for a reading: the status line,
//! the charge bucket, and the drawing plan of the mouse glyph.

use crate::state::ChargingState;
use crate::text::{decimal, push_decimal};
use vstd::prelude::*;

verus! {

/// A click in the menu-bar menu.
#[derive(Clone, Copy, Debug, PartialEq, Eq, Structural)]
pub enum MenubarCommand {
    ToggleMuteToday,
    OpenPrefs,
    Quit,
}

/// The charge bucket the icon snaps to.
#[derive(Clone, Copy, Debug, PartialEq, Eq, Structural)]
pub enum Bucket {
    /// below 5 %
    Critical,
    /// below 20 %
    Warning,
    /// below 60 %
    Medium,
    /// below 80 %
    Good,
    /// 80 % and above
    Full,
}

pub open spec fn spec_bucket(p: u8) -> Bucket {
    if p <= 4 {
        Bucket::Critical
    } else if p <= 19 {
        Bucket::Warning
    } else if p <= 59 {
        Bucket::Medium
    } else if p <= 79 {
        Bucket::Good
    } else {
        Bucket::Full
    }
}

/// Position of a bucket from emptiest (0) to fullest (4).
pub open spec fn bucket_rank(b: Bucket) -> int {
    match b {
        Bucket::Critical => 0,
        Bucket::Warning => 1,
        Bucket::Medium => 2,
        Bucket::Good => 3,
        Bucket::Full => 4,
    }
}

/// Drawn fill height in percent of the glyph; decoupled from the raw level
/// so that the lowest bucket stays visible.
pub open spec fn spec_render_percent(b: Bucket) -> u8 {
    match b {
        Bucket::Critical => 15,
        Bucket::Warning => 32,
        Bucket::Medium => 50,
        Bucket::Good => 70,
        Bucket::Full => 100,
    }
}

impl Bucket {
    pub fn from_percent(p: u8) -> (b: Self)
        ensures
            b == spec_bucket(p),
    {
        if p <= 4 {
            Bucket::Critical
        } else if p <= 19 {
            Bucket::Warning
        } else if p <= 59 {
            Bucket::Medium
        } else if p <= 79 {
            Bucket::Good
        } else {
            Bucket::Full
        }
    }

    pub fn render_percent(self) -> (r: u8)
        ensures
            r == spec_render_percent(self),
    {
        match self {
            Bucket::Critical => 15,
            Bucket::Warning => 32,
            Bucket::Medium => 50,
            Bucket::Good => 70,
            Bucket::Full => 100,
        }
    }

    pub fn is_low(self) -> (r: bool)
        ensures
            r == (self == Bucket::Critical || self == Bucket::Warning),
    {
        match self {
            Bucket::Critical | Bucket::Warning => true,
            _ => false,
        }
    }
}

/// Recharging or in a charge-complete state; neither discharging nor unknown.
pub open spec fn spec_is_charging(c: ChargingState) -> bool {
    c != ChargingState::Discharging && c != ChargingState::Unknown
}

pub fn is_charging(c: ChargingState) -> (r: bool)
    ensures
        r == spec_is_charging(c),
        r <==> (c == ChargingState::Recharging || c == ChargingState::ChargeInFinalState || c
            == ChargingState::ChargeComplete),
{
    match c {
        ChargingState::Discharging | ChargingState::Unknown => false,
        _ => true,
    }
}

/// The status line's suffix for a charging state.
pub open spec fn status_suffix(c: ChargingState) -> Seq<char> {
    match c {
        ChargingState::Recharging | ChargingState::ChargeInFinalState => " — charging"@,
        ChargingState::ChargeComplete => " — fully charged"@,
        ChargingState::Discharging => ""@,
        ChargingState::Unknown => " — connecting…"@,
    }
}

/// `Battery: <percent>%<suffix>`.
pub fn format_status(percent: u8, charging: ChargingState) -> (s: String)
    ensures
        s@ == "Battery: "@ + decimal(percent as nat) + "%"@ + status_suffix(charging),
{
    let suffix = match charging {
        ChargingState::Recharging | ChargingState::ChargeInFinalState => " — charging",
        ChargingState::ChargeComplete => " — fully charged",
        ChargingState::Discharging => "",
        ChargingState::Unknown => " — connecting…",
    };
    let mut s = String::from_str("Battery: ");
    push_decimal(&mut s, percent as u64);
    s.append("%");
    s.append(suffix);
    s
}

/// Title of the mute item: offers to lift an active mute.
pub fn mute_item_title(muted: bool) -> (t: &'static str)
    ensures
        t@ == if muted {
            "Unmute"@
        } else {
            "Mute today"@
        },
{
    if muted {
        "Unmute"
    } else {
        "Mute today"
    }
}

/// Colour of the fill inside the glyph.
#[derive(Clone, Copy, Debug, PartialEq, Eq, Structural)]
pub enum FillColor {
    Red,
    Yellow,
    Green,
    /// The system label colour.
    Label,
}

/// How the charging bolt is drawn.
#[derive(Clone, Copy, Debug, PartialEq, Eq, Structural)]
pub enum BoltStyle {
    NoBolt,
    /// Positive above the fill and knocked out of it (low buckets).
    Split,
    /// A solid bright bolt on top of the fill.
    Bright,
}

/// What the glyph shows for a reading.
#[derive(Clone, Copy, Debug, PartialEq, Eq, Structural)]
pub struct IconPlan {
    pub bucket: Bucket,
    pub render_percent: u8,
    pub fill: FillColor,
    pub bolt: BoltStyle,
}

/// The glyph for a reading: green while charging, else red for the lowest
/// bucket, yellow for the warning bucket and the label colour above; a bolt
/// only while charging, split in the low buckets and bright otherwise.
pub open spec fn spec_icon_plan(percent: u8, charging: ChargingState) -> IconPlan {
    let b = spec_bucket(percent);
    let ch = spec_is_charging(charging);
    let low = b == Bucket::Critical || b == Bucket::Warning;
    IconPlan {
        bucket: b,
        render_percent: spec_render_percent(b),
        fill: if ch {
            FillColor::Green
        } else if b == Bucket::Critical {
            FillColor::Red
        } else if b == Bucket::Warning {
            FillColor::Yellow
        } else {
            FillColor::Label
        },
        bolt: if !ch {
            BoltStyle::NoBolt
        } else if low {
            BoltStyle::Split
        } else {
            BoltStyle::Bright
        },
    }
}

pub fn icon_plan(percent: u8, charging: ChargingState) -> (p: IconPlan)
    ensures
        p == spec_icon_plan(percent, charging),
        (p.fill == FillColor::Green) <==> (charging == ChargingState::Recharging || charging
            == ChargingState::ChargeInFinalState || charging == ChargingState::ChargeComplete),
        (p.bolt != BoltStyle::NoBolt) <==> (charging == ChargingState::Recharging || charging
            == ChargingState::ChargeInFinalState || charging == ChargingState::ChargeComplete),
{
    let bucket = Bucket::from_percent(percent);
    let charging = is_charging(charging);
    let fill = if charging {
        FillColor::Green
    } else {
        match bucket {
            Bucket::Critical => FillColor::Red,
            Bucket::Warning => FillColor::Yellow,
            _ => FillColor::Label,
        }
    };
    let bolt = if !charging {
        BoltStyle::NoBolt
    } else if bucket.is_low() {
        BoltStyle::Split
    } else {
        BoltStyle::Bright
    };
    IconPlan { bucket, render_percent: bucket.render_percent(), fill, bolt }
}

/// A higher level never lands in an emptier bucket, nor draws a lower fill.
pub proof fn bucket_is_monotone(p: u8, q: u8)
    requires
        p <= q,
    ensures
        bucket_rank(spec_bucket(p)) <= bucket_rank(spec_bucket(q)),
        spec_render_percent(spec_bucket(p)) <= spec_render_percent(spec_bucket(q)),
{
}

/// Colour follows the bucket, not the drawn height: a discharging reading
/// below 5 % is drawn red and one below 20 % yellow, although both fills are
/// drawn taller than the level.
pub proof fn low_levels_are_coloured(p: u8)
    ensures
        p < 5 ==> spec_icon_plan(p, ChargingState::Discharging).fill == FillColor::Red
            && spec_icon_plan(p, ChargingState::Discharging).render_percent > p,
        5 <= p < 20 ==> spec_icon_plan(p, ChargingState::Discharging).fill == FillColor::Yellow
            && spec_icon_plan(p, ChargingState::Discharging).render_percent > p,
{
}

/// Every state in which the device takes charge (recharging, in the final
/// charging stage, or charge complete) is drawn with a green fill and a
/// bolt, whatever the level; discharging and unknown states are drawn with
/// neither. The status line agrees: exactly these states get a charging
/// suffix (" — charging" or " — fully charged").
pub proof fn charging_states_are_drawn_charging(p: u8, c: ChargingState)
    ensures
        (spec_icon_plan(p, c).fill == FillColor::Green) <==> (c == ChargingState::Recharging || c
            == ChargingState::ChargeInFinalState || c == ChargingState::ChargeComplete),
        (spec_icon_plan(p, c).bolt != BoltStyle::NoBolt) <==> (c == ChargingState::Recharging
            || c == ChargingState::ChargeInFinalState || c == ChargingState::ChargeComplete),
        (c == ChargingState::Recharging || c == ChargingState::ChargeInFinalState) ==> status_suffix(
            c,
        ) == " — charging"@,
        c == ChargingState::ChargeComplete ==> status_suffix(c) == " — fully charged"@,
        c == ChargingState::Discharging ==> status_suffix(c) == ""@,
{
}

} // verus!
