//! The text of the notifications.

use crate::notifier::decide::NotificationKind;
use crate::text::{decimal, push_decimal};
use vstd::prelude::*;

verus! {

pub open spec fn spec_title(kind: NotificationKind) -> Seq<char> {
    match kind {
        NotificationKind::Warn => "Mouse battery low"@,
        NotificationKind::Critical => "Mouse battery critical"@,
    }
}

/// `<device> is at <percent>%. ` followed by the advice for the kind.
pub open spec fn spec_body(kind: NotificationKind, percent: u8, device_name: Seq<char>) -> Seq<char> {
    device_name + " is at "@ + decimal(percent as nat) + "%. "@ + match kind {
        NotificationKind::Warn => "Consider charging soon."@,
        NotificationKind::Critical => "Charge now."@,
    }
}

/// Title and body of the notification for `kind`.
pub fn notification_content(kind: NotificationKind, percent: u8, device_name: &str) -> (r: (
    String,
    String,
))
    ensures
        r.0@ == spec_title(kind),
        r.1@ == spec_body(kind, percent, device_name@),
{
    let title = match kind {
        NotificationKind::Warn => String::from_str("Mouse battery low"),
        NotificationKind::Critical => String::from_str("Mouse battery critical"),
    };
    let mut body = String::from_str(device_name);
    body.append(" is at ");
    push_decimal(&mut body, percent as u64);
    body.append("%. ");
    match kind {
        NotificationKind::Warn => body.append("Consider charging soon."),
        NotificationKind::Critical => body.append("Charge now."),
    }
    (title, body)
}

} // verus!
