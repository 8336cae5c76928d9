//! Battery notifications: the policy and the text shown to the user.

pub mod content;
pub mod decide;
pub mod laws;

pub use content::notification_content;
pub use decide::{clear_armed_if_rose, decide, handle_reading, toggle_mute_today, NotificationKind};
