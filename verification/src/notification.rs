//! Core notification data types and the commands and signals that pass
//! between the bus side and the popup side of the daemon.

use std::collections::HashMap;
use vstd::prelude::*;
use zbus::zvariant::OwnedValue;

verus! {

/// `std::time::Instant`, carried as the time a notification was received.
#[verifier::external_type_specification]
#[verifier::external_body]
pub struct ExInstant(std::time::Instant);

/// `zbus::zvariant::OwnedValue`, the value type of a notification's hints
/// dictionary, carried unread.
#[verifier::external_type_specification]
#[verifier::external_body]
pub struct ExOwnedValue(zbus::zvariant::OwnedValue);

/// Reads the clock with `std::time::Instant::now`. Nothing is claimed of the
/// reading.
#[verifier::external_body]
pub(crate) fn instant_now() -> (t: std::time::Instant) {
    std::time::Instant::now()
}

/// Close reason: the notification expired.
pub const REASON_EXPIRED: u32 = 1;

/// Close reason: the user dismissed the notification.
pub const REASON_DISMISSED: u32 = 2;

/// Close reason: closed by a `CloseNotification` call.
pub const REASON_CLOSED_BY_CALL: u32 = 3;

/// Close reason: undefined or reserved.
pub const REASON_UNDEFINED: u32 = 4;

/// A desktop notification received over the bus (freedesktop spec v1.3).
#[derive(Debug)]
pub struct Notification {
    /// Unique notification ID (never 0).
    pub id: u32,
    /// Name of the application that sent the notification.
    pub app_name: String,
    /// Icon name or path for the sending application.
    pub app_icon: String,
    /// Brief summary / title of the notification.
    pub summary: String,
    /// Optional body text (may contain pango markup).
    pub body: String,
    /// Action pairs: `(action_key, localized_label)`.
    pub actions: Vec<(String, String)>,
    /// Hints dictionary from the D-Bus message (`a{sv}`).
    pub hints: HashMap<String, OwnedValue>,
    /// Expiration: -1 = server default, 0 = never, >0 = milliseconds.
    pub expire_timeout: i32,
    /// Time when the notification was received.
    pub created_at: std::time::Instant,
}

/// Commands sent from the bus side to the popup side.
#[derive(Debug)]
pub enum UiCommand {
    /// Display a new (or replacement) notification.
    Show(Notification),
    /// Close a notification by ID with a reason code.
    /// Reason: 1=expired, 2=dismissed by user, 3=closed by API, 4=undefined.
    Close { id: u32, reason: u32 },
    /// The expiry timer of the popup of notification `id` ran out; the timer
    /// was set when that popup was shown as generation `generation`, and is
    /// obeyed only while the popup on screen is still that one.
    Expire { id: u32, generation: u64 },
    /// Recalculate popup positions after size changes.
    Reflow,
}

/// Signals sent from the popup side to the bus side, for emission on the bus.
#[derive(Debug)]
pub enum DbusSignal {
    /// Notification was closed. Reason: 1=expired, 2=dismissed, 3=API, 4=undefined.
    Closed { id: u32, reason: u32 },
    /// User invoked an action on a notification.
    ActionInvoked { id: u32, action_key: String },
}

} // verus!
