//! Lucent: the decision logic of a freedesktop notification daemon.
//!
//! The library holds what the daemon decides: the configuration and the
//! stylesheet built from it, the notification server's id allocation and
//! request decoding, the popup stack (which notifications are shown, which are
//! queued, where each popup sits) and the content of each popup. The program
//! around it performs the bus, window-system and timer work that these
//! decisions call for.

pub mod config;
pub mod decimal;
pub mod style;
pub mod notification;
pub mod dbus;
pub mod ui;
pub mod window;
