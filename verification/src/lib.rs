//! A per-user activity logger for Wayland compositors speaking the i3/sway
//! IPC protocol: the frame codec, the subscription handshake, the
//! date-rotated journal of timed events, the supervised idle monitor and
//! the event pipeline that ties them together.
//!
//! Everything here is verified.  What needs the operating system — sockets,
//! files, processes, signals, clocks — is driven by a thin unverified shell
//! through the contracts of these modules.

pub mod codec;
pub mod command;
pub mod config;
pub mod connection;
pub mod events;
pub mod log;
pub mod pipeline;
pub mod process;
pub mod record;
pub mod reply;
pub mod store;
pub mod strutil;
pub mod swayidle;
pub mod time;
pub mod xdg;

use vstd::prelude::*;

verus! {

/// The application's name, used for default directories and identifiers.
pub const NAME: &'static str = "matiane";

} // verus!
