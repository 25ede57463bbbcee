//! The names under which the daemon is reached on the session bus.
use vstd::prelude::*;

verus! {

/// The D-Bus name the daemon owns.
pub const DBUS_SERVICE: &'static str = "io.codex.AuroraAlarm";

/// The object path the daemon serves.
pub const DBUS_PATH: &'static str = "/io/codex/AuroraAlarm";

/// The daemon's interface.
pub const DBUS_INTERFACE: &'static str = "io.codex.AuroraAlarm";

} // verus!
