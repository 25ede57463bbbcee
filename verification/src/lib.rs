//! Aurora Alarm core: the alarm model, recurrence scheduling, and the
//! decisions that the daemon and the window make about alarms.

pub mod api;
pub mod engine;
pub mod laws;
pub mod model;
pub mod presentation;
pub mod schedule;
pub mod seed;
pub mod sorting;
pub mod text;
pub mod time;

pub use api::{DBUS_INTERFACE, DBUS_PATH, DBUS_SERVICE};
pub use model::{
    ActiveAlarm, Alarm, AlarmDraft, AlarmError, AlarmId, AlarmState, AlarmStatus, AppSnapshot,
    DaemonStatus, RepeatRule, Settings,
};
pub use schedule::{describe_next_alarm, next_occurrence_after};
pub use time::{Instant, TimeOfDay, WallTime, Weekday, ZoneLookup};
