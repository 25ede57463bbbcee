//! The alarm model: alarms, drafts, their states, the daemon's status and the
//! user's settings.
use crate::time::{Instant, TimeOfDay, Weekday};
use vstd::prelude::*;

verus! {

/// An alarm's identifier: a UUID, as its 128-bit value.
pub type AlarmId = u128;

/// When an alarm repeats.
#[derive(Clone, Debug)]
pub enum RepeatRule {
    /// Rings once, on the day it is scheduled.
    Once,
    /// Rings Monday to Friday.
    Weekdays,
    /// Rings on the listed days.
    CustomDays(Vec<Weekday>),
}

/// A repeat rule as a mathematical value.
pub enum RuleView {
    Once,
    Weekdays,
    CustomDays(Seq<Weekday>),
}

impl View for RepeatRule {
    type V = RuleView;

    open spec fn view(&self) -> RuleView {
        match self {
            RepeatRule::Once => RuleView::Once,
            RepeatRule::Weekdays => RuleView::Weekdays,
            RepeatRule::CustomDays(days) => RuleView::CustomDays(days@),
        }
    }
}

/// Where an alarm is in its life cycle.
#[derive(Clone, Copy, Debug, PartialEq, Eq, Structural)]
pub enum AlarmState {
    Idle,
    Scheduled,
    Ringing,
    Snoozed,
    Missed,
}

/// The daemon's overall status, as the window and the tray show it.
#[derive(Clone, Copy, Debug, PartialEq, Eq, Structural)]
pub enum AlarmStatus {
    Quiet,
    Upcoming,
    Ringing,
    Snoozed,
}

/// Errors of the library's operations.
#[derive(Clone, Copy, Debug, PartialEq, Eq, Structural)]
pub enum AlarmError {
    /// No stored alarm has the requested identifier.
    AlarmNotFound,
    /// The text is not a UUID.
    InvalidAlarmId,
}

/// A stored alarm.
#[derive(Clone, Debug)]
pub struct Alarm {
    pub id: AlarmId,
    pub label: String,
    pub time_local: TimeOfDay,
    pub repeat_rule: RepeatRule,
    pub sound_id: String,
    pub volume: u8,
    pub enabled: bool,
    pub snooze_minutes: u16,
    pub state: AlarmState,
    pub next_trigger_at: Option<Instant>,
    pub last_triggered_at: Option<Instant>,
    pub created_at: Instant,
    pub updated_at: Instant,
}

/// What a user fills in to create an alarm.
#[derive(Clone, Debug)]
pub struct AlarmDraft {
    pub label: String,
    pub time_local: TimeOfDay,
    pub repeat_rule: RepeatRule,
    pub sound_id: String,
    pub volume: u8,
    pub enabled: bool,
    pub snooze_minutes: u16,
}

/// The alarm that is ringing or snoozed right now.
#[derive(Clone, Debug)]
pub struct ActiveAlarm {
    pub alarm_id: AlarmId,
    pub label: String,
    pub state: AlarmState,
    pub due_at: Instant,
    pub snoozed_until: Option<Instant>,
}

/// The daemon's status report.
#[derive(Clone, Debug)]
pub struct DaemonStatus {
    pub status: AlarmStatus,
    pub next_alarm_at: Option<Instant>,
    pub active_alarm: Option<ActiveAlarm>,
    pub tray_available: bool,
    pub notifications_available: bool,
    pub audio_available: bool,
}

/// Everything the window shows, at one moment.
#[derive(Clone, Debug)]
pub struct AppSnapshot {
    pub generated_at: Instant,
    pub alarms: Vec<Alarm>,
    pub status: DaemonStatus,
    pub settings: Settings,
}

/// The user's settings.
#[derive(Clone, Debug)]
pub struct Settings {
    pub theme: String,
    pub autostart: bool,
    pub launch_minimized: bool,
    pub grace_window_minutes: u16,
    pub default_snooze_minutes: u16,
}

/// The UUID version (the high nibble of its seventh byte).
pub open spec fn uuid_version(id: u128) -> u128 {
    (id >> 76u128) & 0xfu128
}

/// The UUID variant bits (the two high bits of its ninth byte).
pub open spec fn uuid_variant(id: u128) -> u128 {
    (id >> 62u128) & 0x3u128
}

/// What `uuid::Uuid::from_str` makes of a text: the UUID's value, or `None`
/// when the text is not a UUID.
pub uninterp spec fn uuid_parse(s: Seq<char>) -> Option<u128>;

/// `uuid::Uuid::new_v4`: a random UUID, of version 4 and of the RFC 4122
/// variant. Which one comes back is chance.
#[verifier::external_body]
fn new_uuid_v4() -> (id: u128)
    ensures
        uuid_version(id) == 4,
        uuid_variant(id) == 2,
{
    uuid::Uuid::new_v4().as_u128()
}

/// `uuid::Uuid::from_str`: the UUID written in `s`.
#[verifier::external_body]
fn uuid_from_str(s: &str) -> (r: Option<u128>)
    ensures
        r == uuid_parse(s@),
{
    match s.parse::<uuid::Uuid>() {
        Ok(u) => Some(u.as_u128()),
        Err(_) => None,
    }
}

/// The alarm identifier written in `id`.
pub fn parse_alarm_id(id: &str) -> (r: Result<AlarmId, AlarmError>)
    ensures
        r == (match uuid_parse(id@) {
            Some(v) => Ok::<AlarmId, AlarmError>(v),
            None => Err(AlarmError::InvalidAlarmId),
        }),
{
    match uuid_from_str(id) {
        Some(v) => Ok(v),
        None => Err(AlarmError::InvalidAlarmId),
    }
}

/// `uuid::Uuid::to_string`: the UUID in its hyphenated lower-case form (36
/// characters), which `uuid::Uuid::from_str` reads back as the same UUID.
#[verifier::external_body]
fn uuid_to_text(id: u128) -> (s: String)
    ensures
        s@.len() == 36,
        uuid_parse(s@) == Some(id),
{
    uuid::Uuid::from_u128(id).to_string()
}

/// The alarm identifier as text, as it is stored and passed around; reading
/// it back with `parse_alarm_id` gives the same identifier.
pub fn alarm_id_text(id: AlarmId) -> (s: String)
    ensures
        s@.len() == 36,
        uuid_parse(s@) == Some(id),
{
    uuid_to_text(id)
}

impl Default for AlarmDraft {
    /// A weekday alarm at 07:00 labelled "Alarm", with the default sound, at
    /// volume 80, enabled, snoozing for 10 minutes.
    fn default() -> (r: Self)
        ensures
            r.label@ == "Alarm"@,
            r.time_local == (TimeOfDay { secs: 25200u32, nanos: 0u32 }),
            r.repeat_rule == RepeatRule::Weekdays,
            r.sound_id@ == "default"@,
            r.volume == 80,
            r.enabled,
            r.snooze_minutes == 10,
    {
        AlarmDraft {
            label: String::from_str("Alarm"),
            time_local: TimeOfDay { secs: 7 * 3600, nanos: 0 },
            repeat_rule: RepeatRule::Weekdays,
            sound_id: String::from_str("default"),
            volume: 80,
            enabled: true,
            snooze_minutes: 10,
        }
    }
}

/// A volume capped at 100.
pub open spec fn capped_volume(v: u8) -> u8 {
    if v > 100 { 100 } else { v }
}

/// A snooze length of at least one minute.
pub open spec fn floored_snooze(m: u16) -> u16 {
    if m < 1 { 1 } else { m }
}

impl AlarmDraft {
    /// A new idle alarm made from this draft at `now`, with a fresh random
    /// identifier, the volume capped at 100 and the snooze at least one minute.
    pub fn into_alarm(self, now: Instant) -> (r: Result<Alarm, AlarmError>)
        ensures
            r matches Ok(a) && {
                &&& uuid_version(a.id) == 4
                &&& uuid_variant(a.id) == 2
                &&& a.label == self.label
                &&& a.time_local == self.time_local
                &&& a.repeat_rule == self.repeat_rule
                &&& a.sound_id == self.sound_id
                &&& a.volume == capped_volume(self.volume)
                &&& a.enabled == self.enabled
                &&& a.snooze_minutes == floored_snooze(self.snooze_minutes)
                &&& a.state == AlarmState::Idle
                &&& a.next_trigger_at is None
                &&& a.last_triggered_at is None
                &&& a.created_at == now
                &&& a.updated_at == now
            },
    {
        Ok(Alarm {
            id: new_uuid_v4(),
            label: self.label,
            time_local: self.time_local,
            repeat_rule: self.repeat_rule,
            sound_id: self.sound_id,
            volume: if self.volume > 100 { 100 } else { self.volume },
            enabled: self.enabled,
            snooze_minutes: if self.snooze_minutes < 1 { 1 } else { self.snooze_minutes },
            state: AlarmState::Idle,
            next_trigger_at: None,
            last_triggered_at: None,
            created_at: now,
            updated_at: now,
        })
    }
}

impl Alarm {
    /// The same alarm with the volume capped at 100 and the snooze at least one minute.
    pub fn normalized(self) -> (r: Result<Alarm, AlarmError>)
        ensures
            r matches Ok(a) && a == (Alarm {
                volume: capped_volume(self.volume),
                snooze_minutes: floored_snooze(self.snooze_minutes),
                ..self
            }),
    {
        let mut a = self;
        if a.volume > 100 {
            a.volume = 100;
        }
        if a.snooze_minutes < 1 {
            a.snooze_minutes = 1;
        }
        Ok(a)
    }
}

impl Alarm {
    /// The alarm's time of day and trigger time are values the scheduler
    /// can work with.
    pub open spec fn times_ok(self) -> bool {
        self.time_local.wf() && (self.next_trigger_at matches Some(t) ==> t.valid())
    }

    /// `times_ok()`, tested at run time.
    pub fn has_valid_times(&self) -> (r: bool)
        ensures
            r == self.times_ok(),
    {
        self.time_local.is_valid() && match self.next_trigger_at {
            Some(t) => t.is_valid(),
            None => true,
        }
    }
}

impl Default for Settings {
    /// The "aurora" theme, autostart on, not minimized, a 15-minute grace
    /// window and 10-minute snoozes.
    fn default() -> (r: Self)
        ensures
            r.theme@ == "aurora"@,
            r.autostart,
            !r.launch_minimized,
            r.grace_window_minutes == 15,
            r.default_snooze_minutes == 10,
    {
        Settings {
            theme: String::from_str("aurora"),
            autostart: true,
            launch_minimized: false,
            grace_window_minutes: 15,
            default_snooze_minutes: 10,
        }
    }
}

impl RepeatRule {
    /// An exact copy.
    pub fn duplicate(&self) -> (r: RepeatRule)
        ensures
            r@ == self@,
    {
        match self {
            RepeatRule::Once => RepeatRule::Once,
            RepeatRule::Weekdays => RepeatRule::Weekdays,
            RepeatRule::CustomDays(days) => {
                let mut copy: Vec<Weekday> = Vec::new();
                let mut i: usize = 0;
                while i < days.len()
                    invariant
                        i <= days.len(),
                        copy@ == days@.subrange(0, i as int),
                    decreases days.len() - i,
                {
                    copy.push(days[i]);
                    i = i + 1;
                }
                assert(copy@ =~= days@);
                RepeatRule::CustomDays(copy)
            },
        }
    }
}

/// `a` and `b` hold the same values, their repeat rules compared as values.
pub open spec fn same_alarm(a: Alarm, b: Alarm) -> bool {
    a == Alarm { repeat_rule: a.repeat_rule, ..b } && a.repeat_rule@ == b.repeat_rule@
}

impl Alarm {
    /// A copy holding the same values.
    pub fn duplicate(&self) -> (r: Alarm)
        ensures
            same_alarm(r, *self),
    {
        let rule = self.repeat_rule.duplicate();
        let r = Alarm {
            id: self.id,
            label: self.label.clone(),
            time_local: self.time_local,
            repeat_rule: rule,
            sound_id: self.sound_id.clone(),
            volume: self.volume,
            enabled: self.enabled,
            snooze_minutes: self.snooze_minutes,
            state: self.state,
            next_trigger_at: self.next_trigger_at,
            last_triggered_at: self.last_triggered_at,
            created_at: self.created_at,
            updated_at: self.updated_at,
        };
        r
    }
}

impl ActiveAlarm {
    /// An exact copy.
    pub fn duplicate(&self) -> (r: ActiveAlarm)
        ensures
            r == *self,
    {
        ActiveAlarm {
            alarm_id: self.alarm_id,
            label: self.label.clone(),
            state: self.state,
            due_at: self.due_at,
            snoozed_until: self.snoozed_until,
        }
    }
}

} // verus!
