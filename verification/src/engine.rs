//! The daemon's decisions: keeping each alarm's schedule current, what a
//! scheduler tick does to an alarm, ringing, dismissing, snoozing, toggling
//! and editing alarms, and the status it reports.
use crate::model::{
    capped_volume, floored_snooze, same_alarm, ActiveAlarm, Alarm, AlarmDraft, AlarmError, AlarmId,
    AlarmState, AlarmStatus, DaemonStatus,
};
use crate::schedule::{
    describe_next_alarm, next_occurrence_after, occurrence_fits, occurrence_from, occurrence_shape,
    snoozed_past,
};
use crate::time::{local_add_minutes, Instant, ZoneLookup, MAX_EPOCH_DAY, MIN_EPOCH_DAY, SECS_PER_DAY};
use vstd::prelude::*;

verus! {

/// `new` is `old` with its schedule brought up to date at `now`: a disabled
/// alarm becomes idle with no trigger time; a ringing alarm, or one snoozed
/// until later, is left as it is; any other alarm gets its next occurrence
/// (and is scheduled, or idle when there is none). Nothing else changes.
pub open spec fn recomputed(old: Alarm, now: Instant, new: Alarm) -> bool {
    if !old.enabled {
        new == Alarm { state: AlarmState::Idle, next_trigger_at: None, ..old }
    } else if old.state == AlarmState::Ringing || snoozed_past(old, now) {
        new == old
    } else {
        &&& new == Alarm {
            state: if new.next_trigger_at is Some {
                AlarmState::Scheduled
            } else {
                AlarmState::Idle
            },
            next_trigger_at: new.next_trigger_at,
            ..old
        }
        &&& occurrence_fits(old, now, new.next_trigger_at)
        &&& (new.next_trigger_at matches Some(t) ==> occurrence_shape(old, now, t))
    }
}

/// `old` with its schedule brought up to date at `now`, given the time zone's
/// answers: as `recomputed` describes, with the next occurrence worked out
/// from those answers.
pub open spec fn schedule_from(old: Alarm, now: Instant, rows: Seq<Seq<ZoneLookup>>) -> Alarm {
    if !old.enabled {
        Alarm { state: AlarmState::Idle, next_trigger_at: None, ..old }
    } else if old.state == AlarmState::Ringing || snoozed_past(old, now) {
        old
    } else {
        let n = occurrence_from(old, now, rows);
        Alarm {
            state: if n is Some {
                AlarmState::Scheduled
            } else {
                AlarmState::Idle
            },
            next_trigger_at: n,
            ..old
        }
    }
}

/// Brings the alarm's schedule up to date at `now` (see `recomputed`).
pub fn recompute_alarm_schedule(alarm: &mut Alarm, now: Instant)
    requires
        now.valid(),
        old(alarm).time_local.wf(),
    ensures
        recomputed(*old(alarm), now, *final(alarm)),
{
    if !alarm.enabled {
        alarm.state = AlarmState::Idle;
        alarm.next_trigger_at = None;
        return;
    }
    if alarm.state == AlarmState::Ringing {
        return;
    }
    if let Some(next) = alarm.next_trigger_at {
        if alarm.state == AlarmState::Snoozed && now.is_before(&next) {
            return;
        }
    }
    let next = next_occurrence_after(alarm, now);
    alarm.next_trigger_at = next;
    alarm.state = if next.is_some() {
        AlarmState::Scheduled
    } else {
        AlarmState::Idle
    };
}

/// Nanoseconds from `from` to `to` (negative when `to` is earlier).
pub open spec fn nanos_between(from: Instant, to: Instant) -> int {
    (to.secs - from.secs) * 1_000_000_000 + (to.nanos - from.nanos)
}

/// Whether at most `minutes` minutes pass from `from` to `to`.
pub fn elapsed_within(from: &Instant, to: &Instant, minutes: u16) -> (r: bool)
    ensures
        r == (nanos_between(*from, *to) <= minutes * 60 * 1_000_000_000),
{
    let diff: i128 = (to.secs as i128 - from.secs as i128) * 1_000_000_000
        + (to.nanos as i128 - from.nanos as i128);
    diff <= minutes as i128 * 60 * 1_000_000_000
}

/// The alarm is enabled, was not ringing, and its stored trigger time has come,
/// at most `grace_minutes` minutes ago.
pub open spec fn tick_due(alarm: Alarm, now: Instant, grace_minutes: u16) -> bool {
    &&& alarm.enabled
    &&& alarm.state != AlarmState::Ringing
    &&& alarm.next_trigger_at matches Some(t) && !now.before(t) && nanos_between(t, now)
        <= grace_minutes * 60 * 1_000_000_000
}

/// The alarm is enabled, was not ringing, and its stored trigger time passed
/// more than `grace_minutes` minutes ago.
pub open spec fn tick_overdue(alarm: Alarm, now: Instant, grace_minutes: u16) -> bool {
    &&& alarm.enabled
    &&& alarm.state != AlarmState::Ringing
    &&& alarm.next_trigger_at matches Some(t) && t.before(now) && nanos_between(t, now)
        > grace_minutes * 60 * 1_000_000_000
}

/// `new` is `alarm` after a scheduler tick at `now`: a due alarm starts
/// ringing, triggered now and due now; an overdue one is marked missed at
/// `now` and rescheduled; any other alarm has its schedule brought up to date.
pub open spec fn ticked(alarm: Alarm, now: Instant, grace_minutes: u16, new: Alarm) -> bool {
    if tick_due(alarm, now, grace_minutes) {
        new == Alarm {
            state: AlarmState::Ringing,
            last_triggered_at: Some(now),
            next_trigger_at: Some(now),
            ..alarm
        }
    } else if tick_overdue(alarm, now, grace_minutes) {
        recomputed(
            Alarm { state: AlarmState::Missed, last_triggered_at: Some(now), ..alarm },
            now,
            new,
        )
    } else {
        recomputed(alarm, now, new)
    }
}

/// One scheduler tick for one alarm at `now`, with a grace window of
/// `grace_minutes`: an enabled alarm that was not ringing and whose stored
/// trigger time has come within the grace window starts ringing (the flag
/// says so); one whose trigger time passed longer ago is marked missed and
/// rescheduled; any other alarm has its schedule brought up to date.
pub fn scheduler_step(alarm: Alarm, now: Instant, grace_minutes: u16) -> (r: (Alarm, bool))
    requires
        now.valid(),
        alarm.time_local.wf(),
    ensures
        ticked(alarm, now, grace_minutes, r.0),
        r.1 == tick_due(alarm, now, grace_minutes),
{
    let mut alarm = alarm;
    let was_ringing = alarm.state == AlarmState::Ringing;
    let due = match alarm.next_trigger_at {
        Some(next) => !now.is_before(&next) && elapsed_within(&next, &now, grace_minutes),
        None => false,
    };
    let overdue = match alarm.next_trigger_at {
        Some(next) => next.is_before(&now) && !elapsed_within(&next, &now, grace_minutes),
        None => false,
    };
    if alarm.enabled && due && !was_ringing {
        alarm.state = AlarmState::Ringing;
        alarm.last_triggered_at = Some(now);
        alarm.next_trigger_at = Some(now);
        (alarm, true)
    } else if alarm.enabled && overdue && !was_ringing {
        alarm.state = AlarmState::Missed;
        alarm.last_triggered_at = Some(now);
        recompute_alarm_schedule(&mut alarm, now);
        (alarm, false)
    } else {
        recompute_alarm_schedule(&mut alarm, now);
        (alarm, false)
    }
}

/// The last of `alarms[..n]` that is due at `now`, as it is after the tick.
pub open spec fn last_due(alarms: Seq<Alarm>, after: Seq<Alarm>, now: Instant, grace_minutes: u16, n: int) -> Option<Alarm>
    decreases n,
{
    if n <= 0 {
        None
    } else if tick_due(alarms[n - 1], now, grace_minutes) {
        Some(after[n - 1])
    } else {
        last_due(alarms, after, now, grace_minutes, n - 1)
    }
}

/// One scheduler tick over all alarms at `now`: each alarm as
/// `scheduler_step` leaves it, in the same order, and the last alarm that
/// started ringing (a copy of it), if any did.
pub fn scheduler_pass(alarms: Vec<Alarm>, now: Instant, grace_minutes: u16) -> (r: (
    Vec<Alarm>,
    Option<Alarm>,
))
    requires
        now.valid(),
        forall|i: int| 0 <= i < alarms@.len() ==> (#[trigger] alarms@[i]).time_local.wf(),
    ensures
        r.0@.len() == alarms@.len(),
        forall|i: int|
            0 <= i < alarms@.len() ==> ticked(#[trigger] alarms@[i], now, grace_minutes, r.0@[i]),
        match last_due(alarms@, r.0@, now, grace_minutes, alarms@.len() as int) {
            None => r.1 is None,
            Some(a) => r.1 matches Some(f) && same_alarm(f, a),
        },
{
    let mut input = alarms;
    let ghost orig = input@;
    let mut out: Vec<Alarm> = Vec::new();
    let mut fired_alarm: Option<Alarm> = None;
    while input.len() > 0
        invariant
            out@.len() + input@.len() == orig.len(),
            input@ == orig.subrange(out@.len() as int, orig.len() as int),
            forall|i: int| 0 <= i < orig.len() ==> (#[trigger] orig[i]).time_local.wf(),
            forall|i: int|
                0 <= i < out@.len() ==> ticked(#[trigger] orig[i], now, grace_minutes, out@[i]),
            match last_due(orig, out@, now, grace_minutes, out@.len() as int) {
                None => fired_alarm is None,
                Some(a) => fired_alarm matches Some(f) && same_alarm(f, a),
            },
            now.valid(),
        decreases input.len(),
    {
        let ghost k = out@.len() as int;
        let ghost before = out@;
        let alarm = input.remove(0);
        assert(alarm == orig[k]);
        let (updated, fired) = scheduler_step(alarm, now, grace_minutes);
        if fired {
            fired_alarm = Some(updated.duplicate());
        }
        out.push(updated);
        proof {
            assert(out@[k] == updated);
            lemma_last_due_prefix(orig, out@, before, now, grace_minutes, k);
        }
        assert(input@ =~= orig.subrange(out@.len() as int, orig.len() as int));
    }
    (out, fired_alarm)
}

/// `last_due` over the first `n` alarms reads only the first `n` results.
proof fn lemma_last_due_prefix(
    alarms: Seq<Alarm>,
    after1: Seq<Alarm>,
    after2: Seq<Alarm>,
    now: Instant,
    grace_minutes: u16,
    n: int,
)
    requires
        forall|i: int| 0 <= i < n ==> after1[i] == after2[i],
    ensures
        last_due(alarms, after1, now, grace_minutes, n) == last_due(alarms, after2, now, grace_minutes, n),
    decreases n,
{
    if n > 0 {
        lemma_last_due_prefix(alarms, after1, after2, now, grace_minutes, n - 1);
    }
}

/// The alarm to ring again: the active alarm, when it is snoozed until a time
/// that has come.
pub fn snooze_due(active: &Option<ActiveAlarm>, now: &Instant) -> (r: Option<AlarmId>)
    ensures
        r == (match active {
            Some(a) => if a.state == AlarmState::Snoozed && (a.snoozed_until matches Some(u)
                && !now.before(u)) {
                Some(a.alarm_id)
            } else {
                None
            },
            None => None,
        }),
{
    match active {
        Some(a) => {
            if a.state == AlarmState::Snoozed {
                match a.snoozed_until {
                    Some(until) => if !now.is_before(&until) {
                        Some(a.alarm_id)
                    } else {
                        None
                    },
                    None => None,
                }
            } else {
                None
            }
        },
        None => None,
    }
}

/// What ringing an alarm amounts to: the new active alarm, the volume to play
/// at, and the notification's summary and body.
pub struct TriggerPlan {
    pub active: ActiveAlarm,
    pub volume: u8,
    pub summary: String,
    pub body: String,
}

/// The active alarm is this alarm and it is ringing already.
pub open spec fn already_ringing(active: Option<ActiveAlarm>, id: AlarmId) -> bool {
    active matches Some(a) && a.alarm_id == id && a.state == AlarmState::Ringing
}

/// How to ring `alarm` at `now`: nothing when it is the active alarm and is
/// ringing already; otherwise it becomes the active, ringing alarm, due now,
/// played at its volume, with the notification "Aurora Alarm: <label>" /
/// "Alarm is ringing at <next occurrence, or Now>. Dismiss or snooze from the
/// app or tray."
pub fn trigger_plan(active: &Option<ActiveAlarm>, alarm: &Alarm, now: Instant) -> (r: Option<
    TriggerPlan,
>)
    requires
        now.valid(),
        alarm.time_local.wf(),
        alarm.next_trigger_at matches Some(t) ==> t.valid(),
    ensures
        already_ringing(*active, alarm.id) ==> r is None,
        (*active matches Some(a) && a.alarm_id == alarm.id && a.state == AlarmState::Ringing) ==> r is None,
        !(*active matches Some(a) && a.alarm_id == alarm.id && a.state == AlarmState::Ringing)
            ==> r is Some,
        !already_ringing(*active, alarm.id) ==> (r matches Some(p) && {
            &&& p.active == (ActiveAlarm {
                alarm_id: alarm.id,
                label: alarm.label,
                state: AlarmState::Ringing,
                due_at: now,
                snoozed_until: None,
            })
            &&& p.volume == alarm.volume
            &&& p.summary@ == "Aurora Alarm: "@ + alarm.label@
            &&& exists|n: Option<Instant>|
                #[trigger] occurrence_fits(*alarm, now, n) && p.body@ == "Alarm is ringing at "@
                    + (match n {
                    Some(t) => crate::time::day_hm_text(t),
                    None => "Now"@,
                }) + ". Dismiss or snooze from the app or tray."@
        }),
{
    if let Some(a) = active {
        if a.alarm_id == alarm.id && a.state == AlarmState::Ringing {
            return None;
        }
    }
    let new_active = ActiveAlarm {
        alarm_id: alarm.id,
        label: alarm.label.clone(),
        state: AlarmState::Ringing,
        due_at: now,
        snoozed_until: None,
    };
    let subtitle = match describe_next_alarm(alarm, now) {
        Some(s) => s,
        None => String::from_str("Now"),
    };
    let summary = String::from_str("Aurora Alarm: ").concat(alarm.label.as_str());
    let body = String::from_str("Alarm is ringing at ").concat(subtitle.as_str()).concat(
        ". Dismiss or snooze from the app or tray.",
    );
    Some(TriggerPlan { active: new_active, volume: alarm.volume, summary, body })
}

/// The alarm with the given identifier among `alarms`: the first one, if any.
pub fn find_alarm(stored: Vec<Alarm>, id: AlarmId) -> (r: Option<Alarm>)
    ensures
        r is None ==> forall|i: int| 0 <= i < stored@.len() ==> stored@[i].id != id,
        r matches Some(a) ==> exists|i: int|
            0 <= i < stored@.len() && #[trigger] stored@[i] == a && a.id == id && forall|j: int|
                0 <= j < i ==> stored@[j].id != id,
{
    let mut alarms = stored;
    let ghost all = alarms@;
    let mut i: usize = 0;
    while i < alarms.len()
        invariant
            alarms@ == all,
            all == stored@,
            i <= alarms.len(),
            forall|j: int| 0 <= j < i ==> all[j].id != id,
        decreases alarms.len() - i,
    {
        if alarms[i].id == id {
            let a = alarms.remove(i);
            assert(all[i as int] == a && a.id == id);
            assert(forall|j: int| 0 <= j < i ==> all[j].id != id);
            assert(stored@[i as int] == a);
            return Some(a);
        }
        i = i + 1;
    }
    None
}

/// The alarm with the given identifier, or `AlarmNotFound`.
pub fn load_alarm_by_id(alarms: Vec<Alarm>, id: AlarmId) -> (r: Result<Alarm, AlarmError>)
    ensures
        r matches Err(e) ==> e == AlarmError::AlarmNotFound && forall|i: int|
            0 <= i < alarms@.len() ==> alarms@[i].id != id,
        r matches Ok(a) ==> exists|i: int|
            0 <= i < alarms@.len() && #[trigger] alarms@[i] == a && a.id == id && forall|j: int|
                0 <= j < i ==> alarms@[j].id != id,
{
    match find_alarm(alarms, id) {
        Some(a) => Ok(a),
        None => Err(AlarmError::AlarmNotFound),
    }
}

/// A new alarm from `draft` at `now`, with its schedule worked out.
pub fn create_alarm(draft: AlarmDraft, now: Instant) -> (r: Result<Alarm, AlarmError>)
    requires
        now.valid(),
        draft.time_local.wf(),
    ensures
        r matches Ok(a) && exists|made: Alarm|
            {
                &&& made.label == draft.label
                &&& made.time_local == draft.time_local
                &&& made.repeat_rule == draft.repeat_rule
                &&& made.sound_id == draft.sound_id
                &&& made.volume == capped_volume(draft.volume)
                &&& made.enabled == draft.enabled
                &&& made.snooze_minutes == floored_snooze(draft.snooze_minutes)
                &&& made.state == AlarmState::Idle
                &&& made.next_trigger_at is None
                &&& made.last_triggered_at is None
                &&& made.created_at == now
                &&& made.updated_at == now
                &&& crate::model::uuid_version(made.id) == 4
                &&& #[trigger] recomputed(made, now, a)
            },
{
    let mut alarm = match draft.into_alarm(now) {
        Ok(a) => a,
        Err(e) => return Err(e),
    };
    let ghost made = alarm;
    recompute_alarm_schedule(&mut alarm, now);
    assert(recomputed(made, now, alarm));
    Ok(alarm)
}

/// `updated`, as the alarm stored under `alarm_id` after an edit at `now`:
/// it keeps the stored alarm's identity, creation time and last trigger time,
/// is stamped as updated now, and has its volume capped and snooze floored.
pub open spec fn edited(existing: Alarm, updated: Alarm, alarm_id: AlarmId, now: Instant) -> Alarm {
    Alarm {
        id: alarm_id,
        created_at: existing.created_at,
        updated_at: now,
        last_triggered_at: existing.last_triggered_at,
        volume: capped_volume(updated.volume),
        snooze_minutes: floored_snooze(updated.snooze_minutes),
        ..updated
    }
}

/// Applies an edit: a ringing alarm keeps ringing, with its trigger time; a
/// snoozed alarm left enabled stays snoozed, with its trigger time; any other
/// edited alarm has its schedule worked out anew.
pub fn apply_update(existing: &Alarm, updated: Alarm, alarm_id: AlarmId, now: Instant) -> (r:
    Result<Alarm, AlarmError>)
    requires
        now.valid(),
        updated.time_local.wf(),
    ensures
        r matches Ok(a) && {
            &&& a.enabled == updated.enabled
            &&& a.label == updated.label
            &&& a.time_local == updated.time_local
            &&& a.repeat_rule == updated.repeat_rule
            &&& a.sound_id == updated.sound_id
            &&& a.id == alarm_id
            &&& a.created_at == existing.created_at
            &&& a.last_triggered_at == existing.last_triggered_at
        },
        r matches Ok(a) && {
            let e = edited(*existing, updated, alarm_id, now);
            if existing.state == AlarmState::Ringing {
                a == Alarm {
                    state: AlarmState::Ringing,
                    next_trigger_at: existing.next_trigger_at,
                    ..e
                }
            } else if existing.state == AlarmState::Snoozed && updated.enabled {
                a == Alarm {
                    state: AlarmState::Snoozed,
                    next_trigger_at: existing.next_trigger_at,
                    ..e
                }
            } else {
                recomputed(e, now, a)
            }
        },
{
    let mut updated = updated;
    updated.id = alarm_id;
    updated.created_at = existing.created_at;
    updated.updated_at = now;
    updated.last_triggered_at = existing.last_triggered_at;
    updated = match updated.normalized() {
        Ok(a) => a,
        Err(e) => return Err(e),
    };
    if existing.state == AlarmState::Ringing {
        updated.state = AlarmState::Ringing;
        updated.next_trigger_at = existing.next_trigger_at;
    } else if existing.state == AlarmState::Snoozed && updated.enabled {
        updated.state = AlarmState::Snoozed;
        updated.next_trigger_at = existing.next_trigger_at;
    } else {
        recompute_alarm_schedule(&mut updated, now);
    }
    Ok(updated)
}

/// The alarm switched on or off at `now`, with its schedule brought up to date.
pub fn toggle_alarm(alarm: Alarm, enabled: bool, now: Instant) -> (r: Alarm)
    requires
        now.valid(),
        alarm.time_local.wf(),
    ensures
        recomputed(Alarm { enabled: enabled, updated_at: now, ..alarm }, now, r),
{
    let mut alarm = alarm;
    alarm.enabled = enabled;
    alarm.updated_at = now;
    recompute_alarm_schedule(&mut alarm, now);
    alarm
}

/// Switching `alarm_id` off silences the active alarm when it is that alarm.
pub fn toggle_clears_active(active: &Option<ActiveAlarm>, alarm_id: AlarmId, enabled: bool) -> (r:
    bool)
    ensures
        r == (!enabled && (active matches Some(a) && a.alarm_id == alarm_id)),
{
    if enabled {
        return false;
    }
    match active {
        Some(a) => a.alarm_id == alarm_id,
        None => false,
    }
}

/// The alarm dismissed at `now`: it was last triggered now, is idle, and has
/// its schedule worked out again.
pub fn dismiss_alarm(alarm: Alarm, now: Instant) -> (r: Alarm)
    requires
        now.valid(),
        alarm.time_local.wf(),
    ensures
        recomputed(
            Alarm { last_triggered_at: Some(now), state: AlarmState::Idle, ..alarm },
            now,
            r,
        ),
{
    let mut alarm = alarm;
    alarm.last_triggered_at = Some(now);
    alarm.state = AlarmState::Idle;
    recompute_alarm_schedule(&mut alarm, now);
    alarm
}

/// Far enough from both ends of the representable range to add a snooze.
pub open spec fn snooze_room(now: Instant) -> bool {
    &&& now.valid()
    &&& (MIN_EPOCH_DAY as int + 1) * SECS_PER_DAY <= now.secs
    &&& now.secs < (MAX_EPOCH_DAY as int - 60) * SECS_PER_DAY
}

/// `snooze_room(now)`, tested at run time.
pub fn has_snooze_room(now: &Instant) -> (r: bool)
    ensures
        r == snooze_room(*now),
{
    now.is_valid() && (MIN_EPOCH_DAY as i64 + 1) * SECS_PER_DAY <= now.secs && now.secs < (
    MAX_EPOCH_DAY as i64 - 60) * SECS_PER_DAY
}

/// When a snooze of `minutes` (at least one) taken at `now` ends. Its UTC
/// offset is the machine's time zone at that instant.
pub fn snooze_deadline(now: Instant, minutes: u16) -> (r: Instant)
    requires
        snooze_room(now),
    ensures
        r.valid(),
        r.secs == now.secs + 60 * floored_snooze(minutes),
        r.nanos == now.nanos,
{
    let m: u16 = if minutes < 1 { 1 } else { minutes };
    local_add_minutes(now, m as i64)
}

/// The alarm snoozed at `now` until `until`.
pub fn snooze_alarm(alarm: Alarm, until: Instant, now: Instant) -> (r: Alarm)
    ensures
        r == (Alarm {
            state: AlarmState::Snoozed,
            next_trigger_at: Some(until),
            updated_at: now,
            ..alarm
        }),
{
    let mut alarm = alarm;
    alarm.state = AlarmState::Snoozed;
    alarm.next_trigger_at = Some(until);
    alarm.updated_at = now;
    alarm
}

/// The active alarm once snoozed until `until`.
pub fn snoozed_active(active: ActiveAlarm, until: Instant) -> (r: ActiveAlarm)
    ensures
        r == (ActiveAlarm {
            state: AlarmState::Snoozed,
            snoozed_until: Some(until),
            ..active
        }),
{
    ActiveAlarm {
        alarm_id: active.alarm_id,
        label: active.label,
        state: AlarmState::Snoozed,
        due_at: active.due_at,
        snoozed_until: Some(until),
    }
}

/// The earliest trigger time among the enabled alarms (the first of equal
/// ones), or `None` when no enabled alarm has one.
pub open spec fn earliest_next(alarms: Seq<Alarm>) -> Option<Instant>
    decreases alarms.len(),
{
    if alarms.len() == 0 {
        None
    } else {
        let acc = earliest_next(alarms.drop_last());
        let a = alarms.last();
        if a.enabled && a.next_trigger_at is Some {
            let t = a.next_trigger_at->0;
            match acc {
                None => Some(t),
                Some(m) => if t.before(m) { Some(t) } else { Some(m) },
            }
        } else {
            acc
        }
    }
}

/// The status the daemon reports for its alarms and active alarm.
pub open spec fn status_of(active: Option<ActiveAlarm>, next: Option<Instant>) -> AlarmStatus {
    match active {
        Some(a) if a.state == AlarmState::Ringing => AlarmStatus::Ringing,
        Some(a) if a.state == AlarmState::Snoozed => AlarmStatus::Snoozed,
        _ => if next is Some {
            AlarmStatus::Upcoming
        } else {
            AlarmStatus::Quiet
        },
    }
}

/// The daemon's status: ringing or snoozed as the active alarm is, otherwise
/// upcoming when an enabled alarm has a trigger time and quiet when none has;
/// the earliest such time; the active alarm; no tray; and the notification and
/// audio capabilities as given.
pub fn build_status(
    alarms: &Vec<Alarm>,
    active_alarm: &Option<ActiveAlarm>,
    notifications_available: bool,
    audio_available: bool,
) -> (r: DaemonStatus)
    ensures
        r.next_alarm_at == earliest_next(alarms@),
        r.status == status_of(*active_alarm, earliest_next(alarms@)),
        r.status == AlarmStatus::Ringing <==> (*active_alarm matches Some(a) && a.state
            == AlarmState::Ringing),
        r.status == AlarmStatus::Snoozed <==> (*active_alarm matches Some(a) && a.state
            == AlarmState::Snoozed),
        r.active_alarm == *active_alarm,
        !r.tray_available,
        r.notifications_available == notifications_available,
        r.audio_available == audio_available,
{
    let mut next: Option<Instant> = None;
    let mut i: usize = 0;
    while i < alarms.len()
        invariant
            i <= alarms.len(),
            next == earliest_next(alarms@.subrange(0, i as int)),
        decreases alarms.len() - i,
    {
        let a = &alarms[i];
        assert(alarms@.subrange(0, i + 1).drop_last() == alarms@.subrange(0, i as int));
        if a.enabled {
            if let Some(t) = a.next_trigger_at {
                next = match next {
                    None => Some(t),
                    Some(m) => if t.is_before(&m) { Some(t) } else { Some(m) },
                };
            }
        }
        i = i + 1;
    }
    assert(alarms@.subrange(0, alarms.len() as int) == alarms@);
    let status = match active_alarm {
        Some(a) if a.state == AlarmState::Ringing => AlarmStatus::Ringing,
        Some(a) if a.state == AlarmState::Snoozed => AlarmStatus::Snoozed,
        _ => if next.is_some() {
            AlarmStatus::Upcoming
        } else {
            AlarmStatus::Quiet
        },
    };
    let active_copy = match active_alarm {
        Some(a) => Some(a.duplicate()),
        None => None,
    };
    DaemonStatus {
        status,
        next_alarm_at: next,
        active_alarm: active_copy,
        tray_available: false,
        notifications_available,
        audio_available,
    }
}

} // verus!
