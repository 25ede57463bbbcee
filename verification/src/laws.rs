//! Properties that relate several operations of the library.
use crate::engine::{already_ringing, earliest_next, edited, recomputed, schedule_from, status_of};
use crate::model::{ActiveAlarm, Alarm, AlarmId, AlarmStatus, AlarmState};
use crate::model::RuleView;
use crate::schedule::{
    answer_at, answers_asked, asked_time, day_allowed, day_answers, day_found, day_limit, scan_asked, scan_prefix, day_picks, first_after, follows_rule, lookups_fit, answers_fit, occurrence_fits, occurrence_from,
    occurrence_shape, resolution, resolved, rule_ids, scan_days, snoozed_past, SEARCH_DAYS,
};
use crate::time::{weekday_abbrev, weekday_of_day, WallTime, Weekday, ZoneLookup};
use crate::presentation::repeat_text;
use crate::text::joined;
use crate::time::Instant;
use vstd::prelude::*;

verus! {

/// The earliest trigger time the daemon reports is the trigger time of an
/// enabled alarm, and no enabled alarm triggers earlier; it is absent exactly
/// when no enabled alarm has a trigger time.
pub proof fn law_earliest_is_least(alarms: Seq<Alarm>)
    ensures
        earliest_next(alarms) is None <==> forall|i: int|
            0 <= i < alarms.len() ==> !(#[trigger] alarms[i].enabled && alarms[i].next_trigger_at is Some),
        earliest_next(alarms) matches Some(m) ==> {
            &&& exists|i: int|
                0 <= i < alarms.len() && #[trigger] alarms[i].enabled && alarms[i].next_trigger_at
                    == Some(m)
            &&& forall|i: int|
                0 <= i < alarms.len() && #[trigger] alarms[i].enabled && alarms[i].next_trigger_at is Some
                    ==> !alarms[i].next_trigger_at->0.before(m)
        },
    decreases alarms.len(),
{
    if alarms.len() > 0 {
        let init = alarms.drop_last();
        law_earliest_is_least(init);
        let n = alarms.len() - 1;
        assert forall|i: int| 0 <= i < n implies #[trigger] alarms[i] == init[i] by {}
        if let Some(m) = earliest_next(alarms) {
            if let Some(m0) = earliest_next(init) {
                let k = choose|i: int|
                    0 <= i < init.len() && #[trigger] init[i].enabled && init[i].next_trigger_at == Some(m0);
                assert(alarms[k] == init[k]);
            }
            assert forall|i: int|
                0 <= i < alarms.len() && #[trigger] alarms[i].enabled && alarms[i].next_trigger_at is Some
                    implies !alarms[i].next_trigger_at->0.before(m) by {
                if i < n {
                    assert(alarms[i] == init[i]);
                    assert(init[i].enabled && init[i].next_trigger_at is Some);
                }
            }
        } else {
            assert forall|i: int| 0 <= i < alarms.len() implies !(#[trigger] alarms[i].enabled
                && alarms[i].next_trigger_at is Some) by {
                if i < n {
                    assert(alarms[i] == init[i]);
                }
            }
        }
    }
}

/// After its schedule is brought up to date, an enabled alarm that was not
/// ringing never has a trigger time in the past: it is snoozed until later,
/// or scheduled for an occurrence after now, or idle with no trigger time.
pub proof fn law_schedule_never_in_past(old: Alarm, now: Instant, new: Alarm)
    requires
        recomputed(old, now, new),
        old.enabled,
        old.state != AlarmState::Ringing,
    ensures
        new.next_trigger_at matches Some(t) ==> now.before(t),
        new.state == AlarmState::Snoozed || new.state == AlarmState::Scheduled || new.state
            == AlarmState::Idle,
        new.state == AlarmState::Scheduled ==> new.next_trigger_at is Some,
        new.state == AlarmState::Idle ==> new.next_trigger_at is None,
{
    if !snoozed_past(old, now) {
        if let Some(t) = new.next_trigger_at {
            assert(occurrence_shape(old, now, t));
        }
    }
}

/// A disabled alarm, once its schedule is brought up to date, is idle with no
/// trigger time.
pub proof fn law_disabled_is_idle(old: Alarm, now: Instant, new: Alarm)
    requires
        recomputed(old, now, new),
        !old.enabled,
    ensures
        new.state == AlarmState::Idle,
        new.next_trigger_at is None,
{
}

/// An enabled alarm snoozed until `until` rings next at `until`, asked at any
/// moment before `until`.
pub proof fn law_snooze_keeps_deadline(
    alarm: Alarm,
    until: Instant,
    snoozed_at: Instant,
    later: Instant,
    r: Option<Instant>,
)
    requires
        alarm.enabled,
        later.before(until),
        occurrence_fits(
            Alarm {
                state: AlarmState::Snoozed,
                next_trigger_at: Some(until),
                updated_at: snoozed_at,
                ..alarm
            },
            later,
            r,
        ),
    ensures
        r == Some(until),
{
}

/// A dismissed alarm stops ringing: it is idle or scheduled afterwards, and a
/// trigger time it keeps is after the moment of dismissal.
pub proof fn law_dismiss_stops_ringing(alarm: Alarm, now: Instant, new: Alarm)
    requires
        recomputed(
            Alarm { last_triggered_at: Some(now), state: AlarmState::Idle, ..alarm },
            now,
            new,
        ),
    ensures
        new.state == AlarmState::Idle || new.state == AlarmState::Scheduled,
        new.last_triggered_at == Some(now),
        new.next_trigger_at matches Some(t) ==> now.before(t),
{
    let pre = Alarm { last_triggered_at: Some(now), state: AlarmState::Idle, ..alarm };
    if pre.enabled {
        law_schedule_never_in_past(pre, now, new);
    }
}


/// Scanning from day `o` picks the first day (from `o` on) that may pick its
/// candidate, and picks something whenever such a day exists.
proof fn lemma_scan_first(
    ids: Seq<u32>,
    now: Instant,
    today: int,
    cands: Seq<Option<Instant>>,
    o: int,
)
    requires
        0 <= o <= SEARCH_DAYS,
    ensures
        scan_days(ids, now, today, cands, o) matches Some(t) ==> exists|k: int|
            o <= k < SEARCH_DAYS && #[trigger] cands[k] == Some(t) && day_picks(ids, now, today + k, cands[k])
                && forall|p: int| o <= p < k ==> !day_picks(ids, now, today + p, #[trigger] cands[p]),
        (exists|k: int| o <= k < SEARCH_DAYS && day_picks(ids, now, today + k, #[trigger] cands[k]))
            ==> scan_days(ids, now, today, cands, o) is Some,
    decreases SEARCH_DAYS - o,
{
    if o < SEARCH_DAYS && today + o <= crate::time::MAX_EPOCH_DAY {
        if day_picks(ids, now, today + o, cands[o]) {
            let t = scan_days(ids, now, today, cands, o)->0;
            assert(cands[o] == Some(t));
        } else {
            lemma_scan_first(ids, now, today, cands, o + 1);
            if let Some(t) = scan_days(ids, now, today, cands, o) {
                let k = choose|k: int|
                    o + 1 <= k < SEARCH_DAYS && #[trigger] cands[k] == Some(t) && day_picks(
                        ids,
                        now,
                        today + k,
                        cands[k],
                    ) && forall|p: int|
                        o + 1 <= p < k ==> !day_picks(ids, now, today + p, #[trigger] cands[p]);
                assert(cands[k] == Some(t));
            }
            if exists|k: int| o <= k < SEARCH_DAYS && day_picks(ids, now, today + k, #[trigger] cands[k]) {
                let k = choose|k: int|
                    o <= k < SEARCH_DAYS && day_picks(ids, now, today + k, #[trigger] cands[k]);
                assert(k != o);
                assert(o + 1 <= k < SEARCH_DAYS && day_picks(ids, now, today + k, cands[k]));
            }
        }
    }
}

/// A repeating alarm rings on the first day of the next fourteen that its
/// rule allows and on which its time, as the time zone resolves it, is after
/// `now`: the occurrence is that day's resolved time, and no earlier such day
/// exists. Whenever such a day exists, there is an occurrence.
pub proof fn law_first_allowed_day(alarm: Alarm, now: Instant, rows: Seq<Seq<ZoneLookup>>)
    requires
        follows_rule(alarm, now),
        alarm.repeat_rule@ != RuleView::Once,
    ensures
        ({
            let cands = resolved(alarm, now, rows);
            let ids = rule_ids(alarm.repeat_rule@);
            let today = now.local_day();
            &&& occurrence_from(alarm, now, rows) matches Some(t) ==> exists|k: int|
                0 <= k < SEARCH_DAYS && #[trigger] cands[k] == Some(t) && day_picks(ids, now, today + k, cands[k])
                    && forall|p: int| 0 <= p < k ==> !day_picks(ids, now, today + p, #[trigger] cands[p])
            &&& (exists|k: int| 0 <= k < SEARCH_DAYS && day_picks(ids, now, today + k, #[trigger] cands[k]))
                ==> occurrence_from(alarm, now, rows) is Some
        }),
{
    lemma_scan_first(
        rule_ids(alarm.repeat_rule@),
        now,
        now.local_day(),
        resolved(alarm, now, rows),
        0,
    );
}

/// A one-off alarm rings today at most: at its time today, as the time zone
/// resolves it, when that is after `now`, and not at all otherwise.
pub proof fn law_once_rings_today_only(alarm: Alarm, now: Instant, rows: Seq<Seq<ZoneLookup>>)
    requires
        follows_rule(alarm, now),
        alarm.repeat_rule@ == RuleView::Once,
        now.valid(),
    ensures
        occurrence_from(alarm, now, rows) == first_after(
            resolution(WallTime { day: now.local_day() as i32, time: alarm.time_local }, day_answers(rows, 0)),
            now,
        ),
{
}

/// Where the time zone places a wall-clock time exactly once, that instant is
/// the one chosen; where it places it twice, the earlier one is.
pub proof fn law_direct_answer_first(naive: WallTime, ls: Seq<ZoneLookup>)
    ensures
        answer_at(ls, 0) matches ZoneLookup::Single(t) ==> resolution(naive, ls) == Some(t),
        answer_at(ls, 0) matches ZoneLookup::Ambiguous(a, b) ==> resolution(naive, ls) == Some(
            if b.before(a) { b } else { a },
        ),
{
}


/// A snooze whose time has come no longer holds the alarm: for the same
/// answers of the time zone, it rings next as it would if merely scheduled,
/// by its repeat rule.
pub proof fn law_expired_snooze_follows_rule(
    alarm: Alarm,
    now: Instant,
    rows: Seq<Seq<ZoneLookup>>,
)
    requires
        alarm.state == AlarmState::Snoozed,
        alarm.next_trigger_at matches Some(s) && !now.before(s),
    ensures
        occurrence_from(alarm, now, rows) == occurrence_from(
            Alarm { state: AlarmState::Scheduled, ..alarm },
            now,
            rows,
        ),
{
    let scheduled = Alarm { state: AlarmState::Scheduled, ..alarm };
    assert(resolved(alarm, now, rows) =~= resolved(scheduled, now, rows));
}


/// An alarm's schedule, once brought up to date, is what the time zone's
/// answers give (`schedule_from`), for answers asked as the scan goes.
pub proof fn law_recomputed_is_schedule_from(old: Alarm, now: Instant, new: Alarm)
    requires
        recomputed(old, now, new),
    ensures
        exists|rows: Seq<Seq<ZoneLookup>>|
            #[trigger] answers_asked(old, now, rows) && new == schedule_from(old, now, rows),
{
    if old.enabled && old.state != AlarmState::Ringing && !snoozed_past(old, now) {
        let rows = choose|rows: Seq<Seq<ZoneLookup>>|
            #[trigger] answers_asked(old, now, rows) && new.next_trigger_at == occurrence_from(old, now, rows);
        assert(new == schedule_from(old, now, rows));
    } else {
        let rows = Seq::<Seq<ZoneLookup>>::empty();
        assert(answers_asked(old, now, rows));
        assert(new == schedule_from(old, now, rows));
    }
}

/// Bringing a schedule up to date twice at the same moment, with the time
/// zone answering the same, changes nothing the second time; and the same
/// answers are ones the second time may receive.
pub proof fn law_recompute_idempotent(alarm: Alarm, now: Instant, rows: Seq<Seq<ZoneLookup>>)
    ensures
        schedule_from(schedule_from(alarm, now, rows), now, rows) == schedule_from(alarm, now, rows),
        answers_asked(alarm, now, rows) ==> answers_asked(schedule_from(alarm, now, rows), now, rows),
{
    let once = schedule_from(alarm, now, rows);
    assert(forall|o: int| #[trigger] asked_time(once, now, o) == asked_time(alarm, now, o));
    assert(resolved(once, now, rows) =~= resolved(alarm, now, rows));
    lemma_same_questions(alarm, once, now, rows);
}

/// Two alarms with the same rule and time are asked the same questions.
proof fn lemma_same_questions(a: Alarm, b: Alarm, now: Instant, rows: Seq<Seq<ZoneLookup>>)
    requires
        a.repeat_rule == b.repeat_rule,
        a.time_local == b.time_local,
    ensures
        answers_fit(a, now, rows) == answers_fit(b, now, rows),
        scan_asked(a, now, rows) == scan_asked(b, now, rows),
{
    assert(forall|o: int| #[trigger] asked_time(a, now, o) == asked_time(b, now, o));
    assert(forall|o: int| #[trigger] day_allowed(a, now, o) == day_allowed(b, now, o));
    assert(forall|o: int| #[trigger] day_found(a, now, rows, o) == day_found(b, now, rows, o));
    assert(day_limit(a) == day_limit(b));
    assert(scan_prefix(a, now, rows) == scan_prefix(b, now, rows));
    if scan_asked(a, now, rows) {
        assert forall|o: int| 0 <= o < rows.len() - 1 && day_allowed(b, now, o) implies !#[trigger] day_found(
            b,
            now,
            rows,
            o,
        ) by {
            assert(day_allowed(a, now, o));
            assert(!day_found(a, now, rows, o));
        }
    }
    if scan_asked(b, now, rows) {
        assert forall|o: int| 0 <= o < rows.len() - 1 && day_allowed(a, now, o) implies !#[trigger] day_found(
            a,
            now,
            rows,
            o,
        ) by {
            assert(day_allowed(b, now, o));
            assert(!day_found(b, now, rows, o));
        }
    }
    if rows.len() > 0 {
        assert(day_allowed(a, now, rows.len() - 1) == day_allowed(b, now, rows.len() - 1));
        assert(day_found(a, now, rows, rows.len() - 1) == day_found(b, now, rows, rows.len() - 1));
    }
}

/// The time zone's instant for the alarm time on the `o`-th day, where it
/// answers the direct question with one instant (no clock change there).
pub open spec fn single_answer(rows: Seq<Seq<ZoneLookup>>, o: int) -> Option<Instant> {
    match answer_at(day_answers(rows, o), 0) {
        ZoneLookup::Single(t) => Some(t),
        _ => None,
    }
}

/// In a time zone with no clock change at the alarm time over the next
/// fourteen days, a repeating alarm rings at its time on the earliest day its
/// rule allows where that time is after `now`: the instant reads the alarm
/// time on that day, no earlier allowed day's instant is after `now`, and
/// whenever some allowed day's instant is after `now`, there is an occurrence.
pub proof fn law_earliest_matching_instant(alarm: Alarm, now: Instant, rows: Seq<Seq<ZoneLookup>>)
    requires
        follows_rule(alarm, now),
        alarm.repeat_rule@ != RuleView::Once,
        answers_fit(alarm, now, rows),
        forall|o: int|
            0 <= o < SEARCH_DAYS && day_allowed(alarm, now, o) && now.local_day() + o
                <= crate::time::MAX_EPOCH_DAY ==> #[trigger] single_answer(rows, o) is Some,
    ensures
        occurrence_from(alarm, now, rows) matches Some(r) ==> exists|k: int|
            0 <= k < SEARCH_DAYS && day_allowed(alarm, now, k) && #[trigger] single_answer(rows, k)
                == Some(r) && r.shows(asked_time(alarm, now, k)) && now.before(r) && forall|p: int|
                0 <= p < k && day_allowed(alarm, now, p) && now.local_day() + p
                    <= crate::time::MAX_EPOCH_DAY ==> !now.before(
                    #[trigger] single_answer(rows, p)->0,
                ),
        (exists|k: int|
            0 <= k < SEARCH_DAYS && day_allowed(alarm, now, k) && now.local_day() + k
                <= crate::time::MAX_EPOCH_DAY && now.before(#[trigger] single_answer(rows, k)->0))
            ==> occurrence_from(alarm, now, rows) is Some,
{
    let cands = resolved(alarm, now, rows);
    let ids = rule_ids(alarm.repeat_rule@);
    let today = now.local_day();
    assert forall|o: int|
        0 <= o < SEARCH_DAYS && day_allowed(alarm, now, o) && today + o <= crate::time::MAX_EPOCH_DAY
            implies #[trigger] cands[o] == single_answer(rows, o) by {
        assert(single_answer(rows, o) is Some);
    }
    law_first_allowed_day(alarm, now, rows);
    if let Some(r) = occurrence_from(alarm, now, rows) {
        let k = choose|k: int|
            0 <= k < SEARCH_DAYS && #[trigger] cands[k] == Some(r) && day_picks(ids, now, today + k, cands[k])
                && forall|p: int| 0 <= p < k ==> !day_picks(ids, now, today + p, #[trigger] cands[p]);
        assert(day_allowed(alarm, now, k));
        assert(single_answer(rows, k) is Some);
        if k < rows.len() {
            assert(lookups_fit(asked_time(alarm, now, k), rows[k]));
        }
        assert(crate::schedule::lookup_entry_fits(asked_time(alarm, now, k), day_answers(rows, k), 0));
        assert forall|p: int|
            0 <= p < k && day_allowed(alarm, now, p) && today + p <= crate::time::MAX_EPOCH_DAY
                implies !now.before(#[trigger] single_answer(rows, p)->0) by {
            assert(cands[p] == single_answer(rows, p));
            assert(!day_picks(ids, now, today + p, cands[p]));
        }
    }
    if exists|k: int|
        0 <= k < SEARCH_DAYS && day_allowed(alarm, now, k) && today + k <= crate::time::MAX_EPOCH_DAY
            && now.before(#[trigger] single_answer(rows, k)->0) {
        let k = choose|k: int|
            0 <= k < SEARCH_DAYS && day_allowed(alarm, now, k) && today + k <= crate::time::MAX_EPOCH_DAY
                && now.before(#[trigger] single_answer(rows, k)->0);
        assert(cands[k] == single_answer(rows, k));
        assert(day_picks(ids, now, today + k, cands[k]));
    }
}

/// In a time zone with no clock change at the alarm time today, a one-off
/// alarm rings today at its time when that is after `now`, and not at all
/// otherwise (never on a later day).
pub proof fn law_once_without_clock_change(alarm: Alarm, now: Instant, rows: Seq<Seq<ZoneLookup>>, t: Instant)
    requires
        follows_rule(alarm, now),
        alarm.repeat_rule@ == RuleView::Once,
        now.valid(),
        answers_fit(alarm, now, rows),
        single_answer(rows, 0) == Some(t),
    ensures
        t.shows(asked_time(alarm, now, 0)),
        occurrence_from(alarm, now, rows) == (if now.before(t) {
            Some(t)
        } else {
            None
        }),
{
    assert(lookups_fit(asked_time(alarm, now, 0), rows[0]));
    assert(crate::schedule::lookup_entry_fits(asked_time(alarm, now, 0), rows[0], 0));
}


/// A weekday alarm may ring on every Monday to Friday and on no Saturday or
/// Sunday: the days it is looked for are exactly those whose weekday is one
/// of the first five.
pub proof fn law_weekdays_are_monday_to_friday(alarm: Alarm, now: Instant, o: int)
    requires
        alarm.repeat_rule@ == RuleView::Weekdays,
    ensures
        day_allowed(alarm, now, o) <==> weekday_of_day(now.local_day() + o) < 5,
{
    let wd = weekday_of_day(now.local_day() + o);
    let ids = rule_ids(alarm.repeat_rule@);
    assert(0 <= wd < 7);
    if wd < 5 {
        assert(ids[wd] == wd as u32);
    }
    if ids.contains(wd as u32) {
        let i = choose|i: int| 0 <= i < ids.len() && ids[i] == wd as u32;
        assert(ids[i] < 5);
    }
}

/// A custom-days alarm may ring exactly on the days whose weekday is one of
/// its listed days.
pub proof fn law_custom_days_are_the_listed_days(alarm: Alarm, now: Instant, o: int, days: Seq<Weekday>)
    requires
        alarm.repeat_rule@ == RuleView::CustomDays(days),
    ensures
        day_allowed(alarm, now, o) <==> exists|i: int|
            0 <= i < days.len() && #[trigger] days[i].index() == weekday_of_day(now.local_day() + o),
{
    let wd = weekday_of_day(now.local_day() + o);
    let ids = rule_ids(alarm.repeat_rule@);
    assert(0 <= wd < 7);
    if ids.contains(wd as u32) {
        let i = choose|i: int| 0 <= i < ids.len() && ids[i] == wd as u32;
        assert(days[i].index() == wd);
    }
    if exists|i: int| 0 <= i < days.len() && #[trigger] days[i].index() == wd {
        let i = choose|i: int| 0 <= i < days.len() && #[trigger] days[i].index() == wd;
        assert(ids[i] == wd as u32);
    }
}

/// Ringing is held back only while this very alarm is the active alarm and is
/// ringing: with no active alarm, another active alarm, or this alarm active
/// but snoozed (or in any state but ringing), it rings.
pub proof fn law_only_a_ringing_alarm_holds_back_ringing(active: Option<ActiveAlarm>, id: AlarmId)
    ensures
        active is None ==> !already_ringing(active, id),
        active matches Some(a) && a.alarm_id != id ==> !already_ringing(active, id),
        active matches Some(a) && a.state != AlarmState::Ringing ==> !already_ringing(active, id),
        active matches Some(a) && a.alarm_id == id && a.state == AlarmState::Ringing ==> already_ringing(
            active,
            id,
        ),
{
}

/// An alarm snoozed (its active record marked snoozed until some time) rings
/// again when asked to: the snoozed record never holds ringing back.
pub proof fn law_snoozed_alarm_rings_again(active: ActiveAlarm, until: Instant)
    ensures
        !already_ringing(
            Some(ActiveAlarm { state: AlarmState::Snoozed, snoozed_until: Some(until), ..active }),
            active.alarm_id,
        ),
{
}

/// The reported status follows the active alarm: ringing exactly when it is
/// ringing, snoozed exactly when it is snoozed; with no active alarm (or one
/// in another state), upcoming exactly when some enabled alarm has a trigger
/// time, and quiet otherwise.
pub proof fn law_status_follows_active(active: Option<ActiveAlarm>, next: Option<Instant>)
    ensures
        status_of(active, next) == AlarmStatus::Ringing <==> (active matches Some(a) && a.state
            == AlarmState::Ringing),
        status_of(active, next) == AlarmStatus::Snoozed <==> (active matches Some(a) && a.state
            == AlarmState::Snoozed),
        status_of(active, next) == AlarmStatus::Upcoming <==> (!(active matches Some(a) && (a.state
            == AlarmState::Ringing || a.state == AlarmState::Snoozed)) && next is Some),
        status_of(active, next) == AlarmStatus::Quiet <==> (!(active matches Some(a) && (a.state
            == AlarmState::Ringing || a.state == AlarmState::Snoozed)) && next is None),
{
}

/// An edit takes the edited alarm's own settings (label, time, repeat rule,
/// sound, whether it is on) and keeps the stored alarm's identity and
/// creation time; it is stamped with the moment of the edit.
pub proof fn law_edit_takes_the_edit(existing: Alarm, updated: Alarm, alarm_id: AlarmId, now: Instant)
    ensures
        edited(existing, updated, alarm_id, now).enabled == updated.enabled,
        edited(existing, updated, alarm_id, now).label == updated.label,
        edited(existing, updated, alarm_id, now).time_local == updated.time_local,
        edited(existing, updated, alarm_id, now).repeat_rule == updated.repeat_rule,
        edited(existing, updated, alarm_id, now).sound_id == updated.sound_id,
        edited(existing, updated, alarm_id, now).id == alarm_id,
        edited(existing, updated, alarm_id, now).created_at == existing.created_at,
        edited(existing, updated, alarm_id, now).last_triggered_at == existing.last_triggered_at,
        edited(existing, updated, alarm_id, now).updated_at == now,
        updated.volume <= 100 ==> edited(existing, updated, alarm_id, now).volume == updated.volume,
        updated.snooze_minutes >= 1 ==> edited(existing, updated, alarm_id, now).snooze_minutes
            == updated.snooze_minutes,
{
}

/// The first character of a text made of parts joined by a separator is the
/// first character of the first part.
proof fn lemma_joined_starts_with_first(items: Seq<Seq<char>>, sep: Seq<char>)
    requires
        items.len() >= 1,
        items[0].len() >= 1,
    ensures
        joined(items, sep).len() >= 1,
        joined(items, sep)[0] == items[0][0],
    decreases items.len(),
{
    if items.len() > 1 {
        lemma_joined_starts_with_first(items.drop_last(), sep);
    }
}

/// "Every day" describes exactly the custom rules holding seven days; any
/// other custom rule is described by its days' short names, in order,
/// separated by ", ".
pub proof fn law_every_day_only_for_seven_days(days: Seq<Weekday>)
    ensures
        repeat_text(RuleView::CustomDays(days)) == "Every day"@ <==> days.len() == 7,
        days.len() != 7 ==> repeat_text(RuleView::CustomDays(days)) == joined(
            days.map_values(|d: Weekday| weekday_abbrev(d.index())),
            ", "@,
        ),
{
    reveal_strlit("Every day");
    reveal_strlit(", ");
    if days.len() != 7 {
        let names = days.map_values(|d: Weekday| weekday_abbrev(d.index()));
        if days.len() == 0 {
            assert(joined(names, ", "@).len() == 0);
        } else {
            assert(names[0] == weekday_abbrev(days[0].index()));
            lemma_joined_starts_with_first(names, ", "@);
            assert(joined(names, ", "@)[0] != 'E');
            assert("Every day"@[0] == 'E');
        }
    }
}

} // verus!
