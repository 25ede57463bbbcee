//! When an alarm rings next.
//!
//! The next occurrence of an alarm depends on the machine's time zone: a
//! wall-clock time may be skipped or repeated around a clock change. The time
//! zone is asked about the alarm's time on each day in turn (`zone_answers`,
//! `zone_answers_for`); what comes of its answers is exact
//! (`occurrence_from_answers`, `occurrence_from`), and every answer fits the
//! wall-clock time it was asked for (`lookups_fit`).
use crate::model::{Alarm, AlarmState, RepeatRule, RuleView};
use crate::time::{
    chrono_add_days, chrono_format_day_hm, chrono_local_day, chrono_wall_add_minutes,
    chrono_weekday, day_hm_text, local_zone_lookup, lookup_fits, wall_add_minutes, weekday_of_day, Instant, TimeOfDay, WallTime,
    Weekday, ZoneLookup, MAX_EPOCH_DAY, MIN_EPOCH_DAY, SECS_PER_DAY,
};
use vstd::prelude::*;

verus! {

/// How many days ahead a repeating alarm is looked for.
pub const SEARCH_DAYS: u64 = 14;

/// How many minutes past a skipped wall-clock time the alarm may move.
pub const MAX_SHIFT_MINUTES: i64 = 180;

/// The instant the time zone settles on: the single one, or the earlier of two
/// (the first when they are equal).
pub open spec fn lookup_choice(l: ZoneLookup) -> Option<Instant> {
    match l {
        ZoneLookup::Single(t) => Some(t),
        ZoneLookup::Ambiguous(a, b) => Some(if b.before(a) { b } else { a }),
        ZoneLookup::Nonexistent => None,
    }
}

/// `c`, if it is strictly after `now`.
pub open spec fn first_after(c: Option<Instant>, now: Instant) -> Option<Instant> {
    match c {
        Some(t) => if now.before(t) { Some(t) } else { None },
        None => None,
    }
}

/// What every candidate for the alarm time `time` on `day` satisfies, whatever
/// the time zone answers: it reads `time` on that day, or a whole number of
/// minutes later (at most 180) on the same day.
pub open spec fn candidate_fits(day: int, time: TimeOfDay, c: Option<Instant>) -> bool {
    match c {
        None => true,
        Some(t) => {
            let shift = t.local_secs() - (day * SECS_PER_DAY + time.secs);
            &&& t.wf()
            &&& t.nanos == time.nanos
            &&& t.local_day() == day
            &&& 0 <= shift <= MAX_SHIFT_MINUTES * 60
            &&& shift % 60 == 0
        }
    }
}

/// Candidates for the fourteen days from `today`, each fitting its day.
pub open spec fn days_fit(today: int, time: TimeOfDay, cands: Seq<Option<Instant>>) -> bool {
    &&& cands.len() == SEARCH_DAYS
    &&& forall|o: int| 0 <= o < SEARCH_DAYS ==> candidate_fits(today + o, time, #[trigger] cands[o])
}

/// The weekdays (Monday = 0) a repeating rule rings on.
pub open spec fn rule_ids(rule: RuleView) -> Seq<u32> {
    match rule {
        RuleView::Once => Seq::empty(),
        RuleView::Weekdays => seq![0u32, 1u32, 2u32, 3u32, 4u32],
        RuleView::CustomDays(days) => days.map_values(|d: Weekday| d.index() as u32),
    }
}

/// `day` is a representable day on one of the weekdays `ids`, and its
/// candidate `c` is after `now`.
pub open spec fn day_picks(ids: Seq<u32>, now: Instant, day: int, c: Option<Instant>) -> bool {
    &&& day <= MAX_EPOCH_DAY
    &&& ids.contains(weekday_of_day(day) as u32)
    &&& first_after(c, now) is Some
}

/// The first of the days `today + o`, `today + o + 1`, ... (up to the
/// fourteenth) that picks its candidate; `None` when none does before the
/// fourteenth day or the last representable day.
pub open spec fn scan_days(
    ids: Seq<u32>,
    now: Instant,
    today: int,
    cands: Seq<Option<Instant>>,
    o: int,
) -> Option<Instant>
    decreases SEARCH_DAYS - o,
{
    if o >= SEARCH_DAYS {
        None
    } else if today + o > MAX_EPOCH_DAY {
        None
    } else if day_picks(ids, now, today + o, cands[o]) {
        first_after(cands[o], now)
    } else {
        scan_days(ids, now, today, cands, o + 1)
    }
}

/// The occurrence the alarm's repeat rule picks among the candidates.
pub open spec fn planned(alarm: Alarm, now: Instant, cands: Seq<Option<Instant>>) -> Option<Instant> {
    match alarm.repeat_rule@ {
        RuleView::Once => first_after(cands[0], now),
        _ => scan_days(rule_ids(alarm.repeat_rule@), now, now.local_day(), cands, 0),
    }
}

/// The alarm is snoozed until a time after `now`.
pub open spec fn snoozed_past(alarm: Alarm, now: Instant) -> bool {
    &&& alarm.state == AlarmState::Snoozed
    &&& alarm.next_trigger_at matches Some(s) && now.before(s)
}

/// The alarm's next occurrence is worked out from its repeat rule.
pub open spec fn follows_rule(alarm: Alarm, now: Instant) -> bool {
    alarm.enabled && alarm.state != AlarmState::Ringing && !snoozed_past(alarm, now)
}

/// The wall-clock time the alarm is looked up at on the `o`-th day from
/// today: that day at the alarm time.
pub open spec fn asked_time(alarm: Alarm, now: Instant, o: int) -> WallTime {
    WallTime { day: (now.local_day() + o) as i32, time: alarm.time_local }
}

/// The time zone's answers, one row per day, each row a sequence of vectors.
pub open spec fn answer_rows(answers: Seq<Vec<ZoneLookup>>) -> Seq<Seq<ZoneLookup>> {
    answers.map_values(|row: Vec<ZoneLookup>| row@)
}

/// The answers for day `o` (none when there is no such row).
pub open spec fn day_answers(rows: Seq<Seq<ZoneLookup>>, o: int) -> Seq<ZoneLookup> {
    if 0 <= o < rows.len() {
        rows[o]
    } else {
        Seq::empty()
    }
}

/// The candidate of each of the fourteen days from today, as the time zone's
/// answers for that day resolve it; none past the last representable day.
pub open spec fn resolved(alarm: Alarm, now: Instant, rows: Seq<Seq<ZoneLookup>>) -> Seq<Option<Instant>> {
    Seq::new(
        SEARCH_DAYS as nat,
        |o: int|
            if now.local_day() + o <= MAX_EPOCH_DAY {
                resolution(asked_time(alarm, now, o), day_answers(rows, o))
            } else {
                None
            },
    )
}

/// Each row of answers fits the wall-clock times asked on its day.
pub open spec fn answers_fit(alarm: Alarm, now: Instant, rows: Seq<Seq<ZoneLookup>>) -> bool {
    forall|o: int| 0 <= o < rows.len() ==> lookups_fit(asked_time(alarm, now, o), #[trigger] rows[o])
}

/// When `alarm` rings next after `now`, given the time zone's answers: never
/// for a disabled alarm; the stored trigger time for a ringing alarm or one
/// snoozed until later; otherwise the occurrence its repeat rule picks among
/// the days' resolved candidates.
pub open spec fn occurrence_from(alarm: Alarm, now: Instant, rows: Seq<Seq<ZoneLookup>>) -> Option<Instant> {
    if !alarm.enabled {
        None
    } else if alarm.state == AlarmState::Ringing {
        alarm.next_trigger_at
    } else if snoozed_past(alarm, now) {
        alarm.next_trigger_at
    } else {
        planned(alarm, now, resolved(alarm, now, rows))
    }
}

/// `r` is the next occurrence of `alarm` after `now` for answers of the time
/// zone that fit the wall-clock times asked and were asked as the scan goes
/// (`answers_asked`).
pub open spec fn occurrence_fits(alarm: Alarm, now: Instant, r: Option<Instant>) -> bool {
    exists|rows: Seq<Seq<ZoneLookup>>|
        #[trigger] answers_asked(alarm, now, rows) && r == occurrence_from(alarm, now, rows)
}

/// What every occurrence worked out from a repeat rule satisfies: it is after
/// `now`; it falls on one of the fourteen days from today (today itself for a
/// one-off alarm) and on one of the rule's weekdays; and it reads the alarm
/// time, or up to 180 minutes later, on the local clock.
pub open spec fn occurrence_shape(alarm: Alarm, now: Instant, t: Instant) -> bool {
    let today = now.local_day();
    &&& now.before(t)
    &&& t.valid()
    &&& today <= t.local_day() < today + SEARCH_DAYS
    &&& (alarm.repeat_rule@ == RuleView::Once ==> t.local_day() == today)
    &&& (alarm.repeat_rule@ != RuleView::Once ==> rule_ids(alarm.repeat_rule@).contains(
        weekday_of_day(t.local_day()) as u32,
    ))
    &&& (alarm.repeat_rule@ == RuleView::Weekdays ==> weekday_of_day(t.local_day()) < 5)
    &&& 0 <= t.local_secs_of_day() - alarm.time_local.secs <= MAX_SHIFT_MINUTES * 60
    &&& t.nanos == alarm.time_local.nanos
}

/// What the scan picks is one of the candidates, on a day it may pick.
proof fn lemma_scan_picks(
    ids: Seq<u32>,
    now: Instant,
    today: int,
    time: TimeOfDay,
    cands: Seq<Option<Instant>>,
    o: int,
)
    requires
        days_fit(today, time, cands),
        0 <= o <= SEARCH_DAYS,
    ensures
        scan_days(ids, now, today, cands, o) matches Some(t) ==> exists|k: int|
            o <= k < SEARCH_DAYS && #[trigger] cands[k] == Some(t) && day_picks(ids, now, today + k, cands[k]),
    decreases SEARCH_DAYS - o,
{
    if o < SEARCH_DAYS && today + o <= MAX_EPOCH_DAY {
        if day_picks(ids, now, today + o, cands[o]) {
            assert(cands[o] == first_after(cands[o], now));
        } else {
            lemma_scan_picks(ids, now, today, time, cands, o + 1);
        }
    }
}

/// A candidate picked on `day` has the shape of an occurrence.
proof fn lemma_candidate_shape(alarm: Alarm, now: Instant, day: int, t: Instant)
    requires
        now.valid(),
        MIN_EPOCH_DAY <= day <= MAX_EPOCH_DAY,
        now.local_day() <= day < now.local_day() + SEARCH_DAYS,
        candidate_fits(day, alarm.time_local, Some(t)),
        alarm.time_local.wf(),
        now.before(t),
    ensures
        t.valid(),
        0 <= t.local_secs_of_day() - alarm.time_local.secs <= MAX_SHIFT_MINUTES * 60,
{
    let x = t.local_secs();
    assert(x / SECS_PER_DAY as int == day);
    assert(x % SECS_PER_DAY as int == x - day * SECS_PER_DAY) by {
        vstd::arithmetic::div_mod::lemma_fundamental_div_mod(x, SECS_PER_DAY as int);
    }
}

/// Every occurrence worked out from a repeat rule has the shape
/// `occurrence_shape`, whatever the time zone answers.
pub proof fn lemma_planned_shape(alarm: Alarm, now: Instant, cands: Seq<Option<Instant>>)
    requires
        now.valid(),
        alarm.time_local.wf(),
        days_fit(now.local_day(), alarm.time_local, cands),
    ensures
        planned(alarm, now, cands) matches Some(t) ==> occurrence_shape(alarm, now, t),
{
    let today = now.local_day();
    match alarm.repeat_rule@ {
        RuleView::Once => {
            if let Some(t) = planned(alarm, now, cands) {
                assert(candidate_fits(today + 0, alarm.time_local, cands[0]));
                lemma_candidate_shape(alarm, now, today, t);
            }
        },
        _ => {
            let ids = rule_ids(alarm.repeat_rule@);
            lemma_scan_picks(ids, now, today, alarm.time_local, cands, 0);
            if let Some(t) = planned(alarm, now, cands) {
                let k = choose|k: int|
                    0 <= k < SEARCH_DAYS && #[trigger] cands[k] == Some(t) && day_picks(
                        ids,
                        now,
                        today + k,
                        cands[k],
                    );
                assert(candidate_fits(today + k, alarm.time_local, cands[k]));
                lemma_candidate_shape(alarm, now, today + k, t);
                if alarm.repeat_rule@ == RuleView::Weekdays {
                    let wd = weekday_of_day(t.local_day());
                    assert(0 <= wd < 7);
                    assert(ids.contains(wd as u32));
                    let i = choose|i: int| 0 <= i < ids.len() && ids[i] == wd as u32;
                    assert(wd < 5);
                }
            }
        },
    }
}

/// The instant the time zone settles on for one lookup.
pub fn pick_lookup(l: ZoneLookup) -> (r: Option<Instant>)
    ensures
        r == lookup_choice(l),
{
    match l {
        ZoneLookup::Single(t) => Some(t),
        ZoneLookup::Ambiguous(a, b) => Some(if b.is_before(&a) { b } else { a }),
        ZoneLookup::Nonexistent => None,
    }
}

/// How many answers of the time zone a resolution may consult: the time
/// itself and each of the 180 minutes after it.
pub open spec fn lookups_count() -> int {
    MAX_SHIFT_MINUTES + 1
}

/// Answer `k` of `ls`; past its end, "does not exist".
pub open spec fn answer_at(ls: Seq<ZoneLookup>, k: int) -> ZoneLookup {
    if 0 <= k < ls.len() {
        ls[k]
    } else {
        ZoneLookup::Nonexistent
    }
}

/// Answer `k` of `ls` fits the wall-clock time it was asked for: answer 0
/// for `naive` itself, answer `k` for `naive` moved `k` minutes later.
pub open spec fn lookup_entry_fits(naive: WallTime, ls: Seq<ZoneLookup>, k: int) -> bool {
    if k == 0 {
        lookup_fits(naive, ls[0])
    } else {
        wall_add_minutes(naive, k) matches Some(s) ==> lookup_fits(s, ls[k])
    }
}

/// Answers of the time zone for `naive` and the minutes after it, each
/// fitting the wall-clock time it answers.
pub open spec fn lookups_fit(naive: WallTime, ls: Seq<ZoneLookup>) -> bool {
    forall|k: int| 0 <= k < ls.len() ==> #[trigger] lookup_entry_fits(naive, ls, k)
}

/// The answers were asked in turn: for `naive`, then for each following
/// minute on the same day, stopping at the first that exists, before the
/// next day or past the last representable day, or after 180 minutes.
pub open spec fn asked_in_turn(naive: WallTime, ls: Seq<ZoneLookup>) -> bool {
    &&& 1 <= ls.len() <= lookups_count()
    &&& forall|k: int| 0 <= k < ls.len() - 1 ==> #[trigger] lookup_choice(ls[k]) is None
    &&& forall|k: int|
        1 <= k < ls.len() ==> (#[trigger] wall_add_minutes(naive, k) matches Some(s) && s.day
            == naive.day)
    &&& (lookup_choice(ls.last()) is None && ls.len() < lookups_count()) ==> !(wall_add_minutes(
        naive,
        ls.len() as int,
    ) matches Some(s) && s.day == naive.day)
}

/// The instant chosen among the answers for the minutes `k`, `k + 1`, ...
/// after `naive`: the first minute that exists, stopping (with none) past the
/// 180th minute, past the last representable day, or at the next day.
pub open spec fn resolution_from(naive: WallTime, ls: Seq<ZoneLookup>, k: int) -> Option<Instant>
    decreases lookups_count() - k,
{
    if k < 1 || k >= lookups_count() {
        None
    } else {
        match wall_add_minutes(naive, k) {
            None => None,
            Some(s) => if s.day != naive.day {
                None
            } else if lookup_choice(answer_at(ls, k)) is Some {
                lookup_choice(answer_at(ls, k))
            } else {
                resolution_from(naive, ls, k + 1)
            },
        }
    }
}

/// The instant chosen among the answers: the one for `naive` itself when it
/// exists (the earlier of two), otherwise the first later minute that exists.
pub open spec fn resolution(naive: WallTime, ls: Seq<ZoneLookup>) -> Option<Instant> {
    if lookup_choice(answer_at(ls, 0)) is Some {
        lookup_choice(answer_at(ls, 0))
    } else {
        resolution_from(naive, ls, 1)
    }
}

/// Whatever the time zone answers, a resolved candidate reads `naive`, or a
/// whole number of minutes (at most 180) later on the same day.
proof fn lemma_resolution_from_fits(naive: WallTime, ls: Seq<ZoneLookup>, k: int)
    requires
        naive.wf(),
        lookups_fit(naive, ls),
        1 <= k,
    ensures
        candidate_fits(naive.day as int, naive.time, resolution_from(naive, ls, k)),
    decreases lookups_count() - k,
{
    if k < lookups_count() {
        if let Some(s) = wall_add_minutes(naive, k) {
            if s.day == naive.day {
                let total = naive.total_secs() + 60 * k;
                assert(total == s.day * SECS_PER_DAY + s.time.secs) by {
                    vstd::arithmetic::div_mod::lemma_fundamental_div_mod(total, SECS_PER_DAY as int);
                }
                if k < ls.len() {
                    assert(lookup_entry_fits(naive, ls, k));
                }
                if lookup_choice(answer_at(ls, k)) is None {
                    lemma_resolution_from_fits(naive, ls, k + 1);
                }
            }
        }
    }
}

/// `lemma_resolution_from_fits`, from the time itself.
proof fn lemma_resolution_fits(naive: WallTime, ls: Seq<ZoneLookup>)
    requires
        naive.wf(),
        lookups_fit(naive, ls),
    ensures
        candidate_fits(naive.day as int, naive.time, resolution(naive, ls)),
{
    if 0 < ls.len() {
        assert(lookup_entry_fits(naive, ls, 0));
    }
    lemma_resolution_from_fits(naive, ls, 1);
}

/// Answers that fit give candidates that fit their days.
proof fn lemma_resolved_fit(alarm: Alarm, now: Instant, rows: Seq<Seq<ZoneLookup>>)
    requires
        now.valid(),
        alarm.time_local.wf(),
        answers_fit(alarm, now, rows),
    ensures
        days_fit(now.local_day(), alarm.time_local, resolved(alarm, now, rows)),
{
    let today = now.local_day();
    let cands = resolved(alarm, now, rows);
    assert forall|o: int| 0 <= o < SEARCH_DAYS implies candidate_fits(
        today + o,
        alarm.time_local,
        #[trigger] cands[o],
    ) by {
        if today + o <= MAX_EPOCH_DAY {
            let naive = asked_time(alarm, now, o);
            if o < rows.len() {
                assert(lookups_fit(naive, rows[o]));
            }
            lemma_resolution_fits(naive, day_answers(rows, o));
        }
    }
}

/// Answer `k` of `answers`, or "does not exist" past its end.
fn answer_in(answers: &Vec<ZoneLookup>, k: usize) -> (r: ZoneLookup)
    ensures
        r == answer_at(answers@, k as int),
{
    if k < answers.len() {
        answers[k]
    } else {
        ZoneLookup::Nonexistent
    }
}

/// The instant the local wall-clock time `naive` falls on, given the time
/// zone's answers for it and the minutes after it: the earlier one when it
/// occurs twice, and when it is skipped, the first wall-clock time up to 180
/// minutes later on the same day that exists (none when there is no such
/// minute before the next day or the last representable day).
pub fn resolve_local_candidate(naive: WallTime, answers: &Vec<ZoneLookup>) -> (r: Option<Instant>)
    requires
        naive.wf(),
    ensures
        r == resolution(naive, answers@),
{
    let first = pick_lookup(answer_in(answers, 0));
    if first.is_some() {
        return first;
    }
    let mut minute_offset: i64 = 1;
    while minute_offset <= MAX_SHIFT_MINUTES
        invariant
            1 <= minute_offset <= MAX_SHIFT_MINUTES + 1,
            naive.wf(),
            resolution(naive, answers@) == resolution_from(naive, answers@, minute_offset as int),
        decreases MAX_SHIFT_MINUTES + 1 - minute_offset,
    {
        let shifted = match chrono_wall_add_minutes(naive, minute_offset) {
            Some(s) => s,
            None => return None,
        };
        if shifted.day != naive.day {
            return None;
        }
        let found = pick_lookup(answer_in(answers, minute_offset as usize));
        if found.is_some() {
            return found;
        }
        minute_offset = minute_offset + 1;
    }
    None
}

/// Asks the machine's time zone about `naive`, then about each following
/// minute on the same day, until a wall-clock time exists, the next day or
/// the last representable day is reached, or 180 minutes have been tried;
/// the answers, in the order asked.
pub fn zone_answers(naive: WallTime) -> (ls: Vec<ZoneLookup>)
    requires
        naive.wf(),
    ensures
        lookups_fit(naive, ls@),
        asked_in_turn(naive, ls@),
{
    let mut ls: Vec<ZoneLookup> = Vec::new();
    let l0 = local_zone_lookup(naive);
    ls.push(l0);
    assert(lookup_entry_fits(naive, ls@, 0));
    if pick_lookup(l0).is_some() {
        return ls;
    }
    let mut minute_offset: i64 = 1;
    while minute_offset <= MAX_SHIFT_MINUTES
        invariant
            1 <= minute_offset <= MAX_SHIFT_MINUTES + 1,
            naive.wf(),
            ls@.len() == minute_offset,
            lookups_fit(naive, ls@),
            forall|k: int| 0 <= k < ls@.len() ==> #[trigger] lookup_choice(ls@[k]) is None,
            forall|k: int|
                1 <= k < ls@.len() ==> (#[trigger] wall_add_minutes(naive, k) matches Some(s)
                    && s.day == naive.day),
        decreases MAX_SHIFT_MINUTES + 1 - minute_offset,
    {
        let shifted = match chrono_wall_add_minutes(naive, minute_offset) {
            Some(s) => s,
            None => return ls,
        };
        if shifted.day != naive.day {
            return ls;
        }
        let lk = local_zone_lookup(shifted);
        let ghost before = ls@;
        ls.push(lk);
        assert forall|k: int| 0 <= k < ls@.len() implies #[trigger] lookup_entry_fits(naive, ls@, k) by {
            if k < before.len() {
                assert(ls@[k] == before[k]);
                assert(lookup_entry_fits(naive, before, k));
            }
        }
        if pick_lookup(lk).is_some() {
            return ls;
        }
        minute_offset = minute_offset + 1;
    }
    ls
}

/// The alarm's time on `date`, as `answers` resolve it, if it is after `now`.
fn first_match(alarm: &Alarm, date: i32, now: &Instant, answers: &Vec<ZoneLookup>) -> (r: Option<Instant>)
    requires
        MIN_EPOCH_DAY <= date <= MAX_EPOCH_DAY,
        alarm.time_local.wf(),
    ensures
        r == first_after(resolution(WallTime { day: date, time: alarm.time_local }, answers@), *now),
{
    let naive = WallTime { day: date, time: alarm.time_local };
    let candidate = resolve_local_candidate(naive, answers);
    match candidate {
        Some(c) => if now.is_before(&c) { Some(c) } else { None },
        None => None,
    }
}

/// Whether `x` is among `ids`.
fn contains_u32(ids: &Vec<u32>, x: u32) -> (r: bool)
    ensures
        r == ids@.contains(x),
{
    let mut i: usize = 0;
    while i < ids.len()
        invariant
            i <= ids.len(),
            forall|j: int| 0 <= j < i ==> ids@[j] != x,
        decreases ids.len() - i,
    {
        if ids[i] == x {
            return true;
        }
        i = i + 1;
    }
    false
}

/// The weekdays (Monday = 0) a repeating rule rings on.
fn weekday_ids(rule: &RepeatRule) -> (ids: Vec<u32>)
    ensures
        rule@ != RuleView::Once ==> ids@ == rule_ids(rule@),
        rule@ == RuleView::Weekdays ==> forall|d: u32| ids@.contains(d) <==> d < 5,
{
    let ids = match rule {
        RepeatRule::Once => Vec::new(),
        RepeatRule::Weekdays => vec![0, 1, 2, 3, 4],
        RepeatRule::CustomDays(days) => {
            let mut ids: Vec<u32> = Vec::new();
            let mut i: usize = 0;
            while i < days.len()
                invariant
                    i <= days.len(),
                    ids@ == days@.subrange(0, i as int).map_values(|d: Weekday| d.index() as u32),
                decreases days.len() - i,
            {
                ids.push(days[i].num_days_from_monday());
                i = i + 1;
                assert(days@.subrange(0, i as int) == days@.subrange(0, i - 1).push(days@[i - 1]));
            }
            assert(days@.subrange(0, days.len() as int) == days@);
            ids
        },
    };
    proof {
        if rule@ == RuleView::Weekdays {
            assert forall|d: u32| ids@.contains(d) <==> d < 5 by {
                if d < 5 {
                    assert(ids@[d as int] == d);
                }
            }
        }
    }
    ids
}

/// The alarm's first time after `now` on one of the next fourteen days that
/// falls on one of the weekdays `weekday_ids`, as `answers` (one row per day)
/// resolve each day's alarm time.
fn next_matching_weekday(
    alarm: &Alarm,
    now: &Instant,
    weekday_ids: &Vec<u32>,
    answers: &Vec<Vec<ZoneLookup>>,
) -> (r: Option<Instant>)
    requires
        now.valid(),
        alarm.time_local.wf(),
    ensures
        r == scan_days(
            weekday_ids@,
            *now,
            now.local_day(),
            resolved(*alarm, *now, answer_rows(answers@)),
            0,
        ),
{
    let today = chrono_local_day(*now);
    let ghost cands = resolved(*alarm, *now, answer_rows(answers@));
    let ghost ids = weekday_ids@;
    let empty: Vec<ZoneLookup> = Vec::new();
    let mut offset: u64 = 0;
    while offset < SEARCH_DAYS
        invariant
            offset <= SEARCH_DAYS,
            today == now.local_day(),
            MIN_EPOCH_DAY <= today <= MAX_EPOCH_DAY,
            alarm.time_local.wf(),
            empty@.len() == 0,
            cands == resolved(*alarm, *now, answer_rows(answers@)),
            ids == weekday_ids@,
            scan_days(ids, *now, today as int, cands, 0) == scan_days(
                ids,
                *now,
                today as int,
                cands,
                offset as int,
            ),
        decreases SEARCH_DAYS - offset,
    {
        let date = match chrono_add_days(today, offset) {
            Some(d) => d,
            None => return None,
        };
        let wd = chrono_weekday(date);
        if contains_u32(weekday_ids, wd) {
            let row = if (offset as usize) < answers.len() {
                &answers[offset as usize]
            } else {
                &empty
            };
            proof {
                assert(empty@ =~= Seq::<ZoneLookup>::empty());
                assert(day_answers(answer_rows(answers@), offset as int) == row@);
                assert(asked_time(*alarm, *now, offset as int) == WallTime {
                    day: date,
                    time: alarm.time_local,
                });
            }
            let found = first_match(alarm, date, now, row);
            if found.is_some() {
                return found;
            }
        }
        offset = offset + 1;
    }
    None
}

/// When `alarm` rings next after `now`, given the time zone's answers (one
/// row per day from today; see `zone_answers_for`): never for a disabled
/// alarm; the stored trigger time for a ringing alarm, or for one snoozed
/// until later; otherwise its time on the first of the next fourteen days
/// (today only, for a one-off alarm) that its rule allows and on which that
/// time is after `now`.
pub fn occurrence_from_answers(alarm: &Alarm, now: Instant, answers: &Vec<Vec<ZoneLookup>>) -> (r:
    Option<Instant>)
    requires
        now.valid(),
        alarm.time_local.wf(),
    ensures
        r == occurrence_from(*alarm, now, answer_rows(answers@)),
{
    if !alarm.enabled {
        return None;
    }
    if alarm.state == AlarmState::Ringing {
        return alarm.next_trigger_at;
    }
    if let Some(snoozed_until) = alarm.next_trigger_at {
        if alarm.state == AlarmState::Snoozed && now.is_before(&snoozed_until) {
            return Some(snoozed_until);
        }
    }
    match &alarm.repeat_rule {
        RepeatRule::Once => {
            let today = chrono_local_day(now);
            let empty: Vec<ZoneLookup> = Vec::new();
            let row = if answers.len() > 0 {
                &answers[0]
            } else {
                &empty
            };
            proof {
                assert(empty@ =~= Seq::<ZoneLookup>::empty());
                assert(day_answers(answer_rows(answers@), 0) == row@);
                assert(asked_time(*alarm, now, 0) == WallTime { day: today, time: alarm.time_local });
            }
            first_match(alarm, today, &now, row)
        },
        _ => {
            let ids = weekday_ids(&alarm.repeat_rule);
            next_matching_weekday(alarm, &now, &ids, answers)
        },
    }
}

/// How many days from today the time zone may be asked about: today only for
/// a one-off alarm, fourteen days for a repeating one.
pub open spec fn day_limit(alarm: Alarm) -> int {
    if alarm.repeat_rule@ == RuleView::Once {
        1
    } else {
        SEARCH_DAYS as int
    }
}

/// The alarm may ring on the `o`-th day from today: today for a one-off
/// alarm, a day on one of its rule's weekdays for a repeating one.
pub open spec fn day_allowed(alarm: Alarm, now: Instant, o: int) -> bool {
    if alarm.repeat_rule@ == RuleView::Once {
        o == 0
    } else {
        rule_ids(alarm.repeat_rule@).contains(weekday_of_day(now.local_day() + o) as u32)
    }
}

/// The answers for the `o`-th day resolve the alarm time to an instant after `now`.
pub open spec fn day_found(alarm: Alarm, now: Instant, rows: Seq<Seq<ZoneLookup>>, o: int) -> bool {
    first_after(resolution(asked_time(alarm, now, o), day_answers(rows, o)), now) is Some
}

/// Each row so far answers its day as the scan asks it: a row for each of the
/// first days up to the limit, holding answers (asked in turn) exactly on the
/// days the alarm may ring.
pub open spec fn scan_prefix(alarm: Alarm, now: Instant, rows: Seq<Seq<ZoneLookup>>) -> bool {
    &&& rows.len() <= day_limit(alarm)
    &&& forall|o: int|
        0 <= o < rows.len() ==> (day_allowed(alarm, now, o) <==> #[trigger] rows[o].len() > 0)
    &&& forall|o: int|
        0 <= o < rows.len() && #[trigger] rows[o].len() > 0 ==> asked_in_turn(
            asked_time(alarm, now, o),
            rows[o],
        )
}

/// The days were asked about as the scan goes: in turn from today, each day
/// the alarm may ring with its answers, no earlier such day resolving after
/// `now`, and stopping only at the day limit, past the last representable
/// day, or at a day that resolves after `now`.
pub open spec fn scan_asked(alarm: Alarm, now: Instant, rows: Seq<Seq<ZoneLookup>>) -> bool {
    &&& scan_prefix(alarm, now, rows)
    &&& forall|o: int|
        0 <= o < rows.len() - 1 && day_allowed(alarm, now, o) ==> !#[trigger] day_found(
            alarm,
            now,
            rows,
            o,
        )
    &&& {
        ||| rows.len() == day_limit(alarm)
        ||| now.local_day() + rows.len() > MAX_EPOCH_DAY
        ||| (rows.len() > 0 && day_allowed(alarm, now, rows.len() - 1) && day_found(
            alarm,
            now,
            rows,
            rows.len() - 1,
        ))
    }
}

/// The answers fit the wall-clock times asked, and, for an alarm that follows
/// its rule, were asked as the scan goes.
pub open spec fn answers_asked(alarm: Alarm, now: Instant, rows: Seq<Seq<ZoneLookup>>) -> bool {
    &&& answers_fit(alarm, now, rows)
    &&& follows_rule(alarm, now) ==> scan_asked(alarm, now, rows)
}

/// Adding the next day's row keeps the scan's bookkeeping.
proof fn lemma_push_row(
    alarm: Alarm,
    now: Instant,
    rows: Seq<Seq<ZoneLookup>>,
    row: Seq<ZoneLookup>,
)
    requires
        answers_fit(alarm, now, rows),
        scan_prefix(alarm, now, rows),
        rows.len() < day_limit(alarm),
        lookups_fit(asked_time(alarm, now, rows.len() as int), row),
        day_allowed(alarm, now, rows.len() as int) <==> row.len() > 0,
        row.len() > 0 ==> asked_in_turn(asked_time(alarm, now, rows.len() as int), row),
    ensures
        answers_fit(alarm, now, rows.push(row)),
        scan_prefix(alarm, now, rows.push(row)),
        forall|o: int|
            0 <= o < rows.len() ==> day_found(alarm, now, rows.push(row), o) == #[trigger] day_found(
                alarm,
                now,
                rows,
                o,
            ),
        day_answers(rows.push(row), rows.len() as int) == row,
{
    let after = rows.push(row);
    assert forall|o: int| 0 <= o < rows.len() implies #[trigger] after[o] == rows[o] by {}
    assert forall|o: int| 0 <= o < rows.len() implies day_found(alarm, now, after, o)
        == #[trigger] day_found(alarm, now, rows, o) by {
        assert(day_answers(after, o) == day_answers(rows, o));
    }
}

/// Asks the machine's time zone what `alarm`'s time is on the days from
/// today, one row of answers per day (see `zone_answers`): today only for a
/// one-off alarm; otherwise each of the next fourteen days in turn, with an
/// empty row for a day its rule does not allow, stopping after the first day
/// whose alarm time resolves to an instant after `now`, or before the last
/// representable day is passed.
pub fn zone_answers_for(alarm: &Alarm, now: Instant) -> (answers: Vec<Vec<ZoneLookup>>)
    requires
        now.valid(),
        alarm.time_local.wf(),
    ensures
        answers_fit(*alarm, now, answer_rows(answers@)),
        scan_asked(*alarm, now, answer_rows(answers@)),
{
    let today = chrono_local_day(now);
    let ids = weekday_ids(&alarm.repeat_rule);
    let once = match &alarm.repeat_rule {
        RepeatRule::Once => true,
        _ => false,
    };
    let days: u64 = if once {
        1
    } else {
        SEARCH_DAYS
    };
    let mut answers: Vec<Vec<ZoneLookup>> = Vec::new();
    let mut offset: u64 = 0;
    while offset < days
        invariant
            days == day_limit(*alarm),
            once == (alarm.repeat_rule@ == RuleView::Once),
            !once ==> ids@ == rule_ids(alarm.repeat_rule@),
            offset <= days,
            answers@.len() == offset,
            today == now.local_day(),
            MIN_EPOCH_DAY <= today <= MAX_EPOCH_DAY,
            alarm.time_local.wf(),
            answers_fit(*alarm, now, answer_rows(answers@)),
            scan_prefix(*alarm, now, answer_rows(answers@)),
            forall|o: int|
                0 <= o < answers@.len() && day_allowed(*alarm, now, o) ==> !day_found(
                    *alarm,
                    now,
                    answer_rows(answers@),
                    o,
                ),
        decreases days - offset,
    {
        let date = match chrono_add_days(today, offset) {
            Some(d) => d,
            None => {
                return answers;
            },
        };
        let wd = chrono_weekday(date);
        let ghost before = answers@;
        assert(answer_rows(before).len() == before.len());
        if once || contains_u32(&ids, wd) {
            let naive = WallTime { day: date, time: alarm.time_local };
            let row = zone_answers(naive);
            let c = resolve_local_candidate(naive, &row);
            answers.push(row);
            proof {
                assert(asked_time(*alarm, now, offset as int) == naive);
                assert(day_allowed(*alarm, now, offset as int));
                lemma_push_row(*alarm, now, answer_rows(before), row@);
                assert(answer_rows(answers@) =~= answer_rows(before).push(row@));
            }
            if let Some(t) = c {
                if now.is_before(&t) {
                    proof {
                        assert(day_answers(answer_rows(answers@), offset as int) == row@);
                        assert(day_found(*alarm, now, answer_rows(answers@), offset as int));
                    }
                    return answers;
                }
            }
            proof {
                assert(day_answers(answer_rows(answers@), offset as int) == row@);
            }
        } else {
            let empty_row: Vec<ZoneLookup> = Vec::new();
            proof {
                assert(!day_allowed(*alarm, now, offset as int));
                assert(lookups_fit(asked_time(*alarm, now, offset as int), empty_row@));
                lemma_push_row(*alarm, now, answer_rows(before), empty_row@);
            }
            answers.push(empty_row);
            proof {
                assert(answer_rows(answers@) =~= answer_rows(before).push(empty_row@));
            }
        }
        offset = offset + 1;
    }
    answers
}

/// When `alarm` rings next after `now`: never for a disabled alarm; the
/// stored trigger time for a ringing alarm, or for one snoozed until later;
/// otherwise its time on the first of the next fourteen days (today only, for
/// a one-off alarm) that its rule allows and on which that time is after
/// `now`, as the machine's time zone resolves it (`zone_answers_for`,
/// `occurrence_from_answers`).
pub fn next_occurrence_after(alarm: &Alarm, now: Instant) -> (r: Option<Instant>)
    requires
        now.valid(),
        alarm.time_local.wf(),
    ensures
        occurrence_fits(*alarm, now, r),
        follows_rule(*alarm, now) ==> (r matches Some(t) ==> occurrence_shape(*alarm, now, t)),
{
    let snoozed_later = match alarm.next_trigger_at {
        Some(s) => alarm.state == AlarmState::Snoozed && now.is_before(&s),
        None => false,
    };
    let answers = if alarm.enabled && alarm.state != AlarmState::Ringing && !snoozed_later {
        zone_answers_for(alarm, now)
    } else {
        Vec::new()
    };
    let r = occurrence_from_answers(alarm, now, &answers);
    proof {
        let rows = answer_rows(answers@);
        assert(answers_asked(*alarm, now, rows));
        if follows_rule(*alarm, now) {
            lemma_resolved_fit(*alarm, now, rows);
            lemma_planned_shape(*alarm, now, resolved(*alarm, now, rows));
        }
    }
    r
}

/// `t` as its local weekday, hour and minute (`%a %H:%M`, e.g. `Thu 08:05`).
pub fn day_hm(t: Instant) -> (s: String)
    requires
        t.valid(),
    ensures
        s@ == day_hm_text(t),
{
    chrono_format_day_hm(t)
}

/// The next occurrence of the alarm after `now`, as `%a %H:%M`; `None` when
/// it has none.
pub fn describe_next_alarm(alarm: &Alarm, now: Instant) -> (r: Option<String>)
    requires
        now.valid(),
        alarm.time_local.wf(),
        alarm.next_trigger_at matches Some(t) ==> t.valid(),
    ensures
        exists|n: Option<Instant>|
            #[trigger] occurrence_fits(*alarm, now, n) && match n {
                None => r is None,
                Some(t) => r matches Some(s) && s@ == day_hm_text(t),
            },
{
    let trigger = next_occurrence_after(alarm, now);
    match trigger {
        Some(t) => {
            proof {
                if follows_rule(*alarm, now) {
                    assert(occurrence_shape(*alarm, now, t));
                }
            }
            Some(day_hm(t))
        },
        None => None,
    }
}

} // verus!
