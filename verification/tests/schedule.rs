use alarm_core::schedule::{
    day_hm, occurrence_from_answers, pick_lookup, resolve_local_candidate, zone_answers,
    zone_answers_for,
};
use alarm_core::time::MAX_EPOCH_DAY;
use alarm_core::time::MIN_EPOCH_DAY;
use alarm_core::{
    describe_next_alarm, next_occurrence_after, AlarmDraft, AlarmState, Instant, RepeatRule,
    TimeOfDay, WallTime, Weekday, ZoneLookup,
};
use chrono::{DateTime, Datelike, FixedOffset, Local, NaiveDate, TimeZone, Timelike};

fn instant(dt: DateTime<Local>) -> Instant {
    Instant {
        secs: dt.timestamp(),
        nanos: dt.timestamp_subsec_nanos(),
        offset: dt.offset().local_minus_utc(),
    }
}

fn local(t: Instant) -> DateTime<FixedOffset> {
    DateTime::from_timestamp(t.secs, t.nanos)
        .unwrap()
        .with_timezone(&FixedOffset::east_opt(t.offset).unwrap())
}

#[test]
fn once_alarm_rolls_forward_only_if_future() {
    let now = Local
        .with_ymd_and_hms(2026, 3, 19, 8, 0, 0)
        .single()
        .expect("fixed test time");
    let alarm = AlarmDraft {
        repeat_rule: RepeatRule::Once,
        time_local: TimeOfDay::from_hms(8, 5, 0).unwrap(),
        ..AlarmDraft::default()
    }
    .into_alarm(instant(now))
    .expect("valid alarm");

    let next = next_occurrence_after(&alarm, instant(now)).expect("next alarm");
    assert_eq!(local(next).hour(), 8);
    assert_eq!(local(next).minute(), 5);
}

#[test]
fn weekday_alarm_skips_weekend() {
    let now = Local
        .with_ymd_and_hms(2026, 3, 20, 22, 0, 0)
        .single()
        .expect("fixed friday");
    assert_eq!(now.weekday(), chrono::Weekday::Fri);

    let alarm = AlarmDraft {
        repeat_rule: RepeatRule::Weekdays,
        time_local: TimeOfDay::from_hms(7, 30, 0).unwrap(),
        ..AlarmDraft::default()
    }
    .into_alarm(instant(now))
    .expect("valid alarm");

    let next = next_occurrence_after(&alarm, instant(now)).expect("next alarm");
    assert_eq!(local(next).weekday(), chrono::Weekday::Mon);
    assert_eq!(local(next).hour(), 7);
}

#[test]
fn disabled_alarm_has_no_next_occurrence() {
    let now = Local
        .with_ymd_and_hms(2026, 3, 19, 8, 0, 0)
        .single()
        .expect("fixed test time");
    let alarm = AlarmDraft {
        enabled: false,
        ..AlarmDraft::default()
    }
    .into_alarm(instant(now))
    .expect("valid alarm");

    assert!(next_occurrence_after(&alarm, instant(now)).is_none());
}

#[test]
fn snoozed_alarm_keeps_future_snooze_until() {
    let now = Local
        .with_ymd_and_hms(2026, 3, 19, 8, 0, 0)
        .single()
        .expect("fixed test time");
    let snoozed_until = Local
        .with_ymd_and_hms(2026, 3, 19, 8, 12, 0)
        .single()
        .expect("fixed snooze time");
    let mut alarm = AlarmDraft::default()
        .into_alarm(instant(now))
        .expect("valid alarm");
    alarm.state = AlarmState::Snoozed;
    alarm.next_trigger_at = Some(instant(snoozed_until));

    let next = next_occurrence_after(&alarm, instant(now)).expect("next alarm");
    assert_eq!(next, instant(snoozed_until));
}

fn at(y: i32, mo: u32, d: u32, h: u32, mi: u32) -> Instant {
    instant(Local.with_ymd_and_hms(y, mo, d, h, mi, 0).single().unwrap())
}

#[test]
fn once_alarm_already_past_today_has_no_occurrence() {
    let now = at(2026, 3, 19, 9, 0);
    let alarm = AlarmDraft {
        repeat_rule: RepeatRule::Once,
        time_local: TimeOfDay::from_hms(8, 5, 0).unwrap(),
        ..AlarmDraft::default()
    }
    .into_alarm(now)
    .unwrap();
    assert!(next_occurrence_after(&alarm, now).is_none());
}

#[test]
fn once_alarm_at_exactly_now_is_not_next() {
    let now = at(2026, 3, 19, 8, 5);
    let alarm = AlarmDraft {
        repeat_rule: RepeatRule::Once,
        time_local: TimeOfDay::from_hms(8, 5, 0).unwrap(),
        ..AlarmDraft::default()
    }
    .into_alarm(now)
    .unwrap();
    assert!(next_occurrence_after(&alarm, now).is_none());
}

#[test]
fn custom_days_alarm_waits_for_listed_day() {
    // Thursday 2026-03-19; the alarm rings on Tuesdays only.
    let now = at(2026, 3, 19, 8, 0);
    let alarm = AlarmDraft {
        repeat_rule: RepeatRule::CustomDays(vec![Weekday::Tue]),
        time_local: TimeOfDay::from_hms(6, 45, 0).unwrap(),
        ..AlarmDraft::default()
    }
    .into_alarm(now)
    .unwrap();
    let next = local(next_occurrence_after(&alarm, now).unwrap());
    assert_eq!(next.date_naive(), NaiveDate::from_ymd_opt(2026, 3, 24).unwrap());
    assert_eq!((next.hour(), next.minute()), (6, 45));
}

#[test]
fn custom_days_without_days_never_ring() {
    let now = at(2026, 3, 19, 8, 0);
    let alarm = AlarmDraft {
        repeat_rule: RepeatRule::CustomDays(vec![]),
        ..AlarmDraft::default()
    }
    .into_alarm(now)
    .unwrap();
    assert!(next_occurrence_after(&alarm, now).is_none());
}

#[test]
fn weekday_alarm_later_today_rings_today() {
    let now = at(2026, 3, 19, 6, 0);
    let alarm = AlarmDraft::default().into_alarm(now).unwrap();
    let next = local(next_occurrence_after(&alarm, now).unwrap());
    assert_eq!(next.date_naive(), NaiveDate::from_ymd_opt(2026, 3, 19).unwrap());
    assert_eq!((next.hour(), next.minute()), (7, 0));
}

#[test]
fn ringing_alarm_keeps_its_trigger_time() {
    let now = at(2026, 3, 19, 8, 0);
    let rang = at(2026, 3, 19, 7, 0);
    let mut alarm = AlarmDraft::default().into_alarm(now).unwrap();
    alarm.state = AlarmState::Ringing;
    alarm.next_trigger_at = Some(rang);
    assert_eq!(next_occurrence_after(&alarm, now), Some(rang));
}

#[test]
fn snooze_in_the_past_is_replaced_by_the_rule() {
    let now = at(2026, 3, 19, 8, 0);
    let mut alarm = AlarmDraft::default().into_alarm(now).unwrap();
    alarm.state = AlarmState::Snoozed;
    alarm.next_trigger_at = Some(at(2026, 3, 19, 7, 50));
    let next = local(next_occurrence_after(&alarm, now).unwrap());
    assert_eq!(next.date_naive(), NaiveDate::from_ymd_opt(2026, 3, 20).unwrap());
    assert_eq!(next.hour(), 7);
}

#[test]
fn describe_next_alarm_prints_weekday_and_time() {
    let now = at(2026, 3, 19, 8, 0);
    let alarm = AlarmDraft {
        repeat_rule: RepeatRule::Once,
        time_local: TimeOfDay::from_hms(8, 5, 0).unwrap(),
        ..AlarmDraft::default()
    }
    .into_alarm(now)
    .unwrap();
    assert_eq!(describe_next_alarm(&alarm, now).as_deref(), Some("Thu 08:05"));
    let off = AlarmDraft { enabled: false, ..AlarmDraft::default() }.into_alarm(now).unwrap();
    assert_eq!(describe_next_alarm(&off, now), None);
}

#[test]
fn day_hm_uses_the_instants_own_offset() {
    // 2026-03-19 23:30 UTC is Friday 01:30 at +02:00.
    let t = Instant { secs: 1_773_963_000, nanos: 0, offset: 7200 };
    assert_eq!(day_hm(t), "Fri 01:30");
    let u = Instant { secs: 1_773_963_000, nanos: 0, offset: 0 };
    assert_eq!(day_hm(u), "Thu 23:30");
}

#[test]
fn ambiguous_lookup_takes_the_earlier_instant() {
    let a = Instant { secs: 100, nanos: 0, offset: 3600 };
    let b = Instant { secs: 50, nanos: 0, offset: 7200 };
    assert_eq!(pick_lookup(ZoneLookup::Ambiguous(a, b)), Some(b));
    assert_eq!(pick_lookup(ZoneLookup::Ambiguous(b, a)), Some(b));
    let c = Instant { secs: 50, nanos: 0, offset: 0 };
    assert_eq!(pick_lookup(ZoneLookup::Ambiguous(b, c)), Some(b));
    assert_eq!(pick_lookup(ZoneLookup::Single(a)), Some(a));
    assert_eq!(pick_lookup(ZoneLookup::Nonexistent), None);
}

#[test]
fn epoch_day_range_matches_chrono() {
    assert_eq!(NaiveDate::MAX.to_epoch_days(), MAX_EPOCH_DAY);
    assert_eq!(NaiveDate::MIN.to_epoch_days(), MIN_EPOCH_DAY);
}

#[test]
fn time_of_day_from_fields() {
    assert_eq!(TimeOfDay::from_hms(15, 30, 0), Some(TimeOfDay { secs: 55800, nanos: 0 }));
    assert_eq!(TimeOfDay::from_hms(24, 0, 0), None);
    assert_eq!(TimeOfDay::from_hms(7, 60, 0), None);
    assert_eq!(TimeOfDay::from_hms(7, 0, 60), None);
}

#[test]
fn instant_order_ignores_offsets() {
    let a = Instant { secs: 10, nanos: 5, offset: 0 };
    let b = Instant { secs: 10, nanos: 6, offset: -3600 };
    assert!(a.is_before(&b));
    assert!(!b.is_before(&a));
    let c = Instant { secs: 10, nanos: 5, offset: 3600 };
    assert!(!a.is_before(&c) && !c.is_before(&a));
    assert!(a.is_valid());
    assert!(!Instant { secs: 0, nanos: 1_000_000_000, offset: 0 }.is_valid());
}

fn utc(y: i32, mo: u32, d: u32, h: u32, mi: u32) -> Instant {
    let dt = chrono::Utc.with_ymd_and_hms(y, mo, d, h, mi, 0).single().unwrap();
    Instant { secs: dt.timestamp(), nanos: 0, offset: 0 }
}

fn epoch_day(y: i32, mo: u32, d: u32) -> i32 {
    let date = NaiveDate::from_ymd_opt(y, mo, d).unwrap();
    (date - NaiveDate::from_ymd_opt(1970, 1, 1).unwrap()).num_days() as i32
}

fn draft_alarm(rule: RepeatRule, h: u32, mi: u32, now: Instant) -> alarm_core::Alarm {
    AlarmDraft {
        repeat_rule: rule,
        time_local: TimeOfDay::from_hms(h, mi, 0).unwrap(),
        ..AlarmDraft::default()
    }
    .into_alarm(now)
    .expect("valid alarm")
}

#[test]
fn answers_once_alarm_later_today() {
    let now = utc(2026, 3, 19, 8, 0);
    let alarm = draft_alarm(RepeatRule::Once, 8, 5, now);
    let at = utc(2026, 3, 19, 8, 5);
    let answers = vec![vec![ZoneLookup::Single(at)]];
    assert_eq!(occurrence_from_answers(&alarm, now, &answers), Some(at));
}

#[test]
fn answers_once_alarm_already_past_is_none() {
    let now = utc(2026, 3, 19, 9, 0);
    let alarm = draft_alarm(RepeatRule::Once, 8, 0, now);
    let answers = vec![vec![ZoneLookup::Single(utc(2026, 3, 19, 8, 0))]];
    assert_eq!(occurrence_from_answers(&alarm, now, &answers), None);
}

#[test]
fn answers_weekday_alarm_friday_night_rings_monday() {
    let now = utc(2026, 3, 20, 22, 0);
    let alarm = draft_alarm(RepeatRule::Weekdays, 7, 30, now);
    let answers = vec![
        vec![ZoneLookup::Single(utc(2026, 3, 20, 7, 30))],
        vec![],
        vec![],
        vec![ZoneLookup::Single(utc(2026, 3, 23, 7, 30))],
    ];
    let next = occurrence_from_answers(&alarm, now, &answers).expect("next alarm");
    assert_eq!(next, utc(2026, 3, 23, 7, 30));
    assert_eq!(day_hm(next), "Mon 07:30");
}

#[test]
fn answers_weekday_alarm_skips_a_day_that_resolves_to_nothing() {
    let now = utc(2026, 3, 19, 8, 0);
    let alarm = draft_alarm(RepeatRule::Weekdays, 7, 30, now);
    let answers = vec![
        vec![ZoneLookup::Single(utc(2026, 3, 19, 7, 30))],
        vec![ZoneLookup::Nonexistent],
    ];
    assert_eq!(occurrence_from_answers(&alarm, now, &answers), None);
}

#[test]
fn answers_ignored_for_a_disabled_alarm() {
    let now = utc(2026, 3, 19, 8, 0);
    let mut alarm = draft_alarm(RepeatRule::Once, 8, 5, now);
    alarm.enabled = false;
    let answers = vec![vec![ZoneLookup::Single(utc(2026, 3, 19, 8, 5))]];
    assert_eq!(occurrence_from_answers(&alarm, now, &answers), None);
}

#[test]
fn resolve_takes_the_direct_answer_first() {
    let naive = WallTime { day: epoch_day(2026, 3, 19), time: TimeOfDay::from_hms(8, 5, 0).unwrap() };
    let at = utc(2026, 3, 19, 8, 5);
    let later = utc(2026, 3, 19, 8, 6);
    assert_eq!(resolve_local_candidate(naive, &vec![ZoneLookup::Single(at), ZoneLookup::Single(later)]), Some(at));
}

#[test]
fn resolve_takes_the_earlier_of_two() {
    let naive = WallTime { day: epoch_day(2026, 10, 25), time: TimeOfDay::from_hms(2, 30, 0).unwrap() };
    let first = Instant { secs: utc(2026, 10, 25, 0, 30).secs, nanos: 0, offset: 7200 };
    let second = Instant { secs: utc(2026, 10, 25, 1, 30).secs, nanos: 0, offset: 3600 };
    assert_eq!(resolve_local_candidate(naive, &vec![ZoneLookup::Ambiguous(second, first)]), Some(first));
}

#[test]
fn resolve_moves_past_a_skipped_time() {
    let naive = WallTime { day: epoch_day(2026, 3, 29), time: TimeOfDay::from_hms(2, 30, 0).unwrap() };
    let mut answers = vec![ZoneLookup::Nonexistent; 30];
    let three = Instant { secs: utc(2026, 3, 29, 1, 0).secs, nanos: 0, offset: 7200 };
    answers.push(ZoneLookup::Single(three));
    assert_eq!(resolve_local_candidate(naive, &answers), Some(three));
}

#[test]
fn resolve_gives_nothing_when_no_minute_exists() {
    let naive = WallTime { day: epoch_day(2026, 3, 29), time: TimeOfDay::from_hms(2, 30, 0).unwrap() };
    assert_eq!(resolve_local_candidate(naive, &vec![ZoneLookup::Nonexistent; 181]), None);
    assert_eq!(resolve_local_candidate(naive, &vec![]), None);
}

#[test]
fn resolve_stops_at_midnight() {
    let naive = WallTime { day: epoch_day(2026, 3, 29), time: TimeOfDay::from_hms(23, 30, 0).unwrap() };
    let mut answers = vec![ZoneLookup::Nonexistent; 40];
    answers.push(ZoneLookup::Single(utc(2026, 3, 30, 0, 10)));
    assert_eq!(resolve_local_candidate(naive, &answers), None);
}

#[test]
fn zone_answers_for_an_ordinary_time_is_one_answer() {
    let naive = WallTime { day: epoch_day(2026, 1, 15), time: TimeOfDay::from_hms(12, 0, 0).unwrap() };
    let answers = zone_answers(naive);
    assert_eq!(answers.len(), 1);
    match answers[0] {
        ZoneLookup::Single(t) => {
            assert_eq!(t.secs + t.offset as i64, naive.day as i64 * 86400 + 12 * 3600);
        }
        _ => panic!("noon in January occurs once"),
    }
}

#[test]
fn zone_answers_for_asks_the_allowed_days_until_one_is_found() {
    let now = instant(Local.with_ymd_and_hms(2026, 3, 20, 22, 0, 0).single().unwrap());
    let alarm = draft_alarm(RepeatRule::Weekdays, 7, 30, now);
    let answers = zone_answers_for(&alarm, now);
    assert_eq!(answers.len(), 4);
    assert_eq!(answers[0].len(), 1);
    assert!(answers[1].is_empty());
    assert!(answers[2].is_empty());
    assert_eq!(answers[3].len(), 1);
    let next = occurrence_from_answers(&alarm, now, &answers).expect("next alarm");
    assert_eq!(next_occurrence_after(&alarm, now), Some(next));
    assert_eq!(local(next).weekday(), chrono::Weekday::Mon);
}

#[test]
fn answers_expired_snooze_falls_back_to_the_rule() {
    let now = utc(2026, 3, 19, 8, 0);
    let mut alarm = draft_alarm(RepeatRule::Weekdays, 7, 30, now);
    let answers = vec![
        vec![ZoneLookup::Single(utc(2026, 3, 19, 7, 30))],
        vec![ZoneLookup::Single(utc(2026, 3, 20, 7, 30))],
    ];
    alarm.state = AlarmState::Scheduled;
    let scheduled = occurrence_from_answers(&alarm, now, &answers);
    alarm.state = AlarmState::Snoozed;
    alarm.next_trigger_at = Some(utc(2026, 3, 19, 7, 55));
    let snoozed = occurrence_from_answers(&alarm, now, &answers);
    assert_eq!(snoozed, scheduled);
    assert_eq!(snoozed, Some(utc(2026, 3, 20, 7, 30)));
}

#[test]
fn zone_answers_for_a_one_off_alarm_asks_today_only() {
    let now = instant(Local.with_ymd_and_hms(2026, 3, 19, 9, 0, 0).single().unwrap());
    let alarm = draft_alarm(RepeatRule::Once, 8, 0, now);
    let answers = zone_answers_for(&alarm, now);
    assert_eq!(answers.len(), 1);
    assert_eq!(answers[0].len(), 1);
    assert_eq!(occurrence_from_answers(&alarm, now, &answers), None);
}

#[test]
fn zone_answers_for_custom_days_skips_to_the_next_allowed_day() {
    let now = instant(Local.with_ymd_and_hms(2026, 3, 19, 9, 0, 0).single().unwrap());
    let mut alarm = draft_alarm(RepeatRule::CustomDays(vec![Weekday::Thu]), 8, 0, now);
    alarm.enabled = true;
    let answers = zone_answers_for(&alarm, now);
    assert_eq!(answers.len(), 8);
    assert_eq!(answers[0].len(), 1);
    assert!(answers[1..7].iter().all(|row| row.is_empty()));
    assert_eq!(answers[7].len(), 1);
}
