use alarm_core::engine::{
    apply_update, build_status, create_alarm, dismiss_alarm, elapsed_within, find_alarm,
    load_alarm_by_id, recompute_alarm_schedule, scheduler_pass, scheduler_step, snooze_alarm, snooze_deadline,
    snooze_due, snoozed_active, toggle_alarm, toggle_clears_active, trigger_plan,
};
use alarm_core::model::{alarm_id_text, parse_alarm_id};
use alarm_core::seed::seed_plan;
use alarm_core::{
    ActiveAlarm, Alarm, AlarmDraft, AlarmError, AlarmState, AlarmStatus, Instant, RepeatRule,
    Settings, TimeOfDay, Weekday,
};
use chrono::{DateTime, Local, NaiveDate, TimeZone, Timelike};

fn at(y: i32, mo: u32, d: u32, h: u32, mi: u32) -> Instant {
    let dt: DateTime<Local> = Local.with_ymd_and_hms(y, mo, d, h, mi, 0).single().unwrap();
    Instant {
        secs: dt.timestamp(),
        nanos: dt.timestamp_subsec_nanos(),
        offset: dt.offset().local_minus_utc(),
    }
}

fn local(t: Instant) -> DateTime<chrono::FixedOffset> {
    DateTime::from_timestamp(t.secs, t.nanos)
        .unwrap()
        .with_timezone(&chrono::FixedOffset::east_opt(t.offset).unwrap())
}

fn alarm(now: Instant) -> Alarm {
    AlarmDraft::default().into_alarm(now).unwrap()
}

#[test]
fn into_alarm_caps_volume_and_floors_snooze() {
    let now = at(2026, 3, 19, 8, 0);
    let a = AlarmDraft { volume: 150, snooze_minutes: 0, ..AlarmDraft::default() }
        .into_alarm(now)
        .unwrap();
    assert_eq!(a.volume, 100);
    assert_eq!(a.snooze_minutes, 1);
    assert_eq!(a.state, AlarmState::Idle);
    assert_eq!(a.next_trigger_at, None);
    assert_eq!(a.created_at, now);
    assert_eq!(a.updated_at, now);
    assert_eq!((a.id >> 76) & 0xf, 4);
    assert_eq!((a.id >> 62) & 0x3, 2);
    let b = AlarmDraft::default().into_alarm(now).unwrap();
    assert_ne!(a.id, b.id);
}

#[test]
fn normalized_caps_and_floors() {
    let now = at(2026, 3, 19, 8, 0);
    let mut a = alarm(now);
    a.volume = 200;
    a.snooze_minutes = 0;
    let n = a.normalized().unwrap();
    assert_eq!((n.volume, n.snooze_minutes), (100, 1));
}

#[test]
fn defaults_match_the_documented_values() {
    let d = AlarmDraft::default();
    assert_eq!(d.label, "Alarm");
    assert_eq!(d.time_local, TimeOfDay { secs: 25200, nanos: 0 });
    assert!(matches!(d.repeat_rule, RepeatRule::Weekdays));
    assert_eq!((d.sound_id.as_str(), d.volume, d.enabled, d.snooze_minutes), ("default", 80, true, 10));
    let s = Settings::default();
    assert_eq!(s.theme, "aurora");
    assert!(s.autostart && !s.launch_minimized);
    assert_eq!((s.grace_window_minutes, s.default_snooze_minutes), (15, 10));
}

#[test]
fn parse_alarm_id_accepts_uuids_only() {
    assert_eq!(
        parse_alarm_id("67e55044-10b1-426f-9247-bb680e5fe0c8"),
        Ok(0x67e5504410b1426f9247bb680e5fe0c8u128)
    );
    assert_eq!(parse_alarm_id("not-a-uuid"), Err(AlarmError::InvalidAlarmId));
}

#[test]
fn recompute_disables_and_schedules() {
    let now = at(2026, 3, 19, 8, 0);
    let mut a = alarm(now);
    recompute_alarm_schedule(&mut a, now);
    assert_eq!(a.state, AlarmState::Scheduled);
    let next = local(a.next_trigger_at.unwrap());
    assert_eq!(next.date_naive(), NaiveDate::from_ymd_opt(2026, 3, 20).unwrap());
    a.enabled = false;
    recompute_alarm_schedule(&mut a, now);
    assert_eq!(a.state, AlarmState::Idle);
    assert_eq!(a.next_trigger_at, None);
}

#[test]
fn recompute_leaves_ringing_alarm_alone() {
    let now = at(2026, 3, 19, 8, 0);
    let mut a = alarm(now);
    a.state = AlarmState::Ringing;
    a.next_trigger_at = Some(at(2026, 3, 19, 7, 0));
    recompute_alarm_schedule(&mut a, now);
    assert_eq!(a.state, AlarmState::Ringing);
    assert_eq!(a.next_trigger_at, Some(at(2026, 3, 19, 7, 0)));
}

#[test]
fn scheduler_step_rings_a_due_alarm() {
    let now = at(2026, 3, 19, 7, 5);
    let mut a = alarm(at(2026, 3, 18, 8, 0));
    a.state = AlarmState::Scheduled;
    a.next_trigger_at = Some(at(2026, 3, 19, 7, 0));
    let (after, fired) = scheduler_step(a, now, 15);
    assert!(fired);
    assert_eq!(after.state, AlarmState::Ringing);
    assert_eq!(after.last_triggered_at, Some(now));
    assert_eq!(after.next_trigger_at, Some(now));
}

#[test]
fn scheduler_step_marks_an_overdue_alarm_missed() {
    let now = at(2026, 3, 19, 8, 0);
    let mut a = alarm(at(2026, 3, 18, 8, 0));
    a.state = AlarmState::Scheduled;
    a.next_trigger_at = Some(at(2026, 3, 19, 7, 0));
    let (after, fired) = scheduler_step(a, now, 15);
    assert!(!fired);
    assert_eq!(after.last_triggered_at, Some(now));
    assert_eq!(after.state, AlarmState::Scheduled);
    let next = local(after.next_trigger_at.unwrap());
    assert_eq!(next.date_naive(), NaiveDate::from_ymd_opt(2026, 3, 20).unwrap());
    assert_eq!((next.hour(), next.minute()), (7, 0));
}

#[test]
fn scheduler_step_leaves_a_future_alarm_scheduled() {
    let now = at(2026, 3, 19, 6, 0);
    let mut a = alarm(at(2026, 3, 18, 8, 0));
    a.state = AlarmState::Scheduled;
    a.next_trigger_at = Some(at(2026, 3, 19, 7, 0));
    let (after, fired) = scheduler_step(a, now, 15);
    assert!(!fired);
    assert_eq!(after.state, AlarmState::Scheduled);
    assert_eq!(after.next_trigger_at, Some(at(2026, 3, 19, 7, 0)));
    assert_eq!(after.last_triggered_at, None);
}

#[test]
fn scheduler_pass_reports_the_last_alarm_that_rang() {
    let now = at(2026, 3, 19, 7, 5);
    let mut first = alarm(at(2026, 3, 18, 8, 0));
    first.state = AlarmState::Scheduled;
    first.next_trigger_at = Some(at(2026, 3, 19, 7, 0));
    let mut second = alarm(at(2026, 3, 18, 8, 0));
    second.state = AlarmState::Scheduled;
    second.next_trigger_at = Some(at(2026, 3, 19, 7, 2));
    let second_id = second.id;
    let (after, fired) = scheduler_pass(vec![first, second], now, 15);
    assert_eq!(after.len(), 2);
    assert_eq!(after[0].state, AlarmState::Ringing);
    assert_eq!(after[1].state, AlarmState::Ringing);
    let fired = fired.expect("an alarm rang");
    assert_eq!(fired.id, second_id);
    assert_eq!(fired.state, AlarmState::Ringing);
}

#[test]
fn elapsed_within_counts_minutes() {
    let a = at(2026, 3, 19, 7, 0);
    let b = at(2026, 3, 19, 7, 15);
    assert!(elapsed_within(&a, &b, 15));
    assert!(!elapsed_within(&a, &b, 14));
    assert!(elapsed_within(&b, &a, 0));
}

#[test]
fn snooze_due_when_deadline_has_come() {
    let now = at(2026, 3, 19, 8, 0);
    let active = ActiveAlarm {
        alarm_id: 7,
        label: "Wake".into(),
        state: AlarmState::Snoozed,
        due_at: at(2026, 3, 19, 7, 0),
        snoozed_until: Some(now),
    };
    assert_eq!(snooze_due(&Some(active.clone()), &now), Some(7));
    assert_eq!(snooze_due(&Some(active.clone()), &at(2026, 3, 19, 7, 59)), None);
    let ringing = ActiveAlarm { state: AlarmState::Ringing, ..active };
    assert_eq!(snooze_due(&Some(ringing), &now), None);
    assert_eq!(snooze_due(&None, &now), None);
}

#[test]
fn trigger_plan_rings_unless_already_ringing() {
    let now = at(2026, 3, 19, 8, 0);
    let mut a = alarm(now);
    a.label = "Wake".into();
    a.volume = 55;
    a.state = AlarmState::Ringing;
    a.next_trigger_at = Some(now);
    let plan = trigger_plan(&None, &a, now).unwrap();
    assert_eq!(plan.active.alarm_id, a.id);
    assert_eq!(plan.active.state, AlarmState::Ringing);
    assert_eq!(plan.active.due_at, now);
    assert_eq!(plan.volume, 55);
    assert_eq!(plan.summary, "Aurora Alarm: Wake");
    assert_eq!(plan.body, "Alarm is ringing at Thu 08:00. Dismiss or snooze from the app or tray.");
    assert!(trigger_plan(&Some(plan.active), &a, now).is_none());
    a.enabled = false;
    let off = trigger_plan(&None, &a, now).unwrap();
    assert_eq!(off.body, "Alarm is ringing at Now. Dismiss or snooze from the app or tray.");
}

#[test]
fn find_alarm_returns_first_match() {
    let now = at(2026, 3, 19, 8, 0);
    let mut a = alarm(now);
    a.label = "first".into();
    let mut b = alarm(now);
    b.label = "second".into();
    let mut c = alarm(now);
    c.id = a.id;
    c.label = "third".into();
    let id = a.id;
    let found = find_alarm(vec![b.clone(), a, c], id).unwrap();
    assert_eq!(found.label, "first");
    assert!(find_alarm(vec![b.clone()], id).is_none());
    assert_eq!(load_alarm_by_id(vec![b], id).unwrap_err(), AlarmError::AlarmNotFound);
}

#[test]
fn create_alarm_schedules_the_new_alarm() {
    let now = at(2026, 3, 19, 6, 0);
    let a = create_alarm(AlarmDraft::default(), now).unwrap();
    assert_eq!(a.state, AlarmState::Scheduled);
    assert_eq!(local(a.next_trigger_at.unwrap()).hour(), 7);
    let off = create_alarm(AlarmDraft { enabled: false, ..AlarmDraft::default() }, now).unwrap();
    assert_eq!(off.state, AlarmState::Idle);
}

#[test]
fn apply_update_keeps_identity_and_ringing_state() {
    let created = at(2026, 3, 18, 8, 0);
    let now = at(2026, 3, 19, 8, 0);
    let mut existing = alarm(created);
    existing.state = AlarmState::Ringing;
    existing.next_trigger_at = Some(at(2026, 3, 19, 7, 0));
    existing.last_triggered_at = Some(at(2026, 3, 19, 7, 0));
    let mut edited = alarm(now);
    edited.label = "Edited".into();
    edited.volume = 120;
    let r = apply_update(&existing, edited.clone(), existing.id, now).unwrap();
    assert_eq!(r.id, existing.id);
    assert_eq!(r.created_at, created);
    assert_eq!(r.updated_at, now);
    assert_eq!(r.last_triggered_at, existing.last_triggered_at);
    assert_eq!(r.volume, 100);
    assert_eq!(r.label, "Edited");
    assert_eq!(r.state, AlarmState::Ringing);
    assert_eq!(r.next_trigger_at, existing.next_trigger_at);

    existing.state = AlarmState::Snoozed;
    let s = apply_update(&existing, edited.clone(), existing.id, now).unwrap();
    assert_eq!(s.state, AlarmState::Snoozed);
    existing.state = AlarmState::Idle;
    let i = apply_update(&existing, edited, existing.id, now).unwrap();
    assert_eq!(i.state, AlarmState::Scheduled);
}

#[test]
fn toggle_off_idles_and_clears_active() {
    let now = at(2026, 3, 19, 8, 0);
    let a = toggle_alarm(alarm(now), false, now);
    assert!(!a.enabled);
    assert_eq!(a.state, AlarmState::Idle);
    assert_eq!(a.next_trigger_at, None);
    let b = toggle_alarm(a, true, now);
    assert_eq!(b.state, AlarmState::Scheduled);
    let active = Some(ActiveAlarm {
        alarm_id: 3,
        label: "x".into(),
        state: AlarmState::Ringing,
        due_at: now,
        snoozed_until: None,
    });
    assert!(toggle_clears_active(&active, 3, false));
    assert!(!toggle_clears_active(&active, 3, true));
    assert!(!toggle_clears_active(&active, 4, false));
    assert!(!toggle_clears_active(&None, 3, false));
}

#[test]
fn dismiss_stops_ringing_and_reschedules() {
    let now = at(2026, 3, 19, 8, 0);
    let mut a = alarm(now);
    a.state = AlarmState::Ringing;
    a.next_trigger_at = Some(now);
    let d = dismiss_alarm(a, now);
    assert_eq!(d.state, AlarmState::Scheduled);
    assert_eq!(d.last_triggered_at, Some(now));
    assert!(now.is_before(&d.next_trigger_at.unwrap()));
}

#[test]
fn snooze_moves_trigger_and_active_alarm() {
    let now = at(2026, 3, 19, 8, 0);
    let until = snooze_deadline(now, 10);
    assert_eq!(until.secs, now.secs + 600);
    assert_eq!(snooze_deadline(now, 0).secs, now.secs + 60);
    let s = snooze_alarm(alarm(now), until, now);
    assert_eq!(s.state, AlarmState::Snoozed);
    assert_eq!(s.next_trigger_at, Some(until));
    assert_eq!(alarm_core::next_occurrence_after(&s, now), Some(until));
    let active = ActiveAlarm {
        alarm_id: 9,
        label: "Wake".into(),
        state: AlarmState::Ringing,
        due_at: now,
        snoozed_until: None,
    };
    let sa = snoozed_active(active, until);
    assert_eq!(sa.state, AlarmState::Snoozed);
    assert_eq!(sa.snoozed_until, Some(until));
    assert_eq!(sa.due_at, now);
}

#[test]
fn build_status_reports_earliest_enabled_alarm() {
    let now = at(2026, 3, 19, 8, 0);
    let mut a = alarm(now);
    a.next_trigger_at = Some(at(2026, 3, 20, 7, 0));
    let mut b = alarm(now);
    b.next_trigger_at = Some(at(2026, 3, 19, 9, 0));
    let mut c = alarm(now);
    c.enabled = false;
    c.next_trigger_at = Some(at(2026, 3, 19, 8, 30));
    let alarms = vec![a, b, c];
    let st = build_status(&alarms, &None, true, false);
    assert_eq!(st.next_alarm_at, Some(at(2026, 3, 19, 9, 0)));
    assert_eq!(st.status, AlarmStatus::Upcoming);
    assert!(!st.tray_available && st.notifications_available && !st.audio_available);
    let ringing = Some(ActiveAlarm {
        alarm_id: 1,
        label: "r".into(),
        state: AlarmState::Ringing,
        due_at: now,
        snoozed_until: None,
    });
    assert_eq!(build_status(&alarms, &ringing, true, true).status, AlarmStatus::Ringing);
    assert_eq!(build_status(&vec![], &None, true, true).status, AlarmStatus::Quiet);
}

#[test]
fn build_status_prefers_first_of_equal_times() {
    let now = at(2026, 3, 19, 8, 0);
    let t = at(2026, 3, 19, 9, 0);
    let mut a = alarm(now);
    a.next_trigger_at = Some(Instant { offset: t.offset + 3600, ..t });
    let mut b = alarm(now);
    b.next_trigger_at = Some(t);
    let st = build_status(&vec![a.clone(), b], &None, true, true);
    assert_eq!(st.next_alarm_at, a.next_trigger_at);
}

#[test]
fn seed_plan_fills_an_empty_database() {
    let now = at(2026, 3, 19, 6, 0);
    let plan = seed_plan(0, 0, now).unwrap();
    assert!(plan.settings.is_some());
    assert_eq!(plan.alarms.len(), 2);
    assert_eq!(plan.alarms[0].label, "Gentle Wake");
    assert_eq!(plan.alarms[0].state, AlarmState::Scheduled);
    assert_eq!(plan.alarms[1].label, "Tea Break");
    assert_eq!(plan.alarms[1].time_local, TimeOfDay { secs: 55800, nanos: 0 });
    assert!(!plan.alarms[1].enabled);
    assert_eq!(plan.alarms[1].state, AlarmState::Idle);
    match &plan.alarms[1].repeat_rule {
        RepeatRule::CustomDays(days) => assert_eq!(
            days,
            &vec![Weekday::Mon, Weekday::Tue, Weekday::Wed, Weekday::Thu, Weekday::Fri]
        ),
        _ => panic!("Tea Break repeats on custom days"),
    }
    let full = seed_plan(1, 3, now).unwrap();
    assert!(full.settings.is_none());
    assert!(full.alarms.is_empty());
}

#[test]
fn alarm_id_text_reads_back_as_the_same_id() {
    let a = alarm(at(2026, 3, 19, 8, 0));
    let text = alarm_id_text(a.id);
    assert_eq!(text.len(), 36);
    assert_eq!(parse_alarm_id(&text), Ok(a.id));
    assert_eq!(
        alarm_id_text(0x67e5504410b1426f9247bb680e5fe0c8),
        "67e55044-10b1-426f-9247-bb680e5fe0c8"
    );
}

#[test]
fn recomputing_twice_changes_nothing_more() {
    let now = at(2026, 3, 19, 8, 0);
    let mut a = alarm(at(2026, 3, 18, 8, 0));
    recompute_alarm_schedule(&mut a, now);
    let once = (a.state, a.next_trigger_at);
    recompute_alarm_schedule(&mut a, now);
    assert_eq!((a.state, a.next_trigger_at), once);
    assert_eq!(a.state, AlarmState::Scheduled);
}

#[test]
fn dbus_names_are_the_daemons() {
    assert_eq!(alarm_core::DBUS_SERVICE, "io.codex.AuroraAlarm");
    assert_eq!(alarm_core::DBUS_PATH, "/io/codex/AuroraAlarm");
    assert_eq!(alarm_core::DBUS_INTERFACE, "io.codex.AuroraAlarm");
}
