//! What a fresh database is filled with.
use crate::model::{
    uuid_version, Alarm, AlarmDraft, AlarmError, AlarmState, RuleView, Settings,
};
use crate::schedule::{next_occurrence_after, occurrence_fits};
use crate::time::{Instant, TimeOfDay, Weekday};
use vstd::prelude::*;

verus! {

/// The settings and alarms to store in a database that lacks them.
pub struct SeedPlan {
    pub settings: Option<Settings>,
    pub alarms: Vec<Alarm>,
}

/// `a` is a seed alarm made at `now` with the given label, time, rule and
/// switch, scheduled for its next occurrence (idle when it has none).
pub open spec fn seed_alarm(
    a: Alarm,
    label: Seq<char>,
    time: TimeOfDay,
    rule: RuleView,
    enabled: bool,
    now: Instant,
) -> bool {
    &&& a.label@ == label
    &&& a.time_local == time
    &&& a.repeat_rule@ == rule
    &&& a.enabled == enabled
    &&& uuid_version(a.id) == 4
    &&& a.last_triggered_at is None
    &&& a.created_at == now
    &&& a.updated_at == now
    &&& occurrence_fits(Alarm { state: AlarmState::Idle, next_trigger_at: None, ..a }, now, a.next_trigger_at)
    &&& a.state == (if a.next_trigger_at is Some {
        AlarmState::Scheduled
    } else {
        AlarmState::Idle
    })
}

/// A seed alarm from `draft`, made at `now` and scheduled.
fn seeded(draft: AlarmDraft, now: Instant) -> (r: Result<Alarm, AlarmError>)
    requires
        now.valid(),
        draft.time_local.wf(),
    ensures
        r matches Ok(a) && seed_alarm(
            a,
            draft.label@,
            draft.time_local,
            draft.repeat_rule@,
            draft.enabled,
            now,
        ) && a.sound_id == draft.sound_id && a.volume == (if draft.volume > 100 { 100 } else { draft.volume })
            && a.snooze_minutes == (if draft.snooze_minutes < 1 { 1 } else { draft.snooze_minutes }),
{
    let mut alarm = match draft.into_alarm(now) {
        Ok(a) => a,
        Err(e) => return Err(e),
    };
    let ghost made = alarm;
    alarm.next_trigger_at = next_occurrence_after(&alarm, now);
    alarm.state = if alarm.next_trigger_at.is_some() {
        AlarmState::Scheduled
    } else {
        AlarmState::Idle
    };
    assert(Alarm { state: AlarmState::Idle, next_trigger_at: None, ..alarm } == made);
    assert(occurrence_fits(made, now, alarm.next_trigger_at));
    assert(alarm.label@ == draft.label@);
    assert(alarm.repeat_rule@ == draft.repeat_rule@);
    Ok(alarm)
}

/// What to store in a database holding `settings_count` settings rows and
/// `alarm_count` alarms: the default settings when there are none, and when
/// there are no alarms, "Gentle Wake" (07:00 on weekdays, enabled) and
/// "Tea Break" (15:30 Monday to Friday, disabled), made at `now`.
pub fn seed_plan(settings_count: i64, alarm_count: i64, now: Instant) -> (r: Result<
    SeedPlan,
    AlarmError,
>)
    requires
        now.valid(),
    ensures
        r matches Ok(plan) && {
            &&& (settings_count == 0) == plan.settings is Some
            &&& (plan.settings matches Some(s) ==> s.theme@ == "aurora"@ && s.autostart
                && !s.launch_minimized && s.grace_window_minutes == 15 && s.default_snooze_minutes
                == 10)
            &&& plan.alarms@.len() == (if alarm_count == 0 { 2int } else { 0int })
            &&& alarm_count == 0 ==> seed_alarm(
                plan.alarms@[0],
                "Gentle Wake"@,
                TimeOfDay { secs: 25200, nanos: 0 },
                RuleView::Weekdays,
                true,
                now,
            )
            &&& alarm_count == 0 ==> seed_alarm(
                plan.alarms@[1],
                "Tea Break"@,
                TimeOfDay { secs: 55800, nanos: 0 },
                RuleView::CustomDays(
                    seq![Weekday::Mon, Weekday::Tue, Weekday::Wed, Weekday::Thu, Weekday::Fri],
                ),
                false,
                now,
            )
            &&& forall|i: int|
                0 <= i < plan.alarms@.len() ==> (#[trigger] plan.alarms@[i]).sound_id@ == "default"@
                    && plan.alarms@[i].volume == 80 && plan.alarms@[i].snooze_minutes == 10
        },
{
    let settings = if settings_count == 0 {
        Some(Settings::default())
    } else {
        None
    };
    let mut alarms: Vec<Alarm> = Vec::new();
    if alarm_count == 0 {
        let mut wake = AlarmDraft::default();
        wake.label = String::from_str("Gentle Wake");
        let mut tea = AlarmDraft::default();
        tea.label = String::from_str("Tea Break");
        tea.time_local = match TimeOfDay::from_hms(15, 30, 0) {
            Some(t) => t,
            None => tea.time_local,
        };
        tea.repeat_rule = crate::model::RepeatRule::CustomDays(
            vec![Weekday::Mon, Weekday::Tue, Weekday::Wed, Weekday::Thu, Weekday::Fri],
        );
        tea.enabled = false;
        let first = match seeded(wake, now) {
            Ok(a) => a,
            Err(e) => return Err(e),
        };
        let second = match seeded(tea, now) {
            Ok(a) => a,
            Err(e) => return Err(e),
        };
        alarms.push(first);
        alarms.push(second);
    }
    Ok(SeedPlan { settings, alarms })
}

} // verus!
