//! What the window and the tray show: the texts, the draft made from the
//! quick-add form, the tray's state and menu.
use crate::model::{
    Alarm, AlarmDraft, AlarmState, AlarmStatus, AppSnapshot, DaemonStatus, RepeatRule, RuleView,
};
use crate::schedule::day_hm;
use crate::text::{decimal, decimal_text, join, joined};
use crate::time::{
    card_when_text, chrono_format_card_when, chrono_format_hm, day_hm_text, hm_text, weekday_abbrev,
    Instant, TimeOfDay, Weekday,
};
use vstd::prelude::*;

verus! {

/// A command the tray menu sends to the window.
#[derive(Clone, Copy, Debug, PartialEq, Eq, Structural)]
pub enum TrayCommand {
    ShowWindow,
    DismissActive,
    SnoozeActive,
}

/// What the tray shows.
#[derive(Clone, Debug)]
pub struct TrayVisualState {
    pub title: String,
    pub status: AlarmStatus,
    pub next_items: Vec<String>,
    pub has_active_alarm: bool,
}

/// One entry of the tray menu.
#[derive(Clone, Debug)]
pub enum TrayMenuEntry {
    /// A line of text that cannot be chosen.
    Label(String),
    Separator,
    /// A choice that sends a command.
    Action(String, TrayCommand),
}

impl Default for TrayVisualState {
    /// "Aurora Alarm", quiet, "No upcoming alarms", nothing active.
    fn default() -> (r: Self)
        ensures
            r.title@ == "Aurora Alarm"@,
            r.status == AlarmStatus::Quiet,
            r.next_items@.len() == 1,
            r.next_items@[0]@ == "No upcoming alarms"@,
            !r.has_active_alarm,
    {
        TrayVisualState {
            title: String::from_str("Aurora Alarm"),
            status: AlarmStatus::Quiet,
            next_items: vec![String::from_str("No upcoming alarms")],
            has_active_alarm: false,
        }
    }
}

/// What the tray shows while the daemon cannot be reached.
pub fn offline_tray_state() -> (r: TrayVisualState)
    ensures
        r.title@ == "Daemon offline"@,
        r.status == AlarmStatus::Quiet,
        r.next_items@.len() == 1,
        r.next_items@[0]@ == "Daemon not reachable"@,
        !r.has_active_alarm,
{
    TrayVisualState {
        title: String::from_str("Daemon offline"),
        status: AlarmStatus::Quiet,
        next_items: vec![String::from_str("Daemon not reachable")],
        has_active_alarm: false,
    }
}

/// The name shown for an alarm state.
pub open spec fn state_text(state: AlarmState) -> Seq<char> {
    match state {
        AlarmState::Idle => "Idle"@,
        AlarmState::Scheduled => "Scheduled"@,
        AlarmState::Ringing => "Ringing"@,
        AlarmState::Snoozed => "Snoozed"@,
        AlarmState::Missed => "Missed"@,
    }
}

/// The name shown for an alarm state.
pub fn state_copy(state: AlarmState) -> (r: &'static str)
    ensures
        r@ == state_text(state),
{
    match state {
        AlarmState::Idle => "Idle",
        AlarmState::Scheduled => "Scheduled",
        AlarmState::Ringing => "Ringing",
        AlarmState::Snoozed => "Snoozed",
        AlarmState::Missed => "Missed",
    }
}

/// The short English name of a weekday ("Mon" ... "Sun").
pub fn weekday_name(day: Weekday) -> (r: &'static str)
    ensures
        r@ == weekday_abbrev(day.index()),
{
    proof {
        reveal_strlit("Mon");
        reveal_strlit("Tue");
        reveal_strlit("Wed");
        reveal_strlit("Thu");
        reveal_strlit("Fri");
        reveal_strlit("Sat");
        reveal_strlit("Sun");
    }
    match day {
        Weekday::Mon => "Mon",
        Weekday::Tue => "Tue",
        Weekday::Wed => "Wed",
        Weekday::Thu => "Thu",
        Weekday::Fri => "Fri",
        Weekday::Sat => "Sat",
        Weekday::Sun => "Sun",
    }
}

/// How a repeat rule is described: "Once", "Weekdays", "Every day" for all
/// seven days, otherwise the days' short names separated by ", ".
pub open spec fn repeat_text(rule: RuleView) -> Seq<char> {
    match rule {
        RuleView::Once => "Once"@,
        RuleView::Weekdays => "Weekdays"@,
        RuleView::CustomDays(days) => if days.len() == 7 {
            "Every day"@
        } else {
            joined(days.map_values(|d: Weekday| weekday_abbrev(d.index())), ", "@)
        },
    }
}

/// How a repeat rule is described.
pub fn repeat_copy(rule: &RepeatRule) -> (r: String)
    ensures
        r@ == repeat_text(rule@),
        rule@ matches RuleView::CustomDays(days) ==> (r@ == "Every day"@ <==> days.len() == 7),
        rule@ matches RuleView::CustomDays(days) ==> (days.len() != 7 ==> r@ == joined(
            days.map_values(|d: Weekday| weekday_abbrev(d.index())),
            ", "@,
        )),
{
    proof {
        if let RuleView::CustomDays(days) = rule@ {
            crate::laws::law_every_day_only_for_seven_days(days);
        }
    }
    match rule {
        RepeatRule::Once => String::from_str("Once"),
        RepeatRule::Weekdays => String::from_str("Weekdays"),
        RepeatRule::CustomDays(days) => {
            if days.len() == 7 {
                String::from_str("Every day")
            } else {
                let mut names: Vec<String> = Vec::new();
                let mut i: usize = 0;
                while i < days.len()
                    invariant
                        i <= days.len(),
                        names@.len() == i,
                        names@.map_values(|t: String| t@) == days@.subrange(0, i as int).map_values(
                            |d: Weekday| weekday_abbrev(d.index()),
                        ),
                    decreases days.len() - i,
                {
                    let ghost before = names@;
                    let name = String::from_str(weekday_name(days[i]));
                    names.push(name);
                    assert(names@ == before.push(name));
                    i = i + 1;
                    let ghost nv = names@.map_values(|t: String| t@);
                    let ghost bv = before.map_values(|t: String| t@);
                    assert forall|j: int| 0 <= j < i - 1 implies #[trigger] nv[j] == bv[j] by {
                        assert(names@[j] == before[j]);
                    }
                    assert(names@.map_values(|t: String| t@) =~= days@.subrange(0, i as int).map_values(
                        |d: Weekday| weekday_abbrev(d.index()),
                    ));
                }
                assert(days@.subrange(0, days.len() as int) == days@);
                join(&names, ", ")
            }
        },
    }
}

/// `v` limited to `lo..=hi`.
pub open spec fn clamped(v: i32, lo: i32, hi: i32) -> i32 {
    if v < lo {
        lo
    } else if v > hi {
        hi
    } else {
        v
    }
}

/// The repeat rule chosen in the quick-add list: 0 is "Once", 2 is "Every
/// day", anything else "Weekdays".
pub open spec fn chosen_rule(index: u32) -> RuleView {
    if index == 0 {
        RuleView::Once
    } else if index == 2 {
        RuleView::CustomDays(
            seq![
                Weekday::Mon,
                Weekday::Tue,
                Weekday::Wed,
                Weekday::Thu,
                Weekday::Fri,
                Weekday::Sat,
                Weekday::Sun,
            ],
        )
    } else {
        RuleView::Weekdays
    }
}

/// The draft the quick-add form describes: its label ("Aurora Alarm" when
/// empty), the hour and minute (brought into 0..=23 and 0..=59) with zero
/// seconds, the chosen repeat rule, the default sound at volume 80, enabled,
/// with 10-minute snoozes.
pub fn draft_from_form(label_text: &str, hour: i32, minute: i32, repeat_index: u32) -> (r:
    AlarmDraft)
    ensures
        r.label@ == (if label_text@.len() == 0 {
            "Aurora Alarm"@
        } else {
            label_text@
        }),
        r.time_local == (TimeOfDay {
            secs: (clamped(hour, 0, 23) * 3600 + clamped(minute, 0, 59) * 60) as u32,
            nanos: 0,
        }),
        r.repeat_rule@ == chosen_rule(repeat_index),
        r.sound_id@ == "default"@,
        r.volume == 80,
        r.enabled,
        r.snooze_minutes == 10,
{
    let h: i32 = if hour < 0 {
        0
    } else if hour > 23 {
        23
    } else {
        hour
    };
    let m: i32 = if minute < 0 {
        0
    } else if minute > 59 {
        59
    } else {
        minute
    };
    let repeat_rule = if repeat_index == 0 {
        RepeatRule::Once
    } else if repeat_index == 2 {
        RepeatRule::CustomDays(
            vec![
                Weekday::Mon,
                Weekday::Tue,
                Weekday::Wed,
                Weekday::Thu,
                Weekday::Fri,
                Weekday::Sat,
                Weekday::Sun,
            ],
        )
    } else {
        RepeatRule::Weekdays
    };
    let time_local = match TimeOfDay::from_hms(h as u32, m as u32, 0) {
        Some(t) => t,
        None => TimeOfDay { secs: 0, nanos: 0 },
    };
    let label = if label_text.is_empty() {
        String::from_str("Aurora Alarm")
    } else {
        String::from_str(label_text)
    };
    AlarmDraft {
        label,
        time_local,
        repeat_rule,
        sound_id: String::from_str("default"),
        volume: 80,
        enabled: true,
        snooze_minutes: 10,
    }
}

/// The line about the next alarm: "Next alarm at <%a %H:%M>", or "No alarm
/// scheduled".
pub open spec fn next_text(next: Option<Instant>) -> Seq<char> {
    match next {
        Some(t) => "Next alarm at "@ + day_hm_text(t),
        None => "No alarm scheduled"@,
    }
}

/// The line about the next alarm.
pub fn next_copy(status: &DaemonStatus) -> (r: String)
    requires
        status.next_alarm_at matches Some(t) ==> t.valid(),
    ensures
        r@ == next_text(status.next_alarm_at),
{
    match status.next_alarm_at {
        Some(t) => String::from_str("Next alarm at ").concat(day_hm(t).as_str()),
        None => String::from_str("No alarm scheduled"),
    }
}

/// The headline: "<label> is <state>" for the active alarm, otherwise the
/// line about the next alarm.
pub fn active_copy(status: &DaemonStatus, next_copy: &str) -> (r: String)
    ensures
        r@ == (match status.active_alarm {
            Some(a) => a.label@ + " is "@ + state_text(a.state),
            None => next_copy@,
        }),
{
    match &status.active_alarm {
        Some(a) => a.label.clone().concat(" is ").concat(state_copy(a.state)),
        None => String::from_str(next_copy),
    }
}

/// The capabilities the daemon reports missing, in this order:
/// "desktop notifications unavailable", "audio output unavailable".
pub fn degraded_capabilities(snapshot: &AppSnapshot) -> (r: Vec<String>)
    ensures
        r@.map_values(|t: String| t@) == (if snapshot.status.notifications_available {
            Seq::<Seq<char>>::empty()
        } else {
            seq!["desktop notifications unavailable"@]
        }) + (if snapshot.status.audio_available {
            Seq::<Seq<char>>::empty()
        } else {
            seq!["audio output unavailable"@]
        }),
{
    let mut degraded: Vec<String> = Vec::new();
    if !snapshot.status.notifications_available {
        degraded.push(String::from_str("desktop notifications unavailable"));
    }
    if !snapshot.status.audio_available {
        degraded.push(String::from_str("audio output unavailable"));
    }
    assert(degraded@.map_values(|t: String| t@) =~= (if snapshot.status.notifications_available {
        Seq::<Seq<char>>::empty()
    } else {
        seq!["desktop notifications unavailable"@]
    }) + (if snapshot.status.audio_available {
        Seq::<Seq<char>>::empty()
    } else {
        seq!["audio output unavailable"@]
    }));
    degraded
}

/// The banner: "<n> alarms loaded. <next line>", followed by
/// " Degraded: <missing capabilities, separated by ', '>." when some are missing.
pub fn build_banner_text(alarm_count: usize, next_copy: &str, degraded: &Vec<String>) -> (r: String)
    ensures
        r@ == decimal_text(alarm_count as nat) + " alarms loaded. "@ + next_copy@ + (if degraded@.len()
            == 0 {
            Seq::<char>::empty()
        } else {
            " Degraded: "@ + joined(degraded@.map_values(|t: String| t@), ", "@) + "."@
        }),
{
    let base = decimal(alarm_count).concat(" alarms loaded. ").concat(next_copy);
    if degraded.len() == 0 {
        assert(base@ == base@ + Seq::<char>::empty());
        base
    } else {
        let list = join(degraded, ", ");
        base.concat(" Degraded: ").concat(list.as_str()).concat(".")
    }
}

/// The snooze button's label: "Snooze <minutes>m".
pub fn snooze_button_label(minutes: u16) -> (r: String)
    ensures
        r@ == "Snooze "@ + decimal_text(minutes as nat) + "m"@,
{
    String::from_str("Snooze ").concat(decimal(minutes as usize).as_str()).concat("m")
}

/// The toggle button's label on an alarm card.
pub fn toggle_button_label(enabled: bool) -> (r: &'static str)
    ensures
        r@ == (if enabled {
            "Disable"@
        } else {
            "Enable"@
        }),
{
    if enabled {
        "Disable"
    } else {
        "Enable"
    }
}

/// The alarm card's time, as `%H:%M`.
pub fn card_time(alarm: &Alarm) -> (r: String)
    requires
        alarm.time_local.wf(),
    ensures
        r@ == hm_text(alarm.time_local.secs as int),
{
    chrono_format_hm(alarm.time_local)
}

/// The alarm card's schedule line from its parts: "<repeat> • <when>", with
/// "Not scheduled" when there is no trigger time.
pub fn card_line_from(repeat: &str, when: Option<String>) -> (r: String)
    ensures
        r@ == repeat@ + " • "@ + (match when {
            Some(w) => w@,
            None => "Not scheduled"@,
        }),
{
    let tail = match when {
        Some(w) => w,
        None => String::from_str("Not scheduled"),
    };
    String::from_str(repeat).concat(" • ").concat(tail.as_str())
}

/// The alarm card's schedule line: how the alarm repeats, and its trigger
/// time as `%a %d %b %H:%M` (or "Not scheduled").
pub fn card_next_line(alarm: &Alarm) -> (r: String)
    requires
        alarm.next_trigger_at matches Some(t) ==> t.valid(),
    ensures
        r@ == repeat_text(alarm.repeat_rule@) + " • "@ + (match alarm.next_trigger_at {
            Some(t) => card_when_text(t.secs, t.nanos, t.offset),
            None => "Not scheduled"@,
        }),
{
    let repeat = repeat_copy(&alarm.repeat_rule);
    let when = match alarm.next_trigger_at {
        Some(t) => Some(chrono_format_card_when(t)),
        None => None,
    };
    card_line_from(repeat.as_str(), when)
}

/// The tray line for an alarm with a trigger time: "<label> · <%a %H:%M>".
pub open spec fn tray_item_text(label: Seq<char>, t: Instant) -> Seq<char> {
    label + " · "@ + day_hm_text(t)
}

/// The tray lines of the alarms that have a trigger time, in order.
pub open spec fn tray_lines(alarms: Seq<Alarm>) -> Seq<Seq<char>>
    decreases alarms.len(),
{
    if alarms.len() == 0 {
        Seq::empty()
    } else {
        let rest = tray_lines(alarms.drop_last());
        match alarms.last().next_trigger_at {
            Some(t) => rest.push(tray_item_text(alarms.last().label@, t)),
            None => rest,
        }
    }
}

proof fn lemma_tray_lines_prefix(alarms: Seq<Alarm>, n: int)
    requires
        0 <= n <= alarms.len(),
    ensures
        tray_lines(alarms.subrange(0, n)).len() <= tray_lines(alarms).len(),
        tray_lines(alarms).subrange(0, tray_lines(alarms.subrange(0, n)).len() as int)
            == tray_lines(alarms.subrange(0, n)),
    decreases alarms.len() - n,
{
    if n < alarms.len() {
        lemma_tray_lines_prefix(alarms, n + 1);
        assert(alarms.subrange(0, n + 1).drop_last() == alarms.subrange(0, n));
        let short = tray_lines(alarms.subrange(0, n));
        let long = tray_lines(alarms.subrange(0, n + 1));
        let all = tray_lines(alarms);
        assert(long.subrange(0, short.len() as int) == short);
        assert(all.subrange(0, short.len() as int) == long.subrange(0, short.len() as int));
    } else {
        assert(alarms.subrange(0, n) == alarms);
    }
}

/// How many lines of upcoming alarms the tray shows.
pub const TRAY_LINES: usize = 3;

/// The tray's state for the window's alarm list (in display order) and the
/// daemon's status: the line about the next alarm as title, the status, the
/// first three alarms with a trigger time, and whether an alarm is active.
pub fn tray_state_for(alarms: &Vec<Alarm>, status: &DaemonStatus) -> (r: TrayVisualState)
    requires
        status.next_alarm_at matches Some(t) ==> t.valid(),
        forall|i: int| 0 <= i < alarms@.len() ==> (#[trigger] alarms@[i].next_trigger_at matches Some(
            t,
        ) ==> t.valid()),
    ensures
        r.title@ == next_text(status.next_alarm_at),
        r.status == status.status,
        r.next_items@.map_values(|t: String| t@) == tray_lines(alarms@).take(
            if tray_lines(alarms@).len() < 3 { tray_lines(alarms@).len() as int } else { 3 },
        ),
        r.has_active_alarm == status.active_alarm is Some,
{
    let mut items: Vec<String> = Vec::new();
    let mut i: usize = 0;
    while i < alarms.len() && items.len() < TRAY_LINES
        invariant
            i <= alarms.len(),
            items@.len() <= TRAY_LINES,
            items@.map_values(|t: String| t@) == tray_lines(alarms@.subrange(0, i as int)),
            forall|k: int| 0 <= k < alarms@.len() ==> (#[trigger] alarms@[k].next_trigger_at matches Some(
                t,
            ) ==> t.valid()),
        decreases alarms.len() - i,
    {
        let a = &alarms[i];
        assert(alarms@.subrange(0, i + 1).drop_last() == alarms@.subrange(0, i as int));
        assert(alarms@.subrange(0, i + 1).last() == alarms@[i as int]);
        if let Some(t) = a.next_trigger_at {
            let line = a.label.clone().concat(" · ").concat(day_hm(t).as_str());
            items.push(line);
            assert(items@.map_values(|t: String| t@) =~= tray_lines(alarms@.subrange(0, i + 1)));
        }
        i = i + 1;
    }
    proof {
        lemma_tray_lines_prefix(alarms@, i as int);
        let all = tray_lines(alarms@);
        let got = tray_lines(alarms@.subrange(0, i as int));
        if i == alarms.len() {
            assert(alarms@.subrange(0, i as int) == alarms@);
        }
        assert(items@.map_values(|t: String| t@) =~= all.take(
            if all.len() < 3 { all.len() as int } else { 3 },
        ));
    }
    TrayVisualState {
        title: next_copy(status),
        status: status.status,
        next_items: items,
        has_active_alarm: status.active_alarm.is_some(),
    }
}

/// The tray icon for a status.
pub fn tray_icon_name(status: AlarmStatus) -> (r: &'static str)
    ensures
        r@ == (match status {
            AlarmStatus::Ringing => "alarm-symbolic"@,
            AlarmStatus::Snoozed => "appointment-soon-symbolic"@,
            AlarmStatus::Upcoming => "appointment-new-symbolic"@,
            AlarmStatus::Quiet => "preferences-system-time-symbolic"@,
        }),
{
    match status {
        AlarmStatus::Ringing => "alarm-symbolic",
        AlarmStatus::Snoozed => "appointment-soon-symbolic",
        AlarmStatus::Upcoming => "appointment-new-symbolic",
        AlarmStatus::Quiet => "preferences-system-time-symbolic",
    }
}

/// The tray asks for attention only while an alarm rings.
pub fn tray_needs_attention(status: AlarmStatus) -> (r: bool)
    ensures
        r == (status == AlarmStatus::Ringing),
{
    match status {
        AlarmStatus::Ringing => true,
        _ => false,
    }
}

/// The tray menu's entries as mathematical values.
pub enum MenuView {
    Label(Seq<char>),
    Separator,
    Action(Seq<char>, TrayCommand),
}

pub open spec fn menu_view(e: TrayMenuEntry) -> MenuView {
    match e {
        TrayMenuEntry::Label(s) => MenuView::Label(s@),
        TrayMenuEntry::Separator => MenuView::Separator,
        TrayMenuEntry::Action(s, c) => MenuView::Action(s@, c),
    }
}

/// The tray menu: the title and a separator, the upcoming-alarm lines and a
/// separator, "Dismiss Active" and "Snooze 10 Minutes" while an alarm is
/// active, and "Open Aurora Alarm".
pub open spec fn menu_entries(state: TrayVisualState) -> Seq<MenuView> {
    seq![MenuView::Label(state.title@), MenuView::Separator] + state.next_items@.map_values(
        |t: String| MenuView::Label(t@),
    ) + seq![MenuView::Separator] + (if state.has_active_alarm {
        seq![
            MenuView::Action("Dismiss Active"@, TrayCommand::DismissActive),
            MenuView::Action("Snooze 10 Minutes"@, TrayCommand::SnoozeActive),
        ]
    } else {
        Seq::empty()
    }) + seq![MenuView::Action("Open Aurora Alarm"@, TrayCommand::ShowWindow)]
}

/// The tray menu for a tray state.
pub fn tray_menu(state: &TrayVisualState) -> (r: Vec<TrayMenuEntry>)
    ensures
        r@.map_values(|e: TrayMenuEntry| menu_view(e)) == menu_entries(*state),
{
    let mut items: Vec<TrayMenuEntry> = Vec::new();
    items.push(TrayMenuEntry::Label(state.title.clone()));
    items.push(TrayMenuEntry::Separator);
    let ghost head = items@.map_values(|e: TrayMenuEntry| menu_view(e));
    let mut i: usize = 0;
    while i < state.next_items.len()
        invariant
            i <= state.next_items.len(),
            items@.len() == i + 2,
            head == seq![MenuView::Label(state.title@), MenuView::Separator],
            items@.map_values(|e: TrayMenuEntry| menu_view(e)) == head + state.next_items@.subrange(
                0,
                i as int,
            ).map_values(|t: String| MenuView::Label(t@)),
        decreases state.next_items.len() - i,
    {
        let ghost before = items@;
        items.push(TrayMenuEntry::Label(state.next_items[i].clone()));
        i = i + 1;
        let ghost nv = items@.map_values(|e: TrayMenuEntry| menu_view(e));
        let ghost bv = before.map_values(|e: TrayMenuEntry| menu_view(e));
        assert forall|j: int| 0 <= j < before.len() implies #[trigger] nv[j] == bv[j] by {
            assert(items@[j] == before[j]);
        }
        assert(items@.map_values(|e: TrayMenuEntry| menu_view(e)) =~= head + state.next_items@.subrange(
            0,
            i as int,
        ).map_values(|t: String| MenuView::Label(t@)));
    }
    assert(state.next_items@.subrange(0, state.next_items.len() as int) == state.next_items@);
    let ghost mid = items@.map_values(|e: TrayMenuEntry| menu_view(e));
    items.push(TrayMenuEntry::Separator);
    if state.has_active_alarm {
        items.push(TrayMenuEntry::Action(String::from_str("Dismiss Active"), TrayCommand::DismissActive));
        items.push(TrayMenuEntry::Action(String::from_str("Snooze 10 Minutes"), TrayCommand::SnoozeActive));
    }
    items.push(TrayMenuEntry::Action(String::from_str("Open Aurora Alarm"), TrayCommand::ShowWindow));
    assert(items@.map_values(|e: TrayMenuEntry| menu_view(e)) =~= menu_entries(*state));
    items
}

} // verus!
