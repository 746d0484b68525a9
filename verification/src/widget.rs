//! The status record handed to desktop widgets.
//!
//! Everything here is computed from the aggregate snapshot; rendering the
//! snooze deadline as local wall-clock text depends on the machine's time
//! zone, so that label is handed in by the caller.

use vstd::prelude::*;

use crate::idle_monitoring::IdleInfo;
use crate::idle_monitoring::ModeState;
use crate::idle_monitoring::PresenceMode;
use crate::formatting::format_timedelta_timecode;
use crate::formatting::format_timer_timecode;
use crate::formatting::spec_timecode;

verus! {

/// Status data for desktop widgets: the running timers as timecodes, plus
/// the presence and reading flags.
#[derive(Debug, PartialEq)]
pub struct WidgetInfo {
    pub normal_timer_value: String,
    pub prebreak_timer_value: String,
    pub overrun_value: String,
    pub presence_mode: PresenceMode,
    pub snoozed_until_time: Option<String>,
    pub reading_mode: bool,
}

/// The widget's countdown to the next break: the time left on the Normal
/// timer, or empty outside Normal mode and once the timer has filled up.
pub open spec fn spec_normal_timer_label(info: IdleInfo) -> Seq<char> {
    match info.last_mode_state {
        ModeState::Normal { progress_towards_break, .. } => {
            if progress_towards_break < info.time_to_break_secs * 1000 {
                spec_timecode(info.time_to_break_secs * 1000 - progress_towards_break)
            } else {
                Seq::<char>::empty()
            }
        },
        _ => Seq::<char>::empty(),
    }
}

/// The widget's overdue label: the accumulated overrun as a timecode, or
/// empty while there is no overrun, and empty during a break that the user
/// is actually taking.
pub open spec fn spec_overrun_label(info: IdleInfo) -> Seq<char> {
    if info.overrun == 0 {
        Seq::<char>::empty()
    } else {
        match info.last_mode_state {
            ModeState::Break { idle_state, .. } => {
                if !idle_state.spec_is_user_active() {
                    Seq::<char>::empty()
                } else {
                    spec_timecode(info.overrun as int)
                }
            },
            _ => spec_timecode(info.overrun as int),
        }
    }
}

/// The widget status for a snapshot. `snoozed_until_time` is the snooze
/// deadline already rendered as local wall-clock text; it is used only while
/// the presence mode actually is a snooze.
pub fn get_widget_info(idle_info: &IdleInfo, snoozed_until_time: Option<String>) -> (widget:
    WidgetInfo)
    requires
        idle_info.wf(),
    ensures
        widget.normal_timer_value@ == spec_normal_timer_label(*idle_info),
        widget.prebreak_timer_value@ == spec_overrun_label(*idle_info),
        widget.overrun_value@ == spec_overrun_label(*idle_info),
        widget.presence_mode == idle_info.presence_mode,
        widget.reading_mode == idle_info.reading_mode,
        idle_info.presence_mode matches PresenceMode::SnoozedUntil(_) ==> widget.snoozed_until_time
            == snoozed_until_time,
        !(idle_info.presence_mode matches PresenceMode::SnoozedUntil(_))
            ==> widget.snoozed_until_time is None,
{
    let overrun_value = if idle_info.overrun == 0 {
        String::new()
    } else {
        match idle_info.last_mode_state {
            ModeState::Break { idle_state, .. } => {
                if !idle_state.is_user_active() {
                    String::new()
                } else {
                    format_timedelta_timecode(idle_info.overrun)
                }
            },
            _ => format_timedelta_timecode(idle_info.overrun),
        }
    };
    let normal_timer_value = match idle_info.last_mode_state {
        ModeState::Normal { progress_towards_break, .. } if progress_towards_break
            < idle_info.time_to_break_secs * 1000 => {
            format_timer_timecode(progress_towards_break, idle_info.time_to_break_secs)
        },
        _ => String::new(),
    };
    WidgetInfo {
        normal_timer_value,
        prebreak_timer_value: overrun_value.clone(),
        overrun_value,
        presence_mode: idle_info.presence_mode,
        snoozed_until_time: match idle_info.presence_mode {
            PresenceMode::Active => None,
            PresenceMode::SnoozedUntil(_) => snoozed_until_time,
            PresenceMode::Muted => None,
        },
        reading_mode: idle_info.reading_mode,
    }
}

} // verus!
