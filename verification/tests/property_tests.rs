use stretch_break::debounce::make_debounced_idle_state;
use stretch_break::debounce::DebouncedIdleState;
use stretch_break::debounce::MAX_IDLE_SECONDS;
use stretch_break::debounce::MAX_TIMESTAMP_MILLIS;
use stretch_break::file_io::initial_idle_info;
use stretch_break::formatting::format_timedelta_timecode;
use stretch_break::formatting::format_timer_timecode;
use stretch_break::idle_monitoring::clock_reading_from_sample;
use stretch_break::idle_monitoring::idle_reading_from_sample;
use stretch_break::idle_monitoring::Clock;
use stretch_break::idle_monitoring::FixedClock;
use stretch_break::idle_monitoring::FixedIdleChecker;
use stretch_break::idle_monitoring::IdleInfo;
use stretch_break::idle_monitoring::IdleMonitor;
use stretch_break::idle_monitoring::ModeState;
use stretch_break::idle_monitoring::PresenceMode;
use stretch_break::idle_monitoring::DEFAULT_BREAK_LENGTH_SECS;
use stretch_break::idle_monitoring::DEFAULT_TIME_TO_BREAK_SECS;
use stretch_break::widget::get_widget_info;

const CURRENT_TIME: i64 = 1_700_000_000_000;

#[test]
fn round_trip_export_restore() {
    let current_time = CURRENT_TIME;
    let idle_monitor = IdleMonitor::with_state(
        FixedIdleChecker { idle_seconds: 0 },
        FixedClock { time_millis: current_time },
        IdleInfo {
            idle_since_seconds: 0,
            last_checked: current_time,
            last_mode_state: ModeState::Normal {
                progress_towards_break: 6_000,
                progress_towards_reset: 2_000,
                idle_state: DebouncedIdleState::Active {
                    active_since: current_time - 4_000,
                },
            },
            presence_mode: PresenceMode::Muted,
            reading_mode: true,
            time_to_break_secs: DEFAULT_TIME_TO_BREAK_SECS,
            break_length_secs: DEFAULT_BREAK_LENGTH_SECS,
            overrun: 0,
        },
    );
    let snapshot = idle_monitor.export_persistable_state();
    let restored = initial_idle_info(Some(snapshot), current_time);
    assert_eq!(
        restored.last_mode_state,
        ModeState::Normal {
            progress_towards_break: 6_000,
            progress_towards_reset: 2_000,
            idle_state: DebouncedIdleState::Idle {
                idle_since: current_time,
            },
        }
    );
    assert_eq!(restored.presence_mode, PresenceMode::Muted);
    assert_eq!(restored.reading_mode, true);
    assert_eq!(restored.time_to_break_secs, DEFAULT_TIME_TO_BREAK_SECS);
    assert_eq!(restored.break_length_secs, DEFAULT_BREAK_LENGTH_SECS);
}

#[test]
fn restore_starts_clean_once_reset_credit_is_full() {
    let current_time = CURRENT_TIME;
    let idle_monitor = IdleMonitor::with_state(
        FixedIdleChecker { idle_seconds: 0 },
        FixedClock { time_millis: current_time },
        IdleInfo {
            idle_since_seconds: 0,
            last_checked: current_time,
            last_mode_state: ModeState::Normal {
                progress_towards_break: 6_000,
                progress_towards_reset: DEFAULT_BREAK_LENGTH_SECS * 1000,
                idle_state: DebouncedIdleState::Idle {
                    idle_since: current_time - 95_000,
                },
            },
            presence_mode: PresenceMode::Active,
            reading_mode: false,
            time_to_break_secs: DEFAULT_TIME_TO_BREAK_SECS,
            break_length_secs: DEFAULT_BREAK_LENGTH_SECS,
            overrun: 0,
        },
    );
    let snapshot = idle_monitor.export_persistable_state();
    let restored = initial_idle_info(Some(snapshot), current_time);
    assert_eq!(
        restored.last_mode_state,
        ModeState::Normal {
            progress_towards_break: 0,
            progress_towards_reset: 0,
            idle_state: DebouncedIdleState::Active {
                active_since: current_time,
            },
        }
    );
}

#[test]
fn fresh_engine_first_tick_accrues_elapsed_time() {
    let current_time = CURRENT_TIME;
    let info = initial_idle_info(None, current_time - 1_009);
    let mut idle_monitor = IdleMonitor::with_state(
        FixedIdleChecker { idle_seconds: 0 },
        FixedClock { time_millis: current_time },
        info,
    );
    let refreshed = idle_monitor.refresh_idle_info();
    assert_eq!(
        refreshed.last_mode_state,
        ModeState::Normal {
            progress_towards_break: 1_009,
            progress_towards_reset: 0,
            idle_state: DebouncedIdleState::Active {
                active_since: current_time - 1_009,
            },
        }
    );
}

#[test]
fn trigger_break_outside_normal_is_noop() {
    let current_time = CURRENT_TIME;
    let before = IdleInfo {
        idle_since_seconds: 3,
        last_checked: current_time - 500,
        last_mode_state: ModeState::PreBreak {
            started_at: current_time - 2_000,
        },
        presence_mode: PresenceMode::Active,
        reading_mode: false,
        time_to_break_secs: DEFAULT_TIME_TO_BREAK_SECS,
        break_length_secs: DEFAULT_BREAK_LENGTH_SECS,
        overrun: 7_000,
    };
    let mut idle_monitor = IdleMonitor::with_state(
        FixedIdleChecker { idle_seconds: 3 },
        FixedClock { time_millis: current_time },
        before,
    );
    assert_eq!(idle_monitor.trigger_break(), before);
}

#[test]
fn skip_break_outside_break_is_noop() {
    let current_time = CURRENT_TIME;
    let before = IdleInfo {
        idle_since_seconds: 0,
        last_checked: current_time - 500,
        last_mode_state: ModeState::Normal {
            progress_towards_break: 6_000,
            progress_towards_reset: 2_000,
            idle_state: DebouncedIdleState::Active {
                active_since: current_time - 4_000,
            },
        },
        presence_mode: PresenceMode::Active,
        reading_mode: false,
        time_to_break_secs: DEFAULT_TIME_TO_BREAK_SECS,
        break_length_secs: DEFAULT_BREAK_LENGTH_SECS,
        overrun: 7_000,
    };
    let mut idle_monitor = IdleMonitor::with_state(
        FixedIdleChecker { idle_seconds: 0 },
        FixedClock { time_millis: current_time },
        before,
    );
    assert_eq!(idle_monitor.skip_break(), before);
}

#[test]
fn postpone_break_outside_break_is_noop() {
    let current_time = CURRENT_TIME;
    let before = IdleInfo {
        idle_since_seconds: 0,
        last_checked: current_time - 500,
        last_mode_state: ModeState::Normal {
            progress_towards_break: 6_000,
            progress_towards_reset: 2_000,
            idle_state: DebouncedIdleState::Active {
                active_since: current_time - 4_000,
            },
        },
        presence_mode: PresenceMode::Active,
        reading_mode: false,
        time_to_break_secs: DEFAULT_TIME_TO_BREAK_SECS,
        break_length_secs: DEFAULT_BREAK_LENGTH_SECS,
        overrun: 7_000,
    };
    let mut idle_monitor = IdleMonitor::with_state(
        FixedIdleChecker { idle_seconds: 0 },
        FixedClock { time_millis: current_time },
        before,
    );
    assert_eq!(idle_monitor.postpone_break(3 * 60 * 1000), before);
}

#[test]
fn postpone_by_full_interval_clears_progress() {
    let current_time = CURRENT_TIME;
    let mut idle_monitor = IdleMonitor::with_state(
        FixedIdleChecker { idle_seconds: 0 },
        FixedClock { time_millis: current_time },
        IdleInfo {
            idle_since_seconds: 0,
            last_checked: current_time - 1_000,
            last_mode_state: ModeState::Break {
                progress_towards_finish: 6_000,
                idle_state: DebouncedIdleState::Idle {
                    idle_since: current_time - 2_000,
                },
            },
            presence_mode: PresenceMode::Active,
            reading_mode: false,
            time_to_break_secs: DEFAULT_TIME_TO_BREAK_SECS,
            break_length_secs: DEFAULT_BREAK_LENGTH_SECS,
            overrun: 0,
        },
    );
    let info = idle_monitor.postpone_break(DEFAULT_TIME_TO_BREAK_SECS * 1000);
    assert_eq!(
        info.last_mode_state,
        ModeState::Normal {
            progress_towards_break: 0,
            progress_towards_reset: 0,
            idle_state: DebouncedIdleState::Idle {
                idle_since: current_time - 2_000,
            },
        }
    );
}

#[test]
fn set_break_length_clamps_break_progress() {
    let current_time = CURRENT_TIME;
    let mut idle_monitor = IdleMonitor::with_state(
        FixedIdleChecker { idle_seconds: 0 },
        FixedClock { time_millis: current_time },
        IdleInfo {
            idle_since_seconds: 0,
            last_checked: current_time,
            last_mode_state: ModeState::Break {
                progress_towards_finish: 80_000,
                idle_state: DebouncedIdleState::Idle {
                    idle_since: current_time - 2_000,
                },
            },
            presence_mode: PresenceMode::Active,
            reading_mode: false,
            time_to_break_secs: DEFAULT_TIME_TO_BREAK_SECS,
            break_length_secs: DEFAULT_BREAK_LENGTH_SECS,
            overrun: 0,
        },
    );
    idle_monitor.set_break_length(10);
    assert_eq!(
        idle_monitor.get_last_idle_info().last_mode_state,
        ModeState::Break {
            progress_towards_finish: 10_000,
            idle_state: DebouncedIdleState::Idle {
                idle_since: current_time - 2_000,
            },
        }
    );
}

#[test]
fn debounce_frame_drop_recovery() {
    let current_time = CURRENT_TIME;
    let next = make_debounced_idle_state(
        7,
        DebouncedIdleState::Active {
            active_since: current_time - 40_000,
        },
        31_000,
        current_time,
        false,
        false,
    );
    assert_eq!(
        next,
        DebouncedIdleState::Idle {
            idle_since: current_time,
        }
    );
}

#[test]
fn debounce_active_stays_active_on_zero_readings() {
    let current_time = CURRENT_TIME;
    let start = DebouncedIdleState::Active {
        active_since: current_time - 40_000,
    };
    let mut state = start;
    for step in 0..5i64 {
        state = make_debounced_idle_state(
            0,
            state,
            1_000,
            current_time + step * 1_000,
            false,
            false,
        );
    }
    assert_eq!(state, start);
}

#[test]
fn widget_hides_overrun_during_restful_break() {
    let current_time = CURRENT_TIME;
    let info = IdleInfo {
        idle_since_seconds: 10,
        last_checked: current_time,
        last_mode_state: ModeState::Break {
            progress_towards_finish: 20_000,
            idle_state: DebouncedIdleState::Idle {
                idle_since: current_time - 10_000,
            },
        },
        presence_mode: PresenceMode::Active,
        reading_mode: false,
        time_to_break_secs: DEFAULT_TIME_TO_BREAK_SECS,
        break_length_secs: DEFAULT_BREAK_LENGTH_SECS,
        overrun: 4_000,
    };
    let widget = get_widget_info(&info, None);
    assert_eq!(widget.overrun_value, String::from(""));
    assert_eq!(widget.prebreak_timer_value, String::from(""));
    assert_eq!(widget.normal_timer_value, String::from(""));
}

#[test]
fn widget_timer_empty_once_interval_is_full() {
    let current_time = CURRENT_TIME;
    let info = IdleInfo {
        idle_since_seconds: 0,
        last_checked: current_time,
        last_mode_state: ModeState::Normal {
            progress_towards_break: DEFAULT_TIME_TO_BREAK_SECS * 1000,
            progress_towards_reset: 0,
            idle_state: DebouncedIdleState::Active {
                active_since: current_time - 2_000,
            },
        },
        presence_mode: PresenceMode::Muted,
        reading_mode: false,
        time_to_break_secs: DEFAULT_TIME_TO_BREAK_SECS,
        break_length_secs: DEFAULT_BREAK_LENGTH_SECS,
        overrun: 30_000,
    };
    let widget = get_widget_info(&info, None);
    assert_eq!(widget.normal_timer_value, String::from(""));
    assert_eq!(widget.overrun_value, String::from("0:30"));
    assert_eq!(widget.snoozed_until_time, None);
}

#[test]
fn format_timedelta_zero() {
    assert_eq!(format_timedelta_timecode(0), String::from("0:00"));
}

#[test]
fn format_timer_remaining_time() {
    assert_eq!(format_timer_timecode(31_000, 1200), String::from("19:29"));
}

#[test]
fn production_clock_starts_with_defaults() {
    let mut idle_monitor = IdleMonitor::new(FixedIdleChecker { idle_seconds: 0 }, Clock, None);
    let info = idle_monitor.refresh_idle_info();
    assert_eq!(info.time_to_break_secs, DEFAULT_TIME_TO_BREAK_SECS);
    assert_eq!(info.break_length_secs, DEFAULT_BREAK_LENGTH_SECS);
    assert_eq!(info.presence_mode, PresenceMode::Active);
    assert!(matches!(info.last_mode_state, ModeState::Normal { .. }));
}

#[test]
fn idle_reading_falls_back_to_one_on_failure() {
    assert_eq!(idle_reading_from_sample(None), 1);
    assert_eq!(idle_reading_from_sample(Some(0)), 0);
    assert_eq!(idle_reading_from_sample(Some(7)), 7);
    assert_eq!(
        idle_reading_from_sample(Some(MAX_IDLE_SECONDS + 1)),
        MAX_IDLE_SECONDS
    );
}

#[test]
fn clock_reading_clamped_into_range() {
    assert_eq!(clock_reading_from_sample(-5), 0);
    assert_eq!(clock_reading_from_sample(CURRENT_TIME), CURRENT_TIME);
    assert_eq!(
        clock_reading_from_sample(MAX_TIMESTAMP_MILLIS + 1),
        MAX_TIMESTAMP_MILLIS
    );
}

#[test]
fn set_break_length_keeps_subsecond_finish_progress() {
    let current_time = CURRENT_TIME;
    let mut idle_monitor = IdleMonitor::with_state(
        FixedIdleChecker { idle_seconds: 0 },
        FixedClock { time_millis: current_time },
        IdleInfo {
            idle_since_seconds: 0,
            last_checked: current_time,
            last_mode_state: ModeState::Break {
                progress_towards_finish: 1_500,
                idle_state: DebouncedIdleState::Idle {
                    idle_since: current_time - 2_000,
                },
            },
            presence_mode: PresenceMode::Active,
            reading_mode: false,
            time_to_break_secs: DEFAULT_TIME_TO_BREAK_SECS,
            break_length_secs: DEFAULT_BREAK_LENGTH_SECS,
            overrun: 0,
        },
    );
    idle_monitor.set_break_length(2);
    assert_eq!(
        idle_monitor.get_last_idle_info().last_mode_state,
        ModeState::Break {
            progress_towards_finish: 1_500,
            idle_state: DebouncedIdleState::Idle {
                idle_since: current_time - 2_000,
            },
        }
    );
}

#[test]
fn expired_snooze_allows_prebreak_on_the_wake_tick() {
    let current_time = CURRENT_TIME;
    let mut idle_monitor = IdleMonitor::with_state(
        FixedIdleChecker { idle_seconds: 0 },
        FixedClock { time_millis: current_time },
        IdleInfo {
            idle_since_seconds: 0,
            last_checked: current_time - 1_009,
            last_mode_state: ModeState::Normal {
                progress_towards_break: DEFAULT_TIME_TO_BREAK_SECS * 1_000 - 89,
                progress_towards_reset: 0,
                idle_state: DebouncedIdleState::Active {
                    active_since: current_time - 10_000,
                },
            },
            presence_mode: PresenceMode::SnoozedUntil(current_time - 1_000),
            reading_mode: false,
            time_to_break_secs: DEFAULT_TIME_TO_BREAK_SECS,
            break_length_secs: DEFAULT_BREAK_LENGTH_SECS,
            overrun: 0,
        },
    );
    let expected_idle_info = IdleInfo {
        idle_since_seconds: 0,
        last_checked: current_time,
        last_mode_state: ModeState::PreBreak {
            started_at: current_time,
        },
        presence_mode: PresenceMode::Active,
        reading_mode: false,
        time_to_break_secs: DEFAULT_TIME_TO_BREAK_SECS,
        break_length_secs: DEFAULT_BREAK_LENGTH_SECS,
        overrun: 0,
    };
    assert_eq!(idle_monitor.refresh_idle_info(), expected_idle_info);
}
