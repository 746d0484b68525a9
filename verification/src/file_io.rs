//! The persisted-state shape and the restore policy.
//!
//! Only the shape of the persisted record and the decision whether restored
//! progress is still worth keeping live here; reading and writing the record
//! on disk is a collaborator's job.

use vstd::prelude::*;

use crate::debounce::DebouncedIdleState;
use crate::debounce::MAX_TIMESTAMP_MILLIS;
use crate::idle_monitoring::IdleInfo;
use crate::idle_monitoring::ModeState;
use crate::idle_monitoring::PresenceMode;
use crate::idle_monitoring::DEFAULT_TIME_TO_BREAK_SECS;
use crate::idle_monitoring::DEFAULT_BREAK_LENGTH_SECS;
use crate::idle_monitoring::MAX_CONFIG_SECONDS;
use crate::idle_monitoring::min_cap;
use crate::idle_monitoring::spec_export;

verus! {

/// The subset of the engine's state needed to resume across restarts.
/// Durations and the timestamp are milliseconds; the configured lengths are
/// whole seconds.
#[derive(Clone, Copy, Debug, PartialEq, Eq, Structural)]
pub struct PersistableState {
    pub progress_towards_break: i64,
    pub progress_towards_reset: i64,
    pub last_checked: i64,
    pub presence_mode: PresenceMode,
    pub reading_mode: bool,
    pub time_to_break_secs: i64,
    pub break_length_secs: i64,
}

impl PersistableState {
    /// A record read back from storage is used only when it is well-formed:
    /// in-range settings and progress counters between zero and their
    /// ceilings. Anything else is treated as "no snapshot".
    pub open spec fn wf(&self) -> bool {
        &&& 0 <= self.last_checked <= MAX_TIMESTAMP_MILLIS
        &&& 0 <= self.time_to_break_secs <= MAX_CONFIG_SECONDS
        &&& 0 <= self.break_length_secs <= MAX_CONFIG_SECONDS
        &&& 0 <= self.progress_towards_break <= self.time_to_break_secs * 1000
        &&& 0 <= self.progress_towards_reset <= self.break_length_secs * 1000
    }

    /// Executable well-formedness check, for callers that obtained a record
    /// from storage and must decide whether to trust it.
    pub fn is_well_formed(&self) -> (well_formed: bool)
        ensures
            well_formed == self.wf(),
    {
        0 <= self.last_checked && self.last_checked <= MAX_TIMESTAMP_MILLIS
            && 0 <= self.time_to_break_secs && self.time_to_break_secs <= MAX_CONFIG_SECONDS
            && 0 <= self.break_length_secs && self.break_length_secs <= MAX_CONFIG_SECONDS
            && 0 <= self.progress_towards_break
            && self.progress_towards_break <= self.time_to_break_secs * 1000
            && 0 <= self.progress_towards_reset
            && self.progress_towards_reset <= self.break_length_secs * 1000
    }
}

/// The engine's state at startup, given an optional restored record and the
/// current time.
///
/// Timers are reused only when the time away plus the restored reset
/// progress still falls short of a full break: whoever has been gone longer
/// than a break would have lasted gets a clean slate. Presence mode, reading
/// mode and the two configured lengths carry over verbatim either way.
pub open spec fn spec_initial_info(restored: Option<PersistableState>, now: i64) -> IdleInfo {
    match restored {
        Option::None => IdleInfo {
            idle_since_seconds: 0,
            last_checked: now,
            last_mode_state: ModeState::Normal {
                progress_towards_break: 0,
                progress_towards_reset: 0,
                idle_state: DebouncedIdleState::Active { active_since: now },
            },
            reading_mode: false,
            presence_mode: PresenceMode::Active,
            time_to_break_secs: DEFAULT_TIME_TO_BREAK_SECS,
            break_length_secs: DEFAULT_BREAK_LENGTH_SECS,
            overrun: 0,
        },
        Option::Some(state) => {
            let elapsed = if now >= state.last_checked {
                now - state.last_checked
            } else {
                0
            };
            let use_restored_timers = elapsed + state.progress_towards_reset
                < state.break_length_secs * 1000;
            IdleInfo {
                idle_since_seconds: 0,
                last_checked: now,
                last_mode_state: ModeState::Normal {
                    progress_towards_break: if use_restored_timers {
                        state.progress_towards_break
                    } else {
                        0
                    },
                    progress_towards_reset: if use_restored_timers {
                        min_cap(
                            state.break_length_secs * 1000,
                            state.progress_towards_reset + elapsed,
                        ) as i64
                    } else {
                        0
                    },
                    idle_state: if use_restored_timers {
                        DebouncedIdleState::Idle { idle_since: state.last_checked }
                    } else {
                        DebouncedIdleState::Active { active_since: now }
                    },
                },
                reading_mode: state.reading_mode,
                presence_mode: state.presence_mode,
                time_to_break_secs: state.time_to_break_secs,
                break_length_secs: state.break_length_secs,
                overrun: 0,
            }
        },
    }
}

/// Executable restore policy; see [`spec_initial_info`].
pub fn initial_idle_info(restored: Option<PersistableState>, now: i64) -> (info: IdleInfo)
    requires
        0 <= now <= MAX_TIMESTAMP_MILLIS,
        restored matches Some(state) ==> state.wf(),
    ensures
        info == spec_initial_info(restored, now),
        info.wf(),
{
    match restored {
        Option::None => IdleInfo {
            idle_since_seconds: 0,
            last_checked: now,
            last_mode_state: ModeState::Normal {
                progress_towards_break: 0,
                progress_towards_reset: 0,
                idle_state: DebouncedIdleState::Active { active_since: now },
            },
            reading_mode: false,
            presence_mode: PresenceMode::Active,
            time_to_break_secs: DEFAULT_TIME_TO_BREAK_SECS,
            break_length_secs: DEFAULT_BREAK_LENGTH_SECS,
            overrun: 0,
        },
        Option::Some(state) => {
            let elapsed = if now >= state.last_checked {
                now - state.last_checked
            } else {
                0
            };
            let use_restored_timers = elapsed + state.progress_towards_reset
                < state.break_length_secs * 1000;
            IdleInfo {
                idle_since_seconds: 0,
                last_checked: now,
                last_mode_state: ModeState::Normal {
                    progress_towards_break: if use_restored_timers {
                        state.progress_towards_break
                    } else {
                        0
                    },
                    progress_towards_reset: if use_restored_timers {
                        let grown = state.progress_towards_reset + elapsed;
                        let cap = state.break_length_secs * 1000;
                        if cap <= grown {
                            cap
                        } else {
                            grown
                        }
                    } else {
                        0
                    },
                    idle_state: if use_restored_timers {
                        DebouncedIdleState::Idle { idle_since: state.last_checked }
                    } else {
                        DebouncedIdleState::Active { active_since: now }
                    },
                },
                reading_mode: state.reading_mode,
                presence_mode: state.presence_mode,
                time_to_break_secs: state.time_to_break_secs,
                break_length_secs: state.break_length_secs,
                overrun: 0,
            }
        },
    }
}

/// Round trip: exporting a snapshot and restoring it immediately, with no
/// time elapsed, reproduces the progress counters, the presence mode and the
/// reading mode. The one exception is a Normal-mode snapshot whose reset
/// counter has already earned a full reset: there the restore policy
/// deliberately starts from a clean slate, so that case is left out here.
pub proof fn lemma_export_restore_round_trip(info: IdleInfo)
    requires
        info.wf(),
        info.last_mode_state matches ModeState::Normal { progress_towards_reset, .. }
            ==> progress_towards_reset < info.break_length_secs * 1000,
    ensures
        ({
            let snapshot = spec_export(info);
            let restored = spec_initial_info(Some(snapshot), snapshot.last_checked);
            &&& restored.last_mode_state matches ModeState::Normal {
                progress_towards_break,
                progress_towards_reset,
                ..
            } && progress_towards_break == snapshot.progress_towards_break
                && progress_towards_reset == snapshot.progress_towards_reset
            &&& restored.presence_mode == info.presence_mode
            &&& restored.reading_mode == info.reading_mode
            &&& restored.time_to_break_secs == info.time_to_break_secs
            &&& restored.break_length_secs == info.break_length_secs
        }),
{
}

} // verus!
