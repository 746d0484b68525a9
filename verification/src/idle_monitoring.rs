//! The break-timing engine: mode state machine and aggregate snapshot.
//!
//! The engine owns a Normal -> PreBreak -> Break -> Normal cycle driven once
//! per tick by the elapsed wall-clock time and a debounced activity signal.
//! Timestamps are milliseconds since the Unix epoch; durations and progress
//! counters are milliseconds as well; the two configured lengths are kept in
//! whole seconds, as they are configured.

use vstd::prelude::*;

use crate::file_io::PersistableState;
use crate::file_io::initial_idle_info;
use crate::file_io::spec_initial_info;
use crate::debounce::DebouncedIdleState;
use crate::debounce::spec_debounced;
use crate::debounce::make_debounced_idle_state;
use crate::debounce::FRAME_DROP_CUTOFF_POINT_SECS;
use crate::debounce::MAX_TIMESTAMP_MILLIS;
use crate::debounce::MAX_IDLE_SECONDS;

verus! {

pub const DEFAULT_TIME_TO_BREAK_SECS: i64 = 20 * 60;

pub const DEFAULT_BREAK_LENGTH_SECS: i64 = 90;

/// Seconds the live idle reading must reach while waiting in PreBreak before
/// the break formally starts (hands and mouse released continuously).
pub const REQUIRED_PREBREAK_IDLE_STREAK_SECONDS: u64 = 5;

/// Largest configurable break interval or break length, in seconds.
pub const MAX_CONFIG_SECONDS: i64 = 1_000_000_000;

/// The engine's mode: counting towards a break, waiting for the user to let
/// go before a break, or in a break.
#[derive(Clone, Copy, Debug, PartialEq, Eq, Structural)]
pub enum ModeState {
    Normal {
        progress_towards_break: i64,
        progress_towards_reset: i64,
        idle_state: DebouncedIdleState,
    },
    PreBreak { started_at: i64 },
    Break { progress_towards_finish: i64, idle_state: DebouncedIdleState },
}

/// Whether break prompting is currently active, muted indefinitely, or
/// snoozed until a timestamp.
#[derive(Clone, Copy, Debug, PartialEq, Eq, Structural)]
pub enum PresenceMode {
    Active,
    SnoozedUntil(i64),
    Muted,
}

/// The aggregate snapshot: everything the engine knows after a tick.
#[derive(Clone, Copy, Debug, PartialEq, Eq, Structural)]
pub struct IdleInfo {
    pub idle_since_seconds: u64,
    pub last_checked: i64,
    pub last_mode_state: ModeState,
    pub reading_mode: bool,
    pub presence_mode: PresenceMode,
    pub time_to_break_secs: i64,
    pub break_length_secs: i64,
    pub overrun: i64,
}

impl IdleInfo {
    /// Well-formedness: the clock reading and the configured lengths are in
    /// the engine's working ranges, every progress counter sits between zero
    /// and its ceiling, and the overrun accumulator cannot outgrow the time
    /// that has passed on the clock.
    pub open spec fn wf(&self) -> bool {
        &&& 0 <= self.last_checked <= MAX_TIMESTAMP_MILLIS
        &&& 0 <= self.time_to_break_secs <= MAX_CONFIG_SECONDS
        &&& 0 <= self.break_length_secs <= MAX_CONFIG_SECONDS
        &&& 0 <= self.overrun <= self.last_checked + MAX_TIMESTAMP_MILLIS
        &&& match self.last_mode_state {
            ModeState::Normal { progress_towards_break, progress_towards_reset, .. } => {
                &&& 0 <= progress_towards_break <= self.time_to_break_secs * 1000
                &&& 0 <= progress_towards_reset <= self.break_length_secs * 1000
            },
            ModeState::PreBreak { .. } => true,
            ModeState::Break { progress_towards_finish, .. } => {
                0 <= progress_towards_finish <= self.break_length_secs * 1000
            },
        }
    }

    /// Muted and snoozed both suppress break prompting.
    pub open spec fn spec_is_muted(&self) -> bool {
        spec_presence_muted(self.presence_mode)
    }

    #[verifier::when_used_as_spec(spec_is_muted)]
    pub fn is_muted(&self) -> (muted: bool)
        ensures
            muted == self.spec_is_muted(),
    {
        match self.presence_mode {
            PresenceMode::Active => false,
            PresenceMode::SnoozedUntil(_) => true,
            PresenceMode::Muted => true,
        }
    }
}

/// Muted and snoozed both suppress break prompting.
pub open spec fn spec_presence_muted(presence: PresenceMode) -> bool {
    match presence {
        PresenceMode::Active => false,
        PresenceMode::SnoozedUntil(_) => true,
        PresenceMode::Muted => true,
    }
}

#[verifier::when_used_as_spec(spec_presence_muted)]
fn presence_muted(presence: PresenceMode) -> (muted: bool)
    ensures
        muted == spec_presence_muted(presence),
{
    match presence {
        PresenceMode::Active => false,
        PresenceMode::SnoozedUntil(_) => true,
        PresenceMode::Muted => true,
    }
}

/// The smaller of a counter ceiling and an accumulated value.
pub open spec fn min_cap(cap: int, value: int) -> int {
    if cap <= value {
        cap
    } else {
        value
    }
}

/// An expired snooze is promoted to `Active` before the rest of the tick
/// logic runs; everything else is kept.
pub open spec fn spec_woken_presence(presence: PresenceMode, now: i64) -> PresenceMode {
    match presence {
        PresenceMode::Active => PresenceMode::Active,
        PresenceMode::SnoozedUntil(timestamp) => {
            if timestamp < now {
                PresenceMode::Active
            } else {
                PresenceMode::SnoozedUntil(timestamp)
            }
        },
        PresenceMode::Muted => PresenceMode::Muted,
    }
}

/// A tick that stays in (or aborts back to) Normal mode: how the two
/// progress counters move.
///
/// `progress_towards_break` accumulates time the user has been considered
/// active: it advances by the elapsed time only while the previous debounced
/// state counts as active, capped at the configured interval. It is frozen
/// through a frame drop and while the user is idle, and resets to zero once
/// a previously idle user has been idle long enough to earn a reset and the
/// new debounced state is still idle. `progress_towards_reset` resets to
/// zero on any fresh idle transition and while the user is active, and
/// otherwise advances by the elapsed time, capped at the break length.
pub open spec fn spec_normal_info(
    presence_mode: PresenceMode,
    idle_since_seconds: u64,
    progress_towards_break: i64,
    progress_towards_reset: i64,
    prv_idle_state: DebouncedIdleState,
    check_time: i64,
    new_idle_state: DebouncedIdleState,
    time_since_last_check: i64,
    reading_mode: bool,
    time_to_break_secs: i64,
    break_length_secs: i64,
    overrun: i64,
) -> IdleInfo {
    IdleInfo {
        presence_mode,
        idle_since_seconds,
        last_checked: check_time,
        last_mode_state: ModeState::Normal {
            progress_towards_break: {
                if prv_idle_state.spec_is_user_active()
                    && time_since_last_check > FRAME_DROP_CUTOFF_POINT_SECS * 1000 {
                    progress_towards_break
                } else if !prv_idle_state.spec_is_user_active()
                    && progress_towards_reset + time_since_last_check
                        >= break_length_secs * 1000 {
                    if !new_idle_state.spec_is_user_active() {
                        0
                    } else {
                        progress_towards_break
                    }
                } else if prv_idle_state.spec_is_user_active() {
                    min_cap(
                        time_to_break_secs * 1000,
                        progress_towards_break + time_since_last_check,
                    ) as i64
                } else {
                    progress_towards_break
                }
            },
            progress_towards_reset: {
                if new_idle_state matches DebouncedIdleState::Idle { idle_since }
                    && idle_since == check_time {
                    0
                } else if new_idle_state.spec_is_user_active() {
                    0
                } else {
                    min_cap(
                        break_length_secs * 1000,
                        progress_towards_reset + time_since_last_check,
                    ) as i64
                }
            },
            idle_state: new_idle_state,
        },
        reading_mode,
        break_length_secs,
        time_to_break_secs,
        overrun,
    }
}

/// One tick of the whole engine: from the previous snapshot, a raw idle
/// reading and the sample's wall-clock time to the next snapshot. An
/// expired snooze is promoted to `Active` first, so the guards below see
/// the woken presence.
pub open spec fn spec_refreshed(info: IdleInfo, raw_idle_seconds: u64, now: i64) -> IdleInfo {
    let delta = now - info.last_checked;
    let new_presence = spec_woken_presence(info.presence_mode, now);
    match info.last_mode_state {
        ModeState::Normal { progress_towards_break, progress_towards_reset, idle_state } => {
            if progress_towards_break + delta >= info.time_to_break_secs * 1000
                && delta < FRAME_DROP_CUTOFF_POINT_SECS * 1000
                && !spec_presence_muted(new_presence) {
                IdleInfo {
                    idle_since_seconds: raw_idle_seconds,
                    last_checked: now,
                    last_mode_state: ModeState::PreBreak { started_at: now },
                    presence_mode: new_presence,
                    reading_mode: info.reading_mode,
                    time_to_break_secs: info.time_to_break_secs,
                    break_length_secs: info.break_length_secs,
                    overrun: info.overrun,
                }
            } else {
                spec_normal_info(
                    new_presence,
                    raw_idle_seconds,
                    if delta > info.time_to_break_secs * 1000 {
                        0
                    } else {
                        progress_towards_break
                    },
                    progress_towards_reset,
                    idle_state,
                    now,
                    spec_debounced(raw_idle_seconds, idle_state, delta as i64, now, info.reading_mode, false),
                    delta as i64,
                    info.reading_mode,
                    info.time_to_break_secs,
                    info.break_length_secs,
                    if progress_towards_reset + delta >= info.break_length_secs * 1000 {
                        0
                    } else if idle_state.spec_is_user_active() {
                        if info.overrun == 0
                            && progress_towards_break < info.time_to_break_secs * 1000 {
                            info.overrun
                        } else {
                            (info.overrun + delta) as i64
                        }
                    } else {
                        info.overrun
                    },
                )
            }
        },
        ModeState::PreBreak { started_at } => {
            if spec_presence_muted(new_presence) {
                spec_normal_info(
                    new_presence,
                    raw_idle_seconds,
                    (info.time_to_break_secs * 1000) as i64,
                    0,
                    DebouncedIdleState::Active { active_since: now },
                    now,
                    spec_debounced(
                        raw_idle_seconds,
                        DebouncedIdleState::Active { active_since: now },
                        delta as i64,
                        now,
                        info.reading_mode,
                        false,
                    ),
                    delta as i64,
                    info.reading_mode,
                    info.time_to_break_secs,
                    info.break_length_secs,
                    info.overrun,
                )
            } else if raw_idle_seconds >= REQUIRED_PREBREAK_IDLE_STREAK_SECONDS {
                IdleInfo {
                    idle_since_seconds: raw_idle_seconds,
                    last_checked: now,
                    last_mode_state: ModeState::Break {
                        progress_towards_finish: 0,
                        idle_state: DebouncedIdleState::Idle {
                            idle_since: (now - raw_idle_seconds * 1000) as i64,
                        },
                    },
                    presence_mode: new_presence,
                    reading_mode: info.reading_mode,
                    break_length_secs: info.break_length_secs,
                    time_to_break_secs: info.time_to_break_secs,
                    overrun: (info.overrun + delta) as i64,
                }
            } else {
                IdleInfo {
                    idle_since_seconds: raw_idle_seconds,
                    last_checked: now,
                    last_mode_state: ModeState::PreBreak { started_at },
                    presence_mode: new_presence,
                    reading_mode: info.reading_mode,
                    break_length_secs: info.break_length_secs,
                    time_to_break_secs: info.time_to_break_secs,
                    overrun: (info.overrun + delta) as i64,
                }
            }
        },
        ModeState::Break { progress_towards_finish, idle_state } => {
            if progress_towards_finish + delta >= info.break_length_secs * 1000 {
                IdleInfo {
                    idle_since_seconds: raw_idle_seconds,
                    last_checked: now,
                    last_mode_state: ModeState::Normal {
                        progress_towards_break: 0,
                        progress_towards_reset: (info.break_length_secs * 1000) as i64,
                        idle_state: spec_debounced(
                            raw_idle_seconds,
                            idle_state,
                            delta as i64,
                            now,
                            info.reading_mode,
                            true,
                        ),
                    },
                    presence_mode: new_presence,
                    reading_mode: info.reading_mode,
                    time_to_break_secs: info.time_to_break_secs,
                    break_length_secs: info.break_length_secs,
                    overrun: 0,
                }
            } else {
                let new_idle_state = spec_debounced(
                    raw_idle_seconds,
                    idle_state,
                    delta as i64,
                    now,
                    info.reading_mode,
                    true,
                );
                IdleInfo {
                    idle_since_seconds: raw_idle_seconds,
                    last_checked: now,
                    last_mode_state: ModeState::Break {
                        progress_towards_finish: {
                            if !new_idle_state.spec_is_user_active() {
                                min_cap(
                                    info.break_length_secs * 1000,
                                    progress_towards_finish + delta,
                                ) as i64
                            } else {
                                progress_towards_finish
                            }
                        },
                        idle_state: new_idle_state,
                    },
                    presence_mode: new_presence,
                    reading_mode: info.reading_mode,
                    time_to_break_secs: info.time_to_break_secs,
                    break_length_secs: info.break_length_secs,
                    overrun: {
                        if idle_state.spec_is_user_active() {
                            (info.overrun + delta) as i64
                        } else {
                            info.overrun
                        }
                    },
                }
            }
        },
    }
}

impl IdleInfo {
    /// Executable tick; see [`spec_refreshed`]. Takes the two sampled values
    /// as arguments, so it is verified for every reading the collaborators
    /// could deliver.
    pub fn refreshed(&self, raw_idle_seconds: u64, now: i64) -> (next: IdleInfo)
        requires
            self.wf(),
            self.last_checked <= now <= MAX_TIMESTAMP_MILLIS,
            raw_idle_seconds <= MAX_IDLE_SECONDS,
        ensures
            next == spec_refreshed(*self, raw_idle_seconds, now),
            next.wf(),
            next.last_checked == now,
            next.reading_mode == self.reading_mode,
            next.time_to_break_secs == self.time_to_break_secs,
            next.break_length_secs == self.break_length_secs,
    {
        let delta = now - self.last_checked;
        let new_presence = match self.presence_mode {
            PresenceMode::Active => PresenceMode::Active,
            PresenceMode::SnoozedUntil(timestamp) => {
                if timestamp < now {
                    PresenceMode::Active
                } else {
                    PresenceMode::SnoozedUntil(timestamp)
                }
            },
            PresenceMode::Muted => PresenceMode::Muted,
        };
        match self.last_mode_state {
            ModeState::Normal { progress_towards_break, progress_towards_reset, idle_state } => {
                if progress_towards_break + delta >= self.time_to_break_secs * 1000
                    && delta < FRAME_DROP_CUTOFF_POINT_SECS * 1000
                    && !presence_muted(new_presence) {
                    IdleInfo {
                        idle_since_seconds: raw_idle_seconds,
                        last_checked: now,
                        last_mode_state: ModeState::PreBreak { started_at: now },
                        presence_mode: new_presence,
                        reading_mode: self.reading_mode,
                        time_to_break_secs: self.time_to_break_secs,
                        break_length_secs: self.break_length_secs,
                        overrun: self.overrun,
                    }
                } else {
                    make_normal_info(
                        new_presence,
                        raw_idle_seconds,
                        if delta > self.time_to_break_secs * 1000 {
                            0
                        } else {
                            progress_towards_break
                        },
                        progress_towards_reset,
                        idle_state,
                        now,
                        make_debounced_idle_state(
                            raw_idle_seconds,
                            idle_state,
                            delta,
                            now,
                            self.reading_mode,
                            false,
                        ),
                        delta,
                        self.reading_mode,
                        self.time_to_break_secs,
                        self.break_length_secs,
                        if progress_towards_reset + delta >= self.break_length_secs * 1000 {
                            0
                        } else if idle_state.is_user_active() {
                            if self.overrun == 0
                                && progress_towards_break < self.time_to_break_secs * 1000 {
                                self.overrun
                            } else {
                                self.overrun + delta
                            }
                        } else {
                            self.overrun
                        },
                    )
                }
            },
            ModeState::PreBreak { started_at } => {
                if presence_muted(new_presence) {
                    make_normal_info(
                        new_presence,
                        raw_idle_seconds,
                        self.time_to_break_secs * 1000,
                        0,
                        DebouncedIdleState::Active { active_since: now },
                        now,
                        make_debounced_idle_state(
                            raw_idle_seconds,
                            DebouncedIdleState::Active { active_since: now },
                            delta,
                            now,
                            self.reading_mode,
                            false,
                        ),
                        delta,
                        self.reading_mode,
                        self.time_to_break_secs,
                        self.break_length_secs,
                        self.overrun,
                    )
                } else if raw_idle_seconds >= REQUIRED_PREBREAK_IDLE_STREAK_SECONDS {
                    IdleInfo {
                        idle_since_seconds: raw_idle_seconds,
                        last_checked: now,
                        last_mode_state: ModeState::Break {
                            progress_towards_finish: 0,
                            idle_state: DebouncedIdleState::Idle {
                                idle_since: now - (raw_idle_seconds as i64) * 1000,
                            },
                        },
                        presence_mode: new_presence,
                        reading_mode: self.reading_mode,
                        break_length_secs: self.break_length_secs,
                        time_to_break_secs: self.time_to_break_secs,
                        overrun: self.overrun + delta,
                    }
                } else {
                    IdleInfo {
                        idle_since_seconds: raw_idle_seconds,
                        last_checked: now,
                        last_mode_state: ModeState::PreBreak { started_at },
                        presence_mode: new_presence,
                        reading_mode: self.reading_mode,
                        break_length_secs: self.break_length_secs,
                        time_to_break_secs: self.time_to_break_secs,
                        overrun: self.overrun + delta,
                    }
                }
            },
            ModeState::Break { progress_towards_finish, idle_state } => {
                if progress_towards_finish + delta >= self.break_length_secs * 1000 {
                    IdleInfo {
                        idle_since_seconds: raw_idle_seconds,
                        last_checked: now,
                        last_mode_state: ModeState::Normal {
                            progress_towards_break: 0,
                            progress_towards_reset: self.break_length_secs * 1000,
                            idle_state: make_debounced_idle_state(
                                raw_idle_seconds,
                                idle_state,
                                delta,
                                now,
                                self.reading_mode,
                                true,
                            ),
                        },
                        presence_mode: new_presence,
                        reading_mode: self.reading_mode,
                        time_to_break_secs: self.time_to_break_secs,
                        break_length_secs: self.break_length_secs,
                        overrun: 0,
                    }
                } else {
                    let new_idle_state = make_debounced_idle_state(
                        raw_idle_seconds,
                        idle_state,
                        delta,
                        now,
                        self.reading_mode,
                        true,
                    );
                    IdleInfo {
                        idle_since_seconds: raw_idle_seconds,
                        last_checked: now,
                        last_mode_state: ModeState::Break {
                            progress_towards_finish: {
                                if !new_idle_state.is_user_active() {
                                    let grown = progress_towards_finish + delta;
                                    let cap = self.break_length_secs * 1000;
                                    if cap <= grown {
                                        cap
                                    } else {
                                        grown
                                    }
                                } else {
                                    progress_towards_finish
                                }
                            },
                            idle_state: new_idle_state,
                        },
                        presence_mode: new_presence,
                        reading_mode: self.reading_mode,
                        time_to_break_secs: self.time_to_break_secs,
                        break_length_secs: self.break_length_secs,
                        overrun: {
                            if idle_state.is_user_active() {
                                self.overrun + delta
                            } else {
                                self.overrun
                            }
                        },
                    }
                }
            },
        }
    }
}

/// Executable counterpart of [`spec_normal_info`].
fn make_normal_info(
    presence_mode: PresenceMode,
    idle_since_seconds: u64,
    progress_towards_break: i64,
    progress_towards_reset: i64,
    prv_idle_state: DebouncedIdleState,
    check_time: i64,
    new_idle_state: DebouncedIdleState,
    time_since_last_check: i64,
    reading_mode: bool,
    time_to_break_secs: i64,
    break_length_secs: i64,
    overrun: i64,
) -> (next: IdleInfo)
    requires
        0 <= check_time <= MAX_TIMESTAMP_MILLIS,
        0 <= time_since_last_check,
        0 <= time_to_break_secs <= MAX_CONFIG_SECONDS,
        0 <= break_length_secs <= MAX_CONFIG_SECONDS,
        0 <= progress_towards_break <= time_to_break_secs * 1000,
        0 <= progress_towards_reset <= break_length_secs * 1000,
        progress_towards_break + time_since_last_check <= i64::MAX,
        progress_towards_reset + time_since_last_check <= i64::MAX,
    ensures
        next == spec_normal_info(
            presence_mode,
            idle_since_seconds,
            progress_towards_break,
            progress_towards_reset,
            prv_idle_state,
            check_time,
            new_idle_state,
            time_since_last_check,
            reading_mode,
            time_to_break_secs,
            break_length_secs,
            overrun,
        ),
{
    IdleInfo {
        presence_mode,
        idle_since_seconds,
        last_checked: check_time,
        last_mode_state: ModeState::Normal {
            progress_towards_break: {
                if prv_idle_state.is_user_active()
                    && time_since_last_check > FRAME_DROP_CUTOFF_POINT_SECS * 1000 {
                    progress_towards_break
                } else if !prv_idle_state.is_user_active()
                    && progress_towards_reset + time_since_last_check
                        >= break_length_secs * 1000 {
                    if !new_idle_state.is_user_active() {
                        0
                    } else {
                        progress_towards_break
                    }
                } else if prv_idle_state.is_user_active() {
                    let grown = progress_towards_break + time_since_last_check;
                    let cap = time_to_break_secs * 1000;
                    if cap <= grown {
                        cap
                    } else {
                        grown
                    }
                } else {
                    progress_towards_break
                }
            },
            progress_towards_reset: {
                let fresh_idle = match new_idle_state {
                    DebouncedIdleState::Idle { idle_since } => idle_since == check_time,
                    _ => false,
                };
                if fresh_idle {
                    0
                } else if new_idle_state.is_user_active() {
                    0
                } else {
                    let grown = progress_towards_reset + time_since_last_check;
                    let cap = break_length_secs * 1000;
                    if cap <= grown {
                        cap
                    } else {
                        grown
                    }
                }
            },
            idle_state: new_idle_state,
        },
        reading_mode,
        break_length_secs,
        time_to_break_secs,
        overrun,
    }
}

/// A source for the number of seconds since the last keyboard/mouse input.
/// A faulty read is mapped by the implementation itself to a safe default;
/// readings are kept within the engine's working range.
pub trait AbstractIdleChecker {
    fn get_idle_time_in_seconds(&self) -> (seconds: u64)
        ensures
            seconds <= MAX_IDLE_SECONDS,
    ;
}

/// A source for the current wall-clock time, injected so deterministic
/// timestamps can be used in tests. Readings are milliseconds since the Unix
/// epoch, kept within the engine's working range.
pub trait AbstractClock {
    fn get_time(&self) -> (now_millis: i64)
        ensures
            0 <= now_millis <= MAX_TIMESTAMP_MILLIS,
    ;
}

/// A raw wall-clock reading resolved to the value the engine uses: clamped
/// into the engine's working range, unchanged when it already lies there.
pub open spec fn spec_clock_reading(raw_millis: i64) -> i64 {
    if raw_millis < 0 {
        0
    } else if raw_millis > MAX_TIMESTAMP_MILLIS {
        MAX_TIMESTAMP_MILLIS
    } else {
        raw_millis
    }
}

/// Executable counterpart of [`spec_clock_reading`].
pub fn clock_reading_from_sample(raw_millis: i64) -> (now_millis: i64)
    ensures
        now_millis == spec_clock_reading(raw_millis),
        0 <= now_millis <= MAX_TIMESTAMP_MILLIS,
{
    if raw_millis < 0 {
        0
    } else if raw_millis > MAX_TIMESTAMP_MILLIS {
        MAX_TIMESTAMP_MILLIS
    } else {
        raw_millis
    }
}

/// Relies on chrono's `Utc::now` and `DateTime::timestamp_millis`: the
/// current wall-clock time as milliseconds since the Unix epoch.
#[verifier::external_body]
fn utc_now_millis() -> i64 {
    chrono::Utc::now().timestamp_millis()
}

/// The production wall clock.
pub struct Clock;

impl AbstractClock for Clock {
    fn get_time(&self) -> (now_millis: i64) {
        clock_reading_from_sample(utc_now_millis())
    }
}

/// A raw idle-source reading resolved to the value the engine uses: a
/// failed read counts as one second of idle time, and a successful one
/// passes through, clamped into the engine's working range.
pub open spec fn spec_idle_reading(sample: Option<u64>) -> u64 {
    match sample {
        Option::Some(seconds) => {
            if seconds > MAX_IDLE_SECONDS {
                MAX_IDLE_SECONDS
            } else {
                seconds
            }
        },
        Option::None => 1,
    }
}

/// Executable counterpart of [`spec_idle_reading`].
pub fn idle_reading_from_sample(sample: Option<u64>) -> (seconds: u64)
    ensures
        seconds == spec_idle_reading(sample),
        seconds <= MAX_IDLE_SECONDS,
{
    match sample {
        Option::Some(seconds) => {
            if seconds > MAX_IDLE_SECONDS {
                MAX_IDLE_SECONDS
            } else {
                seconds
            }
        },
        Option::None => 1,
    }
}

/// Relies on user_idle2's `UserIdle::get_time` and `as_seconds`: the number
/// of whole seconds since the last keyboard/mouse input, or nothing when the
/// read fails.
#[verifier::external_body]
fn sample_idle_seconds() -> (seconds: Option<u64>) {
    user_idle2::UserIdle::get_time().map(|time| time.as_seconds()).ok()
}

/// The production idle source; a read is resolved by [`spec_idle_reading`],
/// so a faulty one is mapped to the fixed fallback rather than an error.
pub struct IdleChecker;

impl AbstractIdleChecker for IdleChecker {
    fn get_idle_time_in_seconds(&self) -> (seconds: u64) {
        idle_reading_from_sample(sample_idle_seconds())
    }
}

/// A clock frozen at one instant, for deterministic tests.
pub struct FixedClock {
    pub time_millis: i64,
}

impl AbstractClock for FixedClock {
    fn get_time(&self) -> (now_millis: i64) {
        clock_reading_from_sample(self.time_millis)
    }
}

/// An idle source frozen at one reading, for deterministic tests.
pub struct FixedIdleChecker {
    pub idle_seconds: u64,
}

impl AbstractIdleChecker for FixedIdleChecker {
    fn get_idle_time_in_seconds(&self) -> (seconds: u64) {
        idle_reading_from_sample(Some(self.idle_seconds))
    }
}

/// The persisted view of a snapshot: Normal-mode progress only; the other
/// modes export zeroed progress.
pub open spec fn spec_export(info: IdleInfo) -> PersistableState {
    PersistableState {
        progress_towards_break: match info.last_mode_state {
            ModeState::Normal { progress_towards_break, .. } => progress_towards_break,
            _ => 0,
        },
        progress_towards_reset: match info.last_mode_state {
            ModeState::Normal { progress_towards_reset, .. } => progress_towards_reset,
            _ => 0,
        },
        last_checked: info.last_checked,
        presence_mode: info.presence_mode,
        reading_mode: info.reading_mode,
        time_to_break_secs: info.time_to_break_secs,
        break_length_secs: info.break_length_secs,
    }
}

/// Starting to read counts as an activity event: a tentative transition is
/// rolled back to `Active`, and a settled idle state restarts as `Active`
/// from now.
pub open spec fn spec_reading_normalized(
    state: DebouncedIdleState,
    check_time: i64,
) -> DebouncedIdleState {
    match state {
        DebouncedIdleState::Active { active_since } => {
            DebouncedIdleState::Active { active_since }
        },
        DebouncedIdleState::ActiveGoingToIdle { active_since, .. } => {
            DebouncedIdleState::Active { active_since }
        },
        DebouncedIdleState::IdleGoingToActive { .. } | DebouncedIdleState::Idle { .. } => {
            DebouncedIdleState::Active { active_since: check_time }
        },
    }
}

/// [`spec_reading_normalized`] applied under the current mode; PreBreak
/// carries no debounced state and is untouched.
pub open spec fn spec_reading_normalized_mode(mode: ModeState, check_time: i64) -> ModeState {
    match mode {
        ModeState::Normal { progress_towards_break, progress_towards_reset, idle_state } => {
            ModeState::Normal {
                progress_towards_break,
                progress_towards_reset,
                idle_state: spec_reading_normalized(idle_state, check_time),
            }
        },
        ModeState::PreBreak { started_at } => ModeState::PreBreak { started_at },
        ModeState::Break { progress_towards_finish, idle_state } => {
            ModeState::Break {
                progress_towards_finish,
                idle_state: spec_reading_normalized(idle_state, check_time),
            }
        },
    }
}

fn reading_normalized(state: DebouncedIdleState, check_time: i64) -> (next: DebouncedIdleState)
    ensures
        next == spec_reading_normalized(state, check_time),
{
    match state {
        DebouncedIdleState::Active { active_since } => {
            DebouncedIdleState::Active { active_since }
        },
        DebouncedIdleState::ActiveGoingToIdle { active_since, .. } => {
            DebouncedIdleState::Active { active_since }
        },
        DebouncedIdleState::IdleGoingToActive { .. } | DebouncedIdleState::Idle { .. } => {
            DebouncedIdleState::Active { active_since: check_time }
        },
    }
}

/// A changed break interval, with the progress counter it bounds clamped (in
/// whole seconds) to the new ceiling.
pub open spec fn spec_with_time_to_break(info: IdleInfo, num_secs: i64) -> IdleInfo {
    IdleInfo {
        time_to_break_secs: num_secs,
        last_mode_state: match info.last_mode_state {
            ModeState::Normal { progress_towards_break, progress_towards_reset, idle_state } => {
                ModeState::Normal {
                    progress_towards_break: (min_cap(
                        progress_towards_break / 1000,
                        num_secs as int,
                    ) * 1000) as i64,
                    progress_towards_reset,
                    idle_state,
                }
            },
            ModeState::PreBreak { started_at } => ModeState::PreBreak { started_at },
            ModeState::Break { progress_towards_finish, idle_state } => {
                ModeState::Break { progress_towards_finish, idle_state }
            },
        },
        ..info
    }
}

/// A changed break length. The Normal-mode reset counter is clamped in
/// whole seconds to the new ceiling, as it is stored; a running break's
/// finish counter is capped at the new ceiling unchanged otherwise.
pub open spec fn spec_with_break_length(info: IdleInfo, num_secs: i64) -> IdleInfo {
    IdleInfo {
        break_length_secs: num_secs,
        last_mode_state: match info.last_mode_state {
            ModeState::Normal { progress_towards_break, progress_towards_reset, idle_state } => {
                ModeState::Normal {
                    progress_towards_break,
                    progress_towards_reset: (min_cap(
                        progress_towards_reset / 1000,
                        num_secs as int,
                    ) * 1000) as i64,
                    idle_state,
                }
            },
            ModeState::PreBreak { started_at } => ModeState::PreBreak { started_at },
            ModeState::Break { progress_towards_finish, idle_state } => {
                ModeState::Break {
                    progress_towards_finish: min_cap(
                        num_secs * 1000,
                        progress_towards_finish as int,
                    ) as i64,
                    idle_state,
                }
            },
        },
        ..info
    }
}

/// A nonnegative millisecond count clamped, in whole seconds, to a ceiling
/// given in seconds; the result is back in milliseconds.
fn clamp_millis_to_whole_secs(millis: i64, ceiling_secs: i64) -> (clamped: i64)
    requires
        0 <= millis,
        0 <= ceiling_secs <= MAX_CONFIG_SECONDS,
    ensures
        clamped == min_cap(millis as int / 1000, ceiling_secs as int) * 1000,
{
    let whole_secs = ((millis as u64) / 1000) as i64;
    let clamped_secs = if ceiling_secs <= whole_secs {
        ceiling_secs
    } else {
        whole_secs
    };
    clamped_secs * 1000
}

/// The outcome of skipping a running break: back to Normal with both
/// progress counters at zero and the overrun cleared, keeping the current
/// debounced state. From any other mode, the snapshot is unchanged.
pub open spec fn spec_skip_break_info(info: IdleInfo, raw_idle_seconds: u64, now: i64) -> IdleInfo {
    match info.last_mode_state {
        ModeState::Break { idle_state, .. } => IdleInfo {
            idle_since_seconds: raw_idle_seconds,
            last_checked: now,
            last_mode_state: ModeState::Normal {
                progress_towards_break: 0,
                progress_towards_reset: 0,
                idle_state,
            },
            overrun: 0,
            ..info
        },
        _ => info,
    }
}

/// The outcome of postponing a running break by `postpone_millis`: back to
/// Normal with enough break progress credited that the next prompt is
/// `postpone_millis` away, the reset counter cleared and the overrun
/// preserved. From any other mode, the snapshot is unchanged.
pub open spec fn spec_postpone_break_info(
    info: IdleInfo,
    postpone_millis: i64,
    raw_idle_seconds: u64,
    now: i64,
) -> IdleInfo {
    match info.last_mode_state {
        ModeState::Break { idle_state, .. } => IdleInfo {
            idle_since_seconds: raw_idle_seconds,
            last_checked: now,
            last_mode_state: ModeState::Normal {
                progress_towards_break: (info.time_to_break_secs * 1000 - postpone_millis) as i64,
                progress_towards_reset: 0,
                idle_state,
            },
            ..info
        },
        _ => info,
    }
}

/// The orchestrator: holds the current aggregate snapshot, samples its two
/// collaborators, and applies the engine's transition rules.
pub struct IdleMonitor<T: AbstractIdleChecker, U: AbstractClock> {
    idle_checker: T,
    clock: U,
    last_idle_info: IdleInfo,
}

impl<T: AbstractIdleChecker, U: AbstractClock> IdleMonitor<T, U> {
    /// The aggregate snapshot the monitor currently holds.
    pub closed spec fn info(&self) -> IdleInfo {
        self.last_idle_info
    }

    pub open spec fn wf(&self) -> bool {
        self.info().wf()
    }

    /// A monitor started fresh or seeded from a restored record, per the
    /// restore policy.
    pub fn new(idle_checker: T, clock: U, restored_state: Option<PersistableState>) -> (monitor:
        Self)
        requires
            restored_state matches Some(state) ==> state.wf(),
        ensures
            monitor.wf(),
            exists|now: i64|
                0 <= now <= MAX_TIMESTAMP_MILLIS && monitor.info() == #[trigger] spec_initial_info(
                    restored_state,
                    now,
                ),
    {
        let time = clock.get_time();
        let info = initial_idle_info(restored_state, time);
        let monitor = IdleMonitor { idle_checker, clock, last_idle_info: info };
        proof {
            assert(monitor.info() == spec_initial_info(restored_state, time));
        }
        monitor
    }

    /// A monitor holding a given snapshot, for tests and for drivers that
    /// manage restoration themselves.
    pub fn with_state(idle_checker: T, clock: U, last_idle_info: IdleInfo) -> (monitor: Self)
        requires
            last_idle_info.wf(),
        ensures
            monitor.wf(),
            monitor.info() == last_idle_info,
    {
        IdleMonitor { idle_checker, clock, last_idle_info }
    }

    pub fn get_last_idle_info(&self) -> (info: IdleInfo)
        ensures
            info == self.info(),
    {
        self.last_idle_info
    }

    /// One tick: samples the idle source and the clock once and advances the
    /// engine by [`spec_refreshed`]. Whatever the collaborators deliver, the
    /// result is one legitimate tick outcome on in-range samples.
    pub fn refresh_idle_info(&mut self) -> (info: IdleInfo)
        requires
            old(self).wf(),
        ensures
            final(self).wf(),
            info == final(self).info(),
            final(self).info().reading_mode == old(self).info().reading_mode,
            final(self).info().time_to_break_secs == old(self).info().time_to_break_secs,
            final(self).info().break_length_secs == old(self).info().break_length_secs,
            final(self).info().last_checked >= old(self).info().last_checked,
            exists|raw_idle_seconds: u64, now: i64|
                raw_idle_seconds <= MAX_IDLE_SECONDS && old(self).info().last_checked <= now
                    <= MAX_TIMESTAMP_MILLIS && final(self).info() == #[trigger] spec_refreshed(
                    old(self).info(),
                    raw_idle_seconds,
                    now,
                ),
    {
        let raw_idle_seconds = self.idle_checker.get_idle_time_in_seconds();
        let sampled = self.clock.get_time();
        let now = if sampled < self.last_idle_info.last_checked {
            self.last_idle_info.last_checked
        } else {
            sampled
        };
        let info = self.last_idle_info.refreshed(raw_idle_seconds, now);
        self.last_idle_info = info;
        proof {
            assert(self.info() == spec_refreshed(old(self).info(), raw_idle_seconds, now));
        }
        info
    }

    /// Suppress break prompting until the given timestamp; nothing else
    /// changes.
    pub fn snooze(&mut self, timestamp: i64) -> (info: IdleInfo)
        requires
            old(self).wf(),
        ensures
            final(self).wf(),
            info == final(self).info(),
            final(self).info() == (IdleInfo {
                presence_mode: PresenceMode::SnoozedUntil(timestamp),
                ..old(self).info()
            }),
    {
        self.last_idle_info.presence_mode = PresenceMode::SnoozedUntil(timestamp);
        self.last_idle_info
    }

    /// Suppress break prompting indefinitely; nothing else changes.
    pub fn mute(&mut self) -> (info: IdleInfo)
        requires
            old(self).wf(),
        ensures
            final(self).wf(),
            info == final(self).info(),
            final(self).info() == (IdleInfo {
                presence_mode: PresenceMode::Muted,
                ..old(self).info()
            }),
    {
        self.last_idle_info.presence_mode = PresenceMode::Muted;
        self.last_idle_info
    }

    /// Resume break prompting; nothing else changes.
    pub fn unmute(&mut self) -> (info: IdleInfo)
        requires
            old(self).wf(),
        ensures
            final(self).wf(),
            info == final(self).info(),
            final(self).info() == (IdleInfo {
                presence_mode: PresenceMode::Active,
                ..old(self).info()
            }),
    {
        self.last_idle_info.presence_mode = PresenceMode::Active;
        self.last_idle_info
    }

    /// Flip reading mode; starting (or stopping) to read counts as an
    /// activity event, so any transitional debounced state is normalized
    /// back to `Active` at the sampled time.
    pub fn set_reading_mode(&mut self, reading_mode: bool)
        requires
            old(self).wf(),
        ensures
            final(self).wf(),
            exists|now: i64|
                0 <= now <= MAX_TIMESTAMP_MILLIS && final(self).info() == (IdleInfo {
                    reading_mode,
                    last_mode_state: #[trigger] spec_reading_normalized_mode(
                        old(self).info().last_mode_state,
                        now,
                    ),
                    ..old(self).info()
                }),
    {
        let check_time = self.clock.get_time();
        let last_mode_state = match self.last_idle_info.last_mode_state {
            ModeState::Normal { progress_towards_break, progress_towards_reset, idle_state } => {
                ModeState::Normal {
                    progress_towards_break,
                    progress_towards_reset,
                    idle_state: reading_normalized(idle_state, check_time),
                }
            },
            ModeState::PreBreak { started_at } => ModeState::PreBreak { started_at },
            ModeState::Break { progress_towards_finish, idle_state } => {
                ModeState::Break {
                    progress_towards_finish,
                    idle_state: reading_normalized(idle_state, check_time),
                }
            },
        };
        self.last_idle_info = IdleInfo {
            reading_mode,
            last_mode_state,
            ..self.last_idle_info
        };
        proof {
            assert(self.info() == (IdleInfo {
                reading_mode,
                last_mode_state: spec_reading_normalized_mode(
                    old(self).info().last_mode_state,
                    check_time,
                ),
                ..old(self).info()
            }));
        }
    }

    /// Force a break right now. Only valid from Normal mode: the engine
    /// moves to a fresh break whose debounced state is seeded idle, so the
    /// break does not immediately read as interrupted. From any other mode
    /// the snapshot is returned unchanged.
    pub fn trigger_break(&mut self) -> (info: IdleInfo)
        requires
            old(self).wf(),
        ensures
            final(self).wf(),
            info == final(self).info(),
            old(self).info().last_mode_state matches ModeState::Normal { .. }
                ==> final(self).info() == (IdleInfo {
                last_mode_state: ModeState::Break {
                    progress_towards_finish: 0,
                    idle_state: DebouncedIdleState::Idle {
                        idle_since: old(self).info().last_checked,
                    },
                },
                ..old(self).info()
            }),
            !(old(self).info().last_mode_state matches ModeState::Normal { .. }) ==> *final(self)
                == *old(self),
    {
        match self.last_idle_info.last_mode_state {
            ModeState::Normal { .. } => {
                self.last_idle_info = IdleInfo {
                    last_mode_state: ModeState::Break {
                        progress_towards_finish: 0,
                        idle_state: DebouncedIdleState::Idle {
                            idle_since: self.last_idle_info.last_checked,
                        },
                    },
                    ..self.last_idle_info
                };
            },
            _ => {},
        }
        self.last_idle_info
    }

    /// Skip the running break: back to Normal with both progress counters at
    /// zero and the overrun cleared, keeping the current debounced state.
    /// Only valid from Break mode; from any other mode the snapshot is
    /// returned unchanged.
    pub fn skip_break(&mut self) -> (info: IdleInfo)
        requires
            old(self).wf(),
        ensures
            final(self).wf(),
            info == final(self).info(),
            exists|raw_idle_seconds: u64, now: i64|
                raw_idle_seconds <= MAX_IDLE_SECONDS && old(self).info().last_checked <= now
                    <= MAX_TIMESTAMP_MILLIS && final(self).info() == #[trigger] spec_skip_break_info(
                    old(self).info(),
                    raw_idle_seconds,
                    now,
                ),
            !(old(self).info().last_mode_state matches ModeState::Break { .. }) ==> *final(self)
                == *old(self),
    {
        let raw_idle_seconds = self.idle_checker.get_idle_time_in_seconds();
        let sampled = self.clock.get_time();
        let check_time = if sampled < self.last_idle_info.last_checked {
            self.last_idle_info.last_checked
        } else {
            sampled
        };
        match self.last_idle_info.last_mode_state {
            ModeState::Break { idle_state, .. } => {
                self.last_idle_info = IdleInfo {
                    idle_since_seconds: raw_idle_seconds,
                    last_checked: check_time,
                    last_mode_state: ModeState::Normal {
                        progress_towards_break: 0,
                        progress_towards_reset: 0,
                        idle_state,
                    },
                    overrun: 0,
                    ..self.last_idle_info
                };
            },
            _ => {},
        }
        proof {
            assert(self.info() == spec_skip_break_info(
                old(self).info(),
                raw_idle_seconds,
                check_time,
            ));
        }
        self.last_idle_info
    }

    /// Postpone the running break: back to Normal with enough break progress
    /// credited that the next prompt is `postpone_millis` away, the reset
    /// counter cleared and the overrun preserved. Only valid from Break
    /// mode; from any other mode the snapshot is returned unchanged.
    pub fn postpone_break(&mut self, postpone_millis: i64) -> (info: IdleInfo)
        requires
            old(self).wf(),
            old(self).info().last_mode_state matches ModeState::Break { .. } ==> 0
                <= postpone_millis <= old(self).info().time_to_break_secs * 1000,
        ensures
            final(self).wf(),
            info == final(self).info(),
            exists|raw_idle_seconds: u64, now: i64|
                raw_idle_seconds <= MAX_IDLE_SECONDS && old(self).info().last_checked <= now
                    <= MAX_TIMESTAMP_MILLIS && final(self).info()
                    == #[trigger] spec_postpone_break_info(
                    old(self).info(),
                    postpone_millis,
                    raw_idle_seconds,
                    now,
                ),
            !(old(self).info().last_mode_state matches ModeState::Break { .. }) ==> *final(self)
                == *old(self),
    {
        let raw_idle_seconds = self.idle_checker.get_idle_time_in_seconds();
        let sampled = self.clock.get_time();
        let check_time = if sampled < self.last_idle_info.last_checked {
            self.last_idle_info.last_checked
        } else {
            sampled
        };
        match self.last_idle_info.last_mode_state {
            ModeState::Break { idle_state, .. } => {
                self.last_idle_info = IdleInfo {
                    idle_since_seconds: raw_idle_seconds,
                    last_checked: check_time,
                    last_mode_state: ModeState::Normal {
                        progress_towards_break: self.last_idle_info.time_to_break_secs * 1000
                            - postpone_millis,
                        progress_towards_reset: 0,
                        idle_state,
                    },
                    ..self.last_idle_info
                };
            },
            _ => {},
        }
        proof {
            assert(self.info() == spec_postpone_break_info(
                old(self).info(),
                postpone_millis,
                raw_idle_seconds,
                check_time,
            ));
        }
        self.last_idle_info
    }

    /// Change the break interval; Normal-mode progress towards the break is
    /// clamped to the new ceiling so it never exceeds it.
    pub fn set_time_to_break(&mut self, num_secs: i64)
        requires
            old(self).wf(),
            0 <= num_secs <= MAX_CONFIG_SECONDS,
        ensures
            final(self).wf(),
            final(self).info() == spec_with_time_to_break(old(self).info(), num_secs),
    {
        let last_mode_state = match self.last_idle_info.last_mode_state {
            ModeState::Normal { progress_towards_break, progress_towards_reset, idle_state } => {
                ModeState::Normal {
                    progress_towards_break: clamp_millis_to_whole_secs(
                        progress_towards_break,
                        num_secs,
                    ),
                    progress_towards_reset,
                    idle_state,
                }
            },
            ModeState::PreBreak { started_at } => ModeState::PreBreak { started_at },
            ModeState::Break { progress_towards_finish, idle_state } => {
                ModeState::Break { progress_towards_finish, idle_state }
            },
        };
        self.last_idle_info = IdleInfo {
            time_to_break_secs: num_secs,
            last_mode_state,
            ..self.last_idle_info
        };
    }

    /// Change the break length; the Normal-mode reset counter is clamped in
    /// whole seconds to the new ceiling, and a running break's finish
    /// counter is capped at it, so neither ever exceeds it.
    pub fn set_break_length(&mut self, num_secs: i64)
        requires
            old(self).wf(),
            0 <= num_secs <= MAX_CONFIG_SECONDS,
        ensures
            final(self).wf(),
            final(self).info() == spec_with_break_length(old(self).info(), num_secs),
    {
        let last_mode_state = match self.last_idle_info.last_mode_state {
            ModeState::Normal { progress_towards_break, progress_towards_reset, idle_state } => {
                ModeState::Normal {
                    progress_towards_break,
                    progress_towards_reset: clamp_millis_to_whole_secs(
                        progress_towards_reset,
                        num_secs,
                    ),
                    idle_state,
                }
            },
            ModeState::PreBreak { started_at } => ModeState::PreBreak { started_at },
            ModeState::Break { progress_towards_finish, idle_state } => {
                ModeState::Break {
                    progress_towards_finish: {
                        let ceiling = num_secs * 1000;
                        if ceiling <= progress_towards_finish {
                            ceiling
                        } else {
                            progress_towards_finish
                        }
                    },
                    idle_state,
                }
            },
        };
        self.last_idle_info = IdleInfo {
            break_length_secs: num_secs,
            last_mode_state,
            ..self.last_idle_info
        };
    }

    /// The persisted view of the current snapshot; see [`spec_export`].
    pub fn export_persistable_state(&self) -> (state: PersistableState)
        requires
            self.wf(),
        ensures
            state == spec_export(self.info()),
            state.wf(),
    {
        PersistableState {
            progress_towards_break: match self.last_idle_info.last_mode_state {
                ModeState::Normal { progress_towards_break, .. } => progress_towards_break,
                _ => 0,
            },
            progress_towards_reset: match self.last_idle_info.last_mode_state {
                ModeState::Normal { progress_towards_reset, .. } => progress_towards_reset,
                _ => 0,
            },
            last_checked: self.last_idle_info.last_checked,
            presence_mode: self.last_idle_info.presence_mode,
            reading_mode: self.last_idle_info.reading_mode,
            time_to_break_secs: self.last_idle_info.time_to_break_secs,
            break_length_secs: self.last_idle_info.break_length_secs,
        }
    }
}

} // verus!
