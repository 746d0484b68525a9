//! Debouncing of the raw idle signal.
//!
//! A single "seconds since last input" reading is noisy: the user pausing for
//! an instant, or one spurious zero, should not flip the activity signal. The
//! engine therefore keeps a four-state debounced signal and commits to a
//! transition only after it has survived a short window.
//!
//! All timestamps are milliseconds on the engine's wall clock; all elapsed
//! times are milliseconds as well.

use vstd::prelude::*;

verus! {

/// Seconds a tentative transition must survive before it is committed.
pub const TRANSITION_THRESHOLD_SECS: u64 = 3;

/// Max. number of seconds that may have elapsed since the last activity
/// for that activity to qualify an IdleGoingToActive -> Active transition.
pub const END_OF_ACTIVE_PUSHING_TRANSITION_WINDOW: u64 = TRANSITION_THRESHOLD_SECS - 2;

/// A gap between two samples above this many seconds is treated as a clock
/// anomaly (system sleep, frozen ticks) rather than ordinary elapsed time.
pub const FRAME_DROP_CUTOFF_POINT_SECS: i64 = 30;

/// Largest wall-clock reading the engine works with, in milliseconds since
/// the Unix epoch. Keeps every per-tick computation far away from `i64`
/// overflow.
pub const MAX_TIMESTAMP_MILLIS: i64 = 4_000_000_000_000_000;

/// Largest raw idle reading the engine works with, in seconds.
pub const MAX_IDLE_SECONDS: u64 = 1_000_000_000;

/// The stabilized activity signal, insulated from single noisy samples.
///
/// `Idle` and `Active` are the settled states; the two `GoingTo` states are
/// tentative transitions that are either committed or rolled back once the
/// transition window has passed.
#[derive(Clone, Copy, Debug, PartialEq, Eq, Structural)]
pub enum DebouncedIdleState {
    Idle { idle_since: i64 },
    IdleGoingToActive { idle_since: i64, transitioning_since: i64 },
    ActiveGoingToIdle { active_since: i64, transitioning_since: i64 },
    Active { active_since: i64 },
}

impl DebouncedIdleState {
    /// `Active` and `ActiveGoingToIdle` count as active; `Idle` and
    /// `IdleGoingToActive` count as idle.
    pub open spec fn spec_is_user_active(&self) -> bool {
        match self {
            DebouncedIdleState::Active { .. } => true,
            DebouncedIdleState::ActiveGoingToIdle { .. } => true,
            DebouncedIdleState::IdleGoingToActive { .. } => false,
            DebouncedIdleState::Idle { .. } => false,
        }
    }

    #[verifier::when_used_as_spec(spec_is_user_active)]
    pub fn is_user_active(&self) -> (active: bool)
        ensures
            active == self.spec_is_user_active(),
    {
        match self {
            DebouncedIdleState::Active { .. } => true,
            DebouncedIdleState::ActiveGoingToIdle { .. } => true,
            DebouncedIdleState::IdleGoingToActive { .. } => false,
            DebouncedIdleState::Idle { .. } => false,
        }
    }
}

/// One debounce step: the successor of `prev` after a sample reporting
/// `raw_idle_seconds` of idle time, taken `elapsed_millis` after the previous
/// sample, at wall-clock time `check_time`.
///
/// The rules, in order:
/// 1. From an active-ish state, a gap above the frame-drop cutoff forces
///    `Idle` at the sample time (the user is taken to have left).
/// 2. From `Active`: a zero reading stays put; a non-zero reading starts a
///    transition towards idle, unless reading mode suppresses idle detection
///    outside breaks.
/// 3. From `ActiveGoingToIdle`: a zero reading rolls back to `Active`; a
///    reading within the threshold stays tentative; a larger one commits to
///    `Idle` at the sample time.
/// 4. From `IdleGoingToActive`: once the transition window has elapsed, a
///    reading of recent activity commits to `Active` at the sample time and
///    anything else rolls back to `Idle`; within the window, stay tentative.
/// 5. From `Idle`: a zero reading starts a transition towards active.
pub open spec fn spec_debounced(
    raw_idle_seconds: u64,
    prev: DebouncedIdleState,
    elapsed_millis: i64,
    check_time: i64,
    reading_mode: bool,
    in_break: bool,
) -> DebouncedIdleState {
    if (prev is Active || prev is ActiveGoingToIdle)
        && elapsed_millis > FRAME_DROP_CUTOFF_POINT_SECS * 1000 {
        DebouncedIdleState::Idle { idle_since: check_time }
    } else {
        match prev {
            DebouncedIdleState::Active { active_since } => {
                if raw_idle_seconds == 0 {
                    DebouncedIdleState::Active { active_since }
                } else if reading_mode && !in_break {
                    DebouncedIdleState::Active { active_since }
                } else {
                    DebouncedIdleState::ActiveGoingToIdle {
                        active_since,
                        transitioning_since: check_time,
                    }
                }
            },
            DebouncedIdleState::ActiveGoingToIdle { active_since, transitioning_since } => {
                if raw_idle_seconds == 0 {
                    DebouncedIdleState::Active { active_since }
                } else if raw_idle_seconds <= TRANSITION_THRESHOLD_SECS {
                    DebouncedIdleState::ActiveGoingToIdle { active_since, transitioning_since }
                } else {
                    DebouncedIdleState::Idle { idle_since: check_time }
                }
            },
            DebouncedIdleState::IdleGoingToActive { idle_since, transitioning_since } => {
                if transitioning_since <= check_time - TRANSITION_THRESHOLD_SECS * 1000 {
                    if raw_idle_seconds <= END_OF_ACTIVE_PUSHING_TRANSITION_WINDOW {
                        DebouncedIdleState::Active { active_since: check_time }
                    } else {
                        DebouncedIdleState::Idle { idle_since }
                    }
                } else {
                    DebouncedIdleState::IdleGoingToActive { idle_since, transitioning_since }
                }
            },
            DebouncedIdleState::Idle { idle_since } => {
                if raw_idle_seconds == 0 {
                    DebouncedIdleState::IdleGoingToActive {
                        idle_since,
                        transitioning_since: check_time,
                    }
                } else {
                    DebouncedIdleState::Idle { idle_since }
                }
            },
        }
    }
}

/// One sample handed to the debouncer: the raw idle reading, the time since
/// the previous sample, and the sample's wall-clock time.
pub struct DebounceSample {
    pub raw_idle_seconds: u64,
    pub elapsed_millis: i64,
    pub check_time: i64,
}

/// The debounced state after a whole run of samples, applied in order.
pub open spec fn spec_debounced_run(
    start: DebouncedIdleState,
    samples: Seq<DebounceSample>,
    reading_mode: bool,
    in_break: bool,
) -> DebouncedIdleState
    decreases samples.len(),
{
    if samples.len() == 0 {
        start
    } else {
        spec_debounced_run(
            spec_debounced(
                samples[0].raw_idle_seconds,
                start,
                samples[0].elapsed_millis,
                samples[0].check_time,
                reading_mode,
                in_break,
            ),
            samples.drop_first(),
            reading_mode,
            in_break,
        )
    }
}

/// Debounce stability: starting from a settled `Active` state, a run of
/// all-zero idle readings whose gaps stay at or below the frame-drop cutoff
/// never moves the debounced state away from that `Active` state.
pub proof fn lemma_active_stable_under_zero_readings(
    start: DebouncedIdleState,
    samples: Seq<DebounceSample>,
    reading_mode: bool,
    in_break: bool,
)
    requires
        start matches DebouncedIdleState::Active { .. },
        forall|i: int|
            0 <= i < samples.len() ==> (#[trigger] samples[i]).raw_idle_seconds == 0
                && samples[i].elapsed_millis <= FRAME_DROP_CUTOFF_POINT_SECS * 1000,
    ensures
        spec_debounced_run(start, samples, reading_mode, in_break) == start,
    decreases samples.len(),
{
    if samples.len() > 0 {
        assert(spec_debounced(
            samples[0].raw_idle_seconds,
            start,
            samples[0].elapsed_millis,
            samples[0].check_time,
            reading_mode,
            in_break,
        ) == start);
        assert(forall|i: int|
            0 <= i < samples.drop_first().len() ==> #[trigger] samples.drop_first()[i]
                == samples[i + 1]);
        lemma_active_stable_under_zero_readings(
            start,
            samples.drop_first(),
            reading_mode,
            in_break,
        );
    }
}

/// Frame-drop recovery: from an active-ish state, a gap above the cutoff
/// forces `Idle` at the sample time, whatever the raw idle reading says.
pub proof fn lemma_frame_drop_forces_idle(
    raw_idle_seconds: u64,
    prev: DebouncedIdleState,
    elapsed_millis: i64,
    check_time: i64,
    reading_mode: bool,
    in_break: bool,
)
    requires
        prev.spec_is_user_active(),
        elapsed_millis > FRAME_DROP_CUTOFF_POINT_SECS * 1000,
    ensures
        spec_debounced(raw_idle_seconds, prev, elapsed_millis, check_time, reading_mode, in_break)
            == (DebouncedIdleState::Idle { idle_since: check_time }),
{
}

/// Executable debounce step; see [`spec_debounced`] for the rules.
pub fn make_debounced_idle_state(
    idle_since_seconds: u64,
    last_idle_state: DebouncedIdleState,
    time_since_last_check: i64,
    check_time: i64,
    reading_mode: bool,
    in_break: bool,
) -> (next: DebouncedIdleState)
    requires
        0 <= check_time <= MAX_TIMESTAMP_MILLIS,
    ensures
        next == spec_debounced(
            idle_since_seconds,
            last_idle_state,
            time_since_last_check,
            check_time,
            reading_mode,
            in_break,
        ),
{
    let frame_dropped = match last_idle_state {
        DebouncedIdleState::Active { .. } | DebouncedIdleState::ActiveGoingToIdle { .. } => {
            time_since_last_check > FRAME_DROP_CUTOFF_POINT_SECS * 1000
        },
        _ => false,
    };
    if frame_dropped {
        DebouncedIdleState::Idle { idle_since: check_time }
    } else {
        let start_of_transition_period = check_time - (TRANSITION_THRESHOLD_SECS as i64) * 1000;
        match last_idle_state {
            DebouncedIdleState::Active { active_since } => {
                if idle_since_seconds == 0 {
                    DebouncedIdleState::Active { active_since }
                } else if reading_mode && !in_break {
                    DebouncedIdleState::Active { active_since }
                } else {
                    DebouncedIdleState::ActiveGoingToIdle {
                        active_since,
                        transitioning_since: check_time,
                    }
                }
            },
            DebouncedIdleState::ActiveGoingToIdle { active_since, transitioning_since } => {
                if idle_since_seconds == 0 {
                    DebouncedIdleState::Active { active_since }
                } else if idle_since_seconds <= TRANSITION_THRESHOLD_SECS {
                    DebouncedIdleState::ActiveGoingToIdle { active_since, transitioning_since }
                } else {
                    DebouncedIdleState::Idle { idle_since: check_time }
                }
            },
            DebouncedIdleState::IdleGoingToActive { idle_since, transitioning_since } => {
                if transitioning_since <= start_of_transition_period {
                    if idle_since_seconds <= END_OF_ACTIVE_PUSHING_TRANSITION_WINDOW {
                        DebouncedIdleState::Active { active_since: check_time }
                    } else {
                        DebouncedIdleState::Idle { idle_since }
                    }
                } else {
                    DebouncedIdleState::IdleGoingToActive { idle_since, transitioning_since }
                }
            },
            DebouncedIdleState::Idle { idle_since } => {
                if idle_since_seconds == 0 {
                    DebouncedIdleState::IdleGoingToActive {
                        idle_since,
                        transitioning_since: check_time,
                    }
                } else {
                    DebouncedIdleState::Idle { idle_since }
                }
            },
        }
    }
}

} // verus!
