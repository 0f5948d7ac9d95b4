//! The timer state and the effect of each command on it.
//!
//! The daemon alternates between a working phase and a break phase. The
//! state records which phase runs, how long each lasts and when the current
//! one began. A command is a pure step from a state and a clock reading to a
//! new state and, for some commands, a reply; no transport is needed to
//! exercise it.

use crate::command::{Command, Reply};
use crate::config::Config;
use crate::time::{
    elapsed_secs, lemma_elapsed_bound, lemma_elapsed_monotonic, lemma_elapsed_zero, Timestamp,
    NANOS_PER_SEC,
};
use vstd::prelude::*;

verus! {

/// Seconds in one minute.
pub const SECS_PER_MINUTE: u64 = 60;

/// The two phases of the cycle.
#[derive(Clone, Copy, Debug, PartialEq, Eq, Structural)]
pub enum Phase {
    /// Work time: waiting until the next break is due.
    Working,
    /// Break time: waiting until work resumes.
    Break,
}

/// How a phase came to its end.
#[derive(Clone, Copy, Debug, PartialEq, Eq, Structural)]
pub enum Outcome {
    /// The phase ran for its whole length.
    NaturalExpiry,
    /// A command ended the phase early.
    Skipped,
}

/// The timer: the phase that runs, the configured lengths, and the start of
/// the current phase.
#[derive(Clone, Copy, Debug, PartialEq, Eq, Structural)]
pub struct TimerState {
    /// The phase that runs now.
    pub phase: Phase,
    /// Seconds of work before the next break; `set` and `reset` change it.
    pub work_duration: u64,
    /// Seconds that a break lasts; fixed once the timer is made.
    pub break_duration: u64,
    /// The configured seconds of work, to which `reset` returns.
    pub default_work_duration: u64,
    /// When the current phase began, or was last restarted.
    pub phase_start: Timestamp,
    /// Whether a command has ended the current phase early.
    pub skip_requested: bool,
}

/// A state after a command, with the reply that the command calls for.
pub struct Dispatched {
    /// The state after the command.
    pub state: TimerState,
    /// The reply owed to the sender, if the command has one.
    pub reply: Option<Reply>,
}

impl TimerState {
    /// The length in seconds of the phase that runs.
    pub open spec fn phase_length(self) -> nat {
        match self.phase {
            Phase::Working => self.work_duration as nat,
            Phase::Break => self.break_duration as nat,
        }
    }

    /// Whole seconds of the current phase that have passed at `now`.
    pub open spec fn elapsed_at(self, now: Timestamp) -> nat {
        elapsed_secs(self.phase_start, now)
    }

    /// Seconds that remain in the current phase at `now`; zero once the
    /// phase has run its length.
    pub open spec fn remaining_at(self, now: Timestamp) -> nat {
        if self.phase_length() >= self.elapsed_at(now) {
            (self.phase_length() - self.elapsed_at(now)) as nat
        } else {
            0
        }
    }

    /// Whether the current phase has run its whole length at `now`.
    pub open spec fn expired_at(self, now: Timestamp) -> bool {
        self.elapsed_at(now) >= self.phase_length()
    }

    /// The seconds to block for at `now`: what remains of the phase, and at
    /// least one second, so that the timeout is always valid.
    pub open spec fn timeout_at(self, now: Timestamp) -> nat {
        if self.remaining_at(now) >= 1 {
            self.remaining_at(now)
        } else {
            1
        }
    }

    /// The state with the configured interval restored and the phase
    /// restarted at `now`.
    pub open spec fn restarted(self, now: Timestamp) -> TimerState {
        TimerState { work_duration: self.default_work_duration, phase_start: now, ..self }
    }

    /// The state and reply after `command` arrives at `now`.
    ///
    /// While working: `break` asks for the phase to end; `set` takes the
    /// minutes as the new interval and restarts the phase; `reset` restores
    /// the configured interval, restarts the phase and replies with the
    /// interval; `get` replies with the seconds that remain; `skip` does
    /// nothing. During a break only `skip` counts: it asks for the break
    /// to end.
    pub open spec fn dispatched(self, command: Command, now: Timestamp) -> Dispatched {
        match self.phase {
            Phase::Working => match command {
                Command::Break => Dispatched {
                    state: TimerState { skip_requested: true, ..self },
                    reply: None,
                },
                Command::SetTimer(minutes) => Dispatched {
                    state: TimerState {
                        work_duration: (minutes * SECS_PER_MINUTE) as u64,
                        phase_start: now,
                        ..self
                    },
                    reply: None,
                },
                Command::Reset => Dispatched {
                    state: self.restarted(now),
                    reply: Some(Reply { seconds: self.default_work_duration }),
                },
                Command::Get => Dispatched {
                    state: self,
                    reply: Some(Reply { seconds: self.remaining_at(now) as u64 }),
                },
                Command::Skip => Dispatched { state: self, reply: None },
            },
            Phase::Break => match command {
                Command::Skip => Dispatched {
                    state: TimerState { skip_requested: true, ..self },
                    reply: None,
                },
                _ => Dispatched { state: self, reply: None },
            },
        }
    }

    /// How the current phase ends at `now`, if it does: early where a
    /// command asked for it, naturally where it has run its length.
    pub open spec fn outcome_at(self, now: Timestamp) -> Option<Outcome> {
        if self.skip_requested {
            Some(Outcome::Skipped)
        } else if self.expired_at(now) {
            Some(Outcome::NaturalExpiry)
        } else {
            None
        }
    }

    /// The state at the start of the next phase, entered at `now`: the other
    /// phase, the early-end request cleared, and each working phase back at
    /// the configured interval.
    pub open spec fn advanced(self, now: Timestamp) -> TimerState {
        TimerState {
            phase: match self.phase {
                Phase::Working => Phase::Break,
                Phase::Break => Phase::Working,
            },
            work_duration: self.default_work_duration,
            phase_start: now,
            skip_requested: false,
            ..self
        }
    }

    /// A timer at the start of a working phase that begins at `now`.
    pub fn new(work_duration: u64, break_duration: u64, now: Timestamp) -> (state: TimerState)
        ensures
            state == (TimerState {
                phase: Phase::Working,
                work_duration,
                break_duration,
                default_work_duration: work_duration,
                phase_start: now,
                skip_requested: false,
            }),
    {
        TimerState {
            phase: Phase::Working,
            work_duration,
            break_duration,
            default_work_duration: work_duration,
            phase_start: now,
            skip_requested: false,
        }
    }

    /// The timer of a daemon that starts at `now` with `config`: a working
    /// phase of the configured interval, breaks of the configured length.
    pub fn from_config(config: &Config, now: Timestamp) -> (state: TimerState)
        ensures
            state == (TimerState {
                phase: Phase::Working,
                work_duration: config.break_interval,
                break_duration: config.break_duration,
                default_work_duration: config.break_interval,
                phase_start: now,
                skip_requested: false,
            }),
    {
        TimerState::new(config.break_interval, config.break_duration, now)
    }

    /// The length in seconds of the phase that runs.
    pub fn current_length(&self) -> (length: u64)
        ensures
            length == self.phase_length(),
    {
        match self.phase {
            Phase::Working => self.work_duration,
            Phase::Break => self.break_duration,
        }
    }

    /// Whole seconds of the current phase that have passed at `now`.
    pub fn elapsed(&self, now: Timestamp) -> (seconds: u64)
        ensures
            seconds == self.elapsed_at(now),
    {
        now.seconds_since(self.phase_start)
    }

    /// Seconds that remain in the current phase at `now`, floored at zero.
    pub fn remaining(&self, now: Timestamp) -> (seconds: u64)
        ensures
            seconds == self.remaining_at(now),
    {
        let length: u64 = self.current_length();
        let elapsed: u64 = self.elapsed(now);
        if length >= elapsed {
            length - elapsed
        } else {
            0
        }
    }

    /// Whether the current phase has run its whole length at `now`.
    pub fn is_expired(&self, now: Timestamp) -> (expired: bool)
        ensures
            expired == self.expired_at(now),
    {
        self.elapsed(now) >= self.current_length()
    }

    /// The seconds to block for at `now`: what remains, and at least one.
    pub fn receive_timeout(&self, now: Timestamp) -> (seconds: u64)
        ensures
            seconds == self.timeout_at(now),
            seconds >= 1,
    {
        let remaining: u64 = self.remaining(now);
        if remaining >= 1 {
            remaining
        } else {
            1
        }
    }

    /// Restores the configured interval and restarts the phase at `now`.
    pub fn restart(&mut self, now: Timestamp)
        ensures
            *final(self) == old(self).restarted(now),
    {
        self.work_duration = self.default_work_duration;
        self.phase_start = now;
    }

    /// Applies `command`, arriving at `now`, and returns the reply that it
    /// calls for.
    pub fn dispatch(&mut self, command: Command, now: Timestamp) -> (reply: Option<Reply>)
        ensures
            *final(self) == old(self).dispatched(command, now).state,
            reply == old(self).dispatched(command, now).reply,
    {
        match self.phase {
            Phase::Working => match command {
                Command::Break => {
                    self.skip_requested = true;
                    None
                },
                Command::SetTimer(minutes) => {
                    self.work_duration = (minutes as u64) * SECS_PER_MINUTE;
                    self.phase_start = now;
                    None
                },
                Command::Reset => {
                    self.restart(now);
                    Some(Reply { seconds: self.work_duration })
                },
                Command::Get => Some(Reply { seconds: self.remaining(now) }),
                Command::Skip => None,
            },
            Phase::Break => match command {
                Command::Skip => {
                    self.skip_requested = true;
                    None
                },
                _ => None,
            },
        }
    }

    /// How the current phase ends at `now`, if it does.
    pub fn outcome(&self, now: Timestamp) -> (outcome: Option<Outcome>)
        ensures
            outcome == self.outcome_at(now),
    {
        if self.skip_requested {
            Some(Outcome::Skipped)
        } else if self.is_expired(now) {
            Some(Outcome::NaturalExpiry)
        } else {
            None
        }
    }

    /// Leaves the current phase and enters the next one at `now`. Returns
    /// how the phase that ends was ended, and clears the request.
    pub fn advance(&mut self, now: Timestamp) -> (outcome: Outcome)
        ensures
            *final(self) == old(self).advanced(now),
            outcome == if old(self).skip_requested {
                Outcome::Skipped
            } else {
                Outcome::NaturalExpiry
            },
    {
        let outcome: Outcome = if self.skip_requested {
            Outcome::Skipped
        } else {
            Outcome::NaturalExpiry
        };
        self.phase = match self.phase {
            Phase::Working => Phase::Break,
            Phase::Break => Phase::Working,
        };
        self.work_duration = self.default_work_duration;
        self.phase_start = now;
        self.skip_requested = false;
        outcome
    }
}

/// The seconds that the `index`-th of a run of `get` commands reports, each
/// arriving at its own clock reading.
pub open spec fn get_reply(state: TimerState, times: Seq<Timestamp>, index: int) -> nat {
    state.dispatched(Command::Get, times[index]).reply.unwrap().seconds as nat
}

/// Timeout monotonicity: while working, with no `set` or `reset` in
/// between, `get` leaves the state as it is, and a later `get` never
/// reports more than an earlier one.
pub proof fn lemma_get_replies_never_increase(state: TimerState, times: Seq<Timestamp>)
    requires
        state.phase == Phase::Working,
        forall|i: int, j: int| 0 <= i <= j < times.len() ==> times[i]@ <= times[j]@,
    ensures
        forall|i: int|
            0 <= i < times.len() ==> (#[trigger] state.dispatched(Command::Get, times[i])).state
                == state,
        forall|i: int, j: int|
            0 <= i <= j < times.len() ==> get_reply(state, times, j) <= get_reply(
                state,
                times,
                i,
            ),
{
    assert forall|i: int, j: int| 0 <= i <= j < times.len() implies get_reply(state, times, j)
        <= get_reply(state, times, i) by {
        lemma_elapsed_monotonic(state.phase_start, times[i], times[j]);
    }
}

/// `set` takes effect at once: a `get` that arrives less than `slack + 1`
/// seconds after `set` reports the new interval, short of at most `slack`
/// seconds.
pub proof fn lemma_set_then_get(
    state: TimerState,
    minutes: u16,
    at: Timestamp,
    later: Timestamp,
    slack: nat,
)
    requires
        state.phase == Phase::Working,
        at@ <= later@ < at@ + (slack + 1) * (NANOS_PER_SEC as nat),
    ensures
        ({
            let set = state.dispatched(Command::SetTimer(minutes), at);
            let get = set.state.dispatched(Command::Get, later);
            &&& set.reply.is_none()
            &&& set.state.work_duration == minutes * 60
            &&& get.reply.is_some()
            &&& get.reply.unwrap().seconds <= minutes * 60
            &&& get.reply.unwrap().seconds + slack >= minutes * 60
        }),
{
    lemma_elapsed_bound(at, later, slack);
}

/// The state after a run of `set` commands, each with its minutes and its
/// clock reading.
pub open spec fn after_sets(state: TimerState, sets: Seq<(u16, Timestamp)>) -> TimerState
    decreases sets.len(),
{
    if sets.len() == 0 {
        state
    } else {
        after_sets(state, sets.drop_last()).dispatched(
            Command::SetTimer(sets.last().0),
            sets.last().1,
        ).state
    }
}

/// No run of `set` commands touches the phase, the break length or the
/// configured interval.
pub proof fn lemma_sets_keep_configuration(state: TimerState, sets: Seq<(u16, Timestamp)>)
    ensures
        after_sets(state, sets).phase == state.phase,
        after_sets(state, sets).break_duration == state.break_duration,
        after_sets(state, sets).default_work_duration == state.default_work_duration,
        after_sets(state, sets).skip_requested == state.skip_requested,
    decreases sets.len(),
{
    if sets.len() > 0 {
        lemma_sets_keep_configuration(state, sets.drop_last());
    }
}

/// Reset restores the default: after any run of `set` commands, `reset`
/// replies with the configured interval, and a `get` that arrives less than
/// `slack + 1` seconds later reports it, short of at most `slack` seconds.
pub proof fn lemma_reset_restores_default(
    state: TimerState,
    sets: Seq<(u16, Timestamp)>,
    at: Timestamp,
    later: Timestamp,
    slack: nat,
)
    requires
        state.phase == Phase::Working,
        at@ <= later@ < at@ + (slack + 1) * (NANOS_PER_SEC as nat),
    ensures
        ({
            let reset = after_sets(state, sets).dispatched(Command::Reset, at);
            let get = reset.state.dispatched(Command::Get, later);
            &&& reset.reply == Some(Reply { seconds: state.default_work_duration })
            &&& reset.state.work_duration == state.default_work_duration
            &&& reset.state.phase_start == at
            &&& get.reply.is_some()
            &&& get.reply.unwrap().seconds <= state.default_work_duration
            &&& get.reply.unwrap().seconds + slack >= state.default_work_duration
        }),
{
    lemma_sets_keep_configuration(state, sets);
    lemma_elapsed_bound(at, later, slack);
}

/// Break short-circuit: at any point of the working phase `break` ends the
/// phase as skipped, whether or not its length has run, changes nothing else
/// and calls for no reply.
pub proof fn lemma_break_ends_work(state: TimerState, now: Timestamp)
    requires
        state.phase == Phase::Working,
    ensures
        ({
            let after = state.dispatched(Command::Break, now);
            &&& after.reply.is_none()
            &&& after.state == (TimerState { skip_requested: true, ..state })
            &&& after.state.outcome_at(now) == Some(Outcome::Skipped)
        }),
{
}

/// Skip is to the break phase what `break` is to the working phase.
pub proof fn lemma_skip_ends_break(state: TimerState, now: Timestamp)
    requires
        state.phase == Phase::Break,
    ensures
        ({
            let after = state.dispatched(Command::Skip, now);
            &&& after.reply.is_none()
            &&& after.state == (TimerState { skip_requested: true, ..state })
            &&& after.state.outcome_at(now) == Some(Outcome::Skipped)
        }),
{
}

/// A restart at `now` leaves the whole configured interval: a `get` at the
/// same reading reports all of it.
pub proof fn lemma_restart_leaves_full_interval(state: TimerState, now: Timestamp)
    requires
        state.phase == Phase::Working,
    ensures
        state.restarted(now).phase_start == now,
        state.restarted(now).remaining_at(now) == state.default_work_duration,
        state.restarted(now).dispatched(Command::Get, now).reply == Some(
            Reply { seconds: state.default_work_duration },
        ),
{
    lemma_elapsed_zero(now);
}

/// The phases alternate for ever: every state has a next phase, and it is
/// the other one.
pub proof fn lemma_phases_alternate(state: TimerState, now: Timestamp)
    ensures
        state.advanced(now).phase != state.phase,
        state.advanced(now).advanced(now).phase == state.phase,
        state.advanced(now).break_duration == state.break_duration,
        state.advanced(now).default_work_duration == state.default_work_duration,
        !state.advanced(now).skip_requested,
{
}

} // verus!
