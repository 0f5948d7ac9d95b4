//! The scheduler loop, as a step function.
//!
//! The loop that owns the socket blocks with a timeout, and hands each thing
//! that ends the wait to the scheduler: a datagram, the timeout, or an
//! interruption. The scheduler answers with a [`Step`]: the reply to send,
//! what to log, and whether to block again (and for how long) or to leave
//! the phase. All decisions are made here; the caller only performs them.

use crate::channel::ReplyChannel;
use crate::command::{
    decode_keyword, decode_minutes, decoded_keyword, decoded_minutes, lemma_keyword_round_trip,
    lemma_minutes_round_trip, Command, DecodeError, Keyword, Reply,
};
use crate::text::decimal_digits;
use crate::config::Config;
use crate::time::{lemma_elapsed_monotonic, lemma_elapsed_zero, Timestamp};
use crate::timer::{Outcome, Phase, TimerState, SECS_PER_MINUTE};
use vstd::prelude::*;

verus! {

/// The seconds to wait for the second datagram of `set`. It does not depend
/// on the phase.
pub const SECONDARY_TIMEOUT_SECS: u64 = 3;

/// What the next datagram is taken to be.
#[derive(Clone, Copy, Debug, PartialEq, Eq, Structural)]
pub enum Awaiting {
    /// The keyword of a new command.
    Keyword,
    /// The minutes that complete a `set`.
    Minutes,
}

/// What a step has to tell the log.
#[derive(Clone, Copy, Debug, PartialEq, Eq, Structural)]
pub enum Notice {
    /// Nothing worth a line.
    Quiet,
    /// A command ended the phase early.
    PhaseSkipped,
    /// `set` took effect; the next break is due in this many seconds.
    TimerSet { seconds: u64 },
    /// `reset` took effect; the next break is due in this many seconds.
    TimerReset { seconds: u64 },
    /// An interrupted wait was taken for a wake-up from suspension and the
    /// timer was reset; the next break is due in this many seconds.
    SuspendReset { seconds: u64 },
    /// The minutes of a `set` did not arrive in time; nothing was set.
    SetAbandoned,
    /// The datagram spells no keyword; it was ignored.
    UnknownCommand,
    /// The keyword is not served in this phase; it was ignored.
    NotServed,
}

/// What the loop does after a step.
#[derive(Clone, Copy, Debug, PartialEq, Eq, Structural)]
pub enum Next {
    /// Block on the socket again, for at most this many seconds.
    Receive { timeout_secs: u64 },
    /// Leave the phase.
    Finish(Outcome),
}

/// The scheduler's answer to one event.
#[derive(Clone, Copy, Debug, PartialEq, Eq, Structural)]
pub struct Step {
    /// The reply to send to the sender of the datagram, if any.
    pub reply: Option<Reply>,
    /// A reply was owed, but the sender has no address to send it to.
    pub reply_dropped: bool,
    /// What to log.
    pub notice: Notice,
    /// What to do next.
    pub next: Next,
}

/// The state that the scheduler loop owns: the timer, and where it stands in
/// a two-datagram command.
#[derive(Clone, Copy, Debug, PartialEq, Eq, Structural)]
pub struct Scheduler {
    /// The timer state.
    pub timer: TimerState,
    /// What the next datagram is taken to be.
    pub awaiting: Awaiting,
}

/// A scheduler after a datagram, with the step or the decode failure.
pub struct Handled {
    /// The scheduler after the datagram.
    pub scheduler: Scheduler,
    /// The step to perform, or why the payload could not be decoded.
    pub result: Result<Step, DecodeError>,
}

/// A scheduler after an event that cannot fail, with the step.
pub struct Stepped {
    /// The scheduler after the event.
    pub scheduler: Scheduler,
    /// The step to perform.
    pub step: Step,
}

/// The command that a keyword stands for by itself, `set` left aside: it
/// needs its minutes first.
pub open spec fn plain_command(keyword: Keyword) -> Command {
    match keyword {
        Keyword::Break => Command::Break,
        Keyword::Reset => Command::Reset,
        Keyword::Get => Command::Get,
        Keyword::Skip => Command::Skip,
        Keyword::SetTimer => Command::SetTimer(0),
    }
}

/// Whether `keyword` is served in `phase`: all but `skip` while working,
/// only `skip` during a break.
pub open spec fn served_in(phase: Phase, keyword: Keyword) -> bool {
    match phase {
        Phase::Working => keyword != Keyword::Skip,
        Phase::Break => keyword == Keyword::Skip,
    }
}

/// What the log is told about a served keyword, given the state after it.
pub open spec fn notice_for(keyword: Keyword, after: TimerState) -> Notice {
    match keyword {
        Keyword::Break => Notice::PhaseSkipped,
        Keyword::Skip => Notice::PhaseSkipped,
        Keyword::Reset => Notice::TimerReset { seconds: after.work_duration },
        Keyword::Get => Notice::Quiet,
        Keyword::SetTimer => Notice::Quiet,
    }
}

impl Scheduler {
    /// What the loop does at `now` in state `timer`: leave the phase where
    /// it has ended, else block for what remains of it.
    pub open spec fn next_at(timer: TimerState, now: Timestamp) -> Next {
        match timer.outcome_at(now) {
            Some(outcome) => Next::Finish(outcome),
            None => Next::Receive { timeout_secs: timer.timeout_at(now) as u64 },
        }
    }

    /// The scheduler and the step after a datagram with `payload` arrives at
    /// `now`, from a sender that has a return address or has none.
    ///
    /// Awaiting a keyword: a payload that is not text is a decode failure and
    /// changes nothing. A word that is no keyword, and a keyword that the
    /// phase does not serve, are ignored. `set` makes the scheduler await the
    /// minutes, for the secondary timeout. Every other keyword is dispatched
    /// to the timer; its reply goes out only to a sender with an address.
    ///
    /// Awaiting the minutes: the payload completes the `set`, or is a decode
    /// failure that abandons it; either way a keyword is awaited next.
    pub open spec fn after_datagram(
        self,
        payload: Seq<u8>,
        sender_bound: bool,
        now: Timestamp,
    ) -> Handled {
        match self.awaiting {
            Awaiting::Keyword => match decoded_keyword(payload) {
                Err(e) => Handled { scheduler: self, result: Err(e) },
                Ok(None) => Handled {
                    scheduler: self,
                    result: Ok(
                        Step {
                            reply: None,
                            reply_dropped: false,
                            notice: Notice::UnknownCommand,
                            next: Self::next_at(self.timer, now),
                        },
                    ),
                },
                Ok(Some(keyword)) => if !served_in(self.timer.phase, keyword) {
                    Handled {
                        scheduler: self,
                        result: Ok(
                            Step {
                                reply: None,
                                reply_dropped: false,
                                notice: Notice::NotServed,
                                next: Self::next_at(self.timer, now),
                            },
                        ),
                    }
                } else if keyword == Keyword::SetTimer {
                    Handled {
                        scheduler: Scheduler { awaiting: Awaiting::Minutes, ..self },
                        result: Ok(
                            Step {
                                reply: None,
                                reply_dropped: false,
                                notice: Notice::Quiet,
                                next: Next::Receive { timeout_secs: SECONDARY_TIMEOUT_SECS },
                            },
                        ),
                    }
                } else {
                    let done = self.timer.dispatched(plain_command(keyword), now);
                    Handled {
                        scheduler: Scheduler { timer: done.state, ..self },
                        result: Ok(
                            Step {
                                reply: if sender_bound {
                                    done.reply
                                } else {
                                    None
                                },
                                reply_dropped: done.reply.is_some() && !sender_bound,
                                notice: notice_for(keyword, done.state),
                                next: Self::next_at(done.state, now),
                            },
                        ),
                    }
                },
            },
            Awaiting::Minutes => match decoded_minutes(payload) {
                Err(e) => Handled {
                    scheduler: Scheduler { awaiting: Awaiting::Keyword, ..self },
                    result: Err(e),
                },
                Ok(minutes) => {
                    let done = self.timer.dispatched(Command::SetTimer(minutes), now);
                    Handled {
                        scheduler: Scheduler { timer: done.state, awaiting: Awaiting::Keyword },
                        result: Ok(
                            Step {
                                reply: None,
                                reply_dropped: false,
                                notice: Notice::TimerSet { seconds: done.state.work_duration },
                                next: Self::next_at(done.state, now),
                            },
                        ),
                    }
                },
            },
        }
    }

    /// The scheduler and the step after the wait timed out at `now` with no
    /// datagram. This is no error. Where the minutes of a `set` were awaited,
    /// the `set` is abandoned and the timer is left as it was; the loop goes
    /// on in either case, unless the phase has run its length.
    pub open spec fn after_timeout(self, now: Timestamp) -> Stepped {
        Stepped {
            scheduler: Scheduler { awaiting: Awaiting::Keyword, ..self },
            step: Step {
                reply: None,
                reply_dropped: false,
                notice: match self.awaiting {
                    Awaiting::Keyword => Notice::Quiet,
                    Awaiting::Minutes => Notice::SetAbandoned,
                },
                next: Self::next_at(self.timer, now),
            },
        }
    }

    /// The scheduler and the step after the wait was interrupted at `now`.
    /// An interruption is taken for a wake-up from suspension and, while
    /// working, handled like `reset`: the configured interval is restored and
    /// the phase restarts at `now`. There is no sender and so no reply. During
    /// a break, where `reset` is not served, nothing changes.
    pub open spec fn after_interrupt(self, now: Timestamp) -> Stepped {
        match self.timer.phase {
            Phase::Working => {
                let timer = self.timer.restarted(now);
                Stepped {
                    scheduler: Scheduler { timer, awaiting: Awaiting::Keyword },
                    step: Step {
                        reply: None,
                        reply_dropped: false,
                        notice: Notice::SuspendReset { seconds: timer.work_duration },
                        next: Self::next_at(timer, now),
                    },
                }
            },
            Phase::Break => Stepped {
                scheduler: Scheduler { awaiting: Awaiting::Keyword, ..self },
                step: Step {
                    reply: None,
                    reply_dropped: false,
                    notice: Notice::Quiet,
                    next: Self::next_at(self.timer, now),
                },
            },
        }
    }

    /// A scheduler at the start of a working phase that begins at `now`.
    pub fn new(work_duration: u64, break_duration: u64, now: Timestamp) -> (s: Scheduler)
        ensures
            s.awaiting == Awaiting::Keyword,
            s.timer == (TimerState {
                phase: Phase::Working,
                work_duration,
                break_duration,
                default_work_duration: work_duration,
                phase_start: now,
                skip_requested: false,
            }),
    {
        Scheduler {
            timer: TimerState::new(work_duration, break_duration, now),
            awaiting: Awaiting::Keyword,
        }
    }

    /// The scheduler of a daemon that starts at `now` with `config`.
    pub fn from_config(config: &Config, now: Timestamp) -> (s: Scheduler)
        ensures
            s.awaiting == Awaiting::Keyword,
            s.timer == (TimerState {
                phase: Phase::Working,
                work_duration: config.break_interval,
                break_duration: config.break_duration,
                default_work_duration: config.break_interval,
                phase_start: now,
                skip_requested: false,
            }),
    {
        Scheduler { timer: TimerState::from_config(config, now), awaiting: Awaiting::Keyword }
    }

    /// The seconds to block for in the next wait: the secondary timeout while
    /// the minutes of a `set` are awaited, else what remains of the phase,
    /// and at least one second.
    pub fn receive_timeout(&self, now: Timestamp) -> (seconds: u64)
        ensures
            seconds >= 1,
            seconds == match self.awaiting {
                Awaiting::Keyword => self.timer.timeout_at(now) as u64,
                Awaiting::Minutes => SECONDARY_TIMEOUT_SECS,
            },
    {
        match self.awaiting {
            Awaiting::Keyword => self.timer.receive_timeout(now),
            Awaiting::Minutes => SECONDARY_TIMEOUT_SECS,
        }
    }

    /// What the loop does at `now`, apart from any event.
    fn next(timer: &TimerState, now: Timestamp) -> (next: Next)
        ensures
            next == Self::next_at(*timer, now),
    {
        match timer.outcome(now) {
            Some(outcome) => Next::Finish(outcome),
            None => Next::Receive { timeout_secs: timer.receive_timeout(now) },
        }
    }

    /// Handles a datagram that arrived at `now`. `sender` is the channel
    /// back to its sender, or `None` where the sender is unbound. A reply in
    /// the step is to be sent through that channel.
    pub fn on_datagram(
        &mut self,
        payload: &[u8],
        sender: &Option<ReplyChannel>,
        now: Timestamp,
    ) -> (r: Result<Step, DecodeError>)
        ensures
            *final(self) == old(self).after_datagram(payload@, sender.is_some(), now).scheduler,
            r == old(self).after_datagram(payload@, sender.is_some(), now).result,
    {
        let sender_bound: bool = sender.is_some();
        match self.awaiting {
            Awaiting::Keyword => {
                let keyword: Keyword = match decode_keyword(payload) {
                    Err(e) => {
                        return Err(e);
                    },
                    Ok(None) => {
                        return Ok(
                            Step {
                                reply: None,
                                reply_dropped: false,
                                notice: Notice::UnknownCommand,
                                next: Self::next(&self.timer, now),
                            },
                        );
                    },
                    Ok(Some(keyword)) => keyword,
                };
                let command: Command = match (self.timer.phase, keyword) {
                    (Phase::Working, Keyword::SetTimer) => {
                        self.awaiting = Awaiting::Minutes;
                        return Ok(
                            Step {
                                reply: None,
                                reply_dropped: false,
                                notice: Notice::Quiet,
                                next: Next::Receive { timeout_secs: SECONDARY_TIMEOUT_SECS },
                            },
                        );
                    },
                    (Phase::Working, Keyword::Break) => Command::Break,
                    (Phase::Working, Keyword::Reset) => Command::Reset,
                    (Phase::Working, Keyword::Get) => Command::Get,
                    (Phase::Break, Keyword::Skip) => Command::Skip,
                    _ => {
                        return Ok(
                            Step {
                                reply: None,
                                reply_dropped: false,
                                notice: Notice::NotServed,
                                next: Self::next(&self.timer, now),
                            },
                        );
                    },
                };
                let owed: Option<Reply> = self.timer.dispatch(command, now);
                let notice: Notice = match keyword {
                    Keyword::Break => Notice::PhaseSkipped,
                    Keyword::Skip => Notice::PhaseSkipped,
                    Keyword::Reset => Notice::TimerReset { seconds: self.timer.work_duration },
                    _ => Notice::Quiet,
                };
                let dropped: bool = owed.is_some() && !sender_bound;
                Ok(
                    Step {
                        reply: if sender_bound {
                            owed
                        } else {
                            None
                        },
                        reply_dropped: dropped,
                        notice,
                        next: Self::next(&self.timer, now),
                    },
                )
            },
            Awaiting::Minutes => {
                self.awaiting = Awaiting::Keyword;
                match decode_minutes(payload) {
                    Err(e) => Err(e),
                    Ok(minutes) => {
                        self.timer.dispatch(Command::SetTimer(minutes), now);
                        Ok(
                            Step {
                                reply: None,
                                reply_dropped: false,
                                notice: Notice::TimerSet { seconds: self.timer.work_duration },
                                next: Self::next(&self.timer, now),
                            },
                        )
                    },
                }
            },
        }
    }

    /// Handles the end of a wait that timed out at `now`.
    pub fn on_timeout(&mut self, now: Timestamp) -> (step: Step)
        ensures
            *final(self) == old(self).after_timeout(now).scheduler,
            step == old(self).after_timeout(now).step,
    {
        let notice: Notice = match self.awaiting {
            Awaiting::Keyword => Notice::Quiet,
            Awaiting::Minutes => Notice::SetAbandoned,
        };
        self.awaiting = Awaiting::Keyword;
        Step { reply: None, reply_dropped: false, notice, next: Self::next(&self.timer, now) }
    }

    /// Handles a wait that was interrupted at `now`.
    pub fn on_interrupt(&mut self, now: Timestamp) -> (step: Step)
        ensures
            *final(self) == old(self).after_interrupt(now).scheduler,
            step == old(self).after_interrupt(now).step,
    {
        self.awaiting = Awaiting::Keyword;
        match self.timer.phase {
            Phase::Working => {
                self.timer.restart(now);
                Step {
                    reply: None,
                    reply_dropped: false,
                    notice: Notice::SuspendReset { seconds: self.timer.work_duration },
                    next: Self::next(&self.timer, now),
                }
            },
            Phase::Break => Step {
                reply: None,
                reply_dropped: false,
                notice: Notice::Quiet,
                next: Self::next(&self.timer, now),
            },
        }
    }

    /// Leaves the current phase and enters the next one at `now`; a keyword
    /// is awaited first. Returns how the phase that ends was ended.
    pub fn advance(&mut self, now: Timestamp) -> (outcome: Outcome)
        ensures
            final(self).timer == old(self).timer.advanced(now),
            final(self).awaiting == Awaiting::Keyword,
            outcome == if old(self).timer.skip_requested {
                Outcome::Skipped
            } else {
                Outcome::NaturalExpiry
            },
    {
        self.awaiting = Awaiting::Keyword;
        self.timer.advance(now)
    }
}

/// Every wait that the scheduler asks for lasts at least one second, and
/// no event changes the phase, the length of the break or the configured
/// interval: only the interval in force and the start of the phase move.
pub proof fn lemma_steps_keep_configuration(
    scheduler: Scheduler,
    payload: Seq<u8>,
    sender_bound: bool,
    now: Timestamp,
)
    ensures
        ({
            let handled = scheduler.after_datagram(payload, sender_bound, now);
            let lapsed = scheduler.after_timeout(now);
            let woken = scheduler.after_interrupt(now);
            &&& handled.scheduler.timer.phase == scheduler.timer.phase
            &&& handled.scheduler.timer.break_duration == scheduler.timer.break_duration
            &&& handled.scheduler.timer.default_work_duration
                == scheduler.timer.default_work_duration
            &&& lapsed.scheduler.timer == scheduler.timer
            &&& woken.scheduler.timer.phase == scheduler.timer.phase
            &&& woken.scheduler.timer.break_duration == scheduler.timer.break_duration
            &&& woken.scheduler.timer.default_work_duration
                == scheduler.timer.default_work_duration
            &&& handled.result matches Ok(step) ==> (step.next matches Next::Receive {
                timeout_secs,
            } ==> timeout_secs >= 1)
            &&& lapsed.step.next matches Next::Receive { timeout_secs } ==> timeout_secs >= 1
            &&& woken.step.next matches Next::Receive { timeout_secs } ==> timeout_secs >= 1
        }),
{
}

/// Break short-circuit, on the wire: while working and awaiting a keyword, a
/// datagram whose first word is `break` makes the loop leave the phase as
/// skipped, whatever remains of it and whoever sent it, and no reply goes
/// out.
pub proof fn lemma_break_datagram_ends_work(
    scheduler: Scheduler,
    payload: Seq<u8>,
    sender_bound: bool,
    now: Timestamp,
)
    requires
        scheduler.timer.phase == Phase::Working,
        scheduler.awaiting == Awaiting::Keyword,
        decoded_keyword(payload) == Ok::<Option<Keyword>, DecodeError>(Some(Keyword::Break)),
    ensures
        ({
            let handled = scheduler.after_datagram(payload, sender_bound, now);
            &&& handled.result matches Ok(step)
            &&& step.reply.is_none()
            &&& !step.reply_dropped
            &&& step.next == Next::Finish(Outcome::Skipped)
        }),
{
}

/// Unbound-sender safety: a `get` from a sender without a return address is
/// no failure. No reply goes out, the drop is reported for the log, the
/// scheduler is left exactly as it was, and the loop goes on as it would
/// have without the datagram.
pub proof fn lemma_unbound_get_is_harmless(scheduler: Scheduler, payload: Seq<u8>, now: Timestamp)
    requires
        scheduler.timer.phase == Phase::Working,
        scheduler.awaiting == Awaiting::Keyword,
        decoded_keyword(payload) == Ok::<Option<Keyword>, DecodeError>(Some(Keyword::Get)),
    ensures
        ({
            let handled = scheduler.after_datagram(payload, false, now);
            &&& handled.scheduler == scheduler
            &&& handled.result matches Ok(step)
            &&& step.reply.is_none()
            &&& step.reply_dropped
            &&& step.next == Scheduler::next_at(scheduler.timer, now)
            &&& step.next == scheduler.after_timeout(now).step.next
        }),
{
}

/// No datagram from a sender without a return address is ever answered, and
/// a reply is reported as dropped exactly where one was owed.
pub proof fn lemma_unbound_sender_gets_no_reply(
    scheduler: Scheduler,
    payload: Seq<u8>,
    now: Timestamp,
)
    ensures
        ({
            let unbound = scheduler.after_datagram(payload, false, now);
            let bound = scheduler.after_datagram(payload, true, now);
            &&& unbound.scheduler == bound.scheduler
            &&& unbound.result is Ok <==> bound.result is Ok
            &&& unbound.result matches Ok(step) ==> step.reply.is_none() && (step.reply_dropped
                <==> bound.result.unwrap().reply.is_some())
        }),
{
}

/// Timeout monotonicity, on the wire: while working, a datagram whose first
/// word is `get` leaves the scheduler as it is, so any run of them is
/// answered from the same state; and of two such datagrams the later is
/// never answered with more seconds than the earlier.
pub proof fn lemma_get_datagrams_never_increase(
    scheduler: Scheduler,
    earlier_payload: Seq<u8>,
    later_payload: Seq<u8>,
    earlier: Timestamp,
    later: Timestamp,
)
    requires
        scheduler.timer.phase == Phase::Working,
        scheduler.awaiting == Awaiting::Keyword,
        decoded_keyword(earlier_payload) == Ok::<Option<Keyword>, DecodeError>(
            Some(Keyword::Get),
        ),
        decoded_keyword(later_payload) == Ok::<Option<Keyword>, DecodeError>(Some(Keyword::Get)),
        earlier@ <= later@,
    ensures
        ({
            let first = scheduler.after_datagram(earlier_payload, true, earlier);
            let second = first.scheduler.after_datagram(later_payload, true, later);
            &&& first.scheduler == scheduler
            &&& second.scheduler == scheduler
            &&& first.result matches Ok(one)
            &&& second.result matches Ok(two)
            &&& one.reply matches Some(before)
            &&& two.reply matches Some(after)
            &&& before.seconds == scheduler.timer.remaining_at(earlier)
            &&& after.seconds == scheduler.timer.remaining_at(later)
            &&& after.seconds <= before.seconds
        }),
{
    lemma_elapsed_monotonic(scheduler.timer.phase_start, earlier, later);
}

/// Suspend heuristic: an interrupted wait during the working phase restarts
/// the phase at `now` with the configured interval, and a `get` that follows
/// at the same reading reports the whole interval.
pub proof fn lemma_interrupt_resets_timer(
    scheduler: Scheduler,
    payload: Seq<u8>,
    sender_bound: bool,
    now: Timestamp,
)
    requires
        scheduler.timer.phase == Phase::Working,
        decoded_keyword(payload) == Ok::<Option<Keyword>, DecodeError>(Some(Keyword::Get)),
    ensures
        ({
            let woken = scheduler.after_interrupt(now);
            let asked = woken.scheduler.after_datagram(payload, sender_bound, now);
            &&& woken.scheduler.timer.phase_start == now
            &&& woken.scheduler.timer.work_duration == scheduler.timer.default_work_duration
            &&& woken.scheduler.awaiting == Awaiting::Keyword
            &&& woken.step.reply.is_none()
            &&& asked.result matches Ok(step)
            &&& sender_bound ==> step.reply == Some(
                Reply { seconds: woken.scheduler.timer.work_duration },
            )
        }),
{
    lemma_elapsed_zero(now);
}

/// A `set` whose minutes do not arrive in time leaves the timer untouched,
/// and the loop goes on.
pub proof fn lemma_abandoned_set_changes_nothing(
    scheduler: Scheduler,
    payload: Seq<u8>,
    sender_bound: bool,
    at: Timestamp,
    later: Timestamp,
)
    requires
        scheduler.timer.phase == Phase::Working,
        scheduler.awaiting == Awaiting::Keyword,
        decoded_keyword(payload) == Ok::<Option<Keyword>, DecodeError>(Some(Keyword::SetTimer)),
    ensures
        ({
            let asked = scheduler.after_datagram(payload, sender_bound, at);
            let lapsed = asked.scheduler.after_timeout(later);
            &&& asked.result matches Ok(step)
            &&& step.next == (Next::Receive { timeout_secs: SECONDARY_TIMEOUT_SECS })
            &&& lapsed.scheduler == scheduler
            &&& lapsed.step.notice == Notice::SetAbandoned
            &&& lapsed.step.next == Scheduler::next_at(scheduler.timer, later)
        }),
{
}

/// The two datagrams of `set` together have the effect of the command: the
/// interval is the minutes times sixty, counted from the arrival of the
/// second datagram.
pub proof fn lemma_set_takes_two_datagrams(
    scheduler: Scheduler,
    first: Seq<u8>,
    second: Seq<u8>,
    minutes: u16,
    sender_bound: bool,
    at: Timestamp,
    later: Timestamp,
)
    requires
        scheduler.timer.phase == Phase::Working,
        scheduler.awaiting == Awaiting::Keyword,
        decoded_keyword(first) == Ok::<Option<Keyword>, DecodeError>(Some(Keyword::SetTimer)),
        decoded_minutes(second) == Ok::<u16, DecodeError>(minutes),
    ensures
        ({
            let asked = scheduler.after_datagram(first, sender_bound, at);
            let done = asked.scheduler.after_datagram(second, sender_bound, later);
            &&& asked.scheduler.timer == scheduler.timer
            &&& done.scheduler.awaiting == Awaiting::Keyword
            &&& done.scheduler.timer == scheduler.timer.dispatched(
                Command::SetTimer(minutes),
                later,
            ).state
            &&& done.scheduler.timer.work_duration == minutes * SECS_PER_MINUTE
            &&& done.scheduler.timer.phase_start == later
            &&& done.result matches Ok(step)
            &&& step.reply.is_none()
        }),
{
}

/// The client and the daemon agree on the wire: the datagrams that the
/// codec writes for a command have, on arrival, exactly the effect of the
/// command on the timer, and its reply goes to a sender with an address.
/// The keyword arrives at `at`; the minutes of `set` arrive at `later`, and
/// it is their arrival that counts.
pub proof fn lemma_wire_carries_commands(
    scheduler: Scheduler,
    command: Command,
    sender_bound: bool,
    at: Timestamp,
    later: Timestamp,
)
    requires
        scheduler.awaiting == Awaiting::Keyword,
        served_in(scheduler.timer.phase, command.keyword_of()),
    ensures
        ({
            let first = scheduler.after_datagram(command.keyword_of().wire(), sender_bound, at);
            match command {
                Command::SetTimer(minutes) => {
                    let second = first.scheduler.after_datagram(
                        decimal_digits(minutes as nat),
                        sender_bound,
                        later,
                    );
                    &&& first.result is Ok
                    &&& first.scheduler.timer == scheduler.timer
                    &&& second.result matches Ok(step)
                    &&& step.reply.is_none()
                    &&& second.scheduler.timer == scheduler.timer.dispatched(command, later).state
                    &&& second.scheduler.awaiting == Awaiting::Keyword
                },
                _ => {
                    &&& first.result matches Ok(step)
                    &&& first.scheduler.timer == scheduler.timer.dispatched(command, at).state
                    &&& first.scheduler.awaiting == Awaiting::Keyword
                    &&& sender_bound ==> step.reply == scheduler.timer.dispatched(
                        command,
                        at,
                    ).reply
                    &&& !sender_bound ==> step.reply.is_none()
                },
            }
        }),
{
    lemma_keyword_round_trip(command.keyword_of());
    match command {
        Command::SetTimer(minutes) => {
            lemma_minutes_round_trip(minutes);
        },
        _ => {},
    }
}

} // verus!
