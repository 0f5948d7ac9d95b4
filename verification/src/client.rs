//! The command client: one short run that sends one command to the daemon.
//!
//! The client binds a throwaway reply socket, sends the keyword (and after
//! `set` the minutes), waits for the reply where the command has one, and
//! removes its socket again. The socket work is the caller's; which step
//! comes next, and how the run ends, is decided here, one event at a time.

use crate::command::{decode_reply, decoded_reply, Command, DecodeError, Keyword, Reply};
use crate::text::{
    all_digits, decimal_text, decimal_value, parse_decimal_u16, push_decimal, text_equals,
};
use vstd::prelude::*;
use vstd::string::StringExecFns;
use vstd::utf8::encode_utf8;

verus! {

/// The file name of the daemon's socket, below the runtime directory.
pub const SOCKET_NAME: &'static str = "wlbreaktime.socket";

/// The file name of the client's reply socket, below the runtime directory.
pub const HELPER_SOCKET_NAME: &'static str = "wlbreaktime-helper.socket";

/// The seconds that the client waits for a reply.
pub const REPLY_TIMEOUT_SECS: u64 = 3;

/// What the command line asks for.
#[derive(Clone, Copy, Debug, PartialEq, Eq, Structural)]
pub struct Request {
    /// The command to send.
    pub command: Command,
    /// Whether the reply is printed in whole minutes only.
    pub short: bool,
}

/// What is wrong with a command line.
#[derive(Clone, Copy, Debug, PartialEq, Eq, Structural)]
pub enum UsageError {
    /// No argument at all.
    NoArguments,
    /// More than a command and one argument.
    TooManyArguments,
    /// The first argument is none of `break`, `set`, `reset`, `get`, `skip`.
    UnknownCommand,
    /// `set` without the minutes.
    MissingMinutes,
    /// The minutes of `set` are no decimal number of 16 bits.
    InvalidMinutes,
    /// An argument after `break`, `reset` or `skip`.
    UnexpectedArgument,
}

/// Why a run of the client failed.
#[derive(Clone, Copy, Debug, PartialEq, Eq, Structural)]
pub enum ClientError {
    /// The reply socket could not be bound: at the first attempt for another
    /// reason than a socket left behind, or at the second attempt.
    BindFailed,
    /// A socket left behind by an earlier run could not be removed.
    StaleSocket,
    /// The daemon's socket does not exist: the daemon is not running.
    DaemonNotRunning,
    /// A datagram could not be sent.
    SendFailed,
    /// No reply arrived in time.
    NoReply,
    /// The wait for the reply failed.
    ReceiveFailed,
    /// The reply could not be decoded.
    BadReply(DecodeError),
    /// The client's own socket could not be removed at the end.
    CleanupFailed,
}

/// How far a run has come.
#[derive(Clone, Copy, Debug, PartialEq, Eq, Structural)]
pub enum Stage {
    /// The first attempt to bind the reply socket is under way.
    Binding,
    /// A socket left behind is being removed.
    Unlinking,
    /// The second attempt to bind the reply socket is under way.
    Rebinding,
    /// The keyword is being sent.
    SendingKeyword,
    /// The minutes of `set` are being sent.
    SendingMinutes,
    /// The reply is awaited.
    AwaitingReply,
    /// The client's own socket is being removed.
    Cleaning,
    /// The run is over.
    Done,
}

/// What happened to the step that the client asked for.
#[derive(Clone, Copy, Debug, PartialEq, Eq, Structural)]
pub enum ClientEvent {
    /// The reply socket is bound.
    Bound,
    /// The path of the reply socket is taken.
    AddressInUse,
    /// The bind failed for another reason.
    BindFailed,
    /// The socket file is removed.
    Removed,
    /// The socket file could not be removed.
    RemoveFailed,
    /// The datagram is sent.
    Sent,
    /// The daemon's socket does not exist.
    DaemonMissing,
    /// The send failed for another reason.
    SendFailed,
    /// No reply arrived in time.
    ReceiveTimedOut,
    /// The wait for the reply failed.
    ReceiveFailed,
}

/// The step that the client asks its caller to perform.
#[derive(Clone, Copy, Debug, PartialEq, Eq)]
pub enum ClientAction {
    /// Bind the reply socket.
    Bind,
    /// Remove the socket file that an earlier run left behind.
    RemoveStale,
    /// Send the keyword to the daemon.
    SendKeyword(Keyword),
    /// Send the minutes of `set` to the daemon.
    SendMinutes(u16),
    /// Wait for the reply, for at most this many seconds.
    Receive { timeout_secs: u64 },
    /// Remove the client's own socket file.
    RemoveSocket,
    /// End the run with this result.
    Exit(Result<Option<Reply>, ClientError>),
}

/// One run of the client.
#[derive(Clone, Copy, Debug, PartialEq, Eq)]
pub struct Client {
    /// What was asked for.
    pub request: Request,
    /// How far the run has come.
    pub stage: Stage,
    /// Whether the client's socket file is in place.
    pub socket_bound: bool,
    /// The result of the run, once it is known.
    pub outcome: Result<Option<Reply>, ClientError>,
}

/// One thing that a run is told: the fate of a step, or the reply datagram.
pub enum ClientInput {
    /// The fate of the last step.
    Event(ClientEvent),
    /// The payload of the reply.
    Reply(Seq<u8>),
}

/// The minutes that an argument of `set` writes, if it writes any: nothing
/// but decimal digits, with a value of at most 65535.
pub open spec fn minutes_of(text: Seq<char>) -> Option<u16> {
    let bytes = encode_utf8(text);
    if bytes.len() > 0 && all_digits(bytes) && decimal_value(bytes) <= u16::MAX {
        Some(decimal_value(bytes) as u16)
    } else {
        None
    }
}

/// The text of each argument.
pub open spec fn texts(args: Seq<String>) -> Seq<Seq<char>> {
    Seq::new(args.len(), |i: int| args[i]@)
}

/// What a command line asks for; `args` are the arguments after the
/// program's name.
///
/// `set <minutes>`, `get [--minutes]`, `break`, `reset` and `skip` are the
/// command lines. After `get` any other argument than `--minutes` is
/// accepted and changes nothing.
pub open spec fn parsed_arguments(args: Seq<Seq<char>>) -> Result<Request, UsageError> {
    if args.len() == 0 {
        Err(UsageError::NoArguments)
    } else if args.len() > 2 {
        Err(UsageError::TooManyArguments)
    } else if args[0] == "set"@ {
        if args.len() < 2 {
            Err(UsageError::MissingMinutes)
        } else {
            match minutes_of(args[1]) {
                Some(minutes) => Ok(Request { command: Command::SetTimer(minutes), short: false }),
                None => Err(UsageError::InvalidMinutes),
            }
        }
    } else if args[0] == "get"@ {
        Ok(Request { command: Command::Get, short: args.len() == 2 && args[1] == "--minutes"@ })
    } else if args[0] == "break"@ || args[0] == "reset"@ || args[0] == "skip"@ {
        if args.len() == 2 {
            Err(UsageError::UnexpectedArgument)
        } else {
            Ok(
                Request {
                    command: if args[0] == "break"@ {
                        Command::Break
                    } else if args[0] == "reset"@ {
                        Command::Reset
                    } else {
                        Command::Skip
                    },
                    short: false,
                },
            )
        }
    } else {
        Err(UsageError::UnknownCommand)
    }
}

/// Reads the command line; `args` are the arguments after the program's
/// name.
pub fn parse_arguments(args: &Vec<String>) -> (r: Result<Request, UsageError>)
    ensures
        r == parsed_arguments(texts(args@)),
{
    let count: usize = args.len();
    if count == 0 {
        return Err(UsageError::NoArguments);
    }
    if count > 2 {
        return Err(UsageError::TooManyArguments);
    }
    let first: &str = args[0].as_str();
    if text_equals(first, "set") {
        if count < 2 {
            return Err(UsageError::MissingMinutes);
        }
        let second: &str = args[1].as_str();
        match parse_decimal_u16(second.as_bytes()) {
            Some(minutes) => Ok(Request { command: Command::SetTimer(minutes), short: false }),
            None => Err(UsageError::InvalidMinutes),
        }
    } else if text_equals(first, "get") {
        let short: bool = if count == 2 {
            let second: &str = args[1].as_str();
            text_equals(second, "--minutes")
        } else {
            false
        };
        Ok(Request { command: Command::Get, short })
    } else {
        let command: Command = if text_equals(first, "break") {
            Command::Break
        } else if text_equals(first, "reset") {
            Command::Reset
        } else if text_equals(first, "skip") {
            Command::Skip
        } else {
            return Err(UsageError::UnknownCommand);
        };
        if count == 2 {
            Err(UsageError::UnexpectedArgument)
        } else {
            Ok(Request { command, short: false })
        }
    }
}

impl Client {
    /// A run that has just begun: nothing is bound, the first bind is asked
    /// for.
    pub open spec fn started(request: Request) -> Client {
        Client { request, stage: Stage::Binding, socket_bound: false, outcome: Ok(None) }
    }

    /// The step that the run waits for at its stage.
    pub open spec fn pending(self) -> ClientAction {
        match self.stage {
            Stage::Binding => ClientAction::Bind,
            Stage::Unlinking => ClientAction::RemoveStale,
            Stage::Rebinding => ClientAction::Bind,
            Stage::SendingKeyword => ClientAction::SendKeyword(self.request.command.keyword_of()),
            Stage::SendingMinutes => ClientAction::SendMinutes(
                match self.request.command {
                    Command::SetTimer(minutes) => minutes,
                    _ => 0,
                },
            ),
            Stage::AwaitingReply => ClientAction::Receive { timeout_secs: REPLY_TIMEOUT_SECS },
            Stage::Cleaning => ClientAction::RemoveSocket,
            Stage::Done => ClientAction::Exit(self.outcome),
        }
    }

    /// The run with its result known and its own socket still to remove.
    pub open spec fn cleaning(self, outcome: Result<Option<Reply>, ClientError>) -> Client {
        Client { stage: Stage::Cleaning, outcome, ..self }
    }

    /// The run ended with `error` before any socket of its own was bound.
    pub open spec fn failed(self, error: ClientError) -> Client {
        Client { stage: Stage::Done, outcome: Err(error), ..self }
    }

    /// The run after `event`. An event that does not belong to the stage
    /// changes nothing.
    ///
    /// A taken path at the first bind leads to one removal and one more
    /// bind; any other bind failure ends the run. Once the socket is bound,
    /// every way to the end leads through the removal of the socket: after
    /// the last datagram is sent, after the reply or its absence, and after
    /// any failure on the way.
    pub open spec fn after_event(self, event: ClientEvent) -> Client {
        match self.stage {
            Stage::Binding => match event {
                ClientEvent::Bound => Client {
                    stage: Stage::SendingKeyword,
                    socket_bound: true,
                    ..self
                },
                ClientEvent::AddressInUse => Client { stage: Stage::Unlinking, ..self },
                ClientEvent::BindFailed => self.failed(ClientError::BindFailed),
                _ => self,
            },
            Stage::Unlinking => match event {
                ClientEvent::Removed => Client { stage: Stage::Rebinding, ..self },
                ClientEvent::RemoveFailed => self.failed(ClientError::StaleSocket),
                _ => self,
            },
            Stage::Rebinding => match event {
                ClientEvent::Bound => Client {
                    stage: Stage::SendingKeyword,
                    socket_bound: true,
                    ..self
                },
                ClientEvent::AddressInUse => self.failed(ClientError::BindFailed),
                ClientEvent::BindFailed => self.failed(ClientError::BindFailed),
                _ => self,
            },
            Stage::SendingKeyword => match event {
                ClientEvent::Sent => match self.request.command {
                    Command::SetTimer(_) => Client { stage: Stage::SendingMinutes, ..self },
                    Command::Get => Client { stage: Stage::AwaitingReply, ..self },
                    Command::Reset => Client { stage: Stage::AwaitingReply, ..self },
                    _ => self.cleaning(Ok(None)),
                },
                ClientEvent::DaemonMissing => self.cleaning(Err(ClientError::DaemonNotRunning)),
                ClientEvent::SendFailed => self.cleaning(Err(ClientError::SendFailed)),
                _ => self,
            },
            Stage::SendingMinutes => match event {
                ClientEvent::Sent => self.cleaning(Ok(None)),
                ClientEvent::DaemonMissing => self.cleaning(Err(ClientError::DaemonNotRunning)),
                ClientEvent::SendFailed => self.cleaning(Err(ClientError::SendFailed)),
                _ => self,
            },
            Stage::AwaitingReply => match event {
                ClientEvent::ReceiveTimedOut => self.cleaning(Err(ClientError::NoReply)),
                ClientEvent::ReceiveFailed => self.cleaning(Err(ClientError::ReceiveFailed)),
                _ => self,
            },
            Stage::Cleaning => match event {
                ClientEvent::Removed => Client {
                    stage: Stage::Done,
                    socket_bound: false,
                    ..self
                },
                ClientEvent::RemoveFailed => Client {
                    stage: Stage::Done,
                    outcome: match self.outcome {
                        Ok(_) => Err(ClientError::CleanupFailed),
                        Err(e) => Err(e),
                    },
                    ..self
                },
                _ => self,
            },
            Stage::Done => self,
        }
    }

    /// The run after the reply datagram with `payload` arrived. Where no
    /// reply is awaited, nothing changes.
    pub open spec fn after_reply(self, payload: Seq<u8>) -> Client {
        match self.stage {
            Stage::AwaitingReply => match decoded_reply(payload) {
                Ok(reply) => self.cleaning(Ok(Some(reply))),
                Err(e) => self.cleaning(Err(ClientError::BadReply(e))),
            },
            _ => self,
        }
    }

    /// The run after one input.
    pub open spec fn after_input(self, input: ClientInput) -> Client {
        match input {
            ClientInput::Event(event) => self.after_event(event),
            ClientInput::Reply(payload) => self.after_reply(payload),
        }
    }

    /// The run after a sequence of inputs.
    pub open spec fn after_inputs(self, inputs: Seq<ClientInput>) -> Client
        decreases inputs.len(),
    {
        if inputs.len() == 0 {
            self
        } else {
            self.after_inputs(inputs.drop_last()).after_input(inputs.last())
        }
    }

    /// What holds of every run: the socket is in place exactly from the
    /// successful bind to its removal, and a run is over with its socket
    /// still in place only where the removal itself failed.
    pub open spec fn inv(self) -> bool {
        match self.stage {
            Stage::Binding => !self.socket_bound,
            Stage::Unlinking => !self.socket_bound,
            Stage::Rebinding => !self.socket_bound,
            Stage::SendingKeyword => self.socket_bound,
            Stage::SendingMinutes => self.socket_bound && self.request.command is SetTimer,
            Stage::AwaitingReply => self.socket_bound
                && self.request.command.keyword_of().wants_reply(),
            Stage::Cleaning => self.socket_bound,
            Stage::Done => self.socket_bound ==> self.outcome is Err,
        }
    }

    /// Begins a run for `request`. The first step is to bind the reply
    /// socket.
    pub fn start(request: Request) -> (r: (Client, ClientAction))
        ensures
            r.0 == Client::started(request),
            r.0.inv(),
            r.1 == r.0.pending(),
            r.1 == ClientAction::Bind,
    {
        (
            Client { request, stage: Stage::Binding, socket_bound: false, outcome: Ok(None) },
            ClientAction::Bind,
        )
    }

    /// The step that the run waits for.
    pub fn action(&self) -> (action: ClientAction)
        ensures
            action == self.pending(),
    {
        match self.stage {
            Stage::Binding => ClientAction::Bind,
            Stage::Unlinking => ClientAction::RemoveStale,
            Stage::Rebinding => ClientAction::Bind,
            Stage::SendingKeyword => ClientAction::SendKeyword(self.request.command.keyword()),
            Stage::SendingMinutes => ClientAction::SendMinutes(
                match self.request.command {
                    Command::SetTimer(minutes) => minutes,
                    _ => 0,
                },
            ),
            Stage::AwaitingReply => ClientAction::Receive { timeout_secs: REPLY_TIMEOUT_SECS },
            Stage::Cleaning => ClientAction::RemoveSocket,
            Stage::Done => ClientAction::Exit(self.outcome),
        }
    }

    /// Tells the run what happened to the step it asked for, and returns the
    /// next step.
    pub fn on_event(&mut self, event: ClientEvent) -> (action: ClientAction)
        ensures
            *final(self) == old(self).after_event(event),
            action == final(self).pending(),
            old(self).inv() ==> final(self).inv(),
    {
        match self.stage {
            Stage::Binding => match event {
                ClientEvent::Bound => {
                    self.stage = Stage::SendingKeyword;
                    self.socket_bound = true;
                },
                ClientEvent::AddressInUse => {
                    self.stage = Stage::Unlinking;
                },
                ClientEvent::BindFailed => {
                    self.stage = Stage::Done;
                    self.outcome = Err(ClientError::BindFailed);
                },
                _ => {},
            },
            Stage::Unlinking => match event {
                ClientEvent::Removed => {
                    self.stage = Stage::Rebinding;
                },
                ClientEvent::RemoveFailed => {
                    self.stage = Stage::Done;
                    self.outcome = Err(ClientError::StaleSocket);
                },
                _ => {},
            },
            Stage::Rebinding => match event {
                ClientEvent::Bound => {
                    self.stage = Stage::SendingKeyword;
                    self.socket_bound = true;
                },
                ClientEvent::AddressInUse => {
                    self.stage = Stage::Done;
                    self.outcome = Err(ClientError::BindFailed);
                },
                ClientEvent::BindFailed => {
                    self.stage = Stage::Done;
                    self.outcome = Err(ClientError::BindFailed);
                },
                _ => {},
            },
            Stage::SendingKeyword => match event {
                ClientEvent::Sent => match self.request.command {
                    Command::SetTimer(_) => {
                        self.stage = Stage::SendingMinutes;
                    },
                    Command::Get => {
                        self.stage = Stage::AwaitingReply;
                    },
                    Command::Reset => {
                        self.stage = Stage::AwaitingReply;
                    },
                    _ => {
                        self.stage = Stage::Cleaning;
                        self.outcome = Ok(None);
                    },
                },
                ClientEvent::DaemonMissing => {
                    self.stage = Stage::Cleaning;
                    self.outcome = Err(ClientError::DaemonNotRunning);
                },
                ClientEvent::SendFailed => {
                    self.stage = Stage::Cleaning;
                    self.outcome = Err(ClientError::SendFailed);
                },
                _ => {},
            },
            Stage::SendingMinutes => match event {
                ClientEvent::Sent => {
                    self.stage = Stage::Cleaning;
                    self.outcome = Ok(None);
                },
                ClientEvent::DaemonMissing => {
                    self.stage = Stage::Cleaning;
                    self.outcome = Err(ClientError::DaemonNotRunning);
                },
                ClientEvent::SendFailed => {
                    self.stage = Stage::Cleaning;
                    self.outcome = Err(ClientError::SendFailed);
                },
                _ => {},
            },
            Stage::AwaitingReply => match event {
                ClientEvent::ReceiveTimedOut => {
                    self.stage = Stage::Cleaning;
                    self.outcome = Err(ClientError::NoReply);
                },
                ClientEvent::ReceiveFailed => {
                    self.stage = Stage::Cleaning;
                    self.outcome = Err(ClientError::ReceiveFailed);
                },
                _ => {},
            },
            Stage::Cleaning => match event {
                ClientEvent::Removed => {
                    self.stage = Stage::Done;
                    self.socket_bound = false;
                },
                ClientEvent::RemoveFailed => {
                    self.stage = Stage::Done;
                    self.outcome = match self.outcome {
                        Ok(_) => Err(ClientError::CleanupFailed),
                        Err(e) => Err(e),
                    };
                },
                _ => {},
            },
            Stage::Done => {},
        }
        self.action()
    }

    /// Hands the run the payload of the reply datagram, and returns the next
    /// step.
    pub fn on_reply(&mut self, payload: &[u8]) -> (action: ClientAction)
        ensures
            *final(self) == old(self).after_reply(payload@),
            action == final(self).pending(),
            old(self).inv() ==> final(self).inv(),
    {
        match self.stage {
            Stage::AwaitingReply => {
                self.stage = Stage::Cleaning;
                self.outcome = match decode_reply(payload) {
                    Ok(reply) => Ok(Some(reply)),
                    Err(e) => Err(ClientError::BadReply(e)),
                };
            },
            _ => {},
        }
        self.action()
    }
}

/// Every input keeps what holds of every run.
pub proof fn lemma_input_keeps_invariant(client: Client, input: ClientInput)
    requires
        client.inv(),
    ensures
        client.after_input(input).inv(),
        client.after_input(input).request == client.request,
{
}

/// Socket cleanup: whatever a run is told, from its start on, it never ends
/// in success with its socket still in place; it ends with the socket in
/// place only where the removal itself failed. And once the socket is
/// bound, the run is not over before the removal has been asked for and
/// answered.
pub proof fn lemma_socket_removed_at_exit(request: Request, inputs: Seq<ClientInput>)
    ensures
        ({
            let end = Client::started(request).after_inputs(inputs);
            &&& end.inv()
            &&& end.request == request
            &&& end.pending() matches ClientAction::Exit(result) ==> (result is Ok
                ==> !end.socket_bound)
            &&& end.socket_bound && end.stage != Stage::Done ==> !(end.pending() is Exit)
        }),
    decreases inputs.len(),
{
    if inputs.len() > 0 {
        lemma_socket_removed_at_exit(request, inputs.drop_last());
        lemma_input_keeps_invariant(
            Client::started(request).after_inputs(inputs.drop_last()),
            inputs.last(),
        );
    }
}

/// The run ends only by way of the removal: a step from a stage in which
/// the socket is in place leads to the end only at the stage of cleaning,
/// and only on the answer to the removal.
pub proof fn lemma_exit_follows_removal(client: Client, input: ClientInput)
    requires
        client.inv(),
        client.socket_bound,
        client.stage != Stage::Done,
        client.after_input(input).stage == Stage::Done,
    ensures
        client.stage == Stage::Cleaning,
        input == ClientInput::Event(ClientEvent::Removed) || input == ClientInput::Event(
            ClientEvent::RemoveFailed,
        ),
        input == ClientInput::Event(ClientEvent::Removed) ==> !client.after_input(
            input,
        ).socket_bound && client.after_input(input).outcome == client.outcome,
{
}

/// The retry path: a socket left behind is removed once, the bind is tried
/// once more, and the run goes on as if the first bind had succeeded.
pub proof fn lemma_stale_socket_retry(request: Request)
    ensures
        ({
            let taken = Client::started(request).after_event(ClientEvent::AddressInUse);
            let cleared = taken.after_event(ClientEvent::Removed);
            let bound = cleared.after_event(ClientEvent::Bound);
            &&& taken.pending() == ClientAction::RemoveStale
            &&& cleared.pending() == ClientAction::Bind
            &&& bound == Client::started(request).after_event(ClientEvent::Bound)
            &&& cleared.after_event(ClientEvent::AddressInUse).pending() == ClientAction::Exit(
                Err(ClientError::BindFailed),
            )
        }),
{
}

/// The text that tells a user how long it is until the next break.
///
/// In short form the whole minutes and `m`. Otherwise, from one minute on,
/// the minutes and the seconds over; below one minute, the seconds.
pub open spec fn remaining_text(seconds: u64, short: bool) -> Seq<char> {
    if short {
        decimal_text((seconds / 60) as nat) + "m"@
    } else if seconds >= 60 {
        decimal_text((seconds / 60) as nat) + " minutes and "@ + decimal_text(
            (seconds % 60) as nat,
        ) + " seconds remain until the next break!"@
    } else {
        decimal_text(seconds as nat) + " seconds remain until the next break!"@
    }
}

/// Formats the seconds of a reply for display.
pub fn format_remaining(seconds: u64, short: bool) -> (text: String)
    ensures
        text@ == remaining_text(seconds, short),
{
    let mut text: String = String::new();
    if short {
        push_decimal(&mut text, seconds / 60);
        text.append("m");
    } else if seconds >= 60 {
        push_decimal(&mut text, seconds / 60);
        text.append(" minutes and ");
        push_decimal(&mut text, seconds % 60);
        text.append(" seconds remain until the next break!");
    } else {
        push_decimal(&mut text, seconds);
        text.append(" seconds remain until the next break!");
    }
    text
}

/// The text that confirms a `set`.
pub open spec fn confirmation_text(minutes: u16) -> Seq<char> {
    "Remaining time set to "@ + decimal_text(minutes as nat) + " minutes!"@
}

/// Formats the confirmation of a `set`.
pub fn format_confirmation(minutes: u16) -> (text: String)
    ensures
        text@ == confirmation_text(minutes),
{
    let mut text: String = "Remaining time set to ".to_owned();
    push_decimal(&mut text, minutes as u64);
    text.append(" minutes!");
    text
}

/// The line that a successful run prints, if it prints one: the
/// confirmation after `set`, the time that remains after a reply.
pub fn format_result(request: Request, reply: Option<Reply>) -> (text: Option<String>)
    ensures
        match (request.command, reply) {
            (Command::SetTimer(minutes), _) => text.is_some() && text.unwrap()@
                == confirmation_text(minutes),
            (_, Some(r)) => text.is_some() && text.unwrap()@ == remaining_text(
                r.seconds,
                request.short,
            ),
            (_, None) => text.is_none(),
        },
{
    match request.command {
        Command::SetTimer(minutes) => Some(format_confirmation(minutes)),
        _ => match reply {
            Some(r) => Some(format_remaining(r.seconds, request.short)),
            None => None,
        },
    }
}

/// The line that tells a user what is wrong with the command line.
pub fn usage_message(error: UsageError) -> (text: &'static str)
    ensures
        text@ == match error {
            UsageError::NoArguments => "No arguments provided!"@,
            UsageError::TooManyArguments => "Too many arguments!"@,
            UsageError::UnknownCommand =>
                "Incorrect first argument! Please provide one of the following arguments: break|set|reset|get|skip"@,
            UsageError::MissingMinutes => "no duration to set to provided!"@,
            UsageError::InvalidMinutes => "Second argument is no valid duration!"@,
            UsageError::UnexpectedArgument => "did not expect a second argument!"@,
        },
{
    match error {
        UsageError::NoArguments => "No arguments provided!",
        UsageError::TooManyArguments => "Too many arguments!",
        UsageError::UnknownCommand =>
            "Incorrect first argument! Please provide one of the following arguments: break|set|reset|get|skip",
        UsageError::MissingMinutes => "no duration to set to provided!",
        UsageError::InvalidMinutes => "Second argument is no valid duration!",
        UsageError::UnexpectedArgument => "did not expect a second argument!",
    }
}

/// The path of the daemon's socket below the runtime directory.
pub fn daemon_socket_path(runtime_dir: &str) -> (path: String)
    ensures
        path@ == runtime_dir@ + "/"@ + SOCKET_NAME@,
{
    let mut path: String = runtime_dir.to_owned();
    path.append("/");
    path.append(SOCKET_NAME);
    path
}

/// The path of the client's reply socket below the runtime directory.
pub fn helper_socket_path(runtime_dir: &str) -> (path: String)
    ensures
        path@ == runtime_dir@ + "/"@ + HELPER_SOCKET_NAME@,
{
    let mut path: String = runtime_dir.to_owned();
    path.append("/");
    path.append(HELPER_SOCKET_NAME);
    path
}

} // verus!
