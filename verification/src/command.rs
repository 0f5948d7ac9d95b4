//! The command codec: datagram payloads to typed commands, and numeric
//! replies to wire text.
//!
//! A command is one datagram that holds a keyword; `set` is followed by a
//! second datagram that holds the minutes in decimal. A reply is the seconds
//! in decimal, with no terminator. The codec keeps no state.

use crate::text::{
    all_digits, decimal_digits, decimal_value, encode_decimal, find_first_word, first_word,
    is_ascii_bytes, is_space, lemma_ascii_is_utf8, lemma_decimal_round_trip,
    lemma_digits_are_ascii, lemma_first_word, parse_decimal, parse_decimal_u16, range_equals,
};
use vstd::prelude::*;
use vstd::string::StringSliceAdditionalSpecFns;
use vstd::utf8::valid_utf8;

verus! {

/// The largest payload of a command datagram that is read, in bytes.
pub const MAX_COMMAND_LEN: usize = 300;

/// The largest payload of a reply datagram that is read, in bytes.
pub const MAX_REPLY_LEN: usize = 30;

/// The keywords of the wire vocabulary.
#[derive(Clone, Copy, Debug, PartialEq, Eq, Structural)]
pub enum Keyword {
    /// `break`: leave the working phase now.
    Break,
    /// `set`: the minutes follow in a second datagram.
    SetTimer,
    /// `reset`: back to the configured interval.
    Reset,
    /// `get`: ask for the seconds that remain.
    Get,
    /// `skip`: leave the break phase now.
    Skip,
}

/// A complete command, with the argument that `set` carries.
#[derive(Clone, Copy, Debug, PartialEq, Eq, Structural)]
pub enum Command {
    /// Force the transition out of the working phase.
    Break,
    /// Work for this many minutes, counted from now.
    SetTimer(u16),
    /// Restore the configured interval and restart the phase.
    Reset,
    /// Report the seconds that remain in the phase.
    Get,
    /// End the break phase early.
    Skip,
}

/// A numeric reply: a number of seconds.
#[derive(Clone, Copy, Debug, PartialEq, Eq, Structural)]
pub struct Reply {
    /// The seconds reported.
    pub seconds: u64,
}

/// Why a payload could not be decoded.
#[derive(Clone, Copy, Debug, PartialEq, Eq, Structural)]
pub enum DecodeError {
    /// The payload is not well-formed UTF-8.
    NotText,
    /// The payload is text, but not a decimal number in range.
    BadNumber,
}

impl Keyword {
    /// The bytes that stand for the keyword on the wire.
    pub open spec fn wire(self) -> Seq<u8> {
        match self {
            Keyword::Break => "break".spec_bytes(),
            Keyword::SetTimer => "set".spec_bytes(),
            Keyword::Reset => "reset".spec_bytes(),
            Keyword::Get => "get".spec_bytes(),
            Keyword::Skip => "skip".spec_bytes(),
        }
    }

    /// Whether the daemon answers a command of this keyword with a reply.
    pub open spec fn wants_reply(self) -> bool {
        self == Keyword::Get || self == Keyword::Reset
    }

    /// The keyword as it is written on the wire and on the command line.
    pub fn as_str(&self) -> (s: &'static str)
        ensures
            s.spec_bytes() == self.wire(),
    {
        match self {
            Keyword::Break => "break",
            Keyword::SetTimer => "set",
            Keyword::Reset => "reset",
            Keyword::Get => "get",
            Keyword::Skip => "skip",
        }
    }

    /// Whether the daemon answers a command of this keyword with a reply.
    pub fn expects_reply(&self) -> (r: bool)
        ensures
            r == self.wants_reply(),
    {
        match self {
            Keyword::Get => true,
            Keyword::Reset => true,
            _ => false,
        }
    }
}

impl Command {
    /// The keyword that announces the command.
    pub open spec fn keyword_of(self) -> Keyword {
        match self {
            Command::Break => Keyword::Break,
            Command::SetTimer(_) => Keyword::SetTimer,
            Command::Reset => Keyword::Reset,
            Command::Get => Keyword::Get,
            Command::Skip => Keyword::Skip,
        }
    }

    /// The keyword that announces the command.
    pub fn keyword(&self) -> (k: Keyword)
        ensures
            k == self.keyword_of(),
    {
        match self {
            Command::Break => Keyword::Break,
            Command::SetTimer(_) => Keyword::SetTimer,
            Command::Reset => Keyword::Reset,
            Command::Get => Keyword::Get,
            Command::Skip => Keyword::Skip,
        }
    }
}

/// The keyword that a word spells, if any.
pub open spec fn keyword_of_word(word: Seq<u8>) -> Option<Keyword> {
    if word == Keyword::Break.wire() {
        Some(Keyword::Break)
    } else if word == Keyword::SetTimer.wire() {
        Some(Keyword::SetTimer)
    } else if word == Keyword::Reset.wire() {
        Some(Keyword::Reset)
    } else if word == Keyword::Get.wire() {
        Some(Keyword::Get)
    } else if word == Keyword::Skip.wire() {
        Some(Keyword::Skip)
    } else {
        None
    }
}

/// What the first datagram of a command decodes to: a failure where the
/// payload is not UTF-8; otherwise the keyword that its first
/// whitespace-delimited word spells, or `None` where it spells none.
pub open spec fn decoded_keyword(payload: Seq<u8>) -> Result<Option<Keyword>, DecodeError> {
    if !valid_utf8(payload) {
        Err(DecodeError::NotText)
    } else {
        Ok(keyword_of_word(first_word(payload)))
    }
}

/// What the second datagram of `set` decodes to: the minutes, where the
/// payload is nothing but decimal digits and their value fits in 16 bits.
pub open spec fn decoded_minutes(payload: Seq<u8>) -> Result<u16, DecodeError> {
    if !valid_utf8(payload) {
        Err(DecodeError::NotText)
    } else if payload.len() > 0 && all_digits(payload) && decimal_value(payload) <= u16::MAX {
        Ok(decimal_value(payload) as u16)
    } else {
        Err(DecodeError::BadNumber)
    }
}

/// What a reply datagram decodes to: the seconds, where the payload is
/// nothing but decimal digits and their value fits in 64 bits.
pub open spec fn decoded_reply(payload: Seq<u8>) -> Result<Reply, DecodeError> {
    if !valid_utf8(payload) {
        Err(DecodeError::NotText)
    } else if payload.len() > 0 && all_digits(payload) && decimal_value(payload) <= u64::MAX {
        Ok(Reply { seconds: decimal_value(payload) as u64 })
    } else {
        Err(DecodeError::BadNumber)
    }
}

/// `core::str::from_utf8`, asked only whether it succeeds: it does exactly
/// on well-formed UTF-8.
#[verifier::external_body]
fn is_utf8(bytes: &[u8]) -> (ok: bool)
    ensures
        ok == valid_utf8(bytes@),
{
    core::str::from_utf8(bytes).is_ok()
}

/// Decodes the first datagram of a command.
pub fn decode_keyword(payload: &[u8]) -> (r: Result<Option<Keyword>, DecodeError>)
    ensures
        r == decoded_keyword(payload@),
{
    if !is_utf8(payload) {
        return Err(DecodeError::NotText);
    }
    let (start, end) = find_first_word(payload);
    if range_equals(payload, start, end, Keyword::Break.as_str().as_bytes()) {
        Ok(Some(Keyword::Break))
    } else if range_equals(payload, start, end, Keyword::SetTimer.as_str().as_bytes()) {
        Ok(Some(Keyword::SetTimer))
    } else if range_equals(payload, start, end, Keyword::Reset.as_str().as_bytes()) {
        Ok(Some(Keyword::Reset))
    } else if range_equals(payload, start, end, Keyword::Get.as_str().as_bytes()) {
        Ok(Some(Keyword::Get))
    } else if range_equals(payload, start, end, Keyword::Skip.as_str().as_bytes()) {
        Ok(Some(Keyword::Skip))
    } else {
        Ok(None)
    }
}

/// Decodes the second datagram of `set`: the minutes.
pub fn decode_minutes(payload: &[u8]) -> (r: Result<u16, DecodeError>)
    ensures
        r == decoded_minutes(payload@),
{
    if !is_utf8(payload) {
        return Err(DecodeError::NotText);
    }
    match parse_decimal_u16(payload) {
        Some(minutes) => Ok(minutes),
        None => Err(DecodeError::BadNumber),
    }
}

/// Decodes a reply datagram: the seconds.
pub fn decode_reply(payload: &[u8]) -> (r: Result<Reply, DecodeError>)
    ensures
        r == decoded_reply(payload@),
{
    if !is_utf8(payload) {
        return Err(DecodeError::NotText);
    }
    match parse_decimal(payload) {
        Some(seconds) => Ok(Reply { seconds }),
        None => Err(DecodeError::BadNumber),
    }
}

/// Serializes a reply: the seconds in decimal, no terminator.
pub fn encode_reply(reply: Reply) -> (wire: Vec<u8>)
    ensures
        wire@ == decimal_digits(reply.seconds as nat),
{
    encode_decimal(reply.seconds)
}

/// Serializes the minutes of `set`: decimal, no terminator.
pub fn encode_minutes(minutes: u16) -> (wire: Vec<u8>)
    ensures
        wire@ == decimal_digits(minutes as nat),
{
    encode_decimal(minutes as u64)
}

/// Serializes a keyword.
pub fn encode_keyword(keyword: Keyword) -> (wire: Vec<u8>)
    ensures
        wire@ == keyword.wire(),
{
    vstd::slice::slice_to_vec(keyword.as_str().as_bytes())
}

/// The datagrams that carry a command: the keyword, and after `set` the
/// minutes.
pub fn encode_command(command: Command) -> (wire: (Vec<u8>, Option<Vec<u8>>))
    ensures
        wire.0@ == command.keyword_of().wire(),
        match command {
            Command::SetTimer(minutes) => wire.1.is_some() && wire.1.unwrap()@ == decimal_digits(
                minutes as nat,
            ),
            _ => wire.1.is_none(),
        },
{
    let first: Vec<u8> = encode_keyword(command.keyword());
    match command {
        Command::SetTimer(minutes) => (first, Some(encode_minutes(minutes))),
        _ => (first, None),
    }
}

/// The bytes of the five keywords, spelled out.
pub proof fn lemma_keyword_bytes()
    ensures
        Keyword::Break.wire() == seq![0x62u8, 0x72u8, 0x65u8, 0x61u8, 0x6bu8],
        Keyword::SetTimer.wire() == seq![0x73u8, 0x65u8, 0x74u8],
        Keyword::Reset.wire() == seq![0x72u8, 0x65u8, 0x73u8, 0x65u8, 0x74u8],
        Keyword::Get.wire() == seq![0x67u8, 0x65u8, 0x74u8],
        Keyword::Skip.wire() == seq![0x73u8, 0x6bu8, 0x69u8, 0x70u8],
{
    broadcast use vstd::string::is_ascii_spec_bytes;

    reveal_strlit("break");
    reveal_strlit("set");
    reveal_strlit("reset");
    reveal_strlit("get");
    reveal_strlit("skip");
    assert(vstd::string::is_ascii("break"));
    assert(vstd::string::is_ascii("set"));
    assert(vstd::string::is_ascii("reset"));
    assert(vstd::string::is_ascii("get"));
    assert(vstd::string::is_ascii("skip"));
}

/// A keyword survives the wire: what `encode_keyword` writes,
/// `decode_keyword` reads back as the same keyword.
pub proof fn lemma_keyword_round_trip(keyword: Keyword)
    ensures
        keyword_of_word(keyword.wire()) == Some(keyword),
        decoded_keyword(keyword.wire()) == Ok::<Option<Keyword>, DecodeError>(Some(keyword)),
{
    lemma_keyword_bytes();
    let w = keyword.wire();
    assert(is_ascii_bytes(w));
    assert(forall|k: int| 0 <= k < w.len() ==> !is_space(#[trigger] w[k]));
    lemma_ascii_is_utf8(w);
    lemma_first_word(w);
}

/// The minutes of `set` survive the wire.
pub proof fn lemma_minutes_round_trip(minutes: u16)
    ensures
        decoded_minutes(decimal_digits(minutes as nat)) == Ok::<u16, DecodeError>(minutes),
{
    let wire = decimal_digits(minutes as nat);
    lemma_decimal_round_trip(minutes as nat);
    lemma_digits_are_ascii(wire);
    lemma_ascii_is_utf8(wire);
}

/// A reply survives the wire: what `encode_reply` writes, `decode_reply`
/// reads back as the same number of seconds.
pub proof fn lemma_reply_round_trip(reply: Reply)
    ensures
        decoded_reply(decimal_digits(reply.seconds as nat)) == Ok::<Reply, DecodeError>(reply),
{
    let wire = decimal_digits(reply.seconds as nat);
    lemma_decimal_round_trip(reply.seconds as nat);
    lemma_digits_are_ascii(wire);
    lemma_ascii_is_utf8(wire);
}

} // verus!
