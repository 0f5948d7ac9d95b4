//! The reply channel: the return address of one inbound datagram.
//!
//! A channel is made from the address of the sender of a datagram, and
//! there is none where the sender has no address. A channel carries at most
//! one reply: sending takes the channel, and it cannot be copied.

use crate::command::{encode_reply, Reply};
use crate::text::decimal_digits;
use vstd::prelude::*;

verus! {

/// The address to which the reply to one datagram may be sent.
#[derive(Debug)]
pub struct ReplyChannel {
    address: Vec<u8>,
}

/// A datagram to send: where to, and what.
#[derive(Clone, Debug, PartialEq, Eq)]
pub struct Outgoing {
    /// The address of the receiver.
    pub address: Vec<u8>,
    /// The payload.
    pub payload: Vec<u8>,
}

impl View for ReplyChannel {
    type V = Seq<u8>;

    /// The address that the channel leads to.
    closed spec fn view(&self) -> Seq<u8> {
        self.address@
    }
}

/// The address that a reply can go to, if the sender has one: an address
/// of no bytes is none.
pub open spec fn return_address(sender: Option<Seq<u8>>) -> Option<Seq<u8>> {
    match sender {
        Some(address) => if address.len() > 0 {
            Some(address)
        } else {
            None
        },
        None => None,
    }
}

impl ReplyChannel {
    /// The channel back to the sender of a datagram; `None` where the sender
    /// is unbound.
    pub fn from_sender(sender: Option<Vec<u8>>) -> (channel: Option<ReplyChannel>)
        ensures
            match return_address(
                match sender {
                    Some(address) => Some(address@),
                    None => None,
                },
            ) {
                Some(address) => channel.is_some() && channel.unwrap()@ == address,
                None => channel.is_none(),
            },
    {
        match sender {
            Some(address) => {
                if address.len() > 0 {
                    Some(ReplyChannel { address })
                } else {
                    None
                }
            },
            None => None,
        }
    }

    /// The address that the channel leads to.
    pub fn address(&self) -> (address: &[u8])
        ensures
            address@ == self@,
    {
        self.address.as_slice()
    }

    /// Uses the channel for its one reply: the datagram that carries
    /// `reply` to the address of the channel.
    pub fn send(self, reply: Reply) -> (out: Outgoing)
        ensures
            out.address@ == self@,
            out.payload@ == decimal_digits(reply.seconds as nat),
    {
        Outgoing { address: self.address, payload: encode_reply(reply) }
    }
}

} // verus!
