//! A break reminder: work for an interval, take a break, and start over.
//!
//! The daemon owns one datagram socket and one timer. A short-lived client
//! sends it commands over the socket: ask for the time that remains, change
//! the interval, force a break or skip one. This library holds what both
//! programs decide; the sockets, the clock and the desktop are the caller's.
//!
//! - [`time`]: readings of a monotonic clock, and elapsed whole seconds.
//! - [`text`]: words and decimal numbers in ASCII text.
//! - [`command`]: the codec between datagram payloads and commands.
//! - [`channel`]: the return address of one datagram.
//! - [`timer`]: the timer state and the effect of each command on it.
//! - [`scheduler`]: the daemon's loop, one event at a time.
//! - [`client`]: the client's run, one event at a time, and its command line.
//! - [`config`]: the configuration and the text that sets it.
//! - [`daemon`]: what marks the way into a break.
//! - [`popup`]: the buffer behind the break popup.

pub mod channel;
pub mod client;
pub mod command;
pub mod config;
pub mod daemon;
pub mod popup;
pub mod scheduler;
pub mod text;
pub mod time;
pub mod timer;
