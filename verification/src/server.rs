//! The configuration of the listener and the rules of receiving a line.
//!
//! A line is received in pieces. After each piece the receiver asks
//! [`receive_step`] how to go on: the line is complete once it ends with the
//! line terminator; it is given up when the peer has closed the connection or
//! when the line has used up its allowance of bytes without being complete;
//! otherwise more is read, but never beyond the allowance.

use crate::grammar::has_line_end;
use crate::text::chars_of;
use std::time::Duration;
use vstd::prelude::*;

verus! {

/// The address that the daemon listens on unless told otherwise.
pub const LISTEN_ADDRESS: &'static str = "127.0.0.1:32000";

/// The largest number of bytes of one line, terminator included.
pub const MAX_MSG_LENGTH: u64 = 128 * 1024;

/// The number of seconds after which a write to the client is given up.
pub const SEND_TIMEOUT_SECS: u64 = 10;

/// The duration of `secs` whole seconds.
pub uninterp spec fn duration_of_secs(secs: u64) -> Duration;

/// `Duration::from_secs` of the standard library: the duration of the given
/// number of whole seconds.
pub assume_specification[ Duration::from_secs ](secs: u64) -> (duration: Duration)
    ensures
        duration == duration_of_secs(secs),
;

/// The configuration of the listener.
pub struct Config {
    /// The address to listen on.
    pub listen_address: String,
    /// The largest number of bytes of one line, terminator included.
    pub max_msg_length: u64,
    /// The time after which a write to the client is given up.
    pub send_timeout: Duration,
}

impl Default for Config {
    fn default() -> (config: Self)
        ensures
            config.listen_address@ == LISTEN_ADDRESS@,
            config.max_msg_length == MAX_MSG_LENGTH,
            config.send_timeout == duration_of_secs(SEND_TIMEOUT_SECS),
    {
        Config {
            listen_address: String::from_str(LISTEN_ADDRESS),
            max_msg_length: MAX_MSG_LENGTH,
            send_timeout: Duration::from_secs(SEND_TIMEOUT_SECS),
        }
    }
}

/// How the receiver of a line goes on.
#[derive(Debug, PartialEq, Eq, Structural)]
pub enum ReceiveStep {
    /// The line is complete: it is handed on.
    Complete,
    /// The line is not complete: at most `limit` more bytes are read.
    Read { limit: u64 },
    /// The line will not be completed: the connection is given up.
    Closed,
}

/// The step after `buf` was received, where `bytes` is the number of bytes of
/// `buf`, `last_read` the number of bytes that the last read brought (`None`
/// before the first read) and `max` the allowance of the line.
///
/// A complete line is handed on whatever its length. An incomplete line is
/// given up when the last read brought nothing, which is how a peer that has
/// closed shows, or when the allowance is used up.
pub open spec fn step_after(
    buf: Seq<char>,
    bytes: usize,
    last_read: Option<usize>,
    max: u64,
) -> ReceiveStep {
    if has_line_end(buf) {
        ReceiveStep::Complete
    } else if last_read == Some(0usize) || bytes >= max {
        ReceiveStep::Closed
    } else {
        ReceiveStep::Read { limit: (max - bytes) as u64 }
    }
}

/// Whether `buf` ends with the line terminator.
pub fn is_complete(buf: &str) -> (complete: bool)
    ensures
        complete == has_line_end(buf@),
{
    let chars = chars_of(buf);
    let n = chars.len();
    n >= 2 && chars[n - 2] == '\r' && chars[n - 1] == '\n'
}

/// Decides how the receiver goes on after `buf` was received.
pub fn receive_step(buf: &str, last_read: Option<usize>, max_msg_length: u64) -> (step: ReceiveStep)
    ensures
        step == step_after(buf@, buf.len(), last_read, max_msg_length),
{
    if is_complete(buf) {
        return ReceiveStep::Complete;
    }
    let closed = match last_read {
        Some(n) => n == 0,
        None => false,
    };
    let used = buf.len() as u64;
    if closed || used >= max_msg_length {
        ReceiveStep::Closed
    } else {
        ReceiveStep::Read { limit: max_msg_length - used }
    }
}

} // verus!
