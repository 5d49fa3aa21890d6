//! Vocabulary shared by the device actors and their façades.
use vstd::prelude::*;

use crate::text::{joined, owned};

verus! {

/// Why a command could not be placed on an actor's queue.
#[derive(Clone, Copy, Debug, PartialEq, Eq, Structural)]
pub enum QueueError {
    /// The queue holds as many commands as it can.
    Full,
    /// The actor is gone.
    Closed,
}

/// The I/O that an actor performs for a command.
#[derive(Debug)]
pub enum Plan {
    /// Open the transport.
    Open,
    /// Drop the transport.
    Close,
    /// Write this text to the transport.
    Send(String),
    /// No I/O: the command only updates the record.
    Keep,
    /// Nothing to do: the command is refused because the device is not connected.
    Refuse,
}

pub open spec fn queue_error_text(e: QueueError) -> Seq<char> {
    match e {
        QueueError::Full => "send failed: no available capacity"@,
        QueueError::Closed => "send failed: channel closed"@,
    }
}

/// The error a façade records when it cannot queue a command.
pub fn queue_error_message(e: QueueError) -> (r: String)
    ensures
        r@ == queue_error_text(e),
{
    match e {
        QueueError::Full => owned("send failed: no available capacity"),
        QueueError::Closed => owned("send failed: channel closed"),
    }
}

pub open spec fn not_connected_text() -> Seq<char> {
    "not connected"@
}

pub fn not_connected_message() -> (r: String)
    ensures
        r@ == not_connected_text(),
{
    owned("not connected")
}

/// `prefix` followed by the transport's own description of a failure.
pub fn failure_message(prefix: &str, detail: &String) -> (r: String)
    ensures
        r@ == prefix@ + detail@,
{
    joined(prefix, detail.as_str())
}

} // verus!
