//! Errors of the task queue; the queues themselves live with the I/O.
use vstd::prelude::*;
use crate::text::{concat2, copy_str};

verus! {

/// Why a queue operation failed.
#[derive(Debug)]
pub enum QueueError {
    /// The message broker reported this error.
    Lapin(String),
    ChannelClosed,
    InvalidMessage,
    MissingUrl,
}

impl QueueError {
    /// The text the error displays.
    pub open spec fn spec_message(&self) -> Seq<char> {
        match self {
            QueueError::Lapin(err) => "RabbitMQ error: "@ + err@,
            QueueError::ChannelClosed => "queue channel closed"@,
            QueueError::InvalidMessage => "invalid queue message payload"@,
            QueueError::MissingUrl => "missing RabbitMQ URL"@,
        }
    }

    /// The text the error displays.
    pub fn message(&self) -> (m: String)
        ensures
            m@ == self.spec_message(),
    {
        match self {
            QueueError::Lapin(err) => concat2("RabbitMQ error: ", err.as_str()),
            QueueError::ChannelClosed => copy_str("queue channel closed"),
            QueueError::InvalidMessage => copy_str("invalid queue message payload"),
            QueueError::MissingUrl => copy_str("missing RabbitMQ URL"),
        }
    }
}

} // verus!
