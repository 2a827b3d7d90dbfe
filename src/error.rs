//! The errors of the library.

use vstd::prelude::*;

use crate::protocol::ThreadMessage;

verus! {

/// The result type for the agent's operations.
pub type DreamerResult<T> = Result<T, DreamerError>;

/// Error type for the agent's protocol and loop.
#[derive(Debug)]
pub enum DreamerError {
    /// Invalid context message.
    InvalidContextMessage(String),
    /// Invalid observation message.
    InvalidObservationMessage(String),
    /// Invalid thought message.
    InvalidThoughtMessage(String),
    /// Invalid notification message.
    InvalidNotificationMessage(String),
    /// Invalid action message.
    InvalidActionMessage(String),
    /// Invalid thread message.
    InvalidThreadMessage(String),
    /// A message that the model must not produce: an observation or a notification.
    InvalidResponseMessage(ThreadMessage),
    /// The model could not be called, or its answer could not be read.
    ModelError(String),
    /// A metric could not be sent to the outside world.
    MetricsSendError(String),
}

} // verus!
