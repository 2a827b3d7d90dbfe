//! The channels between the agent and the outside world: messages in, action
//! requests and metrics out, each an unbounded tokio queue with one reader and one
//! writer.

use vstd::prelude::*;

use crate::agent::Metrics;
use crate::protocol::ActionMessage;

verus! {

#[verifier::external_type_specification]
#[verifier::external_body]
#[verifier::reject_recursive_types(T)]
pub struct ExUnboundedSender<T>(tokio::sync::mpsc::UnboundedSender<T>);

#[verifier::external_type_specification]
#[verifier::external_body]
#[verifier::reject_recursive_types(T)]
pub struct ExUnboundedReceiver<T>(tokio::sync::mpsc::UnboundedReceiver<T>);

/// Whether a sender and a receiver of messages are the two ends of one queue.
pub uninterp spec fn same_message_queue(
    tx: tokio::sync::mpsc::UnboundedSender<String>,
    rx: tokio::sync::mpsc::UnboundedReceiver<String>,
) -> bool;

/// Whether a sender and a receiver of action requests are the two ends of one queue.
pub uninterp spec fn same_action_queue(
    tx: tokio::sync::mpsc::UnboundedSender<ActionMessage>,
    rx: tokio::sync::mpsc::UnboundedReceiver<ActionMessage>,
) -> bool;

/// Whether a sender and a receiver of metrics are the two ends of one queue.
pub uninterp spec fn same_metrics_queue(
    tx: tokio::sync::mpsc::UnboundedSender<Metrics>,
    rx: tokio::sync::mpsc::UnboundedReceiver<Metrics>,
) -> bool;

/// Relies on `tokio::sync::mpsc::unbounded_channel`: a new unbounded queue of
/// messages, as its sending and receiving ends.
#[verifier::external_body]
fn message_queue() -> (r: (
    tokio::sync::mpsc::UnboundedSender<String>,
    tokio::sync::mpsc::UnboundedReceiver<String>,
))
    ensures
        same_message_queue(r.0, r.1),
{
    tokio::sync::mpsc::unbounded_channel::<String>()
}

/// Relies on `tokio::sync::mpsc::unbounded_channel`: a new unbounded queue of
/// action requests, as its sending and receiving ends.
#[verifier::external_body]
fn action_queue() -> (r: (
    tokio::sync::mpsc::UnboundedSender<ActionMessage>,
    tokio::sync::mpsc::UnboundedReceiver<ActionMessage>,
))
    ensures
        same_action_queue(r.0, r.1),
{
    tokio::sync::mpsc::unbounded_channel::<ActionMessage>()
}

/// Relies on `tokio::sync::mpsc::unbounded_channel`: a new unbounded queue of
/// metrics, as its sending and receiving ends.
#[verifier::external_body]
fn metrics_queue() -> (r: (
    tokio::sync::mpsc::UnboundedSender<Metrics>,
    tokio::sync::mpsc::UnboundedReceiver<Metrics>,
))
    ensures
        same_metrics_queue(r.0, r.1),
{
    tokio::sync::mpsc::unbounded_channel::<Metrics>()
}

/// The channel ends of the agent: how it gets messages from the outside world and
/// sends action requests and metrics to it.
#[derive(Debug)]
pub struct AgentSideChannels {
    /// Receives messages from the outside world.
    pub message_rx: tokio::sync::mpsc::UnboundedReceiver<String>,
    /// Sends action requests to the outside world.
    pub action_tx: tokio::sync::mpsc::UnboundedSender<ActionMessage>,
    /// Sends metrics to the outside world.
    pub metrics_tx: tokio::sync::mpsc::UnboundedSender<Metrics>,
}

/// The channel ends of the outside world: how it sends messages to the agent and
/// receives its action requests and metrics.
#[derive(Debug)]
pub struct ExternalSideChannels {
    /// Sends messages to the agent.
    pub message_tx: tokio::sync::mpsc::UnboundedSender<String>,
    /// Receives action requests from the agent.
    pub action_rx: tokio::sync::mpsc::UnboundedReceiver<ActionMessage>,
    /// Receives metrics from the agent.
    pub metrics_rx: tokio::sync::mpsc::UnboundedReceiver<Metrics>,
}

/// Creates the three queues and splits their ends between the agent and the
/// outside world: for each flow, the sender and the receiver are the two ends of
/// one queue.
pub fn create() -> (r: (AgentSideChannels, ExternalSideChannels))
    ensures
        same_message_queue(r.1.message_tx, r.0.message_rx),
        same_action_queue(r.0.action_tx, r.1.action_rx),
        same_metrics_queue(r.0.metrics_tx, r.1.metrics_rx),
{
    let (message_tx, message_rx) = message_queue();
    let (action_tx, action_rx) = action_queue();
    let (metrics_tx, metrics_rx) = metrics_queue();
    (
        AgentSideChannels { message_rx, action_tx, metrics_tx },
        ExternalSideChannels { message_tx, action_rx, metrics_rx },
    )
}

} // verus!
