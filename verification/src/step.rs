//! What the routing decides.

use crate::interaction::{
    CommandData, Interaction, MessageComponentInteractionData, ModalInteractionData,
};
use crate::response::{InteractionResponseData, ResponseRequest};
use vstd::prelude::*;

verus! {

/// By what a running command, or a running listener, is known.
#[derive(Clone, Copy, Debug, PartialEq, Eq, Structural)]
pub struct Ticket {
    pub command_id: usize,
    pub application_id: u64,
}

/// Application code that is to run, with what it is to be given.
#[derive(Debug, PartialEq, Eq)]
pub struct Task<P, D> {
    pub ticket: Ticket,
    pub interaction: Interaction<P>,
    pub data: D,
}

/// Why an interaction reaches no application code.
#[derive(Debug, PartialEq, Eq)]
pub enum Unroutable {
    /// No command has that name.
    UnknownCommand(String),
    /// Nothing listens or waits for a form of that custom ID.
    UnknownModal(String),
    /// The custom ID is that of a single-use component, and nothing waits for it.
    WaiterDisappeared(String),
    /// Nothing listens for components of that custom ID.
    UnknownComponent(String),
}

/// What is to be done about an interaction.
///
/// `ML` and `CL` are what the application registers to be run on each form and on each
/// component of a custom ID, `MW` and `CW` what it leaves behind to be told of a single
/// one.
#[allow(inconsistent_fields)]
#[derive(Debug, PartialEq, Eq)]
pub enum Step<P, ML, CL, MW, CW> {
    /// Send a response.
    Respond(ResponseRequest<InteractionResponseData>),
    /// Run the command with this number.
    RunCommand { command: usize, task: Task<P, CommandData> },
    /// Run a listener on a form.
    RunModalListener { listener: ML, task: Task<P, ModalInteractionData> },
    /// Run a listener on a component.
    RunComponentListener { listener: CL, task: Task<P, MessageComponentInteractionData> },
    /// Hand a form to the one that waits for it.
    WakeModalWaiter { waiter: MW, interaction: Interaction<P>, data: ModalInteractionData },
    /// Hand a component to the one that waits for it.
    WakeComponentWaiter {
        waiter: CW,
        interaction: Interaction<P>,
        data: MessageComponentInteractionData,
    },
    /// Do nothing.
    Ignore(Unroutable),
}

/// How a task ended.
#[derive(Debug, PartialEq, Eq)]
pub enum TaskEnd {
    /// Without an error.
    Done,
    /// With an error, of which the user is to be told by this response.
    Report(ResponseRequest<InteractionResponseData>),
    /// With this error, of which the user cannot be told.
    Unreported(String),
}

/// A message whose components are known by a custom ID of its own.
#[derive(Debug, PartialEq, Eq)]
pub struct ComponentMessage<R> {
    pub custom_id: String,
    pub message: R,
}

} // verus!
