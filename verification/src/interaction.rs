//! Interactions as they arrive: what the routing reads of them.

use vstd::prelude::*;

verus! {

/// What the user did.
#[derive(Clone, Copy, Debug, PartialEq, Eq, Structural)]
pub enum InteractionType {
    Ping,
    ApplicationCommand,
    MessageComponent,
    ApplicationCommandAutocomplete,
    ModalSubmit,
}

/// A command that a user invoked.
#[derive(Debug, PartialEq, Eq)]
pub struct CommandData {
    pub name: String,
}

/// A button or another component of a message that a user operated.
#[derive(Debug, PartialEq, Eq)]
pub struct MessageComponentInteractionData {
    pub custom_id: String,
}

/// A form that a user filled in.
#[derive(Debug, PartialEq, Eq)]
pub struct ModalInteractionData {
    pub custom_id: String,
    pub components: Vec<ModalInteractionDataActionRow>,
}

/// One row of a form that was filled in.
#[derive(Debug, PartialEq, Eq)]
pub struct ModalInteractionDataActionRow {
    pub components: Vec<ModalInteractionDataComponent>,
}

/// One field of a form, with what the user wrote into it.
#[derive(Debug, PartialEq, Eq)]
pub struct ModalInteractionDataComponent {
    pub custom_id: String,
    pub value: Option<String>,
}

/// What an interaction brings along, by what the user did.
#[derive(Debug, PartialEq, Eq)]
pub enum InteractionData {
    ApplicationCommand(CommandData),
    MessageComponent(MessageComponentInteractionData),
    ModalSubmit(ModalInteractionData),
}

/// An interaction. Its `id` and `token` are what a response to it needs.
///
/// The `payload` is whatever else the application wants to have at hand when its code
/// for the interaction runs. It is carried along untouched.
#[derive(Debug, PartialEq, Eq)]
pub struct Interaction<P> {
    pub application_id: u64,
    pub data: Option<InteractionData>,
    pub id: u64,
    pub kind: InteractionType,
    pub token: String,
    pub payload: P,
}

impl<P> Interaction<P> {
    /// Only a ping comes without data.
    pub open spec fn is_complete(self) -> bool {
        self.kind == InteractionType::Ping || self.data is Some
    }

    /// The interaction after its data has been taken out.
    pub open spec fn without_data(self) -> Self {
        Interaction { data: None, ..self }
    }
}

/// Something that happened on the gateway.
#[derive(Debug, PartialEq, Eq)]
pub enum Event<P> {
    InteractionCreate(Interaction<P>),
    /// Anything that is not an interaction.
    Other,
}

} // verus!
