//! What a handler remembers, and how the routing follows from it.

use crate::custom_id::{arg_of, module_of};
use crate::interaction::{
    CommandData, Interaction, InteractionData, InteractionType, MessageComponentInteractionData,
    ModalInteractionData,
};
use crate::mappings::{Mappings, Target};
use crate::response::{
    ActionRow, InteractionResponse, InteractionResponseData, InteractionResponseType,
    ResponseRequest, TextInput,
};
use crate::step::{Step, Task, Ticket, Unroutable};
use vstd::prelude::*;

verus! {

/// The number after `n`, starting over behind the last one.
pub open spec fn next_command_id(n: usize) -> usize {
    if n == usize::MAX {
        0
    } else {
        (n + 1) as usize
    }
}

/// A response of the given kind to `interaction`.
pub open spec fn responds_to<P, D>(
    request: ResponseRequest<D>,
    interaction: Interaction<P>,
    kind: InteractionResponseType,
) -> bool {
    &&& request.application_id == interaction.application_id
    &&& request.interaction_id == interaction.id
    &&& request.token@ == interaction.token@
    &&& request.response.kind == kind
}

/// The answer to a ping.
pub open spec fn pong<P>(interaction: Interaction<P>) -> ResponseRequest<InteractionResponseData> {
    ResponseRequest {
        application_id: interaction.application_id,
        interaction_id: interaction.id,
        token: interaction.token,
        response: InteractionResponse { kind: InteractionResponseType::Pong, data: None },
    }
}

/// The custom ID that the user's client gets to see of a single-use custom ID.
pub open spec fn oneshot_id(custom_id: Seq<char>) -> Seq<char> {
    "oneshot:"@ + custom_id
}

/// Data that consists of a text and nothing else.
pub open spec fn is_message(data: InteractionResponseData, text: Seq<char>) -> bool {
    &&& data.components is None
    &&& data.content matches Some(content) && content@ == text
    &&& data.custom_id is None
    &&& data.title is None
}

/// A response to `target` that tells the user of an error.
pub open spec fn reports(
    request: ResponseRequest<InteractionResponseData>,
    application_id: u64,
    target: Target,
    error: Seq<char>,
) -> bool {
    &&& request.application_id == application_id
    &&& request.interaction_id == target.id
    &&& request.token@ == target.token
    &&& request.response.kind == InteractionResponseType::ChannelMessageWithSource
    &&& request.response.data matches Some(data) && is_message(data, "Internal error! "@ + error)
}

/// Data that consists of a form's title, its custom ID and its rows of fields, and of
/// nothing else.
pub open spec fn is_modal(
    data: InteractionResponseData,
    title: Seq<char>,
    custom_id: Seq<char>,
    rows: Seq<Seq<TextInput>>,
) -> bool {
    &&& data.components matches Some(components) && has_rows(components@, rows)
    &&& data.content is None
    &&& data.custom_id matches Some(id) && id@ == custom_id
    &&& data.title matches Some(t) && t@ == title
}

/// The action rows hold the given fields.
pub open spec fn has_rows(components: Seq<ActionRow>, rows: Seq<Seq<TextInput>>) -> bool {
    &&& components.len() == rows.len()
    &&& forall|i: int|
        0 <= i < components.len() ==> (#[trigger] components[i]).components@ == rows[i]
}

/// Each field in a row of its own.
pub open spec fn one_per_row(fields: Seq<TextInput>) -> Seq<Seq<TextInput>> {
    fields.map_values(|field: TextInput| seq![field])
}

/// What it takes to respond to `interaction`.
pub open spec fn target_of<P>(interaction: Interaction<P>) -> Target {
    Target { id: interaction.id, token: interaction.token@ }
}

/// The state of an [`InteractionHandler`](crate::InteractionHandler).
#[verifier::ext_equal]
pub struct HandlerState<ML, CL, MW, CW> {
    pub commands: Map<Seq<char>, usize>,
    pub modal_waiters_oneshot: Map<Seq<char>, MW>,
    pub modal_waiters_permanent: Map<Seq<char>, ML>,
    pub message_waiters_oneshot: Map<Seq<char>, CW>,
    pub message_waiters: Map<Seq<char>, CL>,
    pub current_command_id: usize,
    pub command_id_mappings: Mappings,
}

impl<ML, CL, MW, CW> HandlerState<ML, CL, MW, CW> {
    /// Application code has been started for the interaction `target`.
    pub open spec fn launched(self, target: Target) -> Self {
        HandlerState {
            current_command_id: next_command_id(self.current_command_id),
            command_id_mappings: self.command_id_mappings.started(self.current_command_id, target),
            ..self
        }
    }

    /// The application code that was started as number `command_id` has ended.
    pub open spec fn finished(self, command_id: usize) -> Self {
        HandlerState { command_id_mappings: self.command_id_mappings.ended(command_id), ..self }
    }

    /// The application code that was started for the interaction `from` goes on with `to`.
    pub open spec fn followed(self, from: u64, to: Target) -> Self
        recommends
            self.command_id_mappings.interaction_id_to_command_id.contains_key(from),
    {
        HandlerState { command_id_mappings: self.command_id_mappings.moved(from, to), ..self }
    }

    /// The interaction through which the running task `command_id` can be reached.
    pub open spec fn reply_target(self, command_id: usize) -> Option<Target> {
        if self.command_id_mappings.command_id_to_interaction.contains_key(command_id) {
            Some(self.command_id_mappings.command_id_to_interaction[command_id])
        } else {
            None
        }
    }

    /// `waiter` waits for the form of the given custom ID.
    pub open spec fn with_modal_waiter(self, custom_id: Seq<char>, waiter: MW) -> Self {
        HandlerState {
            modal_waiters_oneshot: self.modal_waiters_oneshot.insert(custom_id, waiter),
            ..self
        }
    }

    /// `waiter` waits for the component of the given custom ID.
    pub open spec fn with_component_waiter(self, custom_id: Seq<char>, waiter: CW) -> Self {
        HandlerState {
            message_waiters_oneshot: self.message_waiters_oneshot.insert(custom_id, waiter),
            ..self
        }
    }

    /// `listener` listens for the components of the given custom ID.
    pub open spec fn with_component_listener(self, custom_id: Seq<char>, listener: CL) -> Self {
        HandlerState { message_waiters: self.message_waiters.insert(custom_id, listener), ..self }
    }

    /// Nothing listens for the components of the given custom ID any more.
    pub open spec fn without_component_listener(self, custom_id: Seq<char>) -> Self {
        HandlerState { message_waiters: self.message_waiters.remove(custom_id), ..self }
    }

    /// `listener` listens for the forms of the given custom ID.
    pub open spec fn with_modal_listener(self, custom_id: Seq<char>, listener: ML) -> Self {
        HandlerState {
            modal_waiters_permanent: self.modal_waiters_permanent.insert(custom_id, listener),
            ..self
        }
    }

    /// Nothing listens for the forms of the given custom ID any more.
    pub open spec fn without_modal_listener(self, custom_id: Seq<char>) -> Self {
        HandlerState {
            modal_waiters_permanent: self.modal_waiters_permanent.remove(custom_id),
            ..self
        }
    }

    /// The task that runs on behalf of `interaction`.
    pub open spec fn task<P, D>(self, interaction: Interaction<P>, data: D) -> Task<P, D> {
        Task {
            ticket: Ticket {
                command_id: self.current_command_id,
                application_id: interaction.application_id,
            },
            interaction: interaction.without_data(),
            data,
        }
    }

    /// The state after `interaction` has been dealt with, and what is to be done about it.
    pub open spec fn handled<P>(self, interaction: Interaction<P>) -> (
        Self,
        Step<P, ML, CL, MW, CW>,
    )
        recommends
            interaction.is_complete(),
    {
        if interaction.kind == InteractionType::Ping {
            (self, Step::Respond(pong(interaction)))
        } else {
            match interaction.data->0 {
                InteractionData::ApplicationCommand(data) => self.handled_command(interaction, data),
                InteractionData::ModalSubmit(data) => self.handled_modal(interaction, data),
                InteractionData::MessageComponent(data) => self.handled_component(interaction, data),
            }
        }
    }

    /// A command is run if there is one of its name.
    pub open spec fn handled_command<P>(self, interaction: Interaction<P>, data: CommandData) -> (
        Self,
        Step<P, ML, CL, MW, CW>,
    ) {
        if self.commands.contains_key(data.name@) {
            (
                self.launched(target_of(interaction)),
                Step::RunCommand {
                    command: self.commands[data.name@],
                    task: self.task(interaction, data),
                },
            )
        } else {
            (self, Step::Ignore(Unroutable::UnknownCommand(data.name)))
        }
    }

    /// A form goes to the listener for the first part of its custom ID or, where there is
    /// none, to the one that waits for the whole custom ID and from then on waits no more.
    pub open spec fn handled_modal<P>(
        self,
        interaction: Interaction<P>,
        data: ModalInteractionData,
    ) -> (Self, Step<P, ML, CL, MW, CW>) {
        let id = data.custom_id@;
        if self.modal_waiters_permanent.contains_key(module_of(id)) {
            (
                self.launched(target_of(interaction)),
                Step::RunModalListener {
                    listener: self.modal_waiters_permanent[module_of(id)],
                    task: self.task(interaction, data),
                },
            )
        } else if self.modal_waiters_oneshot.contains_key(id) {
            (
                HandlerState { modal_waiters_oneshot: self.modal_waiters_oneshot.remove(id), ..self },
                Step::WakeModalWaiter {
                    waiter: self.modal_waiters_oneshot[id],
                    interaction: interaction.without_data(),
                    data,
                },
            )
        } else {
            (self, Step::Ignore(Unroutable::UnknownModal(data.custom_id)))
        }
    }

    /// A component whose custom ID starts with `oneshot:` goes to the one that waits for
    /// the rest of the custom ID and from then on waits no more. Any other goes to the
    /// listener for the first part of its custom ID.
    pub open spec fn handled_component<P>(
        self,
        interaction: Interaction<P>,
        data: MessageComponentInteractionData,
    ) -> (Self, Step<P, ML, CL, MW, CW>) {
        let module = module_of(data.custom_id@);
        let arg = arg_of(data.custom_id@);
        if module == "oneshot"@ {
            if self.message_waiters_oneshot.contains_key(arg) {
                (
                    HandlerState {
                        message_waiters_oneshot: self.message_waiters_oneshot.remove(arg),
                        ..self
                    },
                    Step::WakeComponentWaiter {
                        waiter: self.message_waiters_oneshot[arg],
                        interaction: interaction.without_data(),
                        data,
                    },
                )
            } else {
                (self, Step::Ignore(Unroutable::WaiterDisappeared(data.custom_id)))
            }
        } else if self.message_waiters.contains_key(module) {
            (
                self.launched(target_of(interaction)),
                Step::RunComponentListener {
                    listener: self.message_waiters[module],
                    task: self.task(interaction, data),
                },
            )
        } else {
            (self, Step::Ignore(Unroutable::UnknownComponent(data.custom_id)))
        }
    }
}

} // verus!
