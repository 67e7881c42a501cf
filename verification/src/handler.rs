//! The routing itself.

use crate::commands::{command_entries, get_command, CommandMap};
use crate::custom_id::{build_custom_id, is_custom_id, split_custom_id, CUSTOM_ID_LEN};
use crate::interaction::{Event, Interaction, InteractionData, InteractionType};
use crate::mappings::{CommandIdMappings, Mappings, ReplyTarget, Target};
use crate::name_table::NameTable;
use crate::response::{
    ActionRow, InteractionResponse, InteractionResponseData, InteractionResponseType,
    ResponseRequest, TextInput,
};
use crate::state::{
    is_modal, one_per_row, oneshot_id, reports, responds_to, target_of, HandlerState,
};
use crate::step::{ComponentMessage, Step, Task, TaskEnd, Ticket, Unroutable};
use vstd::prelude::*;

verus! {

/// Decides what is to be done about interactions, and remembers who waits for which.
pub struct InteractionHandler<ML, CL, MW, CW> {
    commands: &'static CommandMap,
    modal_waiters_oneshot: NameTable<MW>,
    modal_waiters_permanent: NameTable<ML>,
    message_waiters_oneshot: NameTable<CW>,
    message_waiters: NameTable<CL>,
    current_command_id: usize,
    command_id_mappings: CommandIdMappings,
}

impl<ML, CL, MW, CW> View for InteractionHandler<ML, CL, MW, CW> {
    type V = HandlerState<ML, CL, MW, CW>;

    closed spec fn view(&self) -> HandlerState<ML, CL, MW, CW> {
        HandlerState {
            commands: command_entries(*self.commands),
            modal_waiters_oneshot: self.modal_waiters_oneshot@,
            modal_waiters_permanent: self.modal_waiters_permanent@,
            message_waiters_oneshot: self.message_waiters_oneshot@,
            message_waiters: self.message_waiters@,
            current_command_id: self.current_command_id,
            command_id_mappings: self.command_id_mappings@,
        }
    }
}

impl<ML: Copy, CL: Copy, MW, CW> InteractionHandler<ML, CL, MW, CW> {
    /// A handler for the given commands, for which nothing listens and nothing waits yet.
    pub fn new(commands: &'static CommandMap) -> (handler: Self)
        ensures
            handler@ == (HandlerState::<ML, CL, MW, CW> {
                commands: command_entries(*commands),
                modal_waiters_oneshot: Map::empty(),
                modal_waiters_permanent: Map::empty(),
                message_waiters_oneshot: Map::empty(),
                message_waiters: Map::empty(),
                current_command_id: 0,
                command_id_mappings: Mappings::empty(),
            }),
    {
        InteractionHandler {
            commands,
            modal_waiters_oneshot: NameTable::new(),
            modal_waiters_permanent: NameTable::new(),
            message_waiters_oneshot: NameTable::new(),
            message_waiters: NameTable::new(),
            current_command_id: 0,
            command_id_mappings: CommandIdMappings::new(),
        }
    }

    /// Gives the task that is about to run for `interaction` its number, and remembers
    /// the interaction as the way to reach the user.
    fn launch_task<P>(&mut self, interaction: &Interaction<P>) -> (ticket: Ticket)
        ensures
            final(self)@ == old(self)@.launched(target_of(*interaction)),
            final(self)@.reply_target(ticket.command_id) == Some(
                Target { id: interaction.id, token: interaction.token@ },
            ),
            ticket.command_id == old(self)@.current_command_id,
            ticket.application_id == interaction.application_id,
    {
        let command_id = self.current_command_id;
        self.current_command_id = command_id.wrapping_add(1);
        self.command_id_mappings.start(
            command_id,
            ReplyTarget { id: interaction.id, token: interaction.token.clone() },
        );
        Ticket { command_id, application_id: interaction.application_id }
    }

    /// Decides what is to be done about an interaction.
    pub fn handle<P>(&mut self, interaction: Interaction<P>) -> (step: Step<P, ML, CL, MW, CW>)
        requires
            interaction.is_complete(),
        ensures
            (final(self)@, step) == old(self)@.handled(interaction),
    {
        if interaction.kind == InteractionType::Ping {
            return Step::Respond(
                ResponseRequest {
                    application_id: interaction.application_id,
                    interaction_id: interaction.id,
                    token: interaction.token,
                    response: InteractionResponse {
                        kind: InteractionResponseType::Pong,
                        data: None,
                    },
                },
            );
        }
        let mut interaction = interaction;
        let data = interaction.data.take().unwrap();
        match data {
            InteractionData::ApplicationCommand(data) => {
                match get_command(self.commands, data.name.as_str()) {
                    Some(command) => {
                        let ticket = self.launch_task(&interaction);
                        Step::RunCommand { command, task: Task { ticket, interaction, data } }
                    },
                    None => Step::Ignore(Unroutable::UnknownCommand(data.name)),
                }
            },
            InteractionData::ModalSubmit(data) => {
                let (module, _) = split_custom_id(data.custom_id.as_str());
                let listener = match self.modal_waiters_permanent.get(module.as_str()) {
                    Some(listener) => Some(*listener),
                    None => None,
                };
                if let Some(listener) = listener {
                    let ticket = self.launch_task(&interaction);
                    return Step::RunModalListener {
                        listener,
                        task: Task { ticket, interaction, data },
                    };
                }
                match self.modal_waiters_oneshot.remove(data.custom_id.as_str()) {
                    Some(waiter) => Step::WakeModalWaiter { waiter, interaction, data },
                    None => Step::Ignore(Unroutable::UnknownModal(data.custom_id)),
                }
            },
            InteractionData::MessageComponent(data) => {
                let (module, arg) = split_custom_id(data.custom_id.as_str());
                if module == "oneshot".to_owned() {
                    return match self.message_waiters_oneshot.remove(arg.as_str()) {
                        Some(waiter) => Step::WakeComponentWaiter { waiter, interaction, data },
                        None => Step::Ignore(Unroutable::WaiterDisappeared(data.custom_id)),
                    };
                }
                let listener = match self.message_waiters.get(module.as_str()) {
                    Some(listener) => Some(*listener),
                    None => None,
                };
                match listener {
                    Some(listener) => {
                        let ticket = self.launch_task(&interaction);
                        Step::RunComponentListener {
                            listener,
                            task: Task { ticket, interaction, data },
                        }
                    },
                    None => Step::Ignore(Unroutable::UnknownComponent(data.custom_id)),
                }
            },
        }
    }

    /// Decides what is to be done about something that happened on the gateway.
    pub fn on_event<P>(&mut self, event: Event<P>) -> (step: Option<Step<P, ML, CL, MW, CW>>)
        requires
            event matches Event::InteractionCreate(interaction) ==> interaction.is_complete(),
        ensures
            match event {
                Event::InteractionCreate(interaction) => step matches Some(step) && (
                    final(self)@,
                    step,
                ) == old(self)@.handled(interaction),
                Event::Other => step is None && final(self)@ == old(self)@,
            },
    {
        match event {
            Event::InteractionCreate(interaction) => Some(self.handle(interaction)),
            Event::Other => None,
        }
    }

    /// Takes note of how a task ended, and forgets it. If it failed, the error is reported
    /// to the user through the interaction that the task can be reached through.
    pub fn finish_task(&mut self, ticket: Ticket, result: Result<(), String>) -> (end: TaskEnd)
        ensures
            final(self)@ == old(self)@.finished(ticket.command_id),
            match result {
                Ok(_) => end is Done,
                Err(error) => match old(self)@.reply_target(ticket.command_id) {
                    Some(target) => end matches TaskEnd::Report(request) && reports(
                        request,
                        ticket.application_id,
                        target,
                        error@,
                    ),
                    None => end == TaskEnd::Unreported(error),
                },
            },
            ({
                let reached = old(self)@.command_id_mappings.command_id_to_interaction;
                result is Err && reached.contains_key(ticket.command_id) ==> {
                    &&& end is Report
                    &&& end->Report_0.application_id == ticket.application_id
                    &&& end->Report_0.interaction_id == reached[ticket.command_id].id
                    &&& end->Report_0.token@ == reached[ticket.command_id].token
                    &&& end->Report_0.response.data matches Some(data) && data.content matches Some(
                        content,
                    ) && content@ == "Internal error! "@ + result->Err_0@
                }
            }),
    {
        let target = self.command_id_mappings.end(ticket.command_id);
        match result {
            Ok(_) => TaskEnd::Done,
            Err(error) => match target {
                Some(target) => {
                    let content = "Internal error! ".to_owned().concat(error.as_str());
                    TaskEnd::Report(
                        ResponseRequest {
                            application_id: ticket.application_id,
                            interaction_id: target.id,
                            token: target.token,
                            response: InteractionResponse {
                                kind: InteractionResponseType::ChannelMessageWithSource,
                                data: Some(
                                    InteractionResponseData {
                                        components: None,
                                        content: Some(content),
                                        custom_id: None,
                                        title: None,
                                    },
                                ),
                            },
                        },
                    )
                },
                None => TaskEnd::Unreported(error),
            },
        }
    }

    /// A response to `interaction` that shows a form, each field in a row of its own, and
    /// whether a listener is registered for the form's custom ID.
    pub fn show_modal_permanent<P>(
        &self,
        interaction: &Interaction<P>,
        title: String,
        fields: Vec<TextInput>,
        custom_id: String,
    ) -> (shown: (ResponseRequest<InteractionResponseData>, bool))
        ensures
            responds_to(shown.0, *interaction, InteractionResponseType::Modal),
            shown.0.response.data matches Some(data) && is_modal(
                data,
                title@,
                custom_id@,
                one_per_row(fields@),
            ),
            shown.0.response.data matches Some(data) && data.components matches Some(rows)
                && rows@.len() == fields@.len() && forall|i: int|
                0 <= i < fields@.len() ==> (#[trigger] rows@[i]).components@ == seq![fields@[i]],
            shown.1 == self@.modal_waiters_permanent.contains_key(custom_id@),
    {
        let known = self.modal_waiters_permanent.get(custom_id.as_str()).is_some();
        let ghost all = fields@;
        let mut components: Vec<ActionRow> = Vec::new();
        for field in it: fields
            invariant
                it.seq() == all,
                components@.len() == it.index(),
                forall|i: int|
                    0 <= i < components@.len() ==> (#[trigger] components@[i]).components@
                        == one_per_row(all)[i],
        {
            components.push(ActionRow { components: vec![field] });
            assert(components@[it.index()].components@ =~= seq![field]);
        }
        let request = ResponseRequest {
            application_id: interaction.application_id,
            interaction_id: interaction.id,
            token: interaction.token.clone(),
            response: InteractionResponse {
                kind: InteractionResponseType::Modal,
                data: Some(
                    InteractionResponseData {
                        components: Some(components),
                        content: None,
                        custom_id: Some(custom_id),
                        title: Some(title),
                    },
                ),
            },
        };
        (request, known)
    }

    /// A response to `interaction` that shows a form under the given single-use custom ID,
    /// all fields in one row. `waiter` waits for the user to submit it.
    pub fn show_modal_as<P>(
        &mut self,
        interaction: &Interaction<P>,
        title: String,
        fields: Vec<TextInput>,
        custom_id: &str,
        waiter: MW,
    ) -> (request: ResponseRequest<InteractionResponseData>)
        ensures
            final(self)@ == old(self)@.with_modal_waiter(oneshot_id(custom_id@), waiter),
            responds_to(request, *interaction, InteractionResponseType::Modal),
            request.response.data matches Some(data) && is_modal(
                data,
                title@,
                oneshot_id(custom_id@),
                seq![fields@],
            ),
            request.response.data matches Some(data) && data.components matches Some(rows)
                && rows@.len() == 1 && rows@[0].components@ == fields@,
            request.response.data matches Some(data) && data.custom_id matches Some(shown_id)
                && shown_id@ == "oneshot:"@ + custom_id@
                && final(self)@.modal_waiters_oneshot == old(self)@.modal_waiters_oneshot.insert(
                shown_id@,
                waiter,
            ),
    {
        let shown_id = "oneshot:".to_owned().concat(custom_id);
        self.modal_waiters_oneshot.insert(shown_id.clone(), waiter);
        let components = vec![ActionRow { components: fields }];
        ResponseRequest {
            application_id: interaction.application_id,
            interaction_id: interaction.id,
            token: interaction.token.clone(),
            response: InteractionResponse {
                kind: InteractionResponseType::Modal,
                data: Some(
                    InteractionResponseData {
                        components: Some(components),
                        content: None,
                        custom_id: Some(shown_id),
                        title: Some(title),
                    },
                ),
            },
        }
    }

    /// A response to `interaction` that shows a form, all fields in one row, under a fresh
    /// single-use custom ID that starts with `id`. `waiter` waits for the user to submit
    /// it. Once that has happened, [`modal_submitted`](Self::modal_submitted) is due.
    pub fn show_modal<P>(
        &mut self,
        interaction: &Interaction<P>,
        title: String,
        fields: Vec<TextInput>,
        id: &str,
        waiter: MW,
    ) -> (request: ResponseRequest<InteractionResponseData>)
        ensures
            exists|custom_id: Seq<char>| #[trigger]
                is_custom_id(id@, custom_id) && final(self)@ == old(self)@.with_modal_waiter(
                    oneshot_id(custom_id),
                    waiter,
                ) && request.response.data is Some && is_modal(
                    request.response.data->0,
                    title@,
                    oneshot_id(custom_id),
                    seq![fields@],
                ),
            responds_to(request, *interaction, InteractionResponseType::Modal),
            request.response.data matches Some(data) && data.components matches Some(rows)
                && rows@.len() == 1 && rows@[0].components@ == fields@,
            request.response.data matches Some(data) && data.title matches Some(t) && t@ == title@,
            request.response.data matches Some(data) && data.custom_id matches Some(shown_id)
                && shown_id@.len() == "oneshot:"@.len() + id@.len() + 1 + CUSTOM_ID_LEN
                && ("oneshot:"@ + id@ + seq!['-']).is_prefix_of(shown_id@)
                && final(self)@.modal_waiters_oneshot == old(self)@.modal_waiters_oneshot.insert(
                shown_id@,
                waiter,
            ),
    {
        let custom_id = build_custom_id(id);
        self.show_modal_as(interaction, title, fields, custom_id.as_str(), waiter)
    }

    /// Whether application code runs on behalf of the interaction `id`.
    pub fn is_running(&self, id: u64) -> (running: bool)
        ensures
            running == self@.command_id_mappings.interaction_id_to_command_id.contains_key(id),
    {
        self.command_id_mappings.is_known(id)
    }

    /// Takes note that the user has submitted the form that was shown in response to
    /// `interaction`, by `reply`. From now on the task that showed it is reached through
    /// `reply`: an interaction can be responded to only once.
    pub fn modal_submitted<P>(&mut self, interaction: &Interaction<P>, reply: &Interaction<P>)
        requires
            old(self)@.command_id_mappings.interaction_id_to_command_id.contains_key(
                interaction.id,
            ),
        ensures
            final(self)@ == old(self)@.followed(interaction.id, target_of(*reply)),
            final(self)@.reply_target(
                old(self)@.command_id_mappings.interaction_id_to_command_id[interaction.id],
            ) == Some(Target { id: reply.id, token: reply.token@ }),
    {
        self.command_id_mappings.move_on(
            interaction.id,
            ReplyTarget { id: reply.id, token: reply.token.clone() },
        );
    }

    /// A response to `interaction` that posts a message.
    pub fn send_response<P, R>(&self, interaction: &Interaction<P>, response: R) -> (request:
        ResponseRequest<R>)
        ensures
            responds_to(request, *interaction, InteractionResponseType::ChannelMessageWithSource),
            request.application_id == interaction.application_id,
            request.interaction_id == interaction.id,
            request.token@ == interaction.token@,
            request.response.data == Some(response),
    {
        ResponseRequest {
            application_id: interaction.application_id,
            interaction_id: interaction.id,
            token: interaction.token.clone(),
            response: InteractionResponse {
                kind: InteractionResponseType::ChannelMessageWithSource,
                data: Some(response),
            },
        }
    }

    /// A response to `interaction` that posts a message under the given custom ID.
    /// `listener` listens for that custom ID.
    pub fn send_response_with_components_as<P, R>(
        &mut self,
        interaction: &Interaction<P>,
        message: R,
        custom_id: String,
        listener: CL,
    ) -> (request: ResponseRequest<ComponentMessage<R>>)
        ensures
            final(self)@ == old(self)@.with_component_listener(custom_id@, listener),
            responds_to(request, *interaction, InteractionResponseType::ChannelMessageWithSource),
            request.response.data == Some(ComponentMessage { custom_id, message }),
    {
        self.message_waiters.insert(custom_id.clone(), listener);
        self.send_response(interaction, ComponentMessage { custom_id, message })
    }

    /// A response to `interaction` that posts a message under a fresh custom ID.
    /// `listener` listens for that custom ID.
    pub fn send_response_with_components<P, R>(
        &mut self,
        interaction: &Interaction<P>,
        message: R,
        listener: CL,
    ) -> (request: ResponseRequest<ComponentMessage<R>>)
        ensures
            responds_to(request, *interaction, InteractionResponseType::ChannelMessageWithSource),
            request.response.data matches Some(data) && is_custom_id(
                "components"@,
                data.custom_id@,
            ) && data.message == message && final(self)@ == old(self)@.with_component_listener(
                data.custom_id@,
                listener,
            ),
    {
        let custom_id = build_custom_id("components");
        self.send_response_with_components_as(interaction, message, custom_id, listener)
    }

    /// Lets `waiter` wait for a component under the given single-use custom ID, and
    /// returns the custom ID to give to the component.
    pub fn oneshot_component_listener_as(&mut self, custom_id: String, waiter: CW) -> (shown_id:
        String)
        ensures
            final(self)@ == old(self)@.with_component_waiter(custom_id@, waiter),
            shown_id@ == oneshot_id(custom_id@),
            shown_id@ == "oneshot:"@ + custom_id@,
    {
        let shown_id = "oneshot:".to_owned().concat(custom_id.as_str());
        self.message_waiters_oneshot.insert(custom_id, waiter);
        shown_id
    }

    /// Lets `waiter` wait for a component under a fresh single-use custom ID, which starts
    /// with `debug_message`, and returns the custom ID to give to the component.
    pub fn oneshot_component_listener(&mut self, debug_message: &str, waiter: CW) -> (shown_id:
        String)
        ensures
            exists|custom_id: Seq<char>| #[trigger]
                is_custom_id(debug_message@, custom_id) && shown_id@ == oneshot_id(custom_id)
                    && final(self)@ == old(self)@.with_component_waiter(custom_id, waiter),
    {
        let custom_id = build_custom_id(debug_message);
        self.oneshot_component_listener_as(custom_id, waiter)
    }

    /// Lets `listener` listen for the components of the given custom ID.
    pub fn add_component_listener(&mut self, custom_id: String, listener: CL)
        ensures
            final(self)@ == old(self)@.with_component_listener(custom_id@, listener),
    {
        self.message_waiters.insert(custom_id, listener);
    }

    /// Stops listening for the components of the given custom ID.
    pub fn unhook_component_listener(&mut self, custom_id: &str)
        ensures
            final(self)@ == old(self)@.without_component_listener(custom_id@),
    {
        self.message_waiters.remove(custom_id);
    }

    /// Lets `listener` listen for the forms of the given custom ID.
    pub fn add_modal_listener(&mut self, custom_id: String, listener: ML)
        ensures
            final(self)@ == old(self)@.with_modal_listener(custom_id@, listener),
    {
        self.modal_waiters_permanent.insert(custom_id, listener);
    }

    /// Stops listening for the forms of the given custom ID.
    pub fn unhook_modal_listener(&mut self, custom_id: &str)
        ensures
            final(self)@ == old(self)@.without_modal_listener(custom_id@),
    {
        self.modal_waiters_permanent.remove(custom_id);
    }
}

} // verus!
