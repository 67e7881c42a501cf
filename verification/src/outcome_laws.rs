//! What becomes of an interaction, field by field and entry by entry.

use crate::custom_id::{arg_of, module_of};
use crate::interaction::{
    CommandData, Interaction, InteractionData, InteractionType, MessageComponentInteractionData,
    ModalInteractionData,
};
use crate::mappings::{Mappings, ReplyTarget, Target};
use crate::response::{InteractionResponseData, InteractionResponseType, ResponseRequest};
use crate::routing_laws::{law_id_with_argument, law_plain_id};
use crate::state::{next_command_id, reports, target_of, HandlerState};
use crate::step::{Step, Unroutable};
use vstd::prelude::*;

verus! {

// ---- What the code for an interaction is given ----

/// Only an interaction that is a ping may come without data. Nothing else is asked of one.
pub proof fn law_only_pings_lack_data<P>(interaction: Interaction<P>)
    ensures
        interaction.kind == InteractionType::Ping ==> interaction.is_complete(),
        interaction.data is Some ==> interaction.is_complete(),
        interaction.kind != InteractionType::Ping && interaction.data is None
            ==> !interaction.is_complete(),
{
}

/// The code that an interaction reaches, be it run or be it woken, is given the interaction
/// as it arrived, except that the data has been taken out. Whether any code is reached is
/// a matter of routing: an interaction that reaches none is ignored.
pub proof fn law_interaction_arrives_whole<P, ML, CL, MW, CW>(
    s: HandlerState<ML, CL, MW, CW>,
    interaction: Interaction<P>,
)
    requires
        interaction.kind != InteractionType::Ping,
        interaction.data is Some,
    ensures
        ({
            let given = match s.handled(interaction).1 {
                Step::RunCommand { task, .. } => Some(task.interaction),
                Step::RunModalListener { task, .. } => Some(task.interaction),
                Step::RunComponentListener { task, .. } => Some(task.interaction),
                Step::WakeModalWaiter { interaction: arrived, .. } => Some(arrived),
                Step::WakeComponentWaiter { interaction: arrived, .. } => Some(arrived),
                _ => None,
            };
            match given {
                Some(arrived) => {
                    &&& arrived.application_id == interaction.application_id
                    &&& arrived.id == interaction.id
                    &&& arrived.kind == interaction.kind
                    &&& arrived.token == interaction.token
                    &&& arrived.token@ == interaction.token@
                    &&& arrived.payload == interaction.payload
                    &&& arrived.data is None
                },
                None => s.handled(interaction).1 is Ignore,
            }
        }),
{
}

/// The interaction that arrived can be put together again from what the code for it is
/// given: the interaction and, apart from it, the data.
pub proof fn law_nothing_of_an_interaction_is_lost<P, ML, CL, MW, CW>(
    s: HandlerState<ML, CL, MW, CW>,
    interaction: Interaction<P>,
)
    requires
        interaction.kind != InteractionType::Ping,
        interaction.data is Some,
    ensures
        match s.handled(interaction).1 {
            Step::RunCommand { task, .. } => interaction == (Interaction {
                data: Some(InteractionData::ApplicationCommand(task.data)),
                ..task.interaction
            }),
            Step::RunModalListener { task, .. } => interaction == (Interaction {
                data: Some(InteractionData::ModalSubmit(task.data)),
                ..task.interaction
            }),
            Step::RunComponentListener { task, .. } => interaction == (Interaction {
                data: Some(InteractionData::MessageComponent(task.data)),
                ..task.interaction
            }),
            Step::WakeModalWaiter { interaction: arrived, data, .. } => interaction == (
            Interaction { data: Some(InteractionData::ModalSubmit(data)), ..arrived }),
            Step::WakeComponentWaiter { interaction: arrived, data, .. } => interaction == (
            Interaction { data: Some(InteractionData::MessageComponent(data)), ..arrived }),
            _ => true,
        },
{
}

/// The code that is run for an interaction is known by the number that was due, and by the
/// application that the interaction came with.
pub proof fn law_ticket_is_that_of_the_interaction<P, ML, CL, MW, CW>(
    s: HandlerState<ML, CL, MW, CW>,
    interaction: Interaction<P>,
)
    requires
        interaction.kind != InteractionType::Ping,
        interaction.data is Some,
    ensures
        ({
            let ticket = match s.handled(interaction).1 {
                Step::RunCommand { task, .. } => Some(task.ticket),
                Step::RunModalListener { task, .. } => Some(task.ticket),
                Step::RunComponentListener { task, .. } => Some(task.ticket),
                _ => None,
            };
            ticket is Some ==> {
                &&& ticket->0.command_id == s.current_command_id
                &&& ticket->0.application_id == interaction.application_id
            }
        }),
{
}

// ---- Which code that is ----

/// A ping is answered, under its own ID and token, with a pong that carries nothing.
pub proof fn law_pong_answers_its_ping<P, ML, CL, MW, CW>(
    s: HandlerState<ML, CL, MW, CW>,
    interaction: Interaction<P>,
)
    requires
        interaction.kind == InteractionType::Ping,
    ensures
        s.handled(interaction).0 == s,
        s.handled(interaction).1 is Respond,
        ({
            let request = s.handled(interaction).1->Respond_0;
            &&& request.application_id == interaction.application_id
            &&& request.interaction_id == interaction.id
            &&& request.token@ == interaction.token@
            &&& request.response.kind == InteractionResponseType::Pong
            &&& request.response.data is None
        }),
{
}

/// A command is looked up by its whole name. Where the application has it, the number that
/// the name stands for is run. Where it has not, the interaction is ignored for that name.
pub proof fn law_command_is_looked_up<P, ML, CL, MW, CW>(
    s: HandlerState<ML, CL, MW, CW>,
    interaction: Interaction<P>,
    data: CommandData,
)
    requires
        interaction.kind != InteractionType::Ping,
        interaction.data == Some(InteractionData::ApplicationCommand(data)),
    ensures
        s.commands.contains_key(data.name@) ==> {
            &&& s.handled(interaction).1 is RunCommand
            &&& s.handled(interaction).1->command == s.commands[data.name@]
            &&& s.handled(interaction).1->RunCommand_task.data.name@ == data.name@
        },
        !s.commands.contains_key(data.name@) ==> s.handled(interaction).1 == (Step::<
            P,
            ML,
            CL,
            MW,
            CW,
        >::Ignore(Unroutable::UnknownCommand(data.name))),
{
}

/// A custom ID without a colon is a module of its own. Any other consists of a module, which
/// has no colon in it, of a colon and of an argument.
pub proof fn law_every_id_is_module_and_argument(id: Seq<char>)
    ensures
        !module_of(id).contains(':'),
        !id.contains(':') ==> id == module_of(id) && arg_of(id).len() == 0,
        id.contains(':') ==> id == module_of(id) + seq![':'] + arg_of(id),
{
    id.index_of_first_ensures(':');
    if id.contains(':') {
        let i = id.index_of_first(':')->0;
        assert(id =~= module_of(id) + seq![':'] + arg_of(id));
        assert forall|j: int| 0 <= j < module_of(id).len() implies module_of(id)[j] != ':' by {
            assert(id[j] == module_of(id)[j]);
        }
    }
}

/// A form whose custom ID is `module`, or starts with `module` and a colon, goes to the
/// listener that is registered under `module`. Where there is none it goes to the one that
/// waits for the whole custom ID. Where nobody does, it is ignored for that custom ID.
pub proof fn law_form_is_routed<P, ML, CL, MW, CW>(
    s: HandlerState<ML, CL, MW, CW>,
    interaction: Interaction<P>,
    data: ModalInteractionData,
    module: Seq<char>,
    arg: Seq<char>,
)
    requires
        interaction.kind != InteractionType::Ping,
        interaction.data == Some(InteractionData::ModalSubmit(data)),
        !module.contains(':'),
        data.custom_id@ == module || data.custom_id@ == module + seq![':'] + arg,
    ensures
        s.modal_waiters_permanent.contains_key(module) ==> {
            &&& s.handled(interaction).1 is RunModalListener
            &&& s.handled(interaction).1->RunModalListener_listener
                == s.modal_waiters_permanent[module]
            &&& s.handled(interaction).1->RunModalListener_task.data == data
        },
        !s.modal_waiters_permanent.contains_key(module) && s.modal_waiters_oneshot.contains_key(
            data.custom_id@,
        ) ==> {
            &&& s.handled(interaction).1 is WakeModalWaiter
            &&& s.handled(interaction).1->WakeModalWaiter_waiter
                == s.modal_waiters_oneshot[data.custom_id@]
            &&& s.handled(interaction).1->WakeModalWaiter_data == data
        },
        !s.modal_waiters_permanent.contains_key(module) && !s.modal_waiters_oneshot.contains_key(
            data.custom_id@,
        ) ==> s.handled(interaction).1 == (Step::<P, ML, CL, MW, CW>::Ignore(
            Unroutable::UnknownModal(data.custom_id),
        )),
{
    if data.custom_id@ == module {
        law_plain_id(module);
    } else {
        law_id_with_argument(module, arg);
    }
}

/// A component whose custom ID is `oneshot:` and `arg` goes to the one that waits for
/// `arg`. One whose custom ID is `module`, or starts with `module` and a colon, goes to the
/// listener that is registered under `module`, if `module` is not `oneshot`. Where there is
/// nobody, the component is ignored for its custom ID.
pub proof fn law_component_is_routed<P, ML, CL, MW, CW>(
    s: HandlerState<ML, CL, MW, CW>,
    interaction: Interaction<P>,
    data: MessageComponentInteractionData,
    module: Seq<char>,
    arg: Seq<char>,
)
    requires
        interaction.kind != InteractionType::Ping,
        interaction.data == Some(InteractionData::MessageComponent(data)),
        !module.contains(':'),
        (data.custom_id@ == module && arg.len() == 0) || data.custom_id@ == module + seq![':']
            + arg,
    ensures
        module == "oneshot"@ && s.message_waiters_oneshot.contains_key(arg) ==> {
            &&& s.handled(interaction).1 is WakeComponentWaiter
            &&& s.handled(interaction).1->WakeComponentWaiter_waiter
                == s.message_waiters_oneshot[arg]
            &&& s.handled(interaction).1->WakeComponentWaiter_data == data
        },
        module == "oneshot"@ && !s.message_waiters_oneshot.contains_key(arg) ==> s.handled(
            interaction,
        ).1 == (Step::<P, ML, CL, MW, CW>::Ignore(Unroutable::WaiterDisappeared(data.custom_id))),
        module != "oneshot"@ && s.message_waiters.contains_key(module) ==> {
            &&& s.handled(interaction).1 is RunComponentListener
            &&& s.handled(interaction).1->RunComponentListener_listener
                == s.message_waiters[module]
            &&& s.handled(interaction).1->RunComponentListener_task.data == data
        },
        module != "oneshot"@ && !s.message_waiters.contains_key(module) ==> s.handled(
            interaction,
        ).1 == (Step::<P, ML, CL, MW, CW>::Ignore(Unroutable::UnknownComponent(data.custom_id))),
{
    if data.custom_id@ == module && arg.len() == 0 {
        law_plain_id(module);
        assert(arg =~= Seq::empty());
    } else {
        law_id_with_argument(module, arg);
    }
}

// ---- What is remembered of it ----

/// Tasks are numbered one after the other. Behind the last number they start over.
pub proof fn law_numbers_follow_each_other(n: usize)
    ensures
        n < usize::MAX ==> next_command_id(n) == n + 1,
        next_command_id(usize::MAX) == 0,
{
}

/// An interaction that runs code is remembered with its own ID and its whole token under
/// the number of that code, and that number under its ID. No other entry changes, nobody
/// stops listening or waiting, and the next number is due.
pub proof fn law_running_code_is_remembered<P, ML, CL, MW, CW>(
    s: HandlerState<ML, CL, MW, CW>,
    interaction: Interaction<P>,
    command: usize,
    id: u64,
)
    requires
        interaction.kind != InteractionType::Ping,
        interaction.data is Some,
        s.handled(interaction).1 is RunCommand || s.handled(interaction).1 is RunModalListener
            || s.handled(interaction).1 is RunComponentListener,
    ensures
        ({
            let t = s.handled(interaction).0;
            let n = s.current_command_id;
            let reached = t.command_id_mappings.command_id_to_interaction;
            let reached_before = s.command_id_mappings.command_id_to_interaction;
            let leads = t.command_id_mappings.interaction_id_to_command_id;
            let led_before = s.command_id_mappings.interaction_id_to_command_id;
            &&& reached.contains_key(n)
            &&& reached[n].id == interaction.id
            &&& reached[n].token == interaction.token@
            &&& t.reply_target(n) is Some
            &&& t.reply_target(n)->0.id == interaction.id
            &&& t.reply_target(n)->0.token == interaction.token@
            &&& command != n ==> {
                &&& reached.contains_key(command) == reached_before.contains_key(command)
                &&& reached[command] == reached_before[command]
            }
            &&& leads.contains_key(interaction.id)
            &&& leads[interaction.id] == n
            &&& id != interaction.id ==> {
                &&& leads.contains_key(id) == led_before.contains_key(id)
                &&& leads[id] == led_before[id]
            }
            &&& n < usize::MAX ==> t.current_command_id == n + 1
            &&& n == usize::MAX ==> t.current_command_id == 0
            &&& t.commands == s.commands
            &&& t.modal_waiters_oneshot == s.modal_waiters_oneshot
            &&& t.modal_waiters_permanent == s.modal_waiters_permanent
            &&& t.message_waiters_oneshot == s.message_waiters_oneshot
            &&& t.message_waiters == s.message_waiters
        }),
{
}

/// An interaction that runs no code changes nothing but who waits: the one that it wakes
/// waits no more, and every other goes on waiting.
pub proof fn law_waking_ends_one_wait<P, ML, CL, MW, CW>(
    s: HandlerState<ML, CL, MW, CW>,
    interaction: Interaction<P>,
    other: Seq<char>,
)
    requires
        interaction.kind == InteractionType::Ping || interaction.data is Some,
        !(s.handled(interaction).1 is RunCommand),
        !(s.handled(interaction).1 is RunModalListener),
        !(s.handled(interaction).1 is RunComponentListener),
    ensures
        ({
            let (t, step) = s.handled(interaction);
            let forms = t.modal_waiters_oneshot;
            let components = t.message_waiters_oneshot;
            &&& t.commands == s.commands
            &&& t.modal_waiters_permanent == s.modal_waiters_permanent
            &&& t.message_waiters == s.message_waiters
            &&& t.current_command_id == s.current_command_id
            &&& t.command_id_mappings == s.command_id_mappings
            &&& match step {
                Step::WakeModalWaiter { data, .. } => {
                    &&& !forms.contains_key(data.custom_id@)
                    &&& other != data.custom_id@ ==> {
                        &&& forms.contains_key(other) == s.modal_waiters_oneshot.contains_key(other)
                        &&& forms[other] == s.modal_waiters_oneshot[other]
                    }
                    &&& components == s.message_waiters_oneshot
                },
                Step::WakeComponentWaiter { data, .. } => {
                    let woken = data.custom_id@ == "oneshot:"@ + other || (data.custom_id@
                        == "oneshot"@ && other.len() == 0);
                    &&& woken ==> !components.contains_key(other)
                    &&& !woken ==> {
                        &&& components.contains_key(other)
                            == s.message_waiters_oneshot.contains_key(other)
                        &&& components[other] == s.message_waiters_oneshot[other]
                    }
                    &&& forms == s.modal_waiters_oneshot
                },
                _ => t == s,
            }
        }),
{
    if let Step::WakeComponentWaiter { data, .. } = s.handled(interaction).1 {
        let id = data.custom_id@;
        law_every_id_is_module_and_argument(id);
        reveal_strlit("oneshot");
        reveal_strlit("oneshot:");
        assert("oneshot:"@ =~= "oneshot"@ + seq![':']);
        assert(!"oneshot"@.contains(':'));
        law_id_with_argument("oneshot"@, other);
        law_plain_id("oneshot"@);
        assert(other.len() == 0 ==> other =~= Seq::empty());
        if !id.contains(':') {
            assert(arg_of(id) =~= Seq::empty());
        }
    }
}

/// Where a reply target stands for an interaction, it has the ID of the interaction and its
/// whole token. So it does as an executable value.
pub proof fn law_target_is_id_and_token<P>(interaction: Interaction<P>, target: ReplyTarget)
    ensures
        target_of(interaction).id == interaction.id,
        target_of(interaction).token == interaction.token@,
        target@.id == target.id,
        target@.token == target.token@,
{
}

/// Once a form has been submitted, the task that showed it is reached through the reply: by
/// the ID of the reply and its whole token. The interaction before it leads nowhere any
/// more. Nothing changes for any other task, and nobody stops listening or waiting.
pub proof fn law_reply_takes_over<P, ML, CL, MW, CW>(
    s: HandlerState<ML, CL, MW, CW>,
    interaction: Interaction<P>,
    reply: Interaction<P>,
    command: usize,
    id: u64,
)
    requires
        s.command_id_mappings.interaction_id_to_command_id.contains_key(interaction.id),
    ensures
        ({
            let t = s.followed(interaction.id, target_of(reply));
            let n = s.command_id_mappings.interaction_id_to_command_id[interaction.id];
            let reached = t.command_id_mappings.command_id_to_interaction;
            let reached_before = s.command_id_mappings.command_id_to_interaction;
            let leads = t.command_id_mappings.interaction_id_to_command_id;
            let led_before = s.command_id_mappings.interaction_id_to_command_id;
            &&& reached.contains_key(n)
            &&& reached[n].id == reply.id
            &&& reached[n].token == reply.token@
            &&& t.reply_target(n) is Some
            &&& t.reply_target(n)->0.id == reply.id
            &&& t.reply_target(n)->0.token == reply.token@
            &&& command != n ==> {
                &&& reached.contains_key(command) == reached_before.contains_key(command)
                &&& reached[command] == reached_before[command]
            }
            &&& leads.contains_key(reply.id)
            &&& leads[reply.id] == n
            &&& interaction.id != reply.id ==> !leads.contains_key(interaction.id)
            &&& id != reply.id && id != interaction.id ==> {
                &&& leads.contains_key(id) == led_before.contains_key(id)
                &&& leads[id] == led_before[id]
            }
            &&& t.current_command_id == s.current_command_id
            &&& t.commands == s.commands
            &&& t.modal_waiters_oneshot == s.modal_waiters_oneshot
            &&& t.modal_waiters_permanent == s.modal_waiters_permanent
            &&& t.message_waiters_oneshot == s.message_waiters_oneshot
            &&& t.message_waiters == s.message_waiters
        }),
{
}

/// A task that has ended is forgotten, and so is the interaction that it could be reached
/// through. Nothing changes for any other, and nobody stops listening or waiting.
pub proof fn law_ended_task_is_forgotten<ML, CL, MW, CW>(
    s: HandlerState<ML, CL, MW, CW>,
    ended: usize,
    command: usize,
    id: u64,
)
    ensures
        ({
            let t = s.finished(ended);
            let reached = t.command_id_mappings.command_id_to_interaction;
            let reached_before = s.command_id_mappings.command_id_to_interaction;
            let leads = t.command_id_mappings.interaction_id_to_command_id;
            let led_before = s.command_id_mappings.interaction_id_to_command_id;
            let by_id = reached_before.contains_key(ended) && reached_before[ended].id == id;
            &&& !reached.contains_key(ended)
            &&& t.reply_target(ended) is None
            &&& command != ended ==> {
                &&& reached.contains_key(command) == reached_before.contains_key(command)
                &&& reached[command] == reached_before[command]
            }
            &&& by_id ==> !leads.contains_key(id)
            &&& !by_id ==> {
                &&& leads.contains_key(id) == led_before.contains_key(id)
                &&& leads[id] == led_before[id]
            }
            &&& t.current_command_id == s.current_command_id
            &&& t.commands == s.commands
            &&& t.modal_waiters_oneshot == s.modal_waiters_oneshot
            &&& t.modal_waiters_permanent == s.modal_waiters_permanent
            &&& t.message_waiters_oneshot == s.message_waiters_oneshot
            &&& t.message_waiters == s.message_waiters
        }),
{
}

/// A task can be reached exactly through the interaction that is remembered for it, and not
/// at all where none is.
pub proof fn law_task_is_reached_as_remembered<ML, CL, MW, CW>(
    s: HandlerState<ML, CL, MW, CW>,
    command: usize,
)
    ensures
        ({
            let reached = s.command_id_mappings.command_id_to_interaction;
            &&& reached.contains_key(command) ==> s.reply_target(command) is Some
                && s.reply_target(command)->0.id == reached[command].id && s.reply_target(
                command,
            )->0.token == reached[command].token
            &&& !reached.contains_key(command) ==> s.reply_target(command) is None
        }),
{
}

/// At first no task runs, so that none can be reached and no interaction leads to any.
pub proof fn law_no_task_runs_at_first(command: usize, id: u64)
    ensures
        !Mappings::empty().command_id_to_interaction.contains_key(command),
        !Mappings::empty().interaction_id_to_command_id.contains_key(id),
{
}

/// A task that starts is reached through the given ID and the whole given token, and the ID
/// leads to it. Nothing changes for any other.
pub proof fn law_started_task_is_linked(
    m: Mappings,
    started: usize,
    target: Target,
    command: usize,
    id: u64,
)
    ensures
        ({
            let t = m.started(started, target);
            &&& t.command_id_to_interaction.contains_key(started)
            &&& t.command_id_to_interaction[started].id == target.id
            &&& t.command_id_to_interaction[started].token == target.token
            &&& t.interaction_id_to_command_id.contains_key(target.id)
            &&& t.interaction_id_to_command_id[target.id] == started
            &&& command != started ==> {
                &&& t.command_id_to_interaction.contains_key(command)
                    == m.command_id_to_interaction.contains_key(command)
                &&& t.command_id_to_interaction[command] == m.command_id_to_interaction[command]
            }
            &&& id != target.id ==> {
                &&& t.interaction_id_to_command_id.contains_key(id)
                    == m.interaction_id_to_command_id.contains_key(id)
                &&& t.interaction_id_to_command_id[id] == m.interaction_id_to_command_id[id]
            }
        }),
{
}

/// A task that goes on is reached through the given ID and the whole given token, the ID
/// leads to it, and the one before leads nowhere. Nothing changes for any other.
pub proof fn law_moved_task_is_linked(
    m: Mappings,
    from: u64,
    to: Target,
    command: usize,
    id: u64,
)
    requires
        m.interaction_id_to_command_id.contains_key(from),
    ensures
        ({
            let t = m.moved(from, to);
            let moved = m.interaction_id_to_command_id[from];
            &&& t.command_id_to_interaction.contains_key(moved)
            &&& t.command_id_to_interaction[moved].id == to.id
            &&& t.command_id_to_interaction[moved].token == to.token
            &&& t.interaction_id_to_command_id.contains_key(to.id)
            &&& t.interaction_id_to_command_id[to.id] == moved
            &&& from != to.id ==> !t.interaction_id_to_command_id.contains_key(from)
            &&& command != moved ==> {
                &&& t.command_id_to_interaction.contains_key(command)
                    == m.command_id_to_interaction.contains_key(command)
                &&& t.command_id_to_interaction[command] == m.command_id_to_interaction[command]
            }
            &&& id != to.id && id != from ==> {
                &&& t.interaction_id_to_command_id.contains_key(id)
                    == m.interaction_id_to_command_id.contains_key(id)
                &&& t.interaction_id_to_command_id[id] == m.interaction_id_to_command_id[id]
            }
        }),
{
}

/// A task that ends is forgotten together with the interaction that it could be reached
/// through. Nothing changes for any other.
pub proof fn law_ended_task_is_unlinked(m: Mappings, ended: usize, command: usize, id: u64)
    ensures
        ({
            let t = m.ended(ended);
            let by_id = m.command_id_to_interaction.contains_key(ended)
                && m.command_id_to_interaction[ended].id == id;
            &&& !t.command_id_to_interaction.contains_key(ended)
            &&& by_id ==> !t.interaction_id_to_command_id.contains_key(id)
            &&& command != ended ==> {
                &&& t.command_id_to_interaction.contains_key(command)
                    == m.command_id_to_interaction.contains_key(command)
                &&& t.command_id_to_interaction[command] == m.command_id_to_interaction[command]
            }
            &&& !by_id ==> {
                &&& t.interaction_id_to_command_id.contains_key(id)
                    == m.interaction_id_to_command_id.contains_key(id)
                &&& t.interaction_id_to_command_id[id] == m.interaction_id_to_command_id[id]
            }
        }),
{
}

// ---- Where its error goes ----

/// The error of the code that an interaction ran reaches the user through that interaction,
/// if the code did not go on with another: the report is made to its application, under its
/// own ID and its whole token, and tells the whole error.
pub proof fn law_error_reaches_the_user<P, ML, CL, MW, CW>(
    s: HandlerState<ML, CL, MW, CW>,
    interaction: Interaction<P>,
    request: ResponseRequest<InteractionResponseData>,
    error: Seq<char>,
)
    requires
        interaction.kind != InteractionType::Ping,
        interaction.data is Some,
        s.handled(interaction).1 is RunCommand || s.handled(interaction).1 is RunModalListener
            || s.handled(interaction).1 is RunComponentListener,
        s.handled(interaction).0.reply_target(s.current_command_id) is Some ==> reports(
            request,
            interaction.application_id,
            s.handled(interaction).0.reply_target(s.current_command_id)->0,
            error,
        ),
    ensures
        request.application_id == interaction.application_id,
        request.interaction_id == interaction.id,
        request.token@ == interaction.token@,
        request.response.kind == InteractionResponseType::ChannelMessageWithSource,
        request.response.data is Some,
        request.response.data->0.content is Some,
        request.response.data->0.content->0@ == "Internal error! "@ + error,
{
}

/// The error of code that showed a form and got it back reaches the user through the reply,
/// under the ID of the reply and its whole token.
pub proof fn law_error_reaches_the_user_through_the_reply<P, ML, CL, MW, CW>(
    s: HandlerState<ML, CL, MW, CW>,
    interaction: Interaction<P>,
    reply: Interaction<P>,
    application_id: u64,
    request: ResponseRequest<InteractionResponseData>,
    error: Seq<char>,
)
    requires
        s.command_id_mappings.interaction_id_to_command_id.contains_key(interaction.id),
        ({
            let command = s.command_id_mappings.interaction_id_to_command_id[interaction.id];
            let target = s.followed(interaction.id, target_of(reply)).reply_target(command);
            target is Some ==> reports(request, application_id, target->0, error)
        }),
    ensures
        request.application_id == application_id,
        request.interaction_id == reply.id,
        request.token@ == reply.token@,
        request.response.kind == InteractionResponseType::ChannelMessageWithSource,
        request.response.data is Some,
        request.response.data->0.content is Some,
        request.response.data->0.content->0@ == "Internal error! "@ + error,
{
}

// ---- Who listens and who waits ----

/// Registering somebody under a name puts that one there, in place of whoever was there,
/// and changes nothing else. This holds of each of the four tables.
pub proof fn law_registering_adds_one<ML, CL, MW, CW>(
    s: HandlerState<ML, CL, MW, CW>,
    name: Seq<char>,
    other: Seq<char>,
    modal_waiter: MW,
    modal_listener: ML,
    component_waiter: CW,
    component_listener: CL,
)
    ensures
        ({
            let t = s.with_modal_waiter(name, modal_waiter);
            &&& t.modal_waiters_oneshot.contains_key(name)
            &&& t.modal_waiters_oneshot[name] == modal_waiter
            &&& other != name ==> {
                &&& t.modal_waiters_oneshot.contains_key(other)
                    == s.modal_waiters_oneshot.contains_key(other)
                &&& t.modal_waiters_oneshot[other] == s.modal_waiters_oneshot[other]
            }
            &&& t == (HandlerState { modal_waiters_oneshot: t.modal_waiters_oneshot, ..s })
        }),
        ({
            let t = s.with_modal_listener(name, modal_listener);
            &&& t.modal_waiters_permanent.contains_key(name)
            &&& t.modal_waiters_permanent[name] == modal_listener
            &&& other != name ==> {
                &&& t.modal_waiters_permanent.contains_key(other)
                    == s.modal_waiters_permanent.contains_key(other)
                &&& t.modal_waiters_permanent[other] == s.modal_waiters_permanent[other]
            }
            &&& t == (HandlerState { modal_waiters_permanent: t.modal_waiters_permanent, ..s })
        }),
        ({
            let t = s.with_component_waiter(name, component_waiter);
            &&& t.message_waiters_oneshot.contains_key(name)
            &&& t.message_waiters_oneshot[name] == component_waiter
            &&& other != name ==> {
                &&& t.message_waiters_oneshot.contains_key(other)
                    == s.message_waiters_oneshot.contains_key(other)
                &&& t.message_waiters_oneshot[other] == s.message_waiters_oneshot[other]
            }
            &&& t == (HandlerState { message_waiters_oneshot: t.message_waiters_oneshot, ..s })
        }),
        ({
            let t = s.with_component_listener(name, component_listener);
            &&& t.message_waiters.contains_key(name)
            &&& t.message_waiters[name] == component_listener
            &&& other != name ==> {
                &&& t.message_waiters.contains_key(other) == s.message_waiters.contains_key(other)
                &&& t.message_waiters[other] == s.message_waiters[other]
            }
            &&& t == (HandlerState { message_waiters: t.message_waiters, ..s })
        }),
{
}

/// Unhooking the listener of a name takes that one away, if there is one, and changes
/// nothing else. This holds of listeners for forms and of listeners for components.
pub proof fn law_unhooking_takes_one_away<ML, CL, MW, CW>(
    s: HandlerState<ML, CL, MW, CW>,
    name: Seq<char>,
    other: Seq<char>,
)
    ensures
        ({
            let t = s.without_modal_listener(name);
            &&& !t.modal_waiters_permanent.contains_key(name)
            &&& other != name ==> {
                &&& t.modal_waiters_permanent.contains_key(other)
                    == s.modal_waiters_permanent.contains_key(other)
                &&& t.modal_waiters_permanent[other] == s.modal_waiters_permanent[other]
            }
            &&& t == (HandlerState { modal_waiters_permanent: t.modal_waiters_permanent, ..s })
        }),
        ({
            let t = s.without_component_listener(name);
            &&& !t.message_waiters.contains_key(name)
            &&& other != name ==> {
                &&& t.message_waiters.contains_key(other) == s.message_waiters.contains_key(other)
                &&& t.message_waiters[other] == s.message_waiters[other]
            }
            &&& t == (HandlerState { message_waiters: t.message_waiters, ..s })
        }),
{
}

} // verus!
