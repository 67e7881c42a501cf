//! What holds of the routing as a whole.

use crate::custom_id::{arg_of, is_custom_id, is_custom_id_char, module_of};
use crate::interaction::{
    CommandData, Interaction, InteractionData, InteractionType, MessageComponentInteractionData,
    ModalInteractionData,
};
use crate::operation::{performed, Operation};
use crate::state::{oneshot_id, pong, target_of, HandlerState};
use crate::step::{Step, Ticket, Unroutable};
use vstd::prelude::*;

verus! {

// ---- Custom IDs ----

/// A custom ID without a colon is all module, and has no argument.
pub proof fn law_plain_id(id: Seq<char>)
    requires
        !id.contains(':'),
    ensures
        module_of(id) == id,
        arg_of(id) == Seq::<char>::empty(),
{
    id.index_of_first_ensures(':');
}

/// A custom ID made of a module without a colon, a colon and an argument is split into
/// that module and that argument, whatever the argument holds.
pub proof fn law_id_with_argument(module: Seq<char>, arg: Seq<char>)
    requires
        !module.contains(':'),
    ensures
        module_of(module + seq![':'] + arg) == module,
        arg_of(module + seq![':'] + arg) == arg,
{
    let id = module + seq![':'] + arg;
    let n = module.len() as int;
    assert(id[n] == ':');
    assert(id.contains(':'));
    id.index_of_first_ensures(':');
    let i = id.index_of_first(':')->0;
    if i < n {
        assert(module[i] == ':');
    }
    assert(i == n);
    assert(id.take(n) =~= module);
    assert(id.skip(n + 1) =~= arg);
}

/// The custom ID that is shown for a single-use custom ID names the module `oneshot`, and
/// has the single-use custom ID as its argument.
pub proof fn law_oneshot_id(custom_id: Seq<char>)
    ensures
        module_of(oneshot_id(custom_id)) == "oneshot"@,
        arg_of(oneshot_id(custom_id)) == custom_id,
{
    reveal_strlit("oneshot:");
    reveal_strlit("oneshot");
    assert(!"oneshot"@.contains(':'));
    assert("oneshot:"@ =~= "oneshot"@ + seq![':']);
    law_id_with_argument("oneshot"@, custom_id);
}

/// A custom ID that is generated for a context without a colon has none either, so that
/// a listener registered under it is found by it.
pub proof fn law_generated_id_is_plain(ctx: Seq<char>, id: Seq<char>)
    requires
        is_custom_id(ctx, id),
        !ctx.contains(':'),
    ensures
        !id.contains(':'),
        module_of(id) == id,
{
    assert forall|i: int| 0 <= i < id.len() implies id[i] != ':' by {
        let n = ctx.len() as int;
        if i < n {
            assert(id[i] == ctx[i]);
        } else if i > n {
            let picked = id.skip(n + 1);
            assert(is_custom_id_char(picked[i - n - 1]));
        }
    }
    law_plain_id(id);
}

// ---- Routing ----

/// `interaction` brings the form `data`.
pub open spec fn brings_modal<P>(interaction: Interaction<P>, data: ModalInteractionData) -> bool {
    &&& interaction.kind != InteractionType::Ping
    &&& interaction.data == Some(InteractionData::ModalSubmit(data))
}

/// `interaction` brings the component `data`.
pub open spec fn brings_component<P>(
    interaction: Interaction<P>,
    data: MessageComponentInteractionData,
) -> bool {
    &&& interaction.kind != InteractionType::Ping
    &&& interaction.data == Some(InteractionData::MessageComponent(data))
}

/// `interaction` brings the command `data`.
pub open spec fn brings_command<P>(interaction: Interaction<P>, data: CommandData) -> bool {
    &&& interaction.kind != InteractionType::Ping
    &&& interaction.data == Some(InteractionData::ApplicationCommand(data))
}

/// The ticket of the application code that a step runs.
pub open spec fn ticket_of<P, ML, CL, MW, CW>(step: Step<P, ML, CL, MW, CW>) -> Option<Ticket> {
    match step {
        Step::RunCommand { task, .. } => Some(task.ticket),
        Step::RunModalListener { task, .. } => Some(task.ticket),
        Step::RunComponentListener { task, .. } => Some(task.ticket),
        _ => None,
    }
}

/// The interaction that a step hands to the application code that it runs.
pub open spec fn handed_over<P, ML, CL, MW, CW>(step: Step<P, ML, CL, MW, CW>) -> Option<
    Interaction<P>,
> {
    match step {
        Step::RunCommand { task, .. } => Some(task.interaction),
        Step::RunModalListener { task, .. } => Some(task.interaction),
        Step::RunComponentListener { task, .. } => Some(task.interaction),
        _ => None,
    }
}

/// A ping is answered with a pong in every state, and changes nothing.
pub proof fn law_ping_gets_pong<P, ML, CL, MW, CW>(
    s: HandlerState<ML, CL, MW, CW>,
    interaction: Interaction<P>,
)
    requires
        interaction.kind == InteractionType::Ping,
    ensures
        s.handled(interaction) == (s, Step::<P, ML, CL, MW, CW>::Respond(pong(interaction))),
{
}

/// A command runs exactly if its name is known, and then it is the one that the name
/// stands for. Otherwise nothing changes.
pub proof fn law_known_commands_run<P, ML, CL, MW, CW>(
    s: HandlerState<ML, CL, MW, CW>,
    interaction: Interaction<P>,
    data: CommandData,
)
    requires
        brings_command(interaction, data),
    ensures
        s.commands.contains_key(data.name@) <==> s.handled(interaction).1 is RunCommand,
        s.handled(interaction).1 matches Step::RunCommand { command, task } ==> command
            == s.commands[data.name@] && task == s.task(interaction, data),
        !s.commands.contains_key(data.name@) ==> s.handled(interaction) == (
            s,
            Step::<P, ML, CL, MW, CW>::Ignore(Unroutable::UnknownCommand(data.name)),
        ),
{
}

/// An interaction that is ignored changes nothing. One that runs application code is
/// handed to it without its data, is remembered as the way to reach the user, and uses up
/// one number. One that does not run application code leaves the running tasks alone.
pub proof fn law_only_tasks_are_remembered<P, ML, CL, MW, CW>(
    s: HandlerState<ML, CL, MW, CW>,
    interaction: Interaction<P>,
)
    requires
        interaction.is_complete(),
    ensures
        ({
            let (t, step) = s.handled(interaction);
            match ticket_of(step) {
                Some(ticket) => {
                    &&& ticket.command_id == s.current_command_id
                    &&& ticket.application_id == interaction.application_id
                    &&& handed_over(step) == Some(interaction.without_data())
                    &&& t == s.launched(target_of(interaction))
                },
                None => {
                    &&& t.current_command_id == s.current_command_id
                    &&& t.command_id_mappings == s.command_id_mappings
                    &&& step is Ignore ==> t == s
                },
            }
        }),
{
}

/// A form that is shown under a single-use custom ID comes back to the one that waits for
/// it, who then waits no more: everything is as it was before the form was shown. Only a
/// listener for forms that took the name `oneshot` for itself would stand in the way.
pub proof fn law_modal_comes_back<P, ML, CL, MW, CW>(
    s: HandlerState<ML, CL, MW, CW>,
    custom_id: Seq<char>,
    waiter: MW,
    interaction: Interaction<P>,
    data: ModalInteractionData,
)
    requires
        !s.modal_waiters_permanent.contains_key("oneshot"@),
        brings_modal(interaction, data),
        data.custom_id@ == oneshot_id(custom_id),
    ensures
        ({
            let shown = s.with_modal_waiter(oneshot_id(custom_id), waiter);
            let (t, step) = shown.handled(interaction);
            &&& step == Step::<P, ML, CL, MW, CW>::WakeModalWaiter {
                waiter,
                interaction: interaction.without_data(),
                data,
            }
            &&& t.modal_waiters_oneshot == s.modal_waiters_oneshot.remove(oneshot_id(custom_id))
            &&& !s.modal_waiters_oneshot.contains_key(oneshot_id(custom_id)) ==> t == s
        }),
{
    law_oneshot_id(custom_id);
    let shown = s.with_modal_waiter(oneshot_id(custom_id), waiter);
    let t = shown.handled(interaction).0;
    assert(t.modal_waiters_oneshot =~= s.modal_waiters_oneshot.remove(oneshot_id(custom_id)));
    if !s.modal_waiters_oneshot.contains_key(oneshot_id(custom_id)) {
        assert(t =~= s);
    }
}

/// A form wakes the one that waits for it at most once: submitted again, by whatever
/// interaction, it is unknown.
pub proof fn law_modal_waiter_is_woken_once<P, ML, CL, MW, CW>(
    s: HandlerState<ML, CL, MW, CW>,
    first: Interaction<P>,
    first_data: ModalInteractionData,
    second: Interaction<P>,
    second_data: ModalInteractionData,
)
    requires
        brings_modal(first, first_data),
        brings_modal(second, second_data),
        first_data.custom_id@ == second_data.custom_id@,
        s.handled(first).1 is WakeModalWaiter,
    ensures
        s.handled(first).0.handled(second) == (
            s.handled(first).0,
            Step::<P, ML, CL, MW, CW>::Ignore(Unroutable::UnknownModal(second_data.custom_id)),
        ),
{
}

/// A component that got a single-use custom ID comes back to the one that waits for it,
/// who then waits no more: everything is as it was before.
pub proof fn law_component_comes_back<P, ML, CL, MW, CW>(
    s: HandlerState<ML, CL, MW, CW>,
    custom_id: Seq<char>,
    waiter: CW,
    interaction: Interaction<P>,
    data: MessageComponentInteractionData,
)
    requires
        brings_component(interaction, data),
        data.custom_id@ == oneshot_id(custom_id),
    ensures
        ({
            let shown = s.with_component_waiter(custom_id, waiter);
            let (t, step) = shown.handled(interaction);
            &&& step == Step::<P, ML, CL, MW, CW>::WakeComponentWaiter {
                waiter,
                interaction: interaction.without_data(),
                data,
            }
            &&& t.message_waiters_oneshot == s.message_waiters_oneshot.remove(custom_id)
            &&& !s.message_waiters_oneshot.contains_key(custom_id) ==> t == s
        }),
{
    law_oneshot_id(custom_id);
    let shown = s.with_component_waiter(custom_id, waiter);
    let t = shown.handled(interaction).0;
    assert(t.message_waiters_oneshot =~= s.message_waiters_oneshot.remove(custom_id));
    if !s.message_waiters_oneshot.contains_key(custom_id) {
        assert(t =~= s);
    }
}

/// A component wakes the one that waits for it at most once: operated again, by whatever
/// interaction, nobody waits for it.
pub proof fn law_component_waiter_is_woken_once<P, ML, CL, MW, CW>(
    s: HandlerState<ML, CL, MW, CW>,
    first: Interaction<P>,
    first_data: MessageComponentInteractionData,
    second: Interaction<P>,
    second_data: MessageComponentInteractionData,
)
    requires
        brings_component(first, first_data),
        brings_component(second, second_data),
        first_data.custom_id@ == second_data.custom_id@,
        s.handled(first).1 is WakeComponentWaiter,
    ensures
        s.handled(first).0.handled(second) == (
            s.handled(first).0,
            Step::<P, ML, CL, MW, CW>::Ignore(
                Unroutable::WaiterDisappeared(second_data.custom_id),
            ),
        ),
{
}

/// A listener for components runs on each component whose custom ID names it, and stays
/// registered. The name `oneshot` is taken.
pub proof fn law_component_listener_runs<P, ML, CL, MW, CW>(
    s: HandlerState<ML, CL, MW, CW>,
    custom_id: Seq<char>,
    listener: CL,
    interaction: Interaction<P>,
    data: MessageComponentInteractionData,
)
    requires
        brings_component(interaction, data),
        module_of(data.custom_id@) == custom_id,
        custom_id != "oneshot"@,
    ensures
        ({
            let heard = s.with_component_listener(custom_id, listener);
            &&& heard.handled(interaction) == (
                heard.launched(target_of(interaction)),
                Step::<P, ML, CL, MW, CW>::RunComponentListener {
                    listener,
                    task: s.task(interaction, data),
                },
            )
            &&& heard.handled(interaction).0.message_waiters == heard.message_waiters
        }),
{
}

/// Components whose custom ID names a listener that was unhooked are ignored.
pub proof fn law_unhooked_component_listener<P, ML, CL, MW, CW>(
    s: HandlerState<ML, CL, MW, CW>,
    custom_id: Seq<char>,
    interaction: Interaction<P>,
    data: MessageComponentInteractionData,
)
    requires
        brings_component(interaction, data),
        module_of(data.custom_id@) == custom_id,
        custom_id != "oneshot"@,
    ensures
        s.without_component_listener(custom_id).handled(interaction) == (
            s.without_component_listener(custom_id),
            Step::<P, ML, CL, MW, CW>::Ignore(Unroutable::UnknownComponent(data.custom_id)),
        ),
{
}

/// Unhooking a listener for components undoes its registration, if nothing was registered
/// under its custom ID before.
pub proof fn law_unhooking_component_listener_undoes<ML, CL, MW, CW>(
    s: HandlerState<ML, CL, MW, CW>,
    custom_id: Seq<char>,
    listener: CL,
)
    requires
        !s.message_waiters.contains_key(custom_id),
    ensures
        s.with_component_listener(custom_id, listener).without_component_listener(custom_id) == s,
{
    assert(s.with_component_listener(custom_id, listener).without_component_listener(custom_id)
        =~= s);
}

/// A listener for components, registered or unhooked, makes no difference to what is done
/// about anything else.
pub proof fn law_component_listener_minds_its_own<P, ML, CL, MW, CW>(
    s: HandlerState<ML, CL, MW, CW>,
    custom_id: Seq<char>,
    listener: CL,
    interaction: Interaction<P>,
)
    requires
        interaction.is_complete(),
        !exists|data: MessageComponentInteractionData| #[trigger]
            brings_component(interaction, data) && module_of(data.custom_id@) == custom_id,
    ensures
        s.with_component_listener(custom_id, listener).handled(interaction).1 == s.handled(
            interaction,
        ).1,
        s.without_component_listener(custom_id).handled(interaction).1 == s.handled(interaction).1,
{
    if interaction.kind != InteractionType::Ping {
        match interaction.data {
            Some(InteractionData::MessageComponent(data)) => {
                assert(brings_component(interaction, data));
            },
            _ => {},
        }
    }
}

/// A listener for forms runs on each form whose custom ID names it, even where another
/// waits for that very form, and stays registered.
pub proof fn law_modal_listener_runs<P, ML, CL, MW, CW>(
    s: HandlerState<ML, CL, MW, CW>,
    custom_id: Seq<char>,
    listener: ML,
    interaction: Interaction<P>,
    data: ModalInteractionData,
)
    requires
        brings_modal(interaction, data),
        module_of(data.custom_id@) == custom_id,
    ensures
        ({
            let heard = s.with_modal_listener(custom_id, listener);
            &&& heard.handled(interaction) == (
                heard.launched(target_of(interaction)),
                Step::<P, ML, CL, MW, CW>::RunModalListener {
                    listener,
                    task: s.task(interaction, data),
                },
            )
            &&& heard.handled(interaction).0.modal_waiters_permanent
                == heard.modal_waiters_permanent
        }),
{
}

/// Forms whose custom ID names a listener that was unhooked are ignored, unless another
/// waits for that very form.
pub proof fn law_unhooked_modal_listener<P, ML, CL, MW, CW>(
    s: HandlerState<ML, CL, MW, CW>,
    custom_id: Seq<char>,
    interaction: Interaction<P>,
    data: ModalInteractionData,
)
    requires
        brings_modal(interaction, data),
        module_of(data.custom_id@) == custom_id,
        !s.modal_waiters_oneshot.contains_key(data.custom_id@),
    ensures
        s.without_modal_listener(custom_id).handled(interaction) == (
            s.without_modal_listener(custom_id),
            Step::<P, ML, CL, MW, CW>::Ignore(Unroutable::UnknownModal(data.custom_id)),
        ),
{
}

/// Unhooking a listener for forms undoes its registration, if nothing was registered under
/// its custom ID before.
pub proof fn law_unhooking_modal_listener_undoes<ML, CL, MW, CW>(
    s: HandlerState<ML, CL, MW, CW>,
    custom_id: Seq<char>,
    listener: ML,
)
    requires
        !s.modal_waiters_permanent.contains_key(custom_id),
    ensures
        s.with_modal_listener(custom_id, listener).without_modal_listener(custom_id) == s,
{
    assert(s.with_modal_listener(custom_id, listener).without_modal_listener(custom_id) =~= s);
}

/// A listener for forms, registered or unhooked, makes no difference to what is done about
/// anything else.
pub proof fn law_modal_listener_minds_its_own<P, ML, CL, MW, CW>(
    s: HandlerState<ML, CL, MW, CW>,
    custom_id: Seq<char>,
    listener: ML,
    interaction: Interaction<P>,
)
    requires
        interaction.is_complete(),
        !exists|data: ModalInteractionData| #[trigger]
            brings_modal(interaction, data) && module_of(data.custom_id@) == custom_id,
    ensures
        s.with_modal_listener(custom_id, listener).handled(interaction).1 == s.handled(
            interaction,
        ).1,
        s.without_modal_listener(custom_id).handled(interaction).1 == s.handled(interaction).1,
{
    if interaction.kind != InteractionType::Ping {
        match interaction.data {
            Some(InteractionData::ModalSubmit(data)) => {
                assert(brings_modal(interaction, data));
            },
            _ => {},
        }
    }
}

/// A message that is posted under a generated custom ID has its listener run on each
/// component of that custom ID, until the listener is unhooked.
pub proof fn law_message_components_are_heard<P, ML, CL, MW, CW>(
    s: HandlerState<ML, CL, MW, CW>,
    custom_id: Seq<char>,
    listener: CL,
    interaction: Interaction<P>,
    data: MessageComponentInteractionData,
)
    requires
        is_custom_id("components"@, custom_id),
        brings_component(interaction, data),
        data.custom_id@ == custom_id,
    ensures
        s.with_component_listener(custom_id, listener).handled(interaction).1 == (Step::<
            P,
            ML,
            CL,
            MW,
            CW,
        >::RunComponentListener { listener, task: s.task(interaction, data) }),
        s.without_component_listener(custom_id).handled(interaction).1 == (Step::<
            P,
            ML,
            CL,
            MW,
            CW,
        >::Ignore(Unroutable::UnknownComponent(data.custom_id))),
{
    reveal_strlit("components");
    reveal_strlit("oneshot");
    assert(!"components"@.contains(':'));
    law_generated_id_is_plain("components"@, custom_id);
    assert(custom_id.len() != "oneshot"@.len());
    law_component_listener_runs(s, custom_id, listener, interaction, data);
    law_unhooked_component_listener(s, custom_id, interaction, data);
}

// ---- What stays until it is meant to go ----

/// The operation brings the form of the given custom ID, or lets another wait for it.
pub open spec fn ends_modal_wait<P, ML, CL, MW, CW>(
    operation: Operation<P, ML, CL, MW, CW>,
    custom_id: Seq<char>,
) -> bool {
    match operation {
        Operation::Handle(interaction) => exists|data: ModalInteractionData| #[trigger]
            brings_modal(interaction, data) && data.custom_id@ == custom_id,
        Operation::ShowModal(id, _) => id == custom_id,
        _ => false,
    }
}

/// The operation brings the component of the given single-use custom ID, or lets another
/// wait for it.
pub open spec fn ends_component_wait<P, ML, CL, MW, CW>(
    operation: Operation<P, ML, CL, MW, CW>,
    custom_id: Seq<char>,
) -> bool {
    match operation {
        Operation::Handle(interaction) => exists|data: MessageComponentInteractionData| #[trigger]
            brings_component(interaction, data) && module_of(data.custom_id@) == "oneshot"@
                && arg_of(data.custom_id@) == custom_id,
        Operation::OneshotComponentListener(id, _) => id == custom_id,
        _ => false,
    }
}

/// The one that waits for a form goes on waiting, whatever is done, until that form is
/// submitted or another takes its place under the same custom ID.
pub proof fn law_modal_waiter_stays<P, ML, CL, MW, CW>(
    s: HandlerState<ML, CL, MW, CW>,
    custom_id: Seq<char>,
    operation: Operation<P, ML, CL, MW, CW>,
)
    requires
        s.modal_waiters_oneshot.contains_key(custom_id),
        operation matches Operation::Handle(interaction) ==> interaction.is_complete(),
        !ends_modal_wait(operation, custom_id),
    ensures
        performed(s, operation).modal_waiters_oneshot.contains_key(custom_id),
        performed(s, operation).modal_waiters_oneshot[custom_id]
            == s.modal_waiters_oneshot[custom_id],
{
    if let Operation::Handle(interaction) = operation {
        if let Some(InteractionData::ModalSubmit(data)) = interaction.data {
            assert(interaction.kind != InteractionType::Ping ==> brings_modal(interaction, data));
        }
    }
}

/// The one that waits for a component goes on waiting, whatever is done, until that
/// component is operated or another takes its place under the same custom ID.
pub proof fn law_component_waiter_stays<P, ML, CL, MW, CW>(
    s: HandlerState<ML, CL, MW, CW>,
    custom_id: Seq<char>,
    operation: Operation<P, ML, CL, MW, CW>,
)
    requires
        s.message_waiters_oneshot.contains_key(custom_id),
        operation matches Operation::Handle(interaction) ==> interaction.is_complete(),
        !ends_component_wait(operation, custom_id),
    ensures
        performed(s, operation).message_waiters_oneshot.contains_key(custom_id),
        performed(s, operation).message_waiters_oneshot[custom_id]
            == s.message_waiters_oneshot[custom_id],
{
    if let Operation::Handle(interaction) = operation {
        if let Some(InteractionData::MessageComponent(data)) = interaction.data {
            assert(interaction.kind != InteractionType::Ping ==> brings_component(
                interaction,
                data,
            ));
        }
    }
}

/// The commands never change, and a listener changes only by being unhooked or replaced.
pub proof fn law_listeners_stay<P, ML, CL, MW, CW>(
    s: HandlerState<ML, CL, MW, CW>,
    operation: Operation<P, ML, CL, MW, CW>,
)
    requires
        operation matches Operation::Handle(interaction) ==> interaction.is_complete(),
    ensures
        performed(s, operation).commands == s.commands,
        !(operation is AddModalListener) && !(operation is UnhookModalListener) ==> performed(
            s,
            operation,
        ).modal_waiters_permanent == s.modal_waiters_permanent,
        !(operation is AddComponentListener) && !(operation is UnhookComponentListener)
            ==> performed(s, operation).message_waiters == s.message_waiters,
{
}

} // verus!
