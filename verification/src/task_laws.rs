//! What holds of running tasks and of the interactions that they can be reached through.

use crate::interaction::{Interaction, ModalInteractionData};
use crate::mappings::{Mappings, Target};
use crate::operation::{performed, Operation};
use crate::routing_laws::{
    brings_modal, law_listeners_stay, law_modal_comes_back, law_only_tasks_are_remembered,
    ticket_of,
};
use crate::state::{next_command_id, oneshot_id, target_of, HandlerState};
use crate::step::Step;
use vstd::prelude::*;

verus! {

// ---- What every state keeps ----

/// An interaction that leads to a task is the one that the task can be reached through.
pub open spec fn linked(m: Mappings) -> bool {
    forall|id: u64| #[trigger]
        m.interaction_id_to_command_id.contains_key(id)
            ==> m.command_id_to_interaction.contains_key(m.interaction_id_to_command_id[id])
            && m.command_id_to_interaction[m.interaction_id_to_command_id[id]].id == id
}

/// The interaction that a task can be reached through leads to that task.
pub open spec fn paired(m: Mappings) -> bool {
    forall|command: usize| #[trigger]
        m.command_id_to_interaction.contains_key(command)
            ==> m.interaction_id_to_command_id.contains_key(
            m.command_id_to_interaction[command].id,
        ) && m.interaction_id_to_command_id[m.command_id_to_interaction[command].id] == command
}

/// Starting a task under a number that no running task has keeps the mappings linked. It
/// keeps them paired too if its interaction is a new one.
pub proof fn law_starting_keeps_order(m: Mappings, command: usize, target: Target)
    requires
        linked(m),
        !m.command_id_to_interaction.contains_key(command),
    ensures
        linked(m.started(command, target)),
        paired(m) && !m.interaction_id_to_command_id.contains_key(target.id) ==> paired(
            m.started(command, target),
        ),
{
    let t = m.started(command, target);
    assert forall|id: u64| #[trigger]
        t.interaction_id_to_command_id.contains_key(
            id,
        ) implies t.command_id_to_interaction.contains_key(t.interaction_id_to_command_id[id])
        && t.command_id_to_interaction[t.interaction_id_to_command_id[id]].id == id by {
        if id != target.id {
            assert(m.interaction_id_to_command_id.contains_key(id));
        }
    }
    if paired(m) && !m.interaction_id_to_command_id.contains_key(target.id) {
        assert forall|c: usize| #[trigger]
            t.command_id_to_interaction.contains_key(
                c,
            ) implies t.interaction_id_to_command_id.contains_key(t.command_id_to_interaction[c].id)
            && t.interaction_id_to_command_id[t.command_id_to_interaction[c].id] == c by {
            if c != command {
                assert(m.command_id_to_interaction.contains_key(c));
            }
        }
    }
}

/// Ending a task keeps the mappings linked, and paired if they were. Afterwards nothing
/// leads to the task any more.
pub proof fn law_ending_keeps_order(m: Mappings, command: usize)
    requires
        linked(m),
    ensures
        linked(m.ended(command)),
        paired(m) ==> paired(m.ended(command)),
        !m.ended(command).command_id_to_interaction.contains_key(command),
        forall|id: u64| #[trigger]
            m.ended(command).interaction_id_to_command_id.contains_key(id) ==> m.ended(
                command,
            ).interaction_id_to_command_id[id] != command,
{
    let t = m.ended(command);
    assert forall|id: u64| #[trigger]
        t.interaction_id_to_command_id.contains_key(
            id,
        ) implies t.command_id_to_interaction.contains_key(t.interaction_id_to_command_id[id])
        && t.command_id_to_interaction[t.interaction_id_to_command_id[id]].id == id
        && t.interaction_id_to_command_id[id] != command by {
        assert(m.interaction_id_to_command_id.contains_key(id));
    }
    if paired(m) {
        assert forall|c: usize| #[trigger]
            t.command_id_to_interaction.contains_key(
                c,
            ) implies t.interaction_id_to_command_id.contains_key(t.command_id_to_interaction[c].id)
            && t.interaction_id_to_command_id[t.command_id_to_interaction[c].id] == c by {
            assert(m.command_id_to_interaction.contains_key(c));
        }
    }
}

/// Going on with another interaction keeps the mappings linked. It keeps them paired too
/// if that interaction is a new one.
pub proof fn law_moving_keeps_order(m: Mappings, from: u64, to: Target)
    requires
        linked(m),
        m.interaction_id_to_command_id.contains_key(from),
    ensures
        linked(m.moved(from, to)),
        paired(m) && !m.interaction_id_to_command_id.contains_key(to.id) ==> paired(
            m.moved(from, to),
        ),
{
    let t = m.moved(from, to);
    let command = m.interaction_id_to_command_id[from];
    assert forall|id: u64| #[trigger]
        t.interaction_id_to_command_id.contains_key(
            id,
        ) implies t.command_id_to_interaction.contains_key(t.interaction_id_to_command_id[id])
        && t.command_id_to_interaction[t.interaction_id_to_command_id[id]].id == id by {
        if id != to.id {
            assert(m.interaction_id_to_command_id.contains_key(id));
        }
    }
    if paired(m) && !m.interaction_id_to_command_id.contains_key(to.id) {
        assert forall|c: usize| #[trigger]
            t.command_id_to_interaction.contains_key(
                c,
            ) implies t.interaction_id_to_command_id.contains_key(t.command_id_to_interaction[c].id)
            && t.interaction_id_to_command_id[t.command_id_to_interaction[c].id] == c by {
            if c != command {
                assert(m.command_id_to_interaction.contains_key(c));
            }
        }
    }
}

/// Once no task runs any more, no interaction is remembered.
pub proof fn law_nothing_is_left_behind(m: Mappings)
    requires
        linked(m),
        forall|command: usize| !#[trigger] m.command_id_to_interaction.contains_key(command),
    ensures
        m == Mappings::empty(),
{
    assert forall|id: u64| !#[trigger] m.interaction_id_to_command_id.contains_key(id) by {
        if m.interaction_id_to_command_id.contains_key(id) {
            assert(m.command_id_to_interaction.contains_key(m.interaction_id_to_command_id[id]));
        }
    }
    assert(m.interaction_id_to_command_id =~= Map::empty());
    assert(m.command_id_to_interaction =~= Map::empty());
}

/// The mappings are linked, and the numbers of the running tasks have been used up.
pub open spec fn sound<ML, CL, MW, CW>(s: HandlerState<ML, CL, MW, CW>) -> bool {
    &&& linked(s.command_id_mappings)
    &&& forall|command: usize| #[trigger]
        s.command_id_mappings.command_id_to_interaction.contains_key(command) ==> command
            < s.current_command_id
}

/// A state in which nothing runs is sound and paired.
pub proof fn law_sound_at_first<ML, CL, MW, CW>(s: HandlerState<ML, CL, MW, CW>)
    requires
        s.command_id_mappings == Mappings::empty(),
    ensures
        sound(s),
        paired(s.command_id_mappings),
{
}

/// Dealing with an interaction keeps the state sound, and paired if the interaction is a
/// new one, as long as the numbers for tasks do not start over.
pub proof fn law_handling_keeps_sound<P, ML, CL, MW, CW>(
    s: HandlerState<ML, CL, MW, CW>,
    interaction: Interaction<P>,
)
    requires
        sound(s),
        interaction.is_complete(),
        s.current_command_id < usize::MAX,
    ensures
        sound(s.handled(interaction).0),
        paired(s.command_id_mappings)
            && !s.command_id_mappings.interaction_id_to_command_id.contains_key(interaction.id)
            ==> paired(s.handled(interaction).0.command_id_mappings),
{
    law_only_tasks_are_remembered(s, interaction);
    law_starting_keeps_order(
        s.command_id_mappings,
        s.current_command_id,
        target_of(interaction),
    );
}

/// Ending a task keeps the state sound and paired.
pub proof fn law_finishing_keeps_sound<ML, CL, MW, CW>(
    s: HandlerState<ML, CL, MW, CW>,
    command_id: usize,
)
    requires
        sound(s),
    ensures
        sound(s.finished(command_id)),
        paired(s.command_id_mappings) ==> paired(s.finished(command_id).command_id_mappings),
{
    law_ending_keeps_order(s.command_id_mappings, command_id);
}

/// Going on with another interaction keeps the state sound, and paired if that interaction
/// is a new one.
pub proof fn law_following_keeps_sound<ML, CL, MW, CW>(
    s: HandlerState<ML, CL, MW, CW>,
    from: u64,
    to: Target,
)
    requires
        sound(s),
        s.command_id_mappings.interaction_id_to_command_id.contains_key(from),
    ensures
        sound(s.followed(from, to)),
        paired(s.command_id_mappings)
            && !s.command_id_mappings.interaction_id_to_command_id.contains_key(to.id) ==> paired(
            s.followed(from, to).command_id_mappings,
        ),
{
    law_moving_keeps_order(s.command_id_mappings, from, to);
}

/// In a sound state a task never gets the number of another that still runs.
pub proof fn law_numbers_are_fresh<ML, CL, MW, CW>(s: HandlerState<ML, CL, MW, CW>)
    requires
        sound(s),
    ensures
        s.reply_target(s.current_command_id) is None,
{
}

// ---- Where an error is reported ----

/// The application code that an interaction runs can be reached through that interaction.
pub proof fn law_task_is_reached_through_its_interaction<P, ML, CL, MW, CW>(
    s: HandlerState<ML, CL, MW, CW>,
    interaction: Interaction<P>,
)
    requires
        interaction.is_complete(),
        ticket_of(s.handled(interaction).1) is Some,
    ensures
        s.handled(interaction).0.reply_target(
            ticket_of(s.handled(interaction).1)->0.command_id,
        ) == Some(target_of(interaction)),
        s.handled(interaction).0.command_id_mappings.interaction_id_to_command_id.contains_key(
            interaction.id,
        ),
        s.handled(interaction).0.command_id_mappings.interaction_id_to_command_id[interaction.id]
            == ticket_of(s.handled(interaction).1)->0.command_id,
{
}

/// An operation can be performed: a task starts with, or goes on with, an interaction that
/// no task runs on behalf of yet, only a running task goes on, and the numbers for tasks do
/// not start over.
pub open spec fn possible<P, ML, CL, MW, CW>(
    s: HandlerState<ML, CL, MW, CW>,
    operation: Operation<P, ML, CL, MW, CW>,
) -> bool {
    let in_use = s.command_id_mappings.interaction_id_to_command_id;
    match operation {
        Operation::Handle(interaction) => {
            &&& interaction.is_complete()
            &&& ticket_of(s.handled(interaction).1) is Some ==> !in_use.contains_key(
                interaction.id,
            ) && s.current_command_id < usize::MAX
        },
        Operation::ModalSubmitted(from, to) => in_use.contains_key(from) && !in_use.contains_key(
            to.id,
        ),
        _ => true,
    }
}

/// The state after a series of operations.
pub open spec fn after<P, ML, CL, MW, CW>(
    s: HandlerState<ML, CL, MW, CW>,
    operations: Seq<Operation<P, ML, CL, MW, CW>>,
) -> HandlerState<ML, CL, MW, CW>
    decreases operations.len(),
{
    if operations.len() == 0 {
        s
    } else {
        performed(after(s, operations.drop_last()), operations.last())
    }
}

/// Each of a series of operations can be performed when its turn comes.
pub open spec fn all_possible<P, ML, CL, MW, CW>(
    s: HandlerState<ML, CL, MW, CW>,
    operations: Seq<Operation<P, ML, CL, MW, CW>>,
) -> bool
    decreases operations.len(),
{
    operations.len() > 0 ==> {
        &&& all_possible(s, operations.drop_last())
        &&& possible(after(s, operations.drop_last()), operations.last())
    }
}

/// Where a task that could be reached through `target` has got to by a series of
/// operations: it goes on with another interaction whenever the one it has goes on.
pub open spec fn latest<P, ML, CL, MW, CW>(
    target: Target,
    operations: Seq<Operation<P, ML, CL, MW, CW>>,
) -> Target
    decreases operations.len(),
{
    if operations.len() == 0 {
        target
    } else {
        let before = latest(target, operations.drop_last());
        match operations.last() {
            Operation::ModalSubmitted(from, to) => if from == before.id {
                to
            } else {
                before
            },
            _ => before,
        }
    }
}

/// Whatever is done with a handler, its state stays sound and paired.
pub proof fn law_order_is_kept<P, ML, CL, MW, CW>(
    s: HandlerState<ML, CL, MW, CW>,
    operations: Seq<Operation<P, ML, CL, MW, CW>>,
)
    requires
        sound(s),
        paired(s.command_id_mappings),
        all_possible(s, operations),
    ensures
        sound(after(s, operations)),
        paired(after(s, operations).command_id_mappings),
    decreases operations.len(),
{
    if operations.len() > 0 {
        law_order_is_kept(s, operations.drop_last());
        let before = after(s, operations.drop_last());
        match operations.last() {
            Operation::Handle(interaction) => {
                law_only_tasks_are_remembered(before, interaction);
                if ticket_of(before.handled(interaction).1) is Some {
                    law_handling_keeps_sound(before, interaction);
                }
            },
            Operation::FinishTask(command_id) => law_finishing_keeps_sound(before, command_id),
            Operation::ModalSubmitted(from, to) => law_following_keeps_sound(before, from, to),
            _ => {},
        }
    }
}

/// A task is followed from interaction to interaction: whatever is done with the handler
/// while the task runs, for it and for others, it can be reached through the interaction
/// that it has got to last. That is where an error is reported if the task ends with one.
pub proof fn law_task_is_followed<P, ML, CL, MW, CW>(
    s: HandlerState<ML, CL, MW, CW>,
    operations: Seq<Operation<P, ML, CL, MW, CW>>,
    command_id: usize,
)
    requires
        sound(s),
        paired(s.command_id_mappings),
        all_possible(s, operations),
        s.reply_target(command_id) is Some,
        !operations.contains(Operation::FinishTask(command_id)),
    ensures
        after(s, operations).reply_target(command_id) == Some(
            latest(s.reply_target(command_id)->0, operations),
        ),
    decreases operations.len(),
{
    if operations.len() > 0 {
        let earlier = operations.drop_last();
        assert(operations[earlier.len() as int] == operations.last());
        assert forall|i: int| 0 <= i < earlier.len() implies earlier[i] != Operation::<
            P,
            ML,
            CL,
            MW,
            CW,
        >::FinishTask(command_id) by {
            assert(operations[i] == earlier[i]);
        }
        law_task_is_followed(s, earlier, command_id);
        law_order_is_kept(s, earlier);
        let before = after(s, earlier);
        assert(before.command_id_mappings.command_id_to_interaction.contains_key(command_id));
        match operations.last() {
            Operation::Handle(interaction) => {
                law_only_tasks_are_remembered(before, interaction);
            },
            _ => {},
        }
    }
}

/// A task that shows a form is reached, once the form has come back, through the
/// interaction by which the user submitted it.
pub proof fn law_task_goes_on_with_the_reply<P, ML, CL, MW, CW>(
    s: HandlerState<ML, CL, MW, CW>,
    interaction: Interaction<P>,
    custom_id: Seq<char>,
    waiter: MW,
    reply: Interaction<P>,
    data: ModalInteractionData,
)
    requires
        interaction.is_complete(),
        ticket_of(s.handled(interaction).1) is Some,
        !s.modal_waiters_permanent.contains_key("oneshot"@),
        brings_modal(reply, data),
        data.custom_id@ == oneshot_id(custom_id),
    ensures
        ({
            let shown = s.handled(interaction).0.with_modal_waiter(oneshot_id(custom_id), waiter);
            let (answered, step) = shown.handled(reply);
            &&& step == Step::<P, ML, CL, MW, CW>::WakeModalWaiter {
                waiter,
                interaction: reply.without_data(),
                data,
            }
            &&& answered.command_id_mappings.interaction_id_to_command_id.contains_key(
                interaction.id,
            )
            &&& answered.followed(interaction.id, target_of(reply)).reply_target(
                ticket_of(s.handled(interaction).1)->0.command_id,
            ) == Some(target_of(reply))
        }),
{
    law_only_tasks_are_remembered(s, interaction);
    law_listeners_stay(s, Operation::Handle(interaction));
    law_modal_comes_back(s.handled(interaction).0, custom_id, waiter, reply, data);
}

// ---- No leaks ----

/// A task that starts, goes on from interaction to interaction and ends leaves no trace.
pub proof fn law_task_leaves_no_trace(
    m: Mappings,
    command: usize,
    target: Target,
    moves: Seq<Target>,
)
    requires
        !m.command_id_to_interaction.contains_key(command),
        !m.interaction_id_to_command_id.contains_key(target.id),
        forall|i: int|
            0 <= i < moves.len() ==> !m.interaction_id_to_command_id.contains_key(
                (#[trigger] moves[i]).id,
            ),
    ensures
        moved_along(m.started(command, target), target.id, moves).ended(command) == m,
{
    lemma_moved_along(m, command, target, moves);
    let t = moved_along(m.started(command, target), target.id, moves).ended(command);
    assert(t.interaction_id_to_command_id =~= m.interaction_id_to_command_id);
    assert(t.command_id_to_interaction =~= m.command_id_to_interaction);
}

/// The mappings after the task of the interaction `from` has gone on with each of `moves`.
pub open spec fn moved_along(m: Mappings, from: u64, moves: Seq<Target>) -> Mappings
    decreases moves.len(),
{
    if moves.len() == 0 {
        m
    } else {
        let earlier = moves.drop_last();
        let last = if earlier.len() == 0 {
            from
        } else {
            earlier.last().id
        };
        moved_along(m, from, earlier).moved(last, moves.last())
    }
}

proof fn lemma_moved_along(m: Mappings, command: usize, target: Target, moves: Seq<Target>)
    requires
        !m.command_id_to_interaction.contains_key(command),
        !m.interaction_id_to_command_id.contains_key(target.id),
        forall|i: int|
            0 <= i < moves.len() ==> !m.interaction_id_to_command_id.contains_key(
                (#[trigger] moves[i]).id,
            ),
    ensures
        moved_along(m.started(command, target), target.id, moves) == m.started(
            command,
            if moves.len() == 0 {
                target
            } else {
                moves.last()
            },
        ),
    decreases moves.len(),
{
    if moves.len() > 0 {
        let earlier = moves.drop_last();
        lemma_moved_along(m, command, target, earlier);
        let t = moved_along(m.started(command, target), target.id, moves);
        let want = m.started(command, moves.last());
        assert(t.interaction_id_to_command_id =~= want.interaction_id_to_command_id);
        assert(t.command_id_to_interaction =~= want.command_id_to_interaction);
    }
}

/// All that is left of a task that an interaction started and that has ended is that its
/// number is used up.
pub proof fn law_task_uses_up_a_number<P, ML, CL, MW, CW>(
    s: HandlerState<ML, CL, MW, CW>,
    interaction: Interaction<P>,
)
    requires
        interaction.is_complete(),
        ticket_of(s.handled(interaction).1) is Some,
        s.reply_target(s.current_command_id) is None,
        !s.command_id_mappings.interaction_id_to_command_id.contains_key(interaction.id),
    ensures
        s.handled(interaction).0.finished(ticket_of(s.handled(interaction).1)->0.command_id) == (
        HandlerState { current_command_id: next_command_id(s.current_command_id), ..s }),
{
    law_only_tasks_are_remembered(s, interaction);
    law_task_leaves_no_trace(
        s.command_id_mappings,
        s.current_command_id,
        target_of(interaction),
        Seq::empty(),
    );
}

} // verus!
