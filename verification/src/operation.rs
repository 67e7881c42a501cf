//! What can be done with a handler.

use crate::interaction::Interaction;
use crate::mappings::Target;
use crate::state::HandlerState;
use vstd::prelude::*;

verus! {

/// Something that is done with a handler, by what the state keeps of it.
pub enum Operation<P, ML, CL, MW, CW> {
    /// An interaction is dealt with.
    Handle(Interaction<P>),
    /// The task of that number ends.
    FinishTask(usize),
    /// The task that runs on behalf of the interaction goes on with another.
    ModalSubmitted(u64, Target),
    /// A form is shown under the custom ID.
    ShowModal(Seq<char>, MW),
    /// Someone starts to wait for a component of the single-use custom ID.
    OneshotComponentListener(Seq<char>, CW),
    /// A listener for components is registered under the custom ID.
    AddComponentListener(Seq<char>, CL),
    /// A listener for components is unhooked.
    UnhookComponentListener(Seq<char>),
    /// A listener for forms is registered under the custom ID.
    AddModalListener(Seq<char>, ML),
    /// A listener for forms is unhooked.
    UnhookModalListener(Seq<char>),
}

/// The state after an operation.
pub open spec fn performed<P, ML, CL, MW, CW>(
    s: HandlerState<ML, CL, MW, CW>,
    operation: Operation<P, ML, CL, MW, CW>,
) -> HandlerState<ML, CL, MW, CW> {
    match operation {
        Operation::Handle(interaction) => s.handled(interaction).0,
        Operation::FinishTask(command_id) => s.finished(command_id),
        Operation::ModalSubmitted(from, to) => s.followed(from, to),
        Operation::ShowModal(custom_id, waiter) => s.with_modal_waiter(custom_id, waiter),
        Operation::OneshotComponentListener(custom_id, waiter) => s.with_component_waiter(
            custom_id,
            waiter,
        ),
        Operation::AddComponentListener(custom_id, listener) => s.with_component_listener(
            custom_id,
            listener,
        ),
        Operation::UnhookComponentListener(custom_id) => s.without_component_listener(custom_id),
        Operation::AddModalListener(custom_id, listener) => s.with_modal_listener(
            custom_id,
            listener,
        ),
        Operation::UnhookModalListener(custom_id) => s.without_modal_listener(custom_id),
    }
}

} // verus!
