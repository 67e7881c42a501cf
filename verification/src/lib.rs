//! Decides what a chat application does about the interactions of its users.
//!
//! An [`InteractionHandler`] knows the commands of the application, the listeners that it
//! has registered for forms and for message components, and who waits for a single form or
//! component. Given an [`Interaction`](interaction::Interaction) it says which
//! [`Step`](step::Step) to take. The application takes the step, and tells the handler
//! how the code that it ran has ended. If that code failed, the handler has the error
//! reported to the user, through the interaction that the user can be reached through by
//! then.
//!
//! The modules [`routing_laws`] and [`task_laws`] state what holds of all of this together,
//! [`outcome_laws`] and [`response_laws`] what each operation comes to, down to the fields
//! of what goes in and of what comes out.

pub mod commands;
pub mod custom_id;
pub mod handler;
pub mod interaction;
pub mod mappings;
pub mod name_table;
pub mod operation;
pub mod outcome_laws;
pub mod response;
pub mod response_laws;
pub mod routing_laws;
pub mod state;
pub mod step;
pub mod task_laws;
pub mod util;

pub use commands::CommandMap;
pub use handler::InteractionHandler;
