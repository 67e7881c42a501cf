//! Which interaction a running command can still be reached through.

use std::collections::HashMap;
use vstd::prelude::*;

verus! {

broadcast use vstd::std_specs::hash::group_hash_axioms;

/// What it takes to respond to an interaction.
#[derive(Debug, PartialEq, Eq)]
pub struct ReplyTarget {
    pub id: u64,
    pub token: String,
}

/// A [`ReplyTarget`] as a mathematical value.
pub struct Target {
    pub id: u64,
    pub token: Seq<char>,
}

impl View for ReplyTarget {
    type V = Target;

    open spec fn view(&self) -> Target {
        Target { id: self.id, token: self.token@ }
    }
}

/// The link between running commands and interactions, looked up from both ends.
#[verifier::ext_equal]
pub struct Mappings {
    pub interaction_id_to_command_id: Map<u64, usize>,
    pub command_id_to_interaction: Map<usize, Target>,
}

impl Mappings {
    pub open spec fn empty() -> Self {
        Mappings {
            interaction_id_to_command_id: Map::empty(),
            command_id_to_interaction: Map::empty(),
        }
    }

    /// `command` has started, on behalf of the interaction `target`.
    pub open spec fn started(self, command: usize, target: Target) -> Self {
        Mappings {
            interaction_id_to_command_id: self.interaction_id_to_command_id.insert(
                target.id,
                command,
            ),
            command_id_to_interaction: self.command_id_to_interaction.insert(command, target),
        }
    }

    /// `command` has ended.
    pub open spec fn ended(self, command: usize) -> Self {
        if self.command_id_to_interaction.contains_key(command) {
            Mappings {
                interaction_id_to_command_id: self.interaction_id_to_command_id.remove(
                    self.command_id_to_interaction[command].id,
                ),
                command_id_to_interaction: self.command_id_to_interaction.remove(command),
            }
        } else {
            self
        }
    }

    /// The command that ran on behalf of the interaction `from` goes on with `to`.
    pub open spec fn moved(self, from: u64, to: Target) -> Self
        recommends
            self.interaction_id_to_command_id.contains_key(from),
    {
        let command = self.interaction_id_to_command_id[from];
        Mappings {
            interaction_id_to_command_id: self.interaction_id_to_command_id.remove(from).insert(
                to.id,
                command,
            ),
            command_id_to_interaction: self.command_id_to_interaction.insert(command, to),
        }
    }
}

/// The executable form of [`Mappings`].
pub struct CommandIdMappings {
    interaction_id_to_command_id: HashMap<u64, usize>,
    command_id_to_interaction: HashMap<usize, ReplyTarget>,
}

impl View for CommandIdMappings {
    type V = Mappings;

    closed spec fn view(&self) -> Mappings {
        Mappings {
            interaction_id_to_command_id: self.interaction_id_to_command_id@,
            command_id_to_interaction: self.command_id_to_interaction@.map_values(
                |target: ReplyTarget| target@,
            ),
        }
    }
}

impl CommandIdMappings {
    /// No command runs.
    pub fn new() -> (mappings: Self)
        ensures
            mappings@ == Mappings::empty(),
    {
        let mappings = CommandIdMappings {
            interaction_id_to_command_id: HashMap::new(),
            command_id_to_interaction: HashMap::new(),
        };
        assert(mappings@ =~= Mappings::empty());
        mappings
    }

    /// Records that `command` has started on behalf of `target`.
    pub fn start(&mut self, command: usize, target: ReplyTarget)
        ensures
            final(self)@ == old(self)@.started(command, target@),
    {
        self.interaction_id_to_command_id.insert(target.id, command);
        self.command_id_to_interaction.insert(command, target);
        assert(self@ =~= old(self)@.started(command, target@));
    }

    /// Forgets `command`, and returns the interaction that it can be reached through.
    pub fn end(&mut self, command: usize) -> (target: Option<ReplyTarget>)
        ensures
            final(self)@ == old(self)@.ended(command),
            match target {
                Some(target) => old(self)@.command_id_to_interaction.contains_key(command)
                    && old(self)@.command_id_to_interaction[command] == target@,
                None => !old(self)@.command_id_to_interaction.contains_key(command),
            },
    {
        let target = self.command_id_to_interaction.remove(&command);
        if let Some(target) = &target {
            self.interaction_id_to_command_id.remove(&target.id);
        }
        assert(self@ =~= old(self)@.ended(command));
        target
    }

    /// Whether a command runs on behalf of the interaction `id`.
    pub fn is_known(&self, id: u64) -> (known: bool)
        ensures
            known == self@.interaction_id_to_command_id.contains_key(id),
    {
        self.interaction_id_to_command_id.contains_key(&id)
    }

    /// Lets the command that ran on behalf of the interaction `from` go on with `to`.
    pub fn move_on(&mut self, from: u64, to: ReplyTarget)
        requires
            old(self)@.interaction_id_to_command_id.contains_key(from),
        ensures
            final(self)@ == old(self)@.moved(from, to@),
    {
        let command = self.interaction_id_to_command_id.remove(&from).unwrap();
        self.interaction_id_to_command_id.insert(to.id, command);
        self.command_id_to_interaction.insert(command, to);
        assert(self@ =~= old(self)@.moved(from, to@));
    }
}

} // verus!
