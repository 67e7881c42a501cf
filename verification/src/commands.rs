//! The commands that an application offers, by name.

use vstd::prelude::*;

verus! {

/// The names of an application's commands. Each maps to a number by which the
/// application finds the command itself.
pub type CommandMap = phf::Map<&'static str, usize>;

/// `phf::Map`, a map whose hash function was chosen for its keys at compile time.
#[verifier::external_type_specification]
#[verifier::external_body]
#[verifier::reject_recursive_types(K)]
#[verifier::reject_recursive_types(V)]
pub struct ExPhfMap<K: 'static, V: 'static>(phf::Map<K, V>);

/// What a command map holds.
pub uninterp spec fn command_entries(commands: CommandMap) -> Map<Seq<char>, usize>;

/// Calls `phf::Map::get`.
///
/// Believed of it: it finds the value that the map holds under `name`, and nothing where
/// the map does not hold that name. This is said of maps as `phf` builds them. Their fields
/// are public for its macros alone.
#[verifier::external_body]
pub(crate) fn get_command(commands: &CommandMap, name: &str) -> (found: Option<usize>)
    ensures
        match found {
            Some(command) => command_entries(*commands).contains_key(name@)
                && command_entries(*commands)[name@] == command,
            None => !command_entries(*commands).contains_key(name@),
        },
{
    commands.get(name).copied()
}

} // verus!
