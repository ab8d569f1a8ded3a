//! What this library relies on from `clap`'s parsed command line.
//!
//! Nothing in this file is proved: each item states what `clap` does.

use vstd::prelude::*;
use clap::ArgMatches;

verus! {

/// `clap::ArgMatches`, the result of parsing a command line. Its inside is
/// not visible to the verifier.
#[verifier::external_type_specification]
#[verifier::external_body]
pub struct ExArgMatches(ArgMatches);

/// The boolean arguments that `matches` holds: for each argument id that has
/// a value of type `bool`, the first such value.
pub uninterp spec fn bool_values(matches: ArgMatches) -> Map<Seq<char>, bool>;

/// `ArgMatches::try_get_one::<bool>`: the first value of the argument `id`
/// where the matches hold one and it is a `bool`, and `None` otherwise, be it
/// that the id is not defined, that the argument has no value, or that its
/// value is of another type.
#[verifier::external_body]
pub(crate) fn bool_value(matches: &ArgMatches, id: &str) -> (value: Option<bool>)
    ensures
        value == if bool_values(*matches).contains_key(id@) {
            Some(bool_values(*matches)[id@])
        } else {
            None
        },
{
    matches.try_get_one::<bool>(id).ok().flatten().copied()
}

} // verus!
