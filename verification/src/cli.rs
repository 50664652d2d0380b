//! Command-line overrides: the values that the parsed arguments hold, and the
//! rule by which an override takes precedence over a configured value.

use vstd::prelude::*;
use clap::ArgMatches;
use crate::document::{first_of, str_text, text};

verus! {

/// The parsed command line, as clap hands it over. Nothing inside it is
/// visible to the verifier.
#[verifier::external_type_specification]
#[verifier::external_body]
pub struct ExArgMatches<'a>(ArgMatches<'a>);

/// The values that a parsed command line holds, by argument name: for each
/// argument that was given with at least one value, the first of its values,
/// with any bytes that are not UTF-8 replaced by U+FFFD.
pub uninterp spec fn arg_values(args: ArgMatches<'_>) -> Map<Seq<char>, Seq<char>>;

/// The value recorded under `name`, if there is one.
pub open spec fn lookup(values: Map<Seq<char>, Seq<char>>, name: Seq<char>) -> Option<Seq<char>> {
    if values.contains_key(name) {
        Some(values[name])
    } else {
        None
    }
}

/// Calls `clap::ArgMatches::value_of_lossy` and copies the value out.
///
/// Trusted: the result is present exactly when `arg_values` has an entry for
/// `name`, and then holds that entry's characters. The call does not fail on a
/// name that the command line does not define, nor on a value that is not
/// UTF-8.
#[verifier::external_body]
fn cli_value(args: &ArgMatches<'_>, name: &str) -> (r: Option<String>)
    ensures
        text(r) == lookup(arg_values(*args), name@),
{
    args.value_of_lossy(name).map(|v| v.into_owned())
}

/// First-present-wins between an override and a configured value: the
/// override where there is one, whatever it holds (an empty override counts as
/// present), else a copy of the configured value.
pub fn first_present(over: Option<String>, configured: Option<&str>) -> (r: Option<String>)
    ensures
        text(r) == first_of(text(over), str_text(configured)),
{
    match over {
        Some(v) => Some(v),
        None => match configured {
            Some(c) => Some(c.to_owned()),
            None => None,
        },
    }
}

/// Resolves a setting that the command line may override: the value given
/// under `name` on the command line, else the configured value.
pub fn cli_or(args: &ArgMatches<'_>, name: &str, configured: Option<&str>) -> (r: Option<String>)
    ensures
        text(r) == first_of(lookup(arg_values(*args), name@), str_text(configured)),
{
    first_present(cli_value(args, name), configured)
}

} // verus!
