//! Aliases: their domain model, the parser of the shell's listing, and the
//! attribution of each alias to the file that defines it.

pub mod categorizer;
pub mod collector;
pub mod laws;
pub mod parser;
pub mod plugins;
pub mod scanner;
pub mod sorting;
pub mod types;

use crate::alias::categorizer::{categorize_aliases, categorize_aliases_spec, ShellConfig};
use crate::alias::collector::{collect_raw_aliases, collect_raw_aliases_spec, ShellRun};
use crate::alias::parser::{parse_alias_lines, parse_alias_lines_spec};
use crate::alias::sorting::{groups_ascend, names_ascend};
use crate::alias::types::{AliasGroup, CollectError, CollectErrorSpec};
use vstd::prelude::*;

verus! {

/// The groups of all aliases of the shell: what the run of `zsh -ic alias`
/// printed is parsed, and each alias is attributed to the file that defines
/// it. A run that gave no listing gives its error.
pub fn load_aliases(run: ShellRun, config: Option<&ShellConfig>) -> (r: Result<
    Vec<AliasGroup>,
    CollectError,
>)
    ensures
        match r {
            Ok(groups) => match collect_raw_aliases_spec(run@) {
                Ok(text) => groups.deep_view() == categorize_aliases_spec(
                    parse_alias_lines_spec(text),
                    config.deep_view(),
                ) && groups_ascend(groups.deep_view()) && forall|i: int|
                    0 <= i < groups.len() ==> names_ascend(#[trigger] groups.deep_view()[i].aliases),
                Err(_) => false,
            },
            Err(e) => collect_raw_aliases_spec(run@) == Err::<Seq<char>, CollectErrorSpec>(e@),
        },
{
    match collect_raw_aliases(run) {
        Ok(raw_output) => {
            let parsed = parse_alias_lines(raw_output.as_str());
            Ok(categorize_aliases(parsed, config))
        },
        Err(e) => Err(e),
    }
}

} // verus!
