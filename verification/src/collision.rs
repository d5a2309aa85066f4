//! Detection of names that already mean something: an alias in memory, or a
//! command, builtin or function of the shell.
//!
//! The shell is asked by the caller, with `whence -w <name>`; what it printed
//! is classified here.

use crate::alias::types::{Alias, AliasGroup, AliasSpec, GroupSpec};
use crate::text::{
    chars_of, concat3, first_index, last_segment, last_segment_of, lemma_first_index_is, same_chars,
    str_eq, trim, trimmed,
};
use vstd::prelude::*;

verus! {

/// What a proposed alias name collides with.
#[derive(Debug, PartialEq, Eq)]
pub enum Collision {
    /// An alias of that name exists; `source` is the display name of its group.
    Alias { source: String },
    Command,
    Builtin,
    Function,
}

/// The mathematical model of a [`Collision`].
pub enum CollisionSpec {
    Alias { source: Seq<char> },
    Command,
    Builtin,
    Function,
}

impl View for Collision {
    type V = CollisionSpec;

    open spec fn view(&self) -> CollisionSpec {
        match self {
            Collision::Alias { source } => CollisionSpec::Alias { source: source@ },
            Collision::Command => CollisionSpec::Command,
            Collision::Builtin => CollisionSpec::Builtin,
            Collision::Function => CollisionSpec::Function,
        }
    }
}

impl DeepView for Collision {
    type V = CollisionSpec;

    open spec fn deep_view(&self) -> CollisionSpec {
        self@
    }
}

impl CollisionSpec {
    /// The sentence that describes the collision.
    pub open spec fn description(self) -> Seq<char> {
        match self {
            CollisionSpec::Alias { source } => "alias already exists (source: "@ + source + ")"@,
            CollisionSpec::Command => "shadows a shell command"@,
            CollisionSpec::Builtin => "shadows a shell builtin"@,
            CollisionSpec::Function => "shadows a shell function"@,
        }
    }
}

impl Collision {
    /// The sentence that describes the collision.
    pub fn description(&self) -> (r: String)
        ensures
            r@ == self@.description(),
    {
        match self {
            Collision::Alias { source } => concat3(
                "alias already exists (source: ",
                source.as_str(),
                ")",
            ),
            Collision::Command => "shadows a shell command".to_owned(),
            Collision::Builtin => "shadows a shell builtin".to_owned(),
            Collision::Function => "shadows a shell function".to_owned(),
        }
    }
}

// ---------------------------------------------------------------------------
// Aliases in memory
// ---------------------------------------------------------------------------

/// The predicate "is named `name`" on aliases.
pub open spec fn named(name: Seq<char>) -> spec_fn(AliasSpec) -> bool {
    |a: AliasSpec| a.name == name
}

/// The predicate "holds an alias named `name`" on groups.
pub open spec fn holds(name: Seq<char>) -> spec_fn(GroupSpec) -> bool {
    |g: GroupSpec| first_index(g.aliases, named(name)) < g.aliases.len()
}

/// The collision with an alias in memory: the first group that holds an alias
/// of that name gives its display name.
pub open spec fn alias_collision_spec(name: Seq<char>, groups: Seq<GroupSpec>) -> Option<
    CollisionSpec,
> {
    let i = first_index(groups, holds(name));
    if i < groups.len() {
        Some(CollisionSpec::Alias { source: groups[i].source.display_name() })
    } else {
        None
    }
}

/// The position of the first alias named `name`, or the number of aliases.
pub fn position_of_alias(aliases: &Vec<Alias>, name: &str) -> (r: usize)
    ensures
        r == first_index(aliases.deep_view(), named(name@)),
        r <= aliases.len(),
{
    let mut i: usize = 0;
    while i < aliases.len() && !str_eq(aliases[i].name.as_str(), name)
        invariant
            i <= aliases.len(),
            forall|k: int| 0 <= k < i ==> !named(name@)(#[trigger] aliases.deep_view()[k]),
        decreases aliases.len() - i,
    {
        i += 1;
    }
    proof {
        lemma_first_index_is(aliases.deep_view(), named(name@), i as int);
    }
    i
}

/// The position of the first group that holds an alias named `name`, or the
/// number of groups.
pub fn position_of_holder(groups: &Vec<AliasGroup>, name: &str) -> (r: usize)
    ensures
        r == first_index(groups.deep_view(), holds(name@)),
        r <= groups.len(),
{
    let mut i: usize = 0;
    while i < groups.len() && position_of_alias(&groups[i].aliases, name) >= groups[i].aliases.len()
        invariant
            i <= groups.len(),
            forall|k: int| 0 <= k < i ==> !holds(name@)(#[trigger] groups.deep_view()[k]),
        decreases groups.len() - i,
    {
        i += 1;
    }
    proof {
        lemma_first_index_is(groups.deep_view(), holds(name@), i as int);
    }
    i
}

/// Checks a name against the aliases in memory.
pub fn alias_collision(name: &str, groups: &Vec<AliasGroup>) -> (r: Option<Collision>)
    ensures
        r.deep_view() == alias_collision_spec(name@, groups.deep_view()),
{
    let i = position_of_holder(groups, name);
    if i < groups.len() {
        Some(Collision::Alias { source: groups[i].source.display_name() })
    } else {
        None
    }
}

// ---------------------------------------------------------------------------
// The shell's classification
// ---------------------------------------------------------------------------

/// What the shell's classification of a word means for an alias of that name.
///
/// `whence -w` prints `name: type`. The type is what follows the last `": "`
/// of the trimmed output: `command`, `builtin` and `function` are collisions,
/// anything else is none.
pub open spec fn check_shell_spec(output: Seq<char>) -> Option<CollisionSpec> {
    let word_type = last_segment(trim(output), ": "@);
    if word_type == "command"@ {
        Some(CollisionSpec::Command)
    } else if word_type == "builtin"@ {
        Some(CollisionSpec::Builtin)
    } else if word_type == "function"@ {
        Some(CollisionSpec::Function)
    } else {
        None
    }
}

/// Classifies what `whence -w <name>` printed.
pub fn check_shell(whence_output: &str) -> (r: Option<Collision>)
    ensures
        r.deep_view() == check_shell_spec(whence_output@),
{
    let line = trimmed(&chars_of(whence_output));
    let word_type = last_segment_of(&line, &chars_of(": "));
    if same_chars(&word_type, &chars_of("command")) {
        Some(Collision::Command)
    } else if same_chars(&word_type, &chars_of("builtin")) {
        Some(Collision::Builtin)
    } else if same_chars(&word_type, &chars_of("function")) {
        Some(Collision::Function)
    } else {
        None
    }
}

// ---------------------------------------------------------------------------
// The two together
// ---------------------------------------------------------------------------

/// The collision of `name`: with an alias in memory first; failing that, with
/// what the shell's classification `whence_output` says.
pub open spec fn check_name_collision_spec(
    name: Seq<char>,
    groups: Seq<GroupSpec>,
    whence_output: Seq<char>,
) -> Option<CollisionSpec> {
    match alias_collision_spec(name, groups) {
        Some(c) => Some(c),
        None => check_shell_spec(whence_output),
    }
}

/// Checks a single name for collisions against the aliases in memory and the
/// shell. `whence_output` is what `whence -w <name>` printed; it is read only
/// where no alias of that name is in memory.
pub fn check_name_collision(name: &str, groups: &Vec<AliasGroup>, whence_output: &str) -> (r:
    Option<Collision>)
    ensures
        r.deep_view() == check_name_collision_spec(name@, groups.deep_view(), whence_output@),
{
    match alias_collision(name, groups) {
        Some(c) => Some(c),
        None => check_shell(whence_output),
    }
}

/// The shell's classification that belongs to the `i`-th name; none where the
/// list is too short.
pub open spec fn output_at(whence_outputs: Seq<Seq<char>>, i: int) -> Seq<char> {
    if 0 <= i < whence_outputs.len() {
        whence_outputs[i]
    } else {
        Seq::empty()
    }
}

/// The collisions among the first `n` names, in their order.
pub open spec fn batch_collisions_spec(
    names: Seq<Seq<char>>,
    groups: Seq<GroupSpec>,
    whence_outputs: Seq<Seq<char>>,
    n: int,
) -> Seq<(Seq<char>, CollisionSpec)>
    decreases n,
{
    if n <= 0 {
        Seq::empty()
    } else {
        let before = batch_collisions_spec(names, groups, whence_outputs, n - 1);
        match check_name_collision_spec(names[n - 1], groups, output_at(whence_outputs, n - 1)) {
            Some(c) => before.push((names[n - 1], c)),
            None => before,
        }
    }
}

/// The names of a list of (name, command, description) triples.
pub open spec fn names_of(aliases: Seq<(Seq<char>, Seq<char>, Seq<char>)>) -> Seq<Seq<char>> {
    aliases.map_values(|t: (Seq<char>, Seq<char>, Seq<char>)| t.0)
}

/// Checks a batch of alias names for collisions, keeping their order.
/// `whence_outputs[i]` is what `whence -w` printed for the `i`-th name.
pub fn check_batch_collisions(
    aliases: &Vec<(&'static str, &'static str, &'static str)>,
    groups: &Vec<AliasGroup>,
    whence_outputs: &Vec<String>,
) -> (collisions: Vec<(String, Collision)>)
    ensures
        collisions.deep_view() == batch_collisions_spec(
            names_of(aliases.deep_view()),
            groups.deep_view(),
            whence_outputs.deep_view(),
            aliases.len() as int,
        ),
{
    let mut collisions: Vec<(String, Collision)> = Vec::new();
    let mut i: usize = 0;
    let ghost names = names_of(aliases.deep_view());
    while i < aliases.len()
        invariant
            i <= aliases.len(),
            names == names_of(aliases.deep_view()),
            collisions.deep_view() == batch_collisions_spec(
                names,
                groups.deep_view(),
                whence_outputs.deep_view(),
                i as int,
            ),
        decreases aliases.len() - i,
    {
        let name: &str = aliases[i].0;
        let found = if i < whence_outputs.len() {
            check_name_collision(name, groups, whence_outputs[i].as_str())
        } else {
            check_name_collision(name, groups, "")
        };
        proof {
            reveal_strlit("");
            assert(""@ =~= Seq::<char>::empty());
        }
        match found {
            Some(c) => {
                let entry = (name.to_owned(), c);
                collisions.push(entry);
            },
            None => {},
        }
        i += 1;
    }
    collisions
}

} // verus!
