//! The command line: which command the arguments name, what the one-shot
//! commands decide, and the text that they print.

use crate::alias::types::{AliasGroup, AliasSpec, GroupSpec};
use crate::app::model::{alias_count, total_of};
use crate::extensions::{find_extension, find_extension_spec, Extension, ExtensionSpec};
use crate::order::sum_by;
use crate::text::{
    append_chars, chars_of, decimal, decimal_chars, pad_right, padded_right, str_eq, string_of,
    trim, trimmed,
};
use vstd::prelude::*;

verus! {

// ---------------------------------------------------------------------------
// Commands
// ---------------------------------------------------------------------------

/// A command of the `ext` subcommand.
#[derive(Debug, PartialEq, Eq)]
pub enum ExtCommand {
    List,
    /// Install the bundle of this name; the name is empty where none was given.
    Install(String),
    /// Remove the bundle of this name; the name is empty where none was given.
    Remove(String),
    /// A subcommand that does not exist.
    Unknown(String),
}

/// What the tool is asked to do.
#[derive(Debug, PartialEq, Eq)]
pub enum Command {
    Help,
    Init,
    Nuke,
    Ext(ExtCommand),
    List,
    Mockup,
    Tui,
}

/// The mathematical model of an [`ExtCommand`].
pub enum ExtCommandSpec {
    List,
    Install(Seq<char>),
    Remove(Seq<char>),
    Unknown(Seq<char>),
}

/// The mathematical model of a [`Command`].
pub enum CommandSpec {
    Help,
    Init,
    Nuke,
    Ext(ExtCommandSpec),
    List,
    Mockup,
    Tui,
}

impl View for ExtCommand {
    type V = ExtCommandSpec;

    open spec fn view(&self) -> ExtCommandSpec {
        match self {
            ExtCommand::List => ExtCommandSpec::List,
            ExtCommand::Install(n) => ExtCommandSpec::Install(n@),
            ExtCommand::Remove(n) => ExtCommandSpec::Remove(n@),
            ExtCommand::Unknown(n) => ExtCommandSpec::Unknown(n@),
        }
    }
}

impl View for Command {
    type V = CommandSpec;

    open spec fn view(&self) -> CommandSpec {
        match self {
            Command::Help => CommandSpec::Help,
            Command::Init => CommandSpec::Init,
            Command::Nuke => CommandSpec::Nuke,
            Command::Ext(e) => CommandSpec::Ext(e@),
            Command::List => CommandSpec::List,
            Command::Mockup => CommandSpec::Mockup,
            Command::Tui => CommandSpec::Tui,
        }
    }
}

/// The argument at position `i`, or the empty text where there is none.
pub open spec fn arg_at(args: Seq<Seq<char>>, i: int) -> Seq<char> {
    if 0 <= i < args.len() {
        args[i]
    } else {
        Seq::empty()
    }
}

/// The command of the `ext` subcommand that the arguments behind `ext` name;
/// no argument, or an empty one, lists.
pub open spec fn ext_command_of(args: Seq<Seq<char>>) -> ExtCommandSpec {
    let sub = if args.len() > 2 {
        args[2]
    } else {
        "list"@
    };
    if sub == "list"@ || sub.len() == 0 {
        ExtCommandSpec::List
    } else if sub == "install"@ {
        ExtCommandSpec::Install(arg_at(args, 3))
    } else if sub == "remove"@ {
        ExtCommandSpec::Remove(arg_at(args, 3))
    } else {
        ExtCommandSpec::Unknown(sub)
    }
}

/// The command that the arguments name. Help comes first, then `--init`,
/// `--nuke`, the `ext` subcommand, `--list` and `--mockup`; anything else
/// launches the interactive session.
pub open spec fn command_of(args: Seq<Seq<char>>) -> CommandSpec {
    if args.contains("--help"@) || args.contains("-h"@) {
        CommandSpec::Help
    } else if args.contains("--init"@) {
        CommandSpec::Init
    } else if args.contains("--nuke"@) {
        CommandSpec::Nuke
    } else if args.len() > 1 && args[1] == "ext"@ {
        CommandSpec::Ext(ext_command_of(args))
    } else if args.contains("--list"@) || args.contains("-l"@) {
        CommandSpec::List
    } else if args.contains("--mockup"@) {
        CommandSpec::Mockup
    } else {
        CommandSpec::Tui
    }
}

/// Whether one of the arguments is `flag`.
fn has_flag(args: &Vec<String>, flag: &str) -> (r: bool)
    ensures
        r == args.deep_view().contains(flag@),
{
    let mut i: usize = 0;
    while i < args.len()
        invariant
            i <= args.len(),
            forall|k: int| 0 <= k < i ==> args.deep_view()[k] != flag@,
        decreases args.len() - i,
    {
        if str_eq(args[i].as_str(), flag) {
            assert(args.deep_view()[i as int] == flag@);
            return true;
        }
        i += 1;
    }
    false
}

/// The command that the process arguments name; `args[0]` is the program.
pub fn parse_command(args: &Vec<String>) -> (r: Command)
    ensures
        r@ == command_of(args.deep_view()),
{
    let ghost a = args.deep_view();
    if has_flag(args, "--help") || has_flag(args, "-h") {
        return Command::Help;
    }
    if has_flag(args, "--init") {
        return Command::Init;
    }
    if has_flag(args, "--nuke") {
        return Command::Nuke;
    }
    if args.len() > 1 && str_eq(args[1].as_str(), "ext") {
        let name = if args.len() > 3 {
            args[3].clone()
        } else {
            String::new()
        };
        if args.len() <= 2 {
            return Command::Ext(ExtCommand::List);
        }
        let sub = args[2].as_str();
        proof {
            reveal_strlit("list");
            reveal_strlit("install");
            reveal_strlit("remove");
        }
        if str_eq(sub, "list") || sub.is_empty() {
            return Command::Ext(ExtCommand::List);
        }
        if str_eq(sub, "install") {
            return Command::Ext(ExtCommand::Install(name));
        }
        if str_eq(sub, "remove") {
            return Command::Ext(ExtCommand::Remove(name));
        }
        return Command::Ext(ExtCommand::Unknown(args[2].clone()));
    }
    if has_flag(args, "--list") || has_flag(args, "-l") {
        return Command::List;
    }
    if has_flag(args, "--mockup") {
        return Command::Mockup;
    }
    Command::Tui
}

/// Whether the answer to a yes-or-no question is yes: `y` or `Y`, with or
/// without white space around it.
pub open spec fn is_yes_spec(answer: Seq<char>) -> bool {
    trim(answer) == seq!['y'] || trim(answer) == seq!['Y']
}

/// Whether the answer to a yes-or-no question is yes.
pub fn is_yes(answer: &str) -> (r: bool)
    ensures
        r == is_yes_spec(answer@),
{
    let t = trimmed(&chars_of(answer));
    let yes = t.len() == 1 && (t[0] == 'y' || t[0] == 'Y');
    proof {
        if yes {
            assert(t@ =~= seq![t@[0]]);
        }
    }
    yes
}

// ---------------------------------------------------------------------------
// Installing and removing bundles
// ---------------------------------------------------------------------------

/// What `ext install <name>` does.
#[derive(Debug, PartialEq, Eq)]
pub enum InstallPlan {
    /// No name was given: the usage is printed, and the command fails.
    Usage,
    /// The catalog has no bundle of that name: the command fails.
    UnknownExtension,
    /// The bundle is installed: nothing is done.
    AlreadyInstalled,
    /// The managed store does not exist: the command fails.
    NotInitialized,
    /// The bundle is checked for collisions and installed.
    Install(Extension),
}

/// The mathematical model of an [`InstallPlan`].
pub enum InstallPlanSpec {
    Usage,
    UnknownExtension,
    AlreadyInstalled,
    NotInitialized,
    Install(ExtensionSpec),
}

impl View for InstallPlan {
    type V = InstallPlanSpec;

    open spec fn view(&self) -> InstallPlanSpec {
        match self {
            InstallPlan::Usage => InstallPlanSpec::Usage,
            InstallPlan::UnknownExtension => InstallPlanSpec::UnknownExtension,
            InstallPlan::AlreadyInstalled => InstallPlanSpec::AlreadyInstalled,
            InstallPlan::NotInitialized => InstallPlanSpec::NotInitialized,
            InstallPlan::Install(e) => InstallPlanSpec::Install(e@),
        }
    }
}

/// What `ext install <name>` does, given whether the bundle is installed and
/// whether the managed store exists.
pub open spec fn install_plan_of(name: Seq<char>, installed: bool, initialized: bool) -> InstallPlanSpec {
    if name.len() == 0 {
        InstallPlanSpec::Usage
    } else {
        match find_extension_spec(name) {
            None => InstallPlanSpec::UnknownExtension,
            Some(e) => if installed {
                InstallPlanSpec::AlreadyInstalled
            } else if !initialized {
                InstallPlanSpec::NotInitialized
            } else {
                InstallPlanSpec::Install(e)
            },
        }
    }
}

/// Decides what `ext install <name>` does.
pub fn plan_install(name: &str, installed: bool, initialized: bool) -> (r: InstallPlan)
    ensures
        r@ == install_plan_of(name@, installed, initialized),
{
    if name.is_empty() {
        return InstallPlan::Usage;
    }
    match find_extension(name) {
        None => InstallPlan::UnknownExtension,
        Some(e) => {
            if installed {
                InstallPlan::AlreadyInstalled
            } else if !initialized {
                InstallPlan::NotInitialized
            } else {
                InstallPlan::Install(e)
            }
        },
    }
}

/// What `ext remove <name>` does.
#[derive(Debug, Clone, Copy, PartialEq, Eq, Structural)]
pub enum RemovePlan {
    /// No name was given: the usage is printed, and the command fails.
    Usage,
    /// The catalog has no bundle of that name: the command fails.
    UnknownExtension,
    /// The bundle is not installed: nothing is done.
    NotInstalled,
    /// The file of the bundle is removed.
    Remove,
}

/// What `ext remove <name>` does, given whether the bundle is installed.
pub open spec fn remove_plan_of(name: Seq<char>, installed: bool) -> RemovePlan {
    if name.len() == 0 {
        RemovePlan::Usage
    } else if find_extension_spec(name) is None {
        RemovePlan::UnknownExtension
    } else if !installed {
        RemovePlan::NotInstalled
    } else {
        RemovePlan::Remove
    }
}

/// Decides what `ext remove <name>` does.
pub fn plan_remove(name: &str, installed: bool) -> (r: RemovePlan)
    ensures
        r == remove_plan_of(name@, installed),
{
    if name.is_empty() {
        return RemovePlan::Usage;
    }
    match find_extension(name) {
        None => RemovePlan::UnknownExtension,
        Some(e) => {
            if !installed {
                RemovePlan::NotInstalled
            } else {
                RemovePlan::Remove
            }
        },
    }
}

// ---------------------------------------------------------------------------
// The listing
// ---------------------------------------------------------------------------

/// The length of the longest name among the first `n` aliases.
pub open spec fn name_width(aliases: Seq<AliasSpec>, n: int) -> int
    decreases n,
{
    if n <= 0 {
        0
    } else {
        let before = name_width(aliases, n - 1);
        if aliases[n - 1].name.len() > before {
            aliases[n - 1].name.len() as int
        } else {
            before
        }
    }
}

/// The first line of the listing.
pub open spec fn list_header(total: int, groups: int) -> Seq<char> {
    decimal(total as nat) + " aliases in "@ + decimal(groups as nat) + " groups (zsh)"@
}

/// The line that begins a group.
pub open spec fn group_title(g: GroupSpec) -> Seq<char> {
    "── "@ + g.source.display_name() + " ("@ + decimal(g.aliases.len()) + ") ──"@
}

/// The line of an alias: the name, padded to the width of the group, the
/// command, and the description where there is one.
pub open spec fn alias_row(a: AliasSpec, width: int) -> Seq<char> {
    "  "@ + pad_right(a.name, width) + "  "@ + a.command + match a.description {
        Some(d) => "  # "@ + d,
        None => Seq::empty(),
    }
}

/// The lines of the first `n` aliases of a group.
pub open spec fn alias_rows(aliases: Seq<AliasSpec>, width: int, n: int) -> Seq<Seq<char>>
    decreases n,
{
    if n <= 0 {
        Seq::empty()
    } else {
        alias_rows(aliases, width, n - 1).push(alias_row(aliases[n - 1], width))
    }
}

/// The lines of a group: its title, its file where it has one, a blank line,
/// its aliases, and a blank line.
pub open spec fn group_lines(g: GroupSpec) -> Seq<Seq<char>> {
    let file = match g.source.file_path() {
        Some(f) => if f.len() > 0 {
            seq!["   "@ + f]
        } else {
            Seq::empty()
        },
        None => Seq::empty(),
    };
    seq![group_title(g)] + file + seq![Seq::<char>::empty()] + alias_rows(
        g.aliases,
        name_width(g.aliases, g.aliases.len() as int),
        g.aliases.len() as int,
    ) + seq![Seq::<char>::empty()]
}

/// The lines of the first `n` groups.
pub open spec fn groups_lines(groups: Seq<GroupSpec>, n: int) -> Seq<Seq<char>>
    decreases n,
{
    if n <= 0 {
        Seq::empty()
    } else {
        groups_lines(groups, n - 1) + group_lines(groups[n - 1])
    }
}

/// The lines of the listing of all aliases, grouped by source.
pub open spec fn list_lines(groups: Seq<GroupSpec>) -> Seq<Seq<char>> {
    seq![
        list_header(total_of(groups), groups.len() as int),
        Seq::<char>::empty(),
    ] + groups_lines(groups, groups.len() as int)
}

/// The number of aliases in all groups.
fn count_aliases(groups: &Vec<AliasGroup>) -> (r: u128)
    ensures
        r == total_of(groups.deep_view()),
{
    let mut total: u128 = 0;
    let mut i: usize = 0;
    let ghost all = groups.deep_view();
    let ghost count = alias_count();
    while i < groups.len()
        invariant
            i <= groups.len(),
            all == groups.deep_view(),
            count == alias_count(),
            total == sum_by(all.take(i as int), count),
            total <= i * 0xFFFF_FFFF_FFFF_FFFF,
        decreases groups.len() - i,
    {
        proof {
            assert(all.take(i + 1).drop_last() == all.take(i as int));
        }
        total = total + groups[i].aliases.len() as u128;
        i += 1;
    }
    assert(all.take(groups.len() as int) == all);
    total
}

/// Appends the lines of one group.
fn push_group_lines(out: &mut Vec<String>, g: &AliasGroup)
    ensures
        final(out).deep_view() == old(out).deep_view() + group_lines(g@),
{
    let ghost start = out.deep_view();
    let ghost aliases = g@.aliases;
    // The title.
    let mut title = chars_of("── ");
    append_chars(&mut title, &chars_of(g.source.display_name().as_str()));
    append_chars(&mut title, &chars_of(" ("));
    append_chars(&mut title, &decimal_chars(g.aliases.len() as u128));
    append_chars(&mut title, &chars_of(") ──"));
    out.push(string_of(&title));
    // The file.
    let ghost file: Seq<Seq<char>> = match g@.source.file_path() {
        Some(f) => if f.len() > 0 {
            seq!["   "@ + f]
        } else {
            Seq::empty()
        },
        None => Seq::empty(),
    };
    match g.source.file_path() {
        Some(f) => {
            if !f.as_str().is_empty() {
                let mut line = chars_of("   ");
                append_chars(&mut line, &chars_of(f.as_str()));
                out.push(string_of(&line));
            }
        },
        None => {},
    }
    out.push(String::new());
    let ghost head = start + seq![group_title(g@)] + file + seq![Seq::<char>::empty()];
    // The width of the names.
    let mut width: usize = 0;
    let mut k: usize = 0;
    while k < g.aliases.len()
        invariant
            k <= g.aliases.len(),
            aliases == g.aliases.deep_view(),
            width == name_width(aliases, k as int),
        decreases g.aliases.len() - k,
    {
        let n = chars_of(g.aliases[k].name.as_str()).len();
        if n > width {
            width = n;
        }
        k += 1;
    }
    // The aliases.
    let mut i: usize = 0;
    while i < g.aliases.len()
        invariant
            i <= g.aliases.len(),
            aliases == g.aliases.deep_view(),
            out.deep_view() == head + alias_rows(aliases, width as int, i as int),
        decreases g.aliases.len() - i,
    {
        let ghost before = out.deep_view();
        let alias = &g.aliases[i];
        let mut row = chars_of("  ");
        append_chars(&mut row, &padded_right(&chars_of(alias.name.as_str()), width));
        append_chars(&mut row, &chars_of("  "));
        append_chars(&mut row, &chars_of(alias.command.as_str()));
        match &alias.description {
            Some(desc) => {
                append_chars(&mut row, &chars_of("  # "));
                append_chars(&mut row, &chars_of(desc.as_str()));
            },
            None => {
            },
        }
        assert(row@ =~= alias_row(aliases[i as int], width as int));
        out.push(string_of(&row));
        assert(out.deep_view() =~= before.push(alias_row(aliases[i as int], width as int)));
        i += 1;
    }
    let ghost body = out.deep_view();
    out.push(String::new());
    assert(out.deep_view() =~= body.push(Seq::<char>::empty()));
}

/// The lines of the listing of all aliases, grouped by source: a header, then
/// each group with its title, its file and its aliases.
pub fn format_list(groups: &Vec<AliasGroup>) -> (r: Vec<String>)
    ensures
        r.deep_view() == list_lines(groups.deep_view()),
{
    let ghost all = groups.deep_view();
    let mut header = decimal_chars(count_aliases(groups));
    append_chars(&mut header, &chars_of(" aliases in "));
    append_chars(&mut header, &decimal_chars(groups.len() as u128));
    append_chars(&mut header, &chars_of(" groups (zsh)"));
    let mut out: Vec<String> = Vec::new();
    out.push(string_of(&header));
    out.push(String::new());
    let ghost head = seq![
        list_header(total_of(all), all.len() as int),
        Seq::<char>::empty(),
    ];
    let mut i: usize = 0;
    while i < groups.len()
        invariant
            i <= groups.len(),
            all == groups.deep_view(),
            out.deep_view() == head + groups_lines(all, i as int),
        decreases groups.len() - i,
    {
        push_group_lines(&mut out, &groups[i]);
        i += 1;
    }
    out
}

// ---------------------------------------------------------------------------
// The catalog
// ---------------------------------------------------------------------------

/// The columns that the name of a bundle is padded to.
pub open spec fn bundle_column() -> int {
    12
}

/// The line of one bundle in the list of the catalog: its name in a column
/// of its own, its description, and whether it is installed.
pub open spec fn extension_row_spec(name: Seq<char>, description: Seq<char>, installed: bool) -> Seq<
    char,
> {
    "  "@ + pad_right(name, bundle_column()) + " "@ + description + " ["@ + (if installed {
        "installed"@
    } else {
        "not installed"@
    }) + "]"@
}

/// The line of one bundle in the list of the catalog.
pub fn extension_row(name: &str, description: &str, installed: bool) -> (r: String)
    ensures
        r@ == extension_row_spec(name@, description@, installed),
{
    let status = if installed {
        "installed"
    } else {
        "not installed"
    };
    let mut row = chars_of("  ");
    append_chars(&mut row, &padded_right(&chars_of(name), 12));
    append_chars(&mut row, &chars_of(" "));
    append_chars(&mut row, &chars_of(description));
    append_chars(&mut row, &chars_of(" ["));
    append_chars(&mut row, &chars_of(status));
    append_chars(&mut row, &chars_of("]"));
    string_of(&row)
}

// ---------------------------------------------------------------------------
// The usage
// ---------------------------------------------------------------------------

/// The text that `--help` prints.
pub open spec fn usage_spec() -> Seq<char> {
    "zam - zsh alias manager\n\nUSAGE:\n  zam                Launch interactive TUI\n  zam --list         Print all aliases grouped by source\n  zam --init         Initialize managed alias directory (~/.config/zam/)\n  zam --nuke         Delete all zam config and clean ~/.zshrc\n  zam ext            List available extensions\n  zam ext install <name>  Install an extension\n  zam ext remove <name>   Remove an extension\n\nOPTIONS:\n  -l, --list         Print aliases to stdout instead of launching TUI\n  --init             Set up ~/.config/zam/ and add source line to ~/.zshrc\n  --nuke             Remove ~/.config/zam/ and source line from ~/.zshrc\n  -h, --help         Show this help message\n"@
}

/// The text that `--help` prints.
pub fn usage() -> (r: &'static str)
    ensures
        r@ == usage_spec(),
{
    "zam - zsh alias manager\n\nUSAGE:\n  zam                Launch interactive TUI\n  zam --list         Print all aliases grouped by source\n  zam --init         Initialize managed alias directory (~/.config/zam/)\n  zam --nuke         Delete all zam config and clean ~/.zshrc\n  zam ext            List available extensions\n  zam ext install <name>  Install an extension\n  zam ext remove <name>   Remove an extension\n\nOPTIONS:\n  -l, --list         Print aliases to stdout instead of launching TUI\n  --init             Set up ~/.config/zam/ and add source line to ~/.zshrc\n  --nuke             Remove ~/.config/zam/ and source line from ~/.zshrc\n  -h, --help         Show this help message\n"
}

} // verus!
