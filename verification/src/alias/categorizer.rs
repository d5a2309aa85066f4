//! The attribution of each alias to the file that defines it, and the
//! grouping of the aliases by source.
//!
//! The files are read by the caller and handed over as a [`ShellConfig`]. They
//! are scanned in a fixed order of phases, and the first definition of a name
//! is the one that counts.

use crate::alias::laws::lemma_sort_keeps_property;
use crate::alias::plugins::{parse_zsh_plugins, parse_zsh_plugins_spec};
use crate::alias::scanner::{
    file_definitions, lemma_recorded_all_concat, look_up, recorded_all, scan_file_for_aliases,
    table_view, DefinitionSpec, Table, TableSpec,
};
use crate::alias::sorting::{
    alias_key, group_key, groups_ascend, names_ascend, sort_aliases, sort_groups,
};
use crate::alias::types::{
    clone_opt_string, Alias, AliasGroup, AliasSource, AliasSpec, GroupSpec, SourceSpec,
};
use crate::order::{lemma_sort_sorted, stable_sort};
use crate::text::{
    chars_of, concat3, first_index, last_index_of, lemma_first_index, lemma_first_index_is,
    rfind_char, str_eq, string_of, subvec,
};
use vstd::hash_map::StringHashMap;
use vstd::prelude::*;

verus! {

// ---------------------------------------------------------------------------
// What was read
// ---------------------------------------------------------------------------

/// A file of a directory: its name, and its text where it could be read.
#[derive(Debug, PartialEq, Eq)]
pub struct ScannedFile {
    pub file_name: String,
    pub content: Option<String>,
}

/// The mathematical model of a [`ScannedFile`].
pub struct ScannedFileSpec {
    pub file_name: Seq<char>,
    pub content: Option<Seq<char>>,
}

impl View for ScannedFile {
    type V = ScannedFileSpec;

    open spec fn view(&self) -> ScannedFileSpec {
        ScannedFileSpec { file_name: self.file_name@, content: self.content.deep_view() }
    }
}

impl DeepView for ScannedFile {
    type V = ScannedFileSpec;

    open spec fn deep_view(&self) -> ScannedFileSpec {
        self@
    }
}

/// What was read of the user's shell configuration.
#[derive(Debug, PartialEq, Eq)]
pub struct ShellConfig {
    /// The files of `~/.oh-my-zsh/lib`, in the order of the listing.
    pub lib_files: Vec<ScannedFile>,
    /// The text of `~/.zshrc`.
    pub zshrc: Option<String>,
    /// The plugin files `~/.oh-my-zsh/plugins/<name>/<name>.plugin.zsh`, each
    /// under the name of its plugin.
    pub plugin_files: Vec<ScannedFile>,
    /// The files of `~/.oh-my-zsh/custom`, in the order of the listing.
    pub custom_files: Vec<ScannedFile>,
    /// The text of `~/.config/zam/aliases/custom.zsh`.
    pub zam_custom: Option<String>,
    /// The files of `~/.config/zam/aliases`, in the order of the listing.
    pub zam_alias_files: Vec<ScannedFile>,
}

/// The mathematical model of a [`ShellConfig`].
pub struct ShellConfigSpec {
    pub lib_files: Seq<ScannedFileSpec>,
    pub zshrc: Option<Seq<char>>,
    pub plugin_files: Seq<ScannedFileSpec>,
    pub custom_files: Seq<ScannedFileSpec>,
    pub zam_custom: Option<Seq<char>>,
    pub zam_alias_files: Seq<ScannedFileSpec>,
}

impl View for ShellConfig {
    type V = ShellConfigSpec;

    open spec fn view(&self) -> ShellConfigSpec {
        ShellConfigSpec {
            lib_files: self.lib_files.deep_view(),
            zshrc: self.zshrc.deep_view(),
            plugin_files: self.plugin_files.deep_view(),
            custom_files: self.custom_files.deep_view(),
            zam_custom: self.zam_custom.deep_view(),
            zam_alias_files: self.zam_alias_files.deep_view(),
        }
    }
}

impl DeepView for ShellConfig {
    type V = ShellConfigSpec;

    open spec fn deep_view(&self) -> ShellConfigSpec {
        self@
    }
}

// ---------------------------------------------------------------------------
// File names
// ---------------------------------------------------------------------------

/// The position of the dot that parts the stem of a file name from its
/// extension: the last dot, unless it is the first character; `-1` where the
/// name has no extension.
pub open spec fn extension_dot(name: Seq<char>) -> int {
    let dot = last_index_of(name, '.');
    if name == ".."@ || dot <= 0 {
        -1
    } else {
        dot
    }
}

/// The extension of a file name: what follows its last dot.
pub open spec fn extension_of(name: Seq<char>) -> Option<Seq<char>> {
    if extension_dot(name) < 0 {
        None
    } else {
        Some(name.skip(extension_dot(name) + 1))
    }
}

/// The stem of a file name: the name without its extension.
pub open spec fn stem_of(name: Seq<char>) -> Seq<char> {
    if extension_dot(name) < 0 {
        name
    } else {
        name.take(extension_dot(name))
    }
}

/// The stem and the extension of a file name.
pub fn split_file_name(name: &str) -> (r: (String, Option<String>))
    ensures
        r.0@ == stem_of(name@),
        r.1.deep_view() == extension_of(name@),
{
    let chars = chars_of(name);
    if str_eq(name, "..") {
        return (name.to_owned(), None);
    }
    match rfind_char(&chars, '.') {
        Some(dot) => {
            if dot == 0 {
                (name.to_owned(), None)
            } else {
                let stem = subvec(&chars, 0, dot);
                let ext = subvec(&chars, dot + 1, chars.len());
                (string_of(&stem), Some(string_of(&ext)))
            }
        },
        None => (name.to_owned(), None),
    }
}

// ---------------------------------------------------------------------------
// The phases of the scan
// ---------------------------------------------------------------------------

/// A scanned directory.
#[derive(Debug, Clone, Copy, PartialEq, Eq, Structural)]
pub enum Directory {
    /// `~/.oh-my-zsh/lib`
    Lib,
    /// `~/.oh-my-zsh/custom`
    Custom,
    /// `~/.config/zam/aliases`
    ZamAliases,
}

/// The source that a file of a directory stands for, if it is scanned at all:
/// only `.zsh` files are. The files of the framework stand under their names;
/// the files of the managed store are extensions and stand under their stems,
/// but for `custom.zsh`, which has a phase of its own.
pub open spec fn source_of_file(dir: Directory, file_name: Seq<char>) -> Option<SourceSpec> {
    if extension_of(file_name) != Some("zsh"@) {
        None
    } else {
        match dir {
            Directory::Lib => Some(SourceSpec::OhMyZshLib(file_name)),
            Directory::Custom => Some(SourceSpec::OhMyZshCustom(file_name)),
            Directory::ZamAliases => if stem_of(file_name) == "custom"@ {
                None
            } else {
                Some(SourceSpec::ZamExtension(stem_of(file_name)))
            },
        }
    }
}

/// The definitions of one file of a directory.
pub open spec fn definitions_of_file(dir: Directory, f: ScannedFileSpec) -> Seq<DefinitionSpec> {
    match (source_of_file(dir, f.file_name), f.content) {
        (Some(source), Some(content)) => file_definitions(content, source),
        _ => Seq::empty(),
    }
}

/// The definitions of the first `n` files of a directory, in their order.
pub open spec fn definitions_of_files(dir: Directory, files: Seq<ScannedFileSpec>, n: int) -> Seq<
    DefinitionSpec,
>
    decreases n,
{
    if n <= 0 {
        Seq::empty()
    } else {
        definitions_of_files(dir, files, n - 1) + definitions_of_file(dir, files[n - 1])
    }
}

/// The predicate "is the file named `name`" on files.
pub open spec fn file_named(name: Seq<char>) -> spec_fn(ScannedFileSpec) -> bool {
    |f: ScannedFileSpec| f.file_name == name
}

/// The file of a plugin, from the directory of the framework.
pub open spec fn plugin_file_spec(plugin: Seq<char>) -> Seq<char> {
    "plugins/"@ + plugin + "/"@ + plugin + ".plugin.zsh"@
}

/// The file of a plugin, from the directory of the framework.
pub fn plugin_file(plugin: &str) -> (r: String)
    ensures
        r@ == plugin_file_spec(plugin@),
{
    let dir = concat3("plugins/", plugin, "/");
    concat3(dir.as_str(), plugin, ".plugin.zsh")
}

/// The definitions of one enabled plugin: those of its plugin file, where
/// that file was read.
pub open spec fn definitions_of_plugin(files: Seq<ScannedFileSpec>, plugin: Seq<char>) -> Seq<
    DefinitionSpec,
> {
    let i = first_index(files, file_named(plugin));
    if 0 <= i < files.len() {
        match files[i].content {
            Some(content) => file_definitions(content, SourceSpec::OhMyZshPlugin(plugin)),
            None => Seq::empty(),
        }
    } else {
        Seq::empty()
    }
}

/// The definitions of the first `n` enabled plugins, in their order.
pub open spec fn definitions_of_plugins(
    files: Seq<ScannedFileSpec>,
    plugins: Seq<Seq<char>>,
    n: int,
) -> Seq<DefinitionSpec>
    decreases n,
{
    if n <= 0 {
        Seq::empty()
    } else {
        definitions_of_plugins(files, plugins, n - 1) + definitions_of_plugin(
            files,
            plugins[n - 1],
        )
    }
}

/// The definitions of a single file that may be missing.
pub open spec fn definitions_of_text(content: Option<Seq<char>>, source: SourceSpec) -> Seq<
    DefinitionSpec,
> {
    match content {
        Some(c) => file_definitions(c, source),
        None => Seq::empty(),
    }
}

/// The plugins that the startup file enables; none where it could not be read.
pub open spec fn enabled_plugins(config: ShellConfigSpec) -> Seq<Seq<char>> {
    match config.zshrc {
        Some(c) => parse_zsh_plugins_spec(c),
        None => Seq::empty(),
    }
}

impl ShellConfigSpec {
    /// The definitions of phase 1: the library files of the framework.
    pub open spec fn lib_phase(self) -> Seq<DefinitionSpec> {
        definitions_of_files(Directory::Lib, self.lib_files, self.lib_files.len() as int)
    }

    /// The definitions of phase 2: the enabled plugins.
    pub open spec fn plugin_phase(self) -> Seq<DefinitionSpec> {
        definitions_of_plugins(
            self.plugin_files,
            enabled_plugins(self),
            enabled_plugins(self).len() as int,
        )
    }

    /// The definitions of phase 3: the custom directory of the framework.
    pub open spec fn custom_phase(self) -> Seq<DefinitionSpec> {
        definitions_of_files(Directory::Custom, self.custom_files, self.custom_files.len() as int)
    }

    /// The definitions of phase 4: the startup file itself.
    pub open spec fn zshrc_phase(self) -> Seq<DefinitionSpec> {
        definitions_of_text(self.zshrc, SourceSpec::Zshrc)
    }

    /// The definitions of phase 5: the managed store's own aliases.
    pub open spec fn zam_custom_phase(self) -> Seq<DefinitionSpec> {
        definitions_of_text(self.zam_custom, SourceSpec::ZamCustom)
    }

    /// The definitions of phase 6: the installed extensions.
    pub open spec fn zam_extension_phase(self) -> Seq<DefinitionSpec> {
        definitions_of_files(
            Directory::ZamAliases,
            self.zam_alias_files,
            self.zam_alias_files.len() as int,
        )
    }

    /// All definitions, in the order in which they are scanned.
    pub open spec fn all_definitions(self) -> Seq<DefinitionSpec> {
        self.lib_phase() + self.plugin_phase() + self.custom_phase() + self.zshrc_phase()
            + self.zam_custom_phase() + self.zam_extension_phase()
    }

    /// The attribution table: of each name, the definition scanned first.
    pub open spec fn attribution(self) -> TableSpec {
        recorded_all(Map::empty(), self.all_definitions())
    }
}

/// The source that a file of a directory stands for, if it is scanned at all.
fn file_source(dir: Directory, file_name: &str) -> (r: Option<AliasSource>)
    ensures
        r.deep_view() == source_of_file(dir, file_name@),
{
    let (stem, extension) = split_file_name(file_name);
    let is_zsh = match &extension {
        Some(e) => str_eq(e.as_str(), "zsh"),
        None => false,
    };
    if !is_zsh {
        return None;
    }
    match dir {
        Directory::Lib => Some(AliasSource::OhMyZshLib(file_name.to_owned())),
        Directory::Custom => Some(AliasSource::OhMyZshCustom(file_name.to_owned())),
        Directory::ZamAliases => {
            if str_eq(stem.as_str(), "custom") {
                None
            } else {
                Some(AliasSource::ZamExtension(stem))
            }
        },
    }
}

/// Scans the `.zsh` files of a directory for alias definitions.
fn scan_dir_for_aliases(dir: Directory, files: &Vec<ScannedFile>, table: &mut Table)
    ensures
        table_view(final(table)@) == recorded_all(
            table_view(old(table)@),
            definitions_of_files(dir, files.deep_view(), files.len() as int),
        ),
{
    let ghost start = table_view(table@);
    let ghost all = files.deep_view();
    let mut i: usize = 0;
    while i < files.len()
        invariant
            i <= files.len(),
            all == files.deep_view(),
            table_view(table@) == recorded_all(start, definitions_of_files(dir, all, i as int)),
        decreases files.len() - i,
    {
        let ghost done = definitions_of_files(dir, all, i as int);
        proof {
            lemma_recorded_all_concat(start, done, definitions_of_file(dir, all[i as int]));
        }
        match file_source(dir, files[i].file_name.as_str()) {
            Some(source) => {
                match &files[i].content {
                    Some(content) => {
                        scan_file_for_aliases(content.as_str(), table, &source);
                    },
                    None => {},
                }
            },
            None => {},
        }
        i += 1;
    }
}

/// Scans a single file that may be missing.
fn scan_text(content: &Option<String>, table: &mut Table, source: &AliasSource)
    ensures
        table_view(final(table)@) == recorded_all(
            table_view(old(table)@),
            definitions_of_text(content.deep_view(), source@),
        ),
{
    match content {
        Some(c) => {
            scan_file_for_aliases(c.as_str(), table, source);
        },
        None => {},
    }
}

/// The position of the file named `name`, or the number of files.
fn position_of_file(files: &Vec<ScannedFile>, name: &str) -> (r: usize)
    ensures
        r == first_index(files.deep_view(), file_named(name@)),
        r <= files.len(),
{
    let mut i: usize = 0;
    while i < files.len() && !str_eq(files[i].file_name.as_str(), name)
        invariant
            i <= files.len(),
            forall|k: int| 0 <= k < i ==> !file_named(name@)(#[trigger] files.deep_view()[k]),
        decreases files.len() - i,
    {
        i += 1;
    }
    proof {
        lemma_first_index_is(files.deep_view(), file_named(name@), i as int);
    }
    i
}

/// Scans the plugin files of the enabled plugins, in the order in which the
/// startup file names them.
fn scan_plugins(config: &ShellConfig, table: &mut Table)
    ensures
        table_view(final(table)@) == recorded_all(table_view(old(table)@), config@.plugin_phase()),
{
    let plugins = match &config.zshrc {
        Some(c) => parse_zsh_plugins(c.as_str()),
        None => Vec::new(),
    };
    let ghost names = enabled_plugins(config@);
    let ghost start = table_view(table@);
    let ghost files = config.plugin_files.deep_view();
    let mut i: usize = 0;
    while i < plugins.len()
        invariant
            i <= plugins.len(),
            plugins.deep_view() == names,
            files == config.plugin_files.deep_view(),
            table_view(table@) == recorded_all(
                start,
                definitions_of_plugins(files, names, i as int),
            ),
        decreases plugins.len() - i,
    {
        let ghost done = definitions_of_plugins(files, names, i as int);
        proof {
            lemma_recorded_all_concat(start, done, definitions_of_plugin(files, names[i as int]));
        }
        let at = position_of_file(&config.plugin_files, plugins[i].as_str());
        if at < config.plugin_files.len() {
            match &config.plugin_files[at].content {
                Some(content) => {
                    let source = AliasSource::OhMyZshPlugin(plugins[i].clone());
                    scan_file_for_aliases(content.as_str(), table, &source);
                },
                None => {},
            }
        }
        i += 1;
    }
}

/// Scans the configuration in the fixed order of its phases: the library
/// files of the framework, the enabled plugins, the framework's custom
/// directory, the startup file, the managed store's own aliases, and the
/// installed extensions. Of each name the first definition counts.
pub fn categorize_zsh(config: &ShellConfig) -> (table: Table)
    ensures
        table_view(table@) == config@.attribution(),
{
    let mut table: Table = StringHashMap::new();
    let ghost empty = table_view(table@);
    assert(empty =~= Map::empty());
    let ghost c = config@;
    scan_dir_for_aliases(Directory::Lib, &config.lib_files, &mut table);
    scan_plugins(config, &mut table);
    scan_dir_for_aliases(Directory::Custom, &config.custom_files, &mut table);
    scan_text(&config.zshrc, &mut table, &AliasSource::Zshrc);
    scan_text(&config.zam_custom, &mut table, &AliasSource::ZamCustom);
    scan_dir_for_aliases(Directory::ZamAliases, &config.zam_alias_files, &mut table);
    proof {
        let lib = c.lib_phase();
        let plugins = c.plugin_phase();
        let custom = c.custom_phase();
        let zshrc = c.zshrc_phase();
        let own = c.zam_custom_phase();
        let extensions = c.zam_extension_phase();
        lemma_recorded_all_concat(empty, lib, plugins);
        lemma_recorded_all_concat(empty, lib + plugins, custom);
        lemma_recorded_all_concat(empty, lib + plugins + custom, zshrc);
        lemma_recorded_all_concat(empty, lib + plugins + custom + zshrc, own);
        lemma_recorded_all_concat(empty, lib + plugins + custom + zshrc + own, extensions);
    }
    table
}

// ---------------------------------------------------------------------------
// Groups
// ---------------------------------------------------------------------------

/// The alias that a (name, command) pair becomes: it has the source and the
/// description of the first definition of its name, and is of unknown source
/// where nothing defines the name.
pub open spec fn attributed(table: TableSpec, pair: (Seq<char>, Seq<char>)) -> AliasSpec {
    if table.contains_key(pair.0) {
        AliasSpec {
            name: pair.0,
            command: pair.1,
            source: table[pair.0].0,
            description: table[pair.0].1,
        }
    } else {
        AliasSpec {
            name: pair.0,
            command: pair.1,
            source: SourceSpec::Unknown,
            description: None,
        }
    }
}

/// The predicate "shows the display name `display`" on groups.
pub open spec fn shows(display: Seq<char>) -> spec_fn(GroupSpec) -> bool {
    |g: GroupSpec| g.source.display_name() == display
}

/// The groups with one more alias: it joins the group that shows the display
/// name of its source, or begins a group of its own.
pub open spec fn bucketed(groups: Seq<GroupSpec>, a: AliasSpec) -> Seq<GroupSpec> {
    let i = first_index(groups, shows(a.source.display_name()));
    if 0 <= i < groups.len() {
        groups.update(i, GroupSpec { aliases: groups[i].aliases.push(a), ..groups[i] })
    } else {
        groups.push(GroupSpec { source: a.source, aliases: seq![a], collapsed: false })
    }
}

/// The groups of the first `n` pairs, by display name, in the order in which
/// the display names first occur.
pub open spec fn buckets(
    table: TableSpec,
    raw: Seq<(Seq<char>, Seq<char>)>,
    n: int,
) -> Seq<GroupSpec>
    decreases n,
{
    if n <= 0 {
        Seq::empty()
    } else {
        bucketed(buckets(table, raw, n - 1), attributed(table, raw[n - 1]))
    }
}

/// A group as it is shown: its aliases sorted by name, its source that of the
/// first of them, and not collapsed. A group holds at least one alias.
pub open spec fn arranged(g: GroupSpec) -> GroupSpec {
    let aliases = stable_sort(g.aliases, alias_key());
    GroupSpec {
        source: if aliases.len() > 0 {
            aliases[0].source
        } else {
            g.source
        },
        aliases,
        collapsed: false,
    }
}

/// The predicate "has its aliases in ascending order of name" on groups.
pub open spec fn well_sorted() -> spec_fn(GroupSpec) -> bool {
    |g: GroupSpec| names_ascend(g.aliases)
}

/// [`arranged`] as a function value.
pub open spec fn arrange() -> spec_fn(GroupSpec) -> GroupSpec {
    |g: GroupSpec| arranged(g)
}

/// The groups of the pairs under an attribution table: one group for each
/// display name, each sorted by name, all sorted by priority and parameter.
pub open spec fn grouped(table: TableSpec, raw: Seq<(Seq<char>, Seq<char>)>) -> Seq<
    GroupSpec,
> {
    stable_sort(buckets(table, raw, raw.len() as int).map_values(arrange()), group_key())
}

/// The single group of aliases of unknown source.
pub open spec fn unknown_alias() -> spec_fn((Seq<char>, Seq<char>)) -> AliasSpec {
    |pair: (Seq<char>, Seq<char>)|
        AliasSpec {
            name: pair.0,
            command: pair.1,
            source: SourceSpec::Unknown,
            description: None,
        }
}

/// What is shown where nothing could be read: one group of unknown source
/// with all aliases, sorted by name.
pub open spec fn group_all_unknown_spec(raw: Seq<(Seq<char>, Seq<char>)>) -> Seq<GroupSpec> {
    seq![
        GroupSpec {
            source: SourceSpec::Unknown,
            aliases: stable_sort(raw.map_values(unknown_alias()), alias_key()),
            collapsed: false,
        },
    ]
}

/// The groups of the aliases, with each alias attributed to its source. A
/// missing configuration is that of a user whose home directory is unknown.
pub open spec fn categorize_aliases_spec(
    raw: Seq<(Seq<char>, Seq<char>)>,
    config: Option<ShellConfigSpec>,
) -> Seq<GroupSpec> {
    match config {
        Some(c) => grouped(c.attribution(), raw),
        None => group_all_unknown_spec(raw),
    }
}

/// Puts all aliases into one group of unknown source, sorted by name.
pub fn group_all_unknown(raw: Vec<(String, String)>) -> (groups: Vec<AliasGroup>)
    ensures
        groups.deep_view() == group_all_unknown_spec(raw.deep_view()),
        groups_ascend(groups.deep_view()),
        forall|i: int| 0 <= i < groups.len() ==> names_ascend(#[trigger] groups.deep_view()[i].aliases),
{
    let mut aliases: Vec<Alias> = Vec::new();
    let mut i: usize = 0;
    let ghost pairs = raw.deep_view();
    while i < raw.len()
        invariant
            i <= raw.len(),
            pairs == raw.deep_view(),
            aliases.deep_view() == pairs.take(i as int).map_values(unknown_alias()),
        decreases raw.len() - i,
    {
        let ghost before = aliases.deep_view();
        let alias = Alias {
            name: raw[i].0.clone(),
            command: raw[i].1.clone(),
            source: AliasSource::Unknown,
            description: None,
        };
        aliases.push(alias);
        assert(aliases.deep_view() =~= before.push(unknown_alias()(pairs[i as int])));
        i += 1;
    }
    assert(pairs.take(raw.len() as int) == pairs);
    let sorted = sort_aliases(&aliases);
    proof {
        lemma_sort_sorted(pairs.map_values(unknown_alias()), alias_key());
    }
    let group = AliasGroup { source: AliasSource::Unknown, aliases: sorted, collapsed: false };
    let mut groups: Vec<AliasGroup> = Vec::new();
    groups.push(group);
    groups
}

/// The alias that a (name, command) pair becomes under the table.
fn attribute(table: &Table, name: &String, command: &String) -> (r: Alias)
    ensures
        r@ == attributed(table_view(table@), (name@, command@)),
{
    match look_up(table, name.as_str()) {
        Some(entry) => Alias {
            name: name.clone(),
            command: command.clone(),
            source: entry.0.clone(),
            description: clone_opt_string(&entry.1),
        },
        None => Alias {
            name: name.clone(),
            command: command.clone(),
            source: AliasSource::Unknown,
            description: None,
        },
    }
}

/// Whether `places` finds the groups: it holds the display name of every
/// group, and under it the position of the first group that shows it.
pub open spec fn finds(places: Map<Seq<char>, usize>, groups: Seq<GroupSpec>) -> bool {
    forall|display: Seq<char>| #![trigger places.contains_key(display)]
        {
            let at = first_index(groups, shows(display));
            if at < groups.len() {
                places.contains_key(display) && places[display] == at
            } else {
                !places.contains_key(display)
            }
        }
}

/// Where a display name is found after an alias joined the groups: where it
/// was found before; or, if it was not, in the group that the alias began,
/// where that is the display name of its source, and nowhere otherwise.
proof fn lemma_bucketed_place(groups: Seq<GroupSpec>, a: AliasSpec, display: Seq<char>)
    ensures
        ({
            let after = bucketed(groups, a);
            let at = first_index(groups, shows(display));
            first_index(after, shows(display)) == if at < groups.len() {
                at
            } else if display == a.source.display_name() {
                groups.len() as int
            } else {
                after.len() as int
            }
        }),
{
    let after = bucketed(groups, a);
    let at = first_index(groups, shows(display));
    lemma_first_index(groups, shows(a.source.display_name()));
    lemma_first_index(groups, shows(display));
    let wanted = if at < groups.len() {
        at
    } else if display == a.source.display_name() {
        groups.len() as int
    } else {
        after.len() as int
    };
    lemma_first_index_is(after, shows(display), wanted);
}

/// Puts an alias into the group that shows the display name of its source;
/// `places` finds that group.
fn add_to_bucket(groups: &mut Vec<AliasGroup>, places: &mut StringHashMap<usize>, alias: Alias)
    requires
        finds(old(places)@, old(groups).deep_view()),
    ensures
        final(groups).deep_view() == bucketed(old(groups).deep_view(), alias@),
        finds(final(places)@, final(groups).deep_view()),
{
    let ghost before = groups.deep_view();
    let ghost a = alias@;
    let display = alias.source.display_name();
    proof {
        lemma_first_index(before, shows(display@));
    }
    let found = match places.get(display.as_str()) {
        Some(at) => Some(*at),
        None => None,
    };
    match found {
        Some(i) => {
            groups[i].aliases.push(alias);
            assert(groups.deep_view()[i as int].aliases =~= before[i as int].aliases.push(a));
            assert(groups.deep_view() =~= bucketed(before, a));
        },
        None => {
            let mut aliases: Vec<Alias> = Vec::new();
            let source = alias.source.clone();
            aliases.push(alias);
            assert(aliases.deep_view() =~= seq![a]);
            let group = AliasGroup { source, aliases, collapsed: false };
            places.insert(display, groups.len());
            groups.push(group);
            assert(groups.deep_view() =~= bucketed(before, a));
        },
    }
    assert forall|d: Seq<char>| #![trigger places@.contains_key(d)]
        {
            let at = first_index(groups.deep_view(), shows(d));
            if at < groups.len() {
                places@.contains_key(d) && places@[d] == at
            } else {
                !places@.contains_key(d)
            }
        } by {
        lemma_bucketed_place(before, a, d);
    }
}

/// Arranges a group as it is shown.
fn arrange_group(g: &AliasGroup) -> (r: AliasGroup)
    ensures
        r@ == arranged(g@),
{
    let aliases = sort_aliases(&g.aliases);
    let source = if aliases.len() > 0 {
        aliases[0].source.clone()
    } else {
        g.source.clone()
    };
    AliasGroup { source, aliases, collapsed: false }
}

/// Groups the aliases under an attribution table.
fn build_groups(table: &Table, raw: &Vec<(String, String)>) -> (groups: Vec<AliasGroup>)
    ensures
        groups.deep_view() == grouped(table_view(table@), raw.deep_view()),
{
    let ghost pairs = raw.deep_view();
    let ghost t = table_view(table@);
    let mut found: Vec<AliasGroup> = Vec::new();
    let mut places: StringHashMap<usize> = StringHashMap::new();
    let mut i: usize = 0;
    while i < raw.len()
        invariant
            i <= raw.len(),
            pairs == raw.deep_view(),
            t == table_view(table@),
            found.deep_view() == buckets(t, pairs, i as int),
            finds(places@, found.deep_view()),
        decreases raw.len() - i,
    {
        let alias = attribute(table, &raw[i].0, &raw[i].1);
        add_to_bucket(&mut found, &mut places, alias);
        i += 1;
    }
    let ghost all = found.deep_view();
    let mut shown: Vec<AliasGroup> = Vec::new();
    let mut k: usize = 0;
    while k < found.len()
        invariant
            k <= found.len(),
            all == found.deep_view(),
            shown.deep_view() == all.take(k as int).map_values(arrange()),
        decreases found.len() - k,
    {
        let ghost before = shown.deep_view();
        let g = arrange_group(&found[k]);
        shown.push(g);
        assert(shown.deep_view() =~= before.push(arrange()(all[k as int])));
        k += 1;
    }
    assert(all.take(found.len() as int) == all);
    sort_groups(&shown)
}

/// Attributes each alias to the file that defines it and groups the aliases
/// by source.
///
/// The groups come in ascending order of priority, then parameter, and the
/// aliases of each group in ascending order of name.
pub fn categorize_aliases(raw: Vec<(String, String)>, config: Option<&ShellConfig>) -> (groups:
    Vec<AliasGroup>)
    ensures
        groups.deep_view() == categorize_aliases_spec(raw.deep_view(), config.deep_view()),
        groups_ascend(groups.deep_view()),
        forall|i: int| 0 <= i < groups.len() ==> names_ascend(#[trigger] groups.deep_view()[i].aliases),
{
    match config {
        None => group_all_unknown(raw),
        Some(c) => {
            let table = categorize_zsh(c);
            let groups = build_groups(&table, &raw);
            proof {
                let found = buckets(table_view(table@), raw.deep_view(), raw.len() as int);
                let b = found.map_values(arrange());
                assert forall|i: int| 0 <= i < b.len() implies well_sorted()(#[trigger] b[i]) by {
                    lemma_sort_sorted(found[i].aliases, alias_key());
                }
                lemma_sort_sorted(b, group_key());
                lemma_sort_keeps_property(b, group_key(), well_sorted());
            }
            groups
        },
    }
}

} // verus!
