//! The alias domain model: sources, aliases, groups and the error kinds.

use crate::text::{concat2, concat3};
use vstd::prelude::*;

verus! {

// ---------------------------------------------------------------------------
// Where an alias was defined
// ---------------------------------------------------------------------------

/// Where an alias was defined.
#[derive(Debug, PartialEq, Eq)]
pub enum AliasSource {
    OhMyZshPlugin(String),
    OhMyZshLib(String),
    OhMyZshCustom(String),
    Zshrc,
    ZamExtension(String),
    ZamCustom,
    ZamOverride(String),
    Unknown,
}

/// The mathematical model of an [`AliasSource`].
pub enum SourceSpec {
    OhMyZshPlugin(Seq<char>),
    OhMyZshLib(Seq<char>),
    OhMyZshCustom(Seq<char>),
    Zshrc,
    ZamExtension(Seq<char>),
    ZamCustom,
    ZamOverride(Seq<char>),
    Unknown,
}

impl View for AliasSource {
    type V = SourceSpec;

    open spec fn view(&self) -> SourceSpec {
        match self {
            AliasSource::OhMyZshPlugin(n) => SourceSpec::OhMyZshPlugin(n@),
            AliasSource::OhMyZshLib(n) => SourceSpec::OhMyZshLib(n@),
            AliasSource::OhMyZshCustom(n) => SourceSpec::OhMyZshCustom(n@),
            AliasSource::Zshrc => SourceSpec::Zshrc,
            AliasSource::ZamExtension(n) => SourceSpec::ZamExtension(n@),
            AliasSource::ZamCustom => SourceSpec::ZamCustom,
            AliasSource::ZamOverride(n) => SourceSpec::ZamOverride(n@),
            AliasSource::Unknown => SourceSpec::Unknown,
        }
    }
}

impl DeepView for AliasSource {
    type V = SourceSpec;

    open spec fn deep_view(&self) -> SourceSpec {
        self@
    }
}

impl SourceSpec {
    /// The human-readable name of the source.
    pub open spec fn display_name(self) -> Seq<char> {
        match self {
            SourceSpec::OhMyZshPlugin(n) => "oh-my-zsh plugin: "@ + n,
            SourceSpec::OhMyZshLib(n) => "oh-my-zsh lib: "@ + n,
            SourceSpec::OhMyZshCustom(n) => "oh-my-zsh custom: "@ + n,
            SourceSpec::Zshrc => "~/.zshrc"@,
            SourceSpec::ZamExtension(n) => "zam ext: "@ + n,
            SourceSpec::ZamCustom => "zam custom"@,
            SourceSpec::ZamOverride(n) => "zam override: "@ + n,
            SourceSpec::Unknown => "Unknown"@,
        }
    }

    /// The canonical path of the file behind the source, where it has one.
    pub open spec fn file_path(self) -> Option<Seq<char>> {
        match self {
            SourceSpec::OhMyZshPlugin(n) => Some(
                "~/.oh-my-zsh/plugins/"@ + n + "/"@ + n + ".plugin.zsh"@,
            ),
            SourceSpec::OhMyZshLib(n) => Some("~/.oh-my-zsh/lib/"@ + n),
            SourceSpec::OhMyZshCustom(n) => Some("~/.oh-my-zsh/custom/"@ + n),
            SourceSpec::Zshrc => Some("~/.zshrc"@),
            SourceSpec::ZamExtension(n) => Some("~/.config/zam/aliases/"@ + n + ".zsh"@),
            SourceSpec::ZamCustom => Some("~/.config/zam/aliases/custom.zsh"@),
            SourceSpec::ZamOverride(n) => Some("~/.config/zam/overrides/"@ + n + ".zsh"@),
            SourceSpec::Unknown => None,
        }
    }

    /// The rank by which groups are ordered.
    pub open spec fn priority(self) -> int {
        match self {
            SourceSpec::OhMyZshLib(_) => 0,
            SourceSpec::OhMyZshPlugin(_) => 1,
            SourceSpec::OhMyZshCustom(_) => 2,
            SourceSpec::Zshrc => 3,
            SourceSpec::ZamExtension(_) => 7,
            SourceSpec::ZamCustom => 8,
            SourceSpec::ZamOverride(_) => 9,
            SourceSpec::Unknown => 10,
        }
    }

    /// The variant's parameter, which breaks ties between equal priorities.
    pub open spec fn parameter(self) -> Seq<char> {
        match self {
            SourceSpec::OhMyZshLib(n) => n,
            SourceSpec::OhMyZshPlugin(n) => n,
            SourceSpec::OhMyZshCustom(n) => n,
            SourceSpec::Zshrc => Seq::empty(),
            SourceSpec::ZamExtension(n) => n,
            SourceSpec::ZamCustom => Seq::empty(),
            SourceSpec::ZamOverride(n) => n,
            SourceSpec::Unknown => Seq::empty(),
        }
    }
}

impl Clone for AliasSource {
    fn clone(&self) -> (r: Self)
        ensures
            r == *self,
    {
        match self {
            AliasSource::OhMyZshPlugin(n) => AliasSource::OhMyZshPlugin(n.clone()),
            AliasSource::OhMyZshLib(n) => AliasSource::OhMyZshLib(n.clone()),
            AliasSource::OhMyZshCustom(n) => AliasSource::OhMyZshCustom(n.clone()),
            AliasSource::Zshrc => AliasSource::Zshrc,
            AliasSource::ZamExtension(n) => AliasSource::ZamExtension(n.clone()),
            AliasSource::ZamCustom => AliasSource::ZamCustom,
            AliasSource::ZamOverride(n) => AliasSource::ZamOverride(n.clone()),
            AliasSource::Unknown => AliasSource::Unknown,
        }
    }
}

impl AliasSource {
    /// The human-readable name of the source.
    pub fn display_name(&self) -> (r: String)
        ensures
            r@ == self@.display_name(),
    {
        match self {
            AliasSource::OhMyZshPlugin(name) => concat2("oh-my-zsh plugin: ", name.as_str()),
            AliasSource::OhMyZshLib(name) => concat2("oh-my-zsh lib: ", name.as_str()),
            AliasSource::OhMyZshCustom(name) => concat2("oh-my-zsh custom: ", name.as_str()),
            AliasSource::Zshrc => "~/.zshrc".to_owned(),
            AliasSource::ZamExtension(name) => concat2("zam ext: ", name.as_str()),
            AliasSource::ZamCustom => "zam custom".to_owned(),
            AliasSource::ZamOverride(slug) => concat2("zam override: ", slug.as_str()),
            AliasSource::Unknown => "Unknown".to_owned(),
        }
    }

    /// The canonical path of the file behind the source, where it has one.
    pub fn file_path(&self) -> (r: Option<String>)
        ensures
            r.deep_view() == self@.file_path(),
    {
        match self {
            AliasSource::OhMyZshPlugin(name) => {
                let dir = concat3("~/.oh-my-zsh/plugins/", name.as_str(), "/");
                Some(concat3(dir.as_str(), name.as_str(), ".plugin.zsh"))
            },
            AliasSource::OhMyZshLib(name) => Some(concat2("~/.oh-my-zsh/lib/", name.as_str())),
            AliasSource::OhMyZshCustom(name) => Some(
                concat2("~/.oh-my-zsh/custom/", name.as_str()),
            ),
            AliasSource::Zshrc => Some("~/.zshrc".to_owned()),
            AliasSource::ZamExtension(name) => Some(
                concat3("~/.config/zam/aliases/", name.as_str(), ".zsh"),
            ),
            AliasSource::ZamCustom => Some("~/.config/zam/aliases/custom.zsh".to_owned()),
            AliasSource::ZamOverride(slug) => Some(
                concat3("~/.config/zam/overrides/", slug.as_str(), ".zsh"),
            ),
            AliasSource::Unknown => None,
        }
    }

    /// The key by which groups are ordered: the priority, then the parameter.
    pub fn sort_key(&self) -> (r: (u8, String))
        ensures
            r.0 == self@.priority(),
            r.1@ == self@.parameter(),
    {
        match self {
            AliasSource::OhMyZshLib(n) => (0, n.clone()),
            AliasSource::OhMyZshPlugin(n) => (1, n.clone()),
            AliasSource::OhMyZshCustom(n) => (2, n.clone()),
            AliasSource::Zshrc => (3, String::new()),
            AliasSource::ZamExtension(n) => (7, n.clone()),
            AliasSource::ZamCustom => (8, String::new()),
            AliasSource::ZamOverride(slug) => (9, slug.clone()),
            AliasSource::Unknown => (10, String::new()),
        }
    }

    /// Whether this is the managed store's own alias file.
    pub fn is_zam_custom(&self) -> (r: bool)
        ensures
            r == (self@ == SourceSpec::ZamCustom),
    {
        match self {
            AliasSource::ZamCustom => true,
            _ => false,
        }
    }
}

// ---------------------------------------------------------------------------
// Aliases and groups
// ---------------------------------------------------------------------------

/// A single alias definition.
#[derive(Debug, PartialEq, Eq)]
pub struct Alias {
    pub name: String,
    pub command: String,
    pub source: AliasSource,
    pub description: Option<String>,
}

/// The mathematical model of an [`Alias`].
pub struct AliasSpec {
    pub name: Seq<char>,
    pub command: Seq<char>,
    pub source: SourceSpec,
    pub description: Option<Seq<char>>,
}

impl View for Alias {
    type V = AliasSpec;

    open spec fn view(&self) -> AliasSpec {
        AliasSpec {
            name: self.name@,
            command: self.command@,
            source: self.source@,
            description: self.description.deep_view(),
        }
    }
}

impl DeepView for Alias {
    type V = AliasSpec;

    open spec fn deep_view(&self) -> AliasSpec {
        self@
    }
}

/// A copy of an optional string.
pub fn clone_opt_string(s: &Option<String>) -> (r: Option<String>)
    ensures
        r == *s,
{
    match s {
        Some(t) => Some(t.clone()),
        None => None,
    }
}

impl Clone for Alias {
    fn clone(&self) -> (r: Self)
        ensures
            r == *self,
    {
        Alias {
            name: self.name.clone(),
            command: self.command.clone(),
            source: self.source.clone(),
            description: clone_opt_string(&self.description),
        }
    }
}

/// The aliases attributed to one source, as they are shown together.
#[derive(Debug, PartialEq, Eq)]
pub struct AliasGroup {
    pub source: AliasSource,
    pub aliases: Vec<Alias>,
    pub collapsed: bool,
}

/// The mathematical model of an [`AliasGroup`].
pub struct GroupSpec {
    pub source: SourceSpec,
    pub aliases: Seq<AliasSpec>,
    pub collapsed: bool,
}

impl View for AliasGroup {
    type V = GroupSpec;

    open spec fn view(&self) -> GroupSpec {
        GroupSpec {
            source: self.source@,
            aliases: self.aliases.deep_view(),
            collapsed: self.collapsed,
        }
    }
}

impl DeepView for AliasGroup {
    type V = GroupSpec;

    open spec fn deep_view(&self) -> GroupSpec {
        self@
    }
}

/// A copy of a list of aliases.
pub fn clone_aliases(v: &Vec<Alias>) -> (r: Vec<Alias>)
    ensures
        r@ == v@,
{
    let mut out: Vec<Alias> = Vec::new();
    let mut i: usize = 0;
    while i < v.len()
        invariant
            i <= v.len(),
            out@ == v@.take(i as int),
        decreases v.len() - i,
    {
        out.push(v[i].clone());
        i += 1;
    }
    out
}

impl Clone for AliasGroup {
    fn clone(&self) -> (r: Self)
        ensures
            r@ == self@,
            r.source == self.source,
            r.aliases@ == self.aliases@,
            r.collapsed == self.collapsed,
    {
        AliasGroup {
            source: self.source.clone(),
            aliases: clone_aliases(&self.aliases),
            collapsed: self.collapsed,
        }
    }
}

// ---------------------------------------------------------------------------
// Errors
// ---------------------------------------------------------------------------

/// Why the shell's alias listing could not be had.
#[derive(Debug, PartialEq, Eq)]
pub enum CollectError {
    /// The shell could not be started; `source` is the system's reason.
    SpawnFailed { source: String },
    /// The shell failed and printed nothing on standard output.
    ShellFailed { status: String, stderr: String },
    /// What the shell printed is not valid UTF-8; `source` is the decoder's reason.
    InvalidUtf8 { source: String },
}

/// The mathematical model of a [`CollectError`].
pub enum CollectErrorSpec {
    SpawnFailed { source: Seq<char> },
    ShellFailed { status: Seq<char>, stderr: Seq<char> },
    InvalidUtf8 { source: Seq<char> },
}

impl View for CollectError {
    type V = CollectErrorSpec;

    open spec fn view(&self) -> CollectErrorSpec {
        match self {
            CollectError::SpawnFailed { source } => CollectErrorSpec::SpawnFailed {
                source: source@,
            },
            CollectError::ShellFailed { status, stderr } => CollectErrorSpec::ShellFailed {
                status: status@,
                stderr: stderr@,
            },
            CollectError::InvalidUtf8 { source } => CollectErrorSpec::InvalidUtf8 {
                source: source@,
            },
        }
    }
}

impl DeepView for CollectError {
    type V = CollectErrorSpec;

    open spec fn deep_view(&self) -> CollectErrorSpec {
        self@
    }
}

impl CollectErrorSpec {
    /// The sentence that reports the error.
    pub open spec fn message(self) -> Seq<char> {
        match self {
            CollectErrorSpec::SpawnFailed { source } => "failed to run zsh: "@ + source,
            CollectErrorSpec::ShellFailed { status, stderr } => "zsh exited with "@ + status
                + ": "@ + stderr,
            CollectErrorSpec::InvalidUtf8 { source } => "invalid UTF-8 from zsh: "@ + source,
        }
    }
}

impl CollectError {
    /// The sentence that reports the error.
    pub fn message(&self) -> (r: String)
        ensures
            r@ == self@.message(),
    {
        match self {
            CollectError::SpawnFailed { source } => concat2("failed to run zsh: ", source.as_str()),
            CollectError::ShellFailed { status, stderr } => {
                let head = concat3("zsh exited with ", status.as_str(), ": ");
                concat2(head.as_str(), stderr.as_str())
            },
            CollectError::InvalidUtf8 { source } => concat2(
                "invalid UTF-8 from zsh: ",
                source.as_str(),
            ),
        }
    }
}

/// Why an operation on the managed store failed.
#[derive(Debug, PartialEq, Eq)]
pub enum ManagedError {
    /// A directory could not be created; the field is the system's reason.
    CreateDir(String),
    /// A file could not be written; the field is the system's reason.
    WriteFile(String),
    /// A file could not be read; the field is the system's reason.
    ReadFile(String),
    NotInitialized,
    EmptyName,
    /// The name cannot be used as an alias name; the field is that name.
    InvalidName(String),
}

/// The mathematical model of a [`ManagedError`].
pub enum ManagedErrorSpec {
    CreateDir(Seq<char>),
    WriteFile(Seq<char>),
    ReadFile(Seq<char>),
    NotInitialized,
    EmptyName,
    InvalidName(Seq<char>),
}

impl View for ManagedError {
    type V = ManagedErrorSpec;

    open spec fn view(&self) -> ManagedErrorSpec {
        match self {
            ManagedError::CreateDir(e) => ManagedErrorSpec::CreateDir(e@),
            ManagedError::WriteFile(e) => ManagedErrorSpec::WriteFile(e@),
            ManagedError::ReadFile(e) => ManagedErrorSpec::ReadFile(e@),
            ManagedError::NotInitialized => ManagedErrorSpec::NotInitialized,
            ManagedError::EmptyName => ManagedErrorSpec::EmptyName,
            ManagedError::InvalidName(n) => ManagedErrorSpec::InvalidName(n@),
        }
    }
}

impl DeepView for ManagedError {
    type V = ManagedErrorSpec;

    open spec fn deep_view(&self) -> ManagedErrorSpec {
        self@
    }
}

impl ManagedErrorSpec {
    /// The sentence that reports the error.
    pub open spec fn message(self) -> Seq<char> {
        match self {
            ManagedErrorSpec::CreateDir(e) => "failed to create directory: "@ + e,
            ManagedErrorSpec::WriteFile(e) => "failed to write file: "@ + e,
            ManagedErrorSpec::ReadFile(e) => "failed to read file: "@ + e,
            ManagedErrorSpec::NotInitialized => "not initialized — run `zam --init` first"@,
            ManagedErrorSpec::EmptyName => "alias name cannot be empty"@,
            ManagedErrorSpec::InvalidName(n) => "invalid alias name: "@ + n,
        }
    }
}

impl ManagedError {
    /// The sentence that reports the error.
    pub fn message(&self) -> (r: String)
        ensures
            r@ == self@.message(),
    {
        match self {
            ManagedError::CreateDir(e) => concat2("failed to create directory: ", e.as_str()),
            ManagedError::WriteFile(e) => concat2("failed to write file: ", e.as_str()),
            ManagedError::ReadFile(e) => concat2("failed to read file: ", e.as_str()),
            ManagedError::NotInitialized => "not initialized — run `zam --init` first".to_owned(),
            ManagedError::EmptyName => "alias name cannot be empty".to_owned(),
            ManagedError::InvalidName(name) => concat2("invalid alias name: ", name.as_str()),
        }
    }
}

} // verus!
