//! The built-in bundles of curated aliases.

use crate::text::{first_index, lemma_first_index_is, str_eq};
use vstd::prelude::*;

verus! {

/// A curated bundle of aliases that ships with the tool.
#[derive(Debug, PartialEq, Eq)]
pub struct Extension {
    pub name: &'static str,
    pub description: &'static str,
    /// The aliases of the bundle: name, command and description of each.
    pub aliases: Vec<(&'static str, &'static str, &'static str)>,
}

/// The mathematical model of an [`Extension`].
pub struct ExtensionSpec {
    pub name: Seq<char>,
    pub description: Seq<char>,
    pub aliases: Seq<(Seq<char>, Seq<char>, Seq<char>)>,
}

impl View for Extension {
    type V = ExtensionSpec;

    open spec fn view(&self) -> ExtensionSpec {
        ExtensionSpec {
            name: self.name@,
            description: self.description@,
            aliases: self.aliases.deep_view(),
        }
    }
}

impl DeepView for Extension {
    type V = ExtensionSpec;

    open spec fn deep_view(&self) -> ExtensionSpec {
        self@
    }
}

/// One alias of a bundle.
pub open spec fn entry(name: &str, command: &str, description: &str) -> (
    Seq<char>,
    Seq<char>,
    Seq<char>,
) {
    (name@, command@, description@)
}

/// The aliases of the bundle `sysadmin`.
pub open spec fn sysadmin_aliases() -> Seq<(Seq<char>, Seq<char>, Seq<char>)> {
    seq![
        entry("dfh", "df -h", "Disk free (human-readable)"),
        entry("duh", "du -h -d1", "Disk usage depth 1"),
        entry("dus", "du -sh", "Disk usage summary"),
        entry("mnt", "mount | column -t", "Show mounts in columns"),
        entry("ports", "lsof -i -P -n | grep LISTEN", "Listening ports"),
        entry("myip", "curl -s ifconfig.me", "Public IP address"),
        entry("pingg", "ping -c 5 8.8.8.8", "Ping Google DNS"),
        entry("httph", "curl -sI", "HTTP headers only"),
        entry("psg", "ps aux | grep -i", "Search processes"),
        entry("psmem", "ps aux -m | head -20", "Top processes by memory"),
        entry("pscpu", "ps aux -r | head -20", "Top processes by CPU"),
        entry("k9", "kill -9", "Force kill"),
        entry("lsd", "ls -ld */", "List directories only"),
        entry("lsz", "ls -lhS", "List files by size"),
        entry("cpv", "cp -iv", "Copy verbose + confirm"),
        entry("mvv", "mv -iv", "Move verbose + confirm"),
        entry("mkp", "mkdir -p", "Make directory (parents)"),
        entry("rmrf", "rm -rf", "Remove recursively (force)"),
        entry("reload", "exec zsh", "Reload shell"),
        entry("path", "echo $PATH | tr : \\n", "Show PATH entries"),
    ]
}

/// The aliases of the bundle `rust`.
pub open spec fn rust_aliases() -> Seq<(Seq<char>, Seq<char>, Seq<char>)> {
    seq![
        entry("cb", "cargo build", "Build"),
        entry("cr", "cargo run", "Run"),
        entry("ct", "cargo test", "Test"),
        entry("cck", "cargo check", "Check"),
        entry("ccl", "cargo clippy", "Lint"),
        entry("cfmt", "cargo fmt", "Format"),
        entry("cdoc", "cargo doc --open", "Build and open docs"),
        entry("crel", "cargo build --release", "Release build"),
        entry("crr", "cargo run --release", "Release run"),
        entry("cadd", "cargo add", "Add dependency"),
        entry("crm", "cargo remove", "Remove dependency"),
        entry("cup", "cargo update", "Update dependencies"),
        entry("cfix", "cargo fix --allow-dirty", "Auto-fix lints"),
        entry("cwat", "cargo watch -x test", "Watch and test"),
        entry("cben", "cargo bench", "Benchmarks"),
    ]
}

/// The aliases of the bundle `c`.
pub open spec fn c_aliases() -> Seq<(Seq<char>, Seq<char>, Seq<char>)> {
    seq![
        entry("cc99", "gcc -std=c99 -Wall -Wextra -pedantic", "C99 strict"),
        entry("cc11", "gcc -std=c11 -Wall -Wextra -pedantic", "C11 strict"),
        entry("cdbg", "gcc -g -O0 -Wall -Wextra -DDEBUG", "Debug build"),
        entry("copt", "gcc -O2 -Wall -Wextra", "Optimized build"),
        entry("casm", "gcc -S -masm=intel", "Intel assembly output"),
        entry("cmk", "cmake -B build && cmake --build build", "CMake configure + build"),
        entry("cmkr", "cmake -B build -DCMAKE_BUILD_TYPE=Release && cmake --build build", "CMake release build"),
        entry("mkj", "make -j$(sysctl -n hw.ncpu)", "Make (all cores)"),
        entry("mkc", "make clean", "Make clean"),
        entry("vg", "valgrind --leak-check=full", "Valgrind leak check"),
    ]
}

/// The aliases of the bundle `python`.
pub open spec fn python_aliases() -> Seq<(Seq<char>, Seq<char>, Seq<char>)> {
    seq![
        entry("py", "python3", "Python 3"),
        entry("ipy", "ipython", "IPython REPL"),
        entry("pyserv", "python3 -m http.server", "HTTP server"),
        entry("pyjson", "python3 -m json.tool", "Pretty-print JSON"),
        entry("pyprof", "python3 -m cProfile -s cumtime", "Profile script"),
        entry("venv", "python3 -m venv .venv", "Create virtualenv"),
        entry("va", "source .venv/bin/activate", "Activate virtualenv"),
        entry("pipi", "pip install", "Pip install"),
        entry("pipir", "pip install -r requirements.txt", "Install requirements"),
        entry("pipf", "pip freeze > requirements.txt", "Freeze requirements"),
        entry("pipu", "pip install --upgrade", "Pip upgrade"),
        entry("pyt", "python3 -m pytest", "Run pytest"),
        entry("pytv", "python3 -m pytest -v", "Run pytest verbose"),
    ]
}

/// The catalog: the four bundles, in the order in which they are listed.
pub open spec fn catalog() -> Seq<ExtensionSpec> {
    seq![
        ExtensionSpec { name: "sysadmin"@, description: "Disk, network, process, and file operations"@, aliases: sysadmin_aliases() },
        ExtensionSpec { name: "rust"@, description: "Cargo shortcuts for Rust development"@, aliases: rust_aliases() },
        ExtensionSpec { name: "c"@, description: "C programming and build tools"@, aliases: c_aliases() },
        ExtensionSpec { name: "python"@, description: "Python development and virtual environments"@, aliases: python_aliases() },
    ]
}

fn sysadmin() -> (r: Extension)
    ensures
        r@ == catalog()[0],
{
    let mut aliases: Vec<(&'static str, &'static str, &'static str)> = Vec::new();
    aliases.push(("dfh", "df -h", "Disk free (human-readable)"));
    aliases.push(("duh", "du -h -d1", "Disk usage depth 1"));
    aliases.push(("dus", "du -sh", "Disk usage summary"));
    aliases.push(("mnt", "mount | column -t", "Show mounts in columns"));
    aliases.push(("ports", "lsof -i -P -n | grep LISTEN", "Listening ports"));
    aliases.push(("myip", "curl -s ifconfig.me", "Public IP address"));
    aliases.push(("pingg", "ping -c 5 8.8.8.8", "Ping Google DNS"));
    aliases.push(("httph", "curl -sI", "HTTP headers only"));
    aliases.push(("psg", "ps aux | grep -i", "Search processes"));
    aliases.push(("psmem", "ps aux -m | head -20", "Top processes by memory"));
    aliases.push(("pscpu", "ps aux -r | head -20", "Top processes by CPU"));
    aliases.push(("k9", "kill -9", "Force kill"));
    aliases.push(("lsd", "ls -ld */", "List directories only"));
    aliases.push(("lsz", "ls -lhS", "List files by size"));
    aliases.push(("cpv", "cp -iv", "Copy verbose + confirm"));
    aliases.push(("mvv", "mv -iv", "Move verbose + confirm"));
    aliases.push(("mkp", "mkdir -p", "Make directory (parents)"));
    aliases.push(("rmrf", "rm -rf", "Remove recursively (force)"));
    aliases.push(("reload", "exec zsh", "Reload shell"));
    aliases.push(("path", "echo $PATH | tr : \\n", "Show PATH entries"));
    assert(aliases.deep_view() =~= sysadmin_aliases());
    Extension { name: "sysadmin", description: "Disk, network, process, and file operations", aliases }
}

fn rust() -> (r: Extension)
    ensures
        r@ == catalog()[1],
{
    let mut aliases: Vec<(&'static str, &'static str, &'static str)> = Vec::new();
    aliases.push(("cb", "cargo build", "Build"));
    aliases.push(("cr", "cargo run", "Run"));
    aliases.push(("ct", "cargo test", "Test"));
    aliases.push(("cck", "cargo check", "Check"));
    aliases.push(("ccl", "cargo clippy", "Lint"));
    aliases.push(("cfmt", "cargo fmt", "Format"));
    aliases.push(("cdoc", "cargo doc --open", "Build and open docs"));
    aliases.push(("crel", "cargo build --release", "Release build"));
    aliases.push(("crr", "cargo run --release", "Release run"));
    aliases.push(("cadd", "cargo add", "Add dependency"));
    aliases.push(("crm", "cargo remove", "Remove dependency"));
    aliases.push(("cup", "cargo update", "Update dependencies"));
    aliases.push(("cfix", "cargo fix --allow-dirty", "Auto-fix lints"));
    aliases.push(("cwat", "cargo watch -x test", "Watch and test"));
    aliases.push(("cben", "cargo bench", "Benchmarks"));
    assert(aliases.deep_view() =~= rust_aliases());
    Extension { name: "rust", description: "Cargo shortcuts for Rust development", aliases }
}

fn c_tools() -> (r: Extension)
    ensures
        r@ == catalog()[2],
{
    let mut aliases: Vec<(&'static str, &'static str, &'static str)> = Vec::new();
    aliases.push(("cc99", "gcc -std=c99 -Wall -Wextra -pedantic", "C99 strict"));
    aliases.push(("cc11", "gcc -std=c11 -Wall -Wextra -pedantic", "C11 strict"));
    aliases.push(("cdbg", "gcc -g -O0 -Wall -Wextra -DDEBUG", "Debug build"));
    aliases.push(("copt", "gcc -O2 -Wall -Wextra", "Optimized build"));
    aliases.push(("casm", "gcc -S -masm=intel", "Intel assembly output"));
    aliases.push(("cmk", "cmake -B build && cmake --build build", "CMake configure + build"));
    aliases.push(("cmkr", "cmake -B build -DCMAKE_BUILD_TYPE=Release && cmake --build build", "CMake release build"));
    aliases.push(("mkj", "make -j$(sysctl -n hw.ncpu)", "Make (all cores)"));
    aliases.push(("mkc", "make clean", "Make clean"));
    aliases.push(("vg", "valgrind --leak-check=full", "Valgrind leak check"));
    assert(aliases.deep_view() =~= c_aliases());
    Extension { name: "c", description: "C programming and build tools", aliases }
}

fn python() -> (r: Extension)
    ensures
        r@ == catalog()[3],
{
    let mut aliases: Vec<(&'static str, &'static str, &'static str)> = Vec::new();
    aliases.push(("py", "python3", "Python 3"));
    aliases.push(("ipy", "ipython", "IPython REPL"));
    aliases.push(("pyserv", "python3 -m http.server", "HTTP server"));
    aliases.push(("pyjson", "python3 -m json.tool", "Pretty-print JSON"));
    aliases.push(("pyprof", "python3 -m cProfile -s cumtime", "Profile script"));
    aliases.push(("venv", "python3 -m venv .venv", "Create virtualenv"));
    aliases.push(("va", "source .venv/bin/activate", "Activate virtualenv"));
    aliases.push(("pipi", "pip install", "Pip install"));
    aliases.push(("pipir", "pip install -r requirements.txt", "Install requirements"));
    aliases.push(("pipf", "pip freeze > requirements.txt", "Freeze requirements"));
    aliases.push(("pipu", "pip install --upgrade", "Pip upgrade"));
    aliases.push(("pyt", "python3 -m pytest", "Run pytest"));
    aliases.push(("pytv", "python3 -m pytest -v", "Run pytest verbose"));
    assert(aliases.deep_view() =~= python_aliases());
    Extension { name: "python", description: "Python development and virtual environments", aliases }
}

/// The catalog of built-in bundles.
pub fn extensions() -> (r: Vec<Extension>)
    ensures
        r.deep_view() == catalog(),
{
    let mut all: Vec<Extension> = Vec::new();
    all.push(sysadmin());
    all.push(rust());
    all.push(c_tools());
    all.push(python());
    all
}

/// The predicate "is named `name`" on bundles.
pub open spec fn called(name: Seq<char>) -> spec_fn(ExtensionSpec) -> bool {
    |e: ExtensionSpec| e.name == name
}

/// The bundle of the catalog whose name is exactly `name`.
pub open spec fn find_extension_spec(name: Seq<char>) -> Option<ExtensionSpec> {
    let i = first_index(catalog(), called(name));
    if i < catalog().len() {
        Some(catalog()[i])
    } else {
        None
    }
}

/// Looks a bundle up by its exact name.
pub fn find_extension(name: &str) -> (r: Option<Extension>)
    ensures
        r.deep_view() == find_extension_spec(name@),
{
    let mut all = extensions();
    let mut i: usize = 0;
    while i < all.len() && !str_eq(all[i].name, name)
        invariant
            i <= all.len(),
            all.deep_view() == catalog(),
            forall|k: int| 0 <= k < i ==> !called(name@)(#[trigger] catalog()[k]),
        decreases all.len() - i,
    {
        i += 1;
    }
    proof {
        lemma_first_index_is(catalog(), called(name@), i as int);
    }
    if i < all.len() {
        let found = all.swap_remove(i);
        Some(found)
    } else {
        None
    }
}

} // verus!
