use zam::alias::categorizer::{
    plugin_file, categorize_aliases, categorize_zsh, group_all_unknown, split_file_name, ScannedFile,
    ShellConfig,
};
use zam::alias::collector::{collect_raw_aliases, ShellRun};
use zam::alias::load_aliases;
use zam::alias::plugins::parse_zsh_plugins;
use zam::alias::scanner::{
    extract_alias_fragments, extract_description, look_up, name_of_fragment, record,
    scan_file_for_aliases, Definition, Entry, Table,
};
use zam::alias::sorting::{sort_aliases, sort_groups};
use zam::alias::types::{Alias, AliasGroup, AliasSource, CollectError};

fn s(text: &str) -> String {
    text.to_string()
}

fn entry(table: &Table, name: &str) -> Option<Entry> {
    look_up(table, name).cloned()
}

fn c(text: &str) -> Vec<char> {
    text.chars().collect()
}

fn file(name: &str, content: &str) -> ScannedFile {
    ScannedFile { file_name: s(name), content: Some(s(content)) }
}

fn empty_config() -> ShellConfig {
    ShellConfig {
        lib_files: vec![],
        zshrc: None,
        plugin_files: vec![],
        custom_files: vec![],
        zam_custom: None,
        zam_alias_files: vec![],
    }
}

fn raw(pairs: &[(&str, &str)]) -> Vec<(String, String)> {
    pairs.iter().map(|(n, c)| (s(n), s(c))).collect()
}

fn names(group: &AliasGroup) -> Vec<String> {
    group.aliases.iter().map(|a| a.name.clone()).collect()
}

fn fragments(line: &str) -> Vec<String> {
    extract_alias_fragments(&c(line)).iter().map(|f| f.iter().collect()).collect()
}

fn fragment_name(fragment: &str) -> Option<String> {
    name_of_fragment(&c(fragment)).map(|n| n.iter().collect())
}

#[test]
fn fragments_follow_the_word_alias() {
    assert_eq!(fragments("alias ga='git add'"), vec!["ga='git add'"]);
    assert_eq!(fragments("  alias   ll='ls -la'  "), vec!["ll='ls -la'  "]);
    assert_eq!(fragments("foo && alias gfa='git fetch --all'"), vec!["gfa='git fetch --all'"]);
    assert_eq!(fragments("alias a=1; alias b=2"), vec!["a=1; alias b=2", "b=2"]);
    assert_eq!(fragments("unalias x"), Vec::<String>::new());
    assert_eq!(fragments("my_alias x=1"), Vec::<String>::new());
    assert_eq!(fragments("-alias x=1"), vec!["x=1"]);
    assert_eq!(fragments("alias "), Vec::<String>::new());
    assert_eq!(fragments("alias"), Vec::<String>::new());
    assert_eq!(fragments("alias -g G='| grep'"), vec!["-g G='| grep'"]);
    assert_eq!(fragments("éalias x=1"), vec!["x=1"]);
}

#[test]
fn names_are_what_stands_before_the_equals_sign() {
    assert_eq!(fragment_name("ga='git add'"), Some(s("ga")));
    assert_eq!(fragment_name("-g G='| grep'"), Some(s("G")));
    assert_eq!(fragment_name(" x =1"), Some(s("x")));
    assert_eq!(fragment_name("='oops'"), None);
    assert_eq!(fragment_name("a b=1"), None);
    assert_eq!(fragment_name("no equals"), None);
    assert_eq!(fragment_name("-g =x"), None);
}

#[test]
fn descriptions_come_from_the_comments_above() {
    let lines: Vec<Vec<char>> = ["echo hi", "# Stage", "  ## all files  ", "#", "alias ga='git add'"]
        .iter()
        .map(|l| c(l))
        .collect();
    assert_eq!(extract_description(&lines, 4), Some(s("Stage all files")));
    assert_eq!(extract_description(&lines, 1), None);
    assert_eq!(extract_description(&lines, 0), None);
    assert_eq!(extract_description(&lines, 2), Some(s("Stage")));
    let gap: Vec<Vec<char>> = ["# far", "", "alias x=1"].iter().map(|l| c(l)).collect();
    assert_eq!(extract_description(&gap, 2), None);
    let bare: Vec<Vec<char>> = ["#", "#  ", "alias x=1"].iter().map(|l| c(l)).collect();
    assert_eq!(extract_description(&bare, 2), None);
}

#[test]
fn a_file_is_scanned_in_its_order_and_first_definitions_win() {
    let mut table = Table::new();
    record(&mut table, Definition { name: s("old"), source: AliasSource::Zshrc, description: None });
    let content = "# List\nalias ll='ls -la'\nalias old=new; alias ll=other\n# two\n# lines\nalias -g G='| grep'\n";
    scan_file_for_aliases(content, &mut table, &AliasSource::OhMyZshPlugin(s("p")));
    assert_eq!(table.len(), 3);
    assert_eq!(entry(&table, "old"), Some((AliasSource::Zshrc, None)));
    assert_eq!(entry(&table, "ll"), Some((AliasSource::OhMyZshPlugin(s("p")), Some(s("List")))));
    assert_eq!(entry(&table, "G"), Some((AliasSource::OhMyZshPlugin(s("p")), Some(s("two lines")))));
    assert_eq!(entry(&table, "new"), None);
    assert_eq!(entry(&table, "other"), None);
}

#[test]
fn the_first_definition_of_a_name_stays() {
    let mut table = Table::new();
    assert_eq!(table.len(), 0);
    assert_eq!(entry(&table, "a"), None);
    record(&mut table, Definition { name: s("a"), source: AliasSource::Zshrc, description: Some(s("first")) });
    record(&mut table, Definition { name: s("a"), source: AliasSource::ZamCustom, description: None });
    record(&mut table, Definition { name: s("A"), source: AliasSource::ZamCustom, description: None });
    assert_eq!(table.len(), 2);
    assert_eq!(entry(&table, "a"), Some((AliasSource::Zshrc, Some(s("first")))));
    assert_eq!(entry(&table, "A"), Some((AliasSource::ZamCustom, None)));
    assert_eq!(entry(&table, ""), None);
}

#[test]
fn plugins_are_read_from_the_startup_file() {
    assert_eq!(parse_zsh_plugins("plugins=(git z docker)\n"), vec!["git", "z", "docker"]);
    assert_eq!(parse_zsh_plugins("plugins =(git)\n"), vec!["git"]);
    assert_eq!(parse_zsh_plugins("  plugins=(\n  git\n  z  # not a comment line\n)\nalias x=1\n"),
        vec!["git", "z", "#", "not", "a", "comment", "line"]);
    assert_eq!(parse_zsh_plugins("plugins=(a\n# skipped\nb c) d\ne\n"), vec!["a", "b", "c"]);
    assert_eq!(parse_zsh_plugins("# plugins=(git)\n"), Vec::<String>::new());
    assert_eq!(parse_zsh_plugins("export plugins=(git)\n"), Vec::<String>::new());
    assert_eq!(parse_zsh_plugins("plugins=()\n"), Vec::<String>::new());
    assert_eq!(parse_zsh_plugins("plugins=(a)\nplugins=(b)\n"), vec!["a", "b"]);
    assert_eq!(parse_zsh_plugins(""), Vec::<String>::new());
}

#[test]
fn file_names_split_at_their_last_dot() {
    assert_eq!(split_file_name("git.plugin.zsh"), (s("git.plugin"), Some(s("zsh"))));
    assert_eq!(split_file_name("custom.zsh"), (s("custom"), Some(s("zsh"))));
    assert_eq!(split_file_name(".zshrc"), (s(".zshrc"), None));
    assert_eq!(split_file_name("README"), (s("README"), None));
    assert_eq!(split_file_name("a."), (s("a"), Some(s(""))));
    assert_eq!(split_file_name(".."), (s(".."), None));
    assert_eq!(split_file_name("..zsh"), (s("."), Some(s("zsh"))));
}

#[test]
fn the_earliest_phase_wins() {
    let config = ShellConfig {
        lib_files: vec![file("dirs.zsh", "alias a=lib\n"), file("notes.txt", "alias z=ignored\n")],
        zshrc: Some(s("plugins=(git missing)\nalias a=rc\nalias b=rc\nalias c=rc\nalias d=rc\n")),
        plugin_files: vec![
            file("other", "alias o=unlisted\n"),
            file("git", "alias a=plugin\nalias b=plugin\n"),
        ],
        custom_files: vec![file("mine.zsh", "alias a=custom\nalias b=custom\nalias c=custom\n")],
        zam_custom: Some(s("alias a=zam\nalias d=zam\nalias e='zam'\n")),
        zam_alias_files: vec![
            file("custom.zsh", "alias f=skipped\n"),
            file("rust.zsh", "alias a=ext\nalias e=ext\nalias f=ext\n"),
        ],
    };
    let table = categorize_zsh(&config);
    assert_eq!(table.len(), 6);
    for (name, source) in [
        ("a", AliasSource::OhMyZshLib(s("dirs.zsh"))),
        ("b", AliasSource::OhMyZshPlugin(s("git"))),
        ("c", AliasSource::OhMyZshCustom(s("mine.zsh"))),
        ("d", AliasSource::Zshrc),
        ("e", AliasSource::ZamCustom),
        ("f", AliasSource::ZamExtension(s("rust"))),
    ] {
        assert_eq!(entry(&table, name), Some((source, None)), "name {}", name);
    }
    assert_eq!(entry(&table, "o"), None);
    assert_eq!(entry(&table, "z"), None);
}

#[test]
fn unreadable_files_are_passed_over() {
    let mut config = empty_config();
    config.lib_files = vec![ScannedFile { file_name: s("a.zsh"), content: None }, file("b.zsh", "alias x=1\n")];
    config.zshrc = Some(s("plugins=(p)\n"));
    config.plugin_files = vec![ScannedFile { file_name: s("p"), content: None }];
    let table = categorize_zsh(&config);
    assert_eq!(table.len(), 1);
    assert_eq!(entry(&table, "x"), Some((AliasSource::OhMyZshLib(s("b.zsh")), None)));
    assert_eq!(categorize_zsh(&empty_config()).len(), 0);
}

#[test]
fn groups_and_aliases_come_sorted() {
    let config = ShellConfig {
        lib_files: vec![file("b.zsh", "alias lb=1\n"), file("a.zsh", "alias la=1\n")],
        zshrc: Some(s("plugins=(git)\n# own\nalias zz=1\nalias aa=1\n")),
        plugin_files: vec![file("git", "alias gst='git status'\nalias ga='git add'\n")],
        custom_files: vec![],
        zam_custom: Some(s("alias mine=1\n")),
        zam_alias_files: vec![file("rust.zsh", "alias cb='cargo build'\n")],
    };
    let groups = categorize_aliases(
        raw(&[
            ("zz", "1"),
            ("mystery", "?"),
            ("gst", "git status"),
            ("cb", "cargo build"),
            ("mine", "1"),
            ("la", "1"),
            ("aa", "1"),
            ("ga", "git add"),
            ("lb", "1"),
        ]),
        Some(&config),
    );
    let sources: Vec<AliasSource> = groups.iter().map(|g| g.source.clone()).collect();
    assert_eq!(
        sources,
        vec![
            AliasSource::OhMyZshLib(s("a.zsh")),
            AliasSource::OhMyZshLib(s("b.zsh")),
            AliasSource::OhMyZshPlugin(s("git")),
            AliasSource::Zshrc,
            AliasSource::ZamExtension(s("rust")),
            AliasSource::ZamCustom,
            AliasSource::Unknown,
        ]
    );
    assert_eq!(names(&groups[2]), vec!["ga", "gst"]);
    assert_eq!(names(&groups[3]), vec!["aa", "zz"]);
    assert_eq!(names(&groups[6]), vec!["mystery"]);
    assert_eq!(groups[3].aliases[0].description, None);
    assert_eq!(groups[3].aliases[1].description, Some(s("own")));
    assert_eq!(groups[2].aliases[0].command, "git add");
    assert!(groups.iter().all(|g| !g.collapsed));
    for g in &groups {
        for a in &g.aliases {
            assert_eq!(a.source, g.source);
        }
    }
}

#[test]
fn without_a_home_everything_is_unknown() {
    let groups = categorize_aliases(raw(&[("b", "2"), ("a", "1"), ("c", "3")]), None);
    assert_eq!(groups.len(), 1);
    assert_eq!(groups[0].source, AliasSource::Unknown);
    assert_eq!(names(&groups[0]), vec!["a", "b", "c"]);
    assert!(!groups[0].collapsed);
    assert!(groups[0].aliases.iter().all(|a| a.source == AliasSource::Unknown && a.description.is_none()));
    let none = group_all_unknown(vec![]);
    assert_eq!(none.len(), 1);
    assert!(none[0].aliases.is_empty());
    assert_eq!(categorize_aliases(vec![], Some(&empty_config())), vec![]);
}

#[test]
fn sorting_is_stable() {
    let alias = |name: &str, command: &str| Alias {
        name: s(name),
        command: s(command),
        source: AliasSource::Unknown,
        description: None,
    };
    let sorted = sort_aliases(&vec![alias("b", "1"), alias("a", "2"), alias("b", "3"), alias("a", "4")]);
    let got: Vec<(String, String)> = sorted.iter().map(|a| (a.name.clone(), a.command.clone())).collect();
    assert_eq!(got, raw(&[("a", "2"), ("a", "4"), ("b", "1"), ("b", "3")]));
    let group = |source: AliasSource, collapsed: bool| AliasGroup { source, aliases: vec![], collapsed };
    let sorted = sort_groups(&vec![
        group(AliasSource::Unknown, false),
        group(AliasSource::ZamOverride(s("x")), false),
        group(AliasSource::ZamCustom, true),
        group(AliasSource::ZamExtension(s("b")), false),
        group(AliasSource::Zshrc, false),
        group(AliasSource::OhMyZshCustom(s("c")), false),
        group(AliasSource::OhMyZshPlugin(s("z")), false),
        group(AliasSource::OhMyZshPlugin(s("a")), false),
        group(AliasSource::OhMyZshLib(s("l")), false),
        group(AliasSource::ZamCustom, false),
    ]);
    let got: Vec<(u8, String, bool)> = sorted
        .iter()
        .map(|g| (g.source.sort_key().0, g.source.sort_key().1, g.collapsed))
        .collect();
    assert_eq!(
        got,
        vec![
            (0, s("l"), false),
            (1, s("a"), false),
            (1, s("z"), false),
            (2, s("c"), false),
            (3, s(""), false),
            (7, s("b"), false),
            (8, s(""), true),
            (8, s(""), false),
            (9, s("x"), false),
            (10, s(""), false),
        ]
    );
}

#[test]
fn the_run_of_the_shell_is_interpreted() {
    let exited = |success: bool, stdout: &[u8]| ShellRun::Exited {
        success,
        status: s("exit status: 1"),
        stdout: stdout.to_vec(),
        stderr: s("warn"),
    };
    assert_eq!(collect_raw_aliases(exited(true, b"ll='ls -la'\n")), Ok(s("ll='ls -la'\n")));
    assert_eq!(collect_raw_aliases(exited(false, b"ll=x\n")), Ok(s("ll=x\n")));
    assert_eq!(collect_raw_aliases(exited(true, b"")), Ok(s("")));
    assert_eq!(collect_raw_aliases(exited(true, "é✓".as_bytes())), Ok(s("é✓")));
    assert_eq!(
        collect_raw_aliases(exited(false, b"")),
        Err(CollectError::ShellFailed { status: s("exit status: 1"), stderr: s("warn") })
    );
    assert_eq!(
        collect_raw_aliases(ShellRun::NotStarted { reason: s("No such file or directory") }),
        Err(CollectError::SpawnFailed { source: s("No such file or directory") })
    );
    match collect_raw_aliases(exited(true, &[b'a', 0xff, b'b'])) {
        Err(CollectError::InvalidUtf8 { source }) => assert!(source.contains("invalid utf-8")),
        other => panic!("not an encoding error: {:?}", other),
    }
}

#[test]
fn loading_parses_and_attributes() {
    let mut config = empty_config();
    config.zshrc = Some(s("alias ll='ls -la'\n"));
    let run = ShellRun::Exited {
        success: true,
        status: s("exit status: 0"),
        stdout: b"ll='ls -la'\nx=$'a\\tb'\n".to_vec(),
        stderr: s(""),
    };
    let groups = load_aliases(run, Some(&config)).unwrap();
    assert_eq!(groups.len(), 2);
    assert_eq!(groups[0].source, AliasSource::Zshrc);
    assert_eq!(groups[0].aliases[0].command, "ls -la");
    assert_eq!(groups[1].source, AliasSource::Unknown);
    assert_eq!(groups[1].aliases[0].command, "a\tb");
    let failed = load_aliases(ShellRun::NotStarted { reason: s("gone") }, Some(&config));
    assert_eq!(failed, Err(CollectError::SpawnFailed { source: s("gone") }));
}

#[test]
fn plugins_have_their_files() {
    assert_eq!(plugin_file("git"), "plugins/git/git.plugin.zsh");
    assert_eq!(plugin_file(""), "plugins//.plugin.zsh");
}

#[test]
fn many_sources_give_as_many_groups() {
    // Pairs of nine sources, each source twice and apart: every alias finds
    // the group of its source.
    let mut lib_files = Vec::new();
    let mut raw = Vec::new();
    for round in 0..2 {
        for k in 0..9 {
            let name = format!("n{}_{}", round, k);
            lib_files.push(file(&format!("f{}.zsh", k), &format!("alias {}=x\n", name)));
            raw.push((name, s("x")));
        }
    }
    raw.push((s("stray"), s("y")));
    let config = ShellConfig { lib_files, ..empty_config() };
    let groups = categorize_aliases(raw, Some(&config));
    assert_eq!(groups.len(), 10);
    for (k, g) in groups.iter().take(9).enumerate() {
        assert_eq!(g.source, AliasSource::OhMyZshLib(format!("f{}.zsh", k)));
        let names: Vec<&str> = g.aliases.iter().map(|a| a.name.as_str()).collect();
        assert_eq!(names, vec![format!("n0_{}", k), format!("n1_{}", k)]);
    }
    assert_eq!(groups[9].source, AliasSource::Unknown);
    assert_eq!(groups[9].aliases.len(), 1);
}
