use zam::alias::collector::collect_from_exit;
use zam::alias::types::{Alias, AliasGroup, AliasSource, CollectError};
use zam::app::model::SearchField;
use zam::app::rows::{alias_is_shown, build_rows, field_of_query, needle_of_query, push_rows_given};
use zam::app::ListItem;

fn c(text: &str) -> Vec<char> {
    text.chars().collect()
}

fn alias(name: &str, command: &str) -> Alias {
    Alias {
        name: name.to_string(),
        command: command.to_string(),
        source: AliasSource::Zshrc,
        description: None,
    }
}

fn group(collapsed: bool) -> AliasGroup {
    AliasGroup {
        source: AliasSource::Zshrc,
        aliases: vec![alias("a", "1"), alias("b", "2"), alias("c", "3")],
        collapsed,
    }
}

fn short(items: &Vec<ListItem>) -> Vec<String> {
    items
        .iter()
        .map(|item| match item {
            ListItem::GroupHeader { group_index, display_name, alias_count, collapsed } => {
                format!("{}:{}:{}:{}", group_index, display_name, alias_count, collapsed)
            }
            ListItem::AliasEntry { group_index, alias } => format!("{}:{}", group_index, alias.name),
        })
        .collect()
}

fn rows_given(collapsed: bool, filtering: bool, by_group: bool, group_hit: bool, hits: &[bool]) -> Vec<String> {
    let mut out = vec![ListItem::AliasEntry { group_index: 0, alias: alias("before", "x") }];
    push_rows_given(&mut out, &group(collapsed), 4, filtering, by_group, group_hit, &hits.to_vec());
    assert_eq!(short(&out)[0], "0:before");
    short(&out)[1..].to_vec()
}

#[test]
fn without_a_filter_a_group_shows_what_is_marked() {
    assert_eq!(rows_given(false, false, false, false, &[true, true, true]), vec!["4:~/.zshrc:3:false", "4:a", "4:b", "4:c"]);
    assert_eq!(rows_given(true, false, false, false, &[true, true, true]), vec!["4:~/.zshrc:3:true"]);
    assert_eq!(rows_given(false, false, true, false, &[]), vec!["4:~/.zshrc:0:false"]);
}

#[test]
fn with_a_filter_a_group_shows_its_hits() {
    assert_eq!(rows_given(false, true, false, false, &[false, true, false]), vec!["4:~/.zshrc:1:false", "4:b"]);
    assert_eq!(rows_given(true, true, false, true, &[true, false, true]), vec!["4:~/.zshrc:2:true", "4:a", "4:c"]);
    assert_eq!(rows_given(false, true, false, true, &[false, false, false]), Vec::<String>::new());
    assert_eq!(rows_given(false, true, false, false, &[true]), vec!["4:~/.zshrc:1:false", "4:a"]);
    assert_eq!(rows_given(false, true, false, false, &[false, false, false, true]), Vec::<String>::new());
}

#[test]
fn a_search_by_group_shows_the_groups_that_are_hit() {
    assert_eq!(rows_given(true, true, true, true, &[true, true, true]), vec!["4:~/.zshrc:3:true", "4:a", "4:b", "4:c"]);
    assert_eq!(rows_given(false, true, true, false, &[true, true, true]), Vec::<String>::new());
    assert_eq!(rows_given(false, true, true, true, &[]), vec!["4:~/.zshrc:0:false"]);
}

#[test]
fn queries_name_a_field_and_a_needle() {
    assert_eq!(field_of_query(&c("ga")), SearchField::Name);
    assert_eq!(field_of_query(&c("")), SearchField::Name);
    assert_eq!(field_of_query(&c(" =x")), SearchField::Name);
    assert_eq!(field_of_query(&c("=x")), SearchField::Command);
    assert_eq!(field_of_query(&c("@x")), SearchField::Group);
    assert_eq!(needle_of_query(&c("  Git ADD ")), c("git add"));
    assert_eq!(needle_of_query(&c("= LS ")), c("ls"));
    assert_eq!(needle_of_query(&c("@ÄB")), c("äb"));
    assert_eq!(needle_of_query(&c("=")), c(""));
    assert_eq!(needle_of_query(&c(" =X")), c("=x"));
}

#[test]
fn aliases_are_matched_without_regard_to_case() {
    let a = alias("GCo", "Git CheckOut");
    assert!(alias_is_shown(&a, SearchField::Name, &c("gc")));
    assert!(alias_is_shown(&a, SearchField::Name, &c("co")));
    assert!(!alias_is_shown(&a, SearchField::Name, &c("git")));
    assert!(!alias_is_shown(&a, SearchField::Name, &c("GC")));
    assert!(alias_is_shown(&a, SearchField::Command, &c("checkout")));
    assert!(!alias_is_shown(&a, SearchField::Command, &c("gco")));
    assert!(alias_is_shown(&a, SearchField::Group, &c("anything")));
    assert!(alias_is_shown(&a, SearchField::Name, &c("")));
    assert!(alias_is_shown(&a, SearchField::Command, &c("")));
}

#[test]
fn rows_are_built_from_groups_and_query() {
    let groups = vec![
        AliasGroup { source: AliasSource::Unknown, aliases: vec![], collapsed: false },
        group(true),
    ];
    assert_eq!(short(&build_rows(&groups, "")), vec!["0:Unknown:0:false", "1:~/.zshrc:3:true"]);
    assert_eq!(short(&build_rows(&groups, "B")), vec!["1:~/.zshrc:1:true", "1:b"]);
    assert_eq!(short(&build_rows(&groups, "=3")), vec!["1:~/.zshrc:1:true", "1:c"]);
    assert_eq!(short(&build_rows(&groups, "@known")), vec!["0:Unknown:0:false"]);
    assert_eq!(short(&build_rows(&groups, "@ZSH")), vec!["1:~/.zshrc:3:true", "1:a", "1:b", "1:c"]);
    assert_eq!(short(&build_rows(&groups, "@x")), Vec::<String>::new());
    assert_eq!(short(&build_rows(&vec![], "a")), Vec::<String>::new());
}

#[test]
fn a_run_that_exited_is_judged_by_its_output() {
    let s = |t: &str| t.to_string();
    assert_eq!(collect_from_exit(true, s("0"), s(""), false, Ok(s("x=1"))), Ok(s("x=1")));
    assert_eq!(collect_from_exit(true, s("0"), s(""), true, Ok(s(""))), Ok(s("")));
    assert_eq!(collect_from_exit(false, s("1"), s("e"), false, Ok(s("x=1"))), Ok(s("x=1")));
    assert_eq!(
        collect_from_exit(false, s("1"), s("e"), true, Ok(s(""))),
        Err(CollectError::ShellFailed { status: s("1"), stderr: s("e") })
    );
    assert_eq!(
        collect_from_exit(false, s("1"), s("e"), true, Err(s("bad"))),
        Err(CollectError::ShellFailed { status: s("1"), stderr: s("e") })
    );
    assert_eq!(
        collect_from_exit(true, s("0"), s("e"), false, Err(s("bad"))),
        Err(CollectError::InvalidUtf8 { source: s("bad") })
    );
    assert_eq!(
        collect_from_exit(false, s("1"), s("e"), false, Err(s("bad"))),
        Err(CollectError::InvalidUtf8 { source: s("bad") })
    );
}
