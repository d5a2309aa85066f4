use zam::alias::types::{AliasSource, ManagedError};
use zam::extensions::find_extension;
use zam::managed::{
    custom_file, extension_file_name, loader_file, override_file_name, store_dir,
    add_source_line, alias_line, extension_file, loader, remove_alias_line, remove_override_line,
    remove_source_line, set_alias_line, source_line, source_slug, validate_alias_name,
};

fn s(text: &str) -> String {
    text.to_string()
}

#[test]
fn valid_names_pass() {
    for name in ["ll", "g", "..", "...", "gco2", "_", "a-b", "a.b", "a+b", "a:b", "a@b", "a,b", "a/b", "ünï", "1"] {
        assert_eq!(validate_alias_name(name), Ok(()), "{}", name);
    }
}

#[test]
fn blank_names_are_empty() {
    for name in ["", " ", "\t\n", "\u{a0}"] {
        assert_eq!(validate_alias_name(name), Err(ManagedError::EmptyName), "{:?}", name);
    }
}

#[test]
fn unsafe_names_are_invalid() {
    for name in [
        "a b", " a", "a ", "a=b", "=", "a\tb", "a'b", "a\"b", "a`b", "a\\b", "$a", "a;b", "a&b",
        "a|b", "a<b", "a>b", "a(b", "a)b", "a{b", "a}b", "#a", "a*", "a?", "a[b", "a]b", "~a",
        "a!", "a\u{7}b", "a\u{7f}", "-", "-g", "+x",
    ] {
        assert_eq!(validate_alias_name(name), Err(ManagedError::InvalidName(s(name))), "{:?}", name);
    }
}

#[test]
fn alias_lines_quote_the_command() {
    assert_eq!(alias_line("ll", "ls -la"), "alias ll='ls -la'");
    assert_eq!(alias_line("say", "echo 'hi' there"), "alias say='echo '\\''hi'\\'' there'");
    assert_eq!(alias_line("e", ""), "alias e=''");
    assert_eq!(alias_line("d", "echo \"$HOME\" \\n"), "alias d='echo \"$HOME\" \\n'");
}

#[test]
fn setting_an_alias_replaces_its_line() {
    assert_eq!(set_alias_line("", "ll", "ls -la"), "alias ll='ls -la'\n");
    assert_eq!(
        set_alias_line("alias a='1'\nalias ll='old'\n# note\nalias b='2'", "ll", "new"),
        "alias a='1'\n# note\nalias b='2'\nalias ll='new'\n"
    );
    assert_eq!(
        set_alias_line("alias ll='x'\nalias ll='y'\n", "ll", "z"),
        "alias ll='z'\n"
    );
    assert_eq!(
        set_alias_line("alias lll='x'\nalias l='y'\n", "ll", "z"),
        "alias lll='x'\nalias l='y'\nalias ll='z'\n"
    );
}

#[test]
fn deleting_an_alias_removes_its_lines() {
    assert_eq!(remove_alias_line("alias a='1'\nalias b='2'\n", "a"), "alias b='2'\n");
    assert_eq!(remove_alias_line("alias a='1'\nalias b='2'\n", "c"), "alias a='1'\nalias b='2'\n");
    assert_eq!(remove_alias_line("alias a='1'\n", "a"), "");
    assert_eq!(remove_alias_line("", "a"), "");
    assert_eq!(remove_alias_line("  alias -g a='1'\r\nx\n", "a"), "x\n");
}

#[test]
fn an_override_file_goes_when_it_is_empty() {
    assert_eq!(remove_override_line("alias a='1'\n", "a"), None);
    assert_eq!(remove_override_line("alias a='1'\nalias b='2'\n", "a"), Some(s("alias b='2'\n")));
    assert_eq!(remove_override_line("", "a"), None);
    assert_eq!(remove_override_line("\n", "a"), Some(s("\n")));
}

#[test]
fn extension_files_hold_one_described_line_for_each_alias() {
    let aliases = vec![("cb", "cargo build", "Build"), ("q", "echo 'x'", "Quote it")];
    assert_eq!(
        extension_file(&aliases),
        "alias cb='cargo build'  # Build\nalias q='echo '\\''x'\\'''  # Quote it\n"
    );
    assert_eq!(extension_file(&vec![]), "");
    let rust = find_extension("rust").unwrap();
    let text = extension_file(&rust.aliases);
    assert_eq!(text.lines().count(), 15);
    assert_eq!(text.lines().next(), Some("alias cb='cargo build'  # Build"));
    assert_eq!(text.lines().last(), Some("alias cben='cargo bench'  # Benchmarks"));
}

#[test]
fn slugs_name_the_override_files() {
    assert_eq!(source_slug(&AliasSource::OhMyZshPlugin(s("git"))), "omz-plugin-git");
    assert_eq!(source_slug(&AliasSource::OhMyZshLib(s("directories.zsh"))), "omz-lib-directories-zsh");
    assert_eq!(source_slug(&AliasSource::OhMyZshCustom(s("my aliases.zsh"))), "omz-custom-my-aliases-zsh");
    assert_eq!(source_slug(&AliasSource::Zshrc), "zshrc");
    assert_eq!(source_slug(&AliasSource::ZamExtension(s("rust"))), "ext-rust");
    assert_eq!(source_slug(&AliasSource::ZamCustom), "custom");
    assert_eq!(source_slug(&AliasSource::ZamOverride(s("omz-plugin-git"))), "omz-plugin-git");
    assert_eq!(source_slug(&AliasSource::ZamOverride(s("../x"))), "---x");
    assert_eq!(source_slug(&AliasSource::Unknown), "unknown");
}

#[test]
fn the_loader_sources_aliases_before_overrides() {
    let text = loader();
    let aliases = text.find("~/.config/zam/aliases/").unwrap();
    let overrides = text.find("~/.config/zam/overrides/").unwrap();
    assert!(aliases < overrides);
    assert!(text.ends_with('\n'));
    assert_eq!(text.lines().count(), 3);
}

#[test]
fn the_startup_file_gets_the_source_line_once() {
    let line = source_line();
    assert_eq!(line, "[ -f ~/.config/zam/init.zsh ] && source ~/.config/zam/init.zsh");
    assert_eq!(add_source_line(""), format!("{}\n", line));
    assert_eq!(add_source_line("export A=1"), format!("export A=1\n{}\n", line));
    assert_eq!(add_source_line("export A=1\n"), format!("export A=1\n{}\n", line));
    let with = format!("a\n  {}  \nb\n", line);
    assert_eq!(add_source_line(&with), with);
    let twice = add_source_line(&add_source_line("x\n"));
    assert_eq!(twice, add_source_line("x\n"));
}

#[test]
fn the_source_line_is_removed_from_the_startup_file() {
    let line = source_line();
    assert_eq!(remove_source_line(&format!("a\n{}\nb\n", line)), "a\nb\n");
    assert_eq!(remove_source_line(&format!("  {}\t\n{}\n", line, line)), "");
    assert_eq!(remove_source_line("a\nb"), "a\nb\n");
    assert_eq!(remove_source_line(&format!("# {}\n", line)), format!("# {}\n", line));
    assert_eq!(remove_source_line(&add_source_line("a\nb\n")), "a\nb\n");
}

#[test]
fn the_files_of_the_store() {
    assert_eq!(store_dir(), ".config/zam");
    assert_eq!(loader_file(), "init.zsh");
    assert_eq!(custom_file(), "aliases/custom.zsh");
    assert_eq!(extension_file_name("rust"), "aliases/rust.zsh");
    assert_eq!(override_file_name(&AliasSource::Zshrc), "overrides/zshrc.zsh");
    assert_eq!(
        override_file_name(&AliasSource::OhMyZshPlugin(s("git"))),
        "overrides/omz-plugin-git.zsh"
    );
}
