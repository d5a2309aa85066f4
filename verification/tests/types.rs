use zam::alias::types::{Alias, AliasGroup, AliasSource, CollectError, ManagedError};

fn s(text: &str) -> String {
    text.to_string()
}

#[test]
fn display_names_of_all_sources() {
    assert_eq!(AliasSource::OhMyZshPlugin(s("git")).display_name(), "oh-my-zsh plugin: git");
    assert_eq!(AliasSource::OhMyZshLib(s("directories.zsh")).display_name(), "oh-my-zsh lib: directories.zsh");
    assert_eq!(AliasSource::OhMyZshCustom(s("mine.zsh")).display_name(), "oh-my-zsh custom: mine.zsh");
    assert_eq!(AliasSource::Zshrc.display_name(), "~/.zshrc");
    assert_eq!(AliasSource::ZamExtension(s("rust")).display_name(), "zam ext: rust");
    assert_eq!(AliasSource::ZamCustom.display_name(), "zam custom");
    assert_eq!(AliasSource::ZamOverride(s("omz-plugin-git")).display_name(), "zam override: omz-plugin-git");
    assert_eq!(AliasSource::Unknown.display_name(), "Unknown");
}

#[test]
fn file_paths_of_all_sources() {
    assert_eq!(
        AliasSource::OhMyZshPlugin(s("git")).file_path(),
        Some(s("~/.oh-my-zsh/plugins/git/git.plugin.zsh"))
    );
    assert_eq!(AliasSource::OhMyZshLib(s("a.zsh")).file_path(), Some(s("~/.oh-my-zsh/lib/a.zsh")));
    assert_eq!(AliasSource::OhMyZshCustom(s("b.zsh")).file_path(), Some(s("~/.oh-my-zsh/custom/b.zsh")));
    assert_eq!(AliasSource::Zshrc.file_path(), Some(s("~/.zshrc")));
    assert_eq!(AliasSource::ZamExtension(s("rust")).file_path(), Some(s("~/.config/zam/aliases/rust.zsh")));
    assert_eq!(AliasSource::ZamCustom.file_path(), Some(s("~/.config/zam/aliases/custom.zsh")));
    assert_eq!(AliasSource::ZamOverride(s("zshrc")).file_path(), Some(s("~/.config/zam/overrides/zshrc.zsh")));
    assert_eq!(AliasSource::Unknown.file_path(), None);
}

#[test]
fn sort_keys_give_the_priority_and_the_parameter() {
    assert_eq!(AliasSource::OhMyZshLib(s("x")).sort_key(), (0, s("x")));
    assert_eq!(AliasSource::OhMyZshPlugin(s("x")).sort_key(), (1, s("x")));
    assert_eq!(AliasSource::OhMyZshCustom(s("x")).sort_key(), (2, s("x")));
    assert_eq!(AliasSource::Zshrc.sort_key(), (3, s("")));
    assert_eq!(AliasSource::ZamExtension(s("x")).sort_key(), (7, s("x")));
    assert_eq!(AliasSource::ZamCustom.sort_key(), (8, s("")));
    assert_eq!(AliasSource::ZamOverride(s("x")).sort_key(), (9, s("x")));
    assert_eq!(AliasSource::Unknown.sort_key(), (10, s("")));
}

#[test]
fn only_the_managed_store_is_zam_custom() {
    assert!(AliasSource::ZamCustom.is_zam_custom());
    assert!(!AliasSource::Zshrc.is_zam_custom());
    assert!(!AliasSource::ZamExtension(s("custom")).is_zam_custom());
}

#[test]
fn clones_are_equal() {
    let alias = Alias {
        name: s("ga"),
        command: s("git add"),
        source: AliasSource::OhMyZshPlugin(s("git")),
        description: Some(s("stage")),
    };
    assert_eq!(alias.clone(), alias);
    let group = AliasGroup { source: alias.source.clone(), aliases: vec![alias], collapsed: true };
    assert_eq!(group.clone(), group);
}

#[test]
fn managed_error_messages() {
    assert_eq!(ManagedError::CreateDir(s("denied")).message(), "failed to create directory: denied");
    assert_eq!(ManagedError::WriteFile(s("full")).message(), "failed to write file: full");
    assert_eq!(ManagedError::ReadFile(s("gone")).message(), "failed to read file: gone");
    assert_eq!(ManagedError::NotInitialized.message(), "not initialized — run `zam --init` first");
    assert_eq!(ManagedError::EmptyName.message(), "alias name cannot be empty");
    assert_eq!(ManagedError::InvalidName(s("a b")).message(), "invalid alias name: a b");
}

#[test]
fn collect_error_messages() {
    assert_eq!(
        CollectError::SpawnFailed { source: s("No such file") }.message(),
        "failed to run zsh: No such file"
    );
    assert_eq!(
        CollectError::ShellFailed { status: s("exit status: 1"), stderr: s("boom") }.message(),
        "zsh exited with exit status: 1: boom"
    );
    assert_eq!(
        CollectError::InvalidUtf8 { source: s("bad byte") }.message(),
        "invalid UTF-8 from zsh: bad byte"
    );
}
