use zam::alias::types::{Alias, AliasGroup, AliasSource};
use zam::collision::{
    alias_collision, check_batch_collisions, check_name_collision, check_shell, Collision,
};

fn alias(name: &str, command: &str, source: AliasSource) -> Alias {
    Alias { name: name.to_string(), command: command.to_string(), source, description: None }
}

fn groups() -> Vec<AliasGroup> {
    vec![
        AliasGroup {
            source: AliasSource::OhMyZshPlugin("git".to_string()),
            aliases: vec![
                alias("ga", "git add", AliasSource::OhMyZshPlugin("git".to_string())),
                alias("gst", "git status", AliasSource::OhMyZshPlugin("git".to_string())),
            ],
            collapsed: false,
        },
        AliasGroup {
            source: AliasSource::Zshrc,
            aliases: vec![alias("ll", "ls -la", AliasSource::Zshrc), alias("ga", "other", AliasSource::Zshrc)],
            collapsed: false,
        },
    ]
}

#[test]
fn descriptions_are_fixed_sentences() {
    assert_eq!(
        Collision::Alias { source: "~/.zshrc".to_string() }.description(),
        "alias already exists (source: ~/.zshrc)"
    );
    assert_eq!(Collision::Command.description(), "shadows a shell command");
    assert_eq!(Collision::Builtin.description(), "shadows a shell builtin");
    assert_eq!(Collision::Function.description(), "shadows a shell function");
}

#[test]
fn an_alias_in_memory_collides_with_the_first_group_that_holds_it() {
    assert_eq!(
        alias_collision("ga", &groups()),
        Some(Collision::Alias { source: "oh-my-zsh plugin: git".to_string() })
    );
    assert_eq!(
        alias_collision("ll", &groups()),
        Some(Collision::Alias { source: "~/.zshrc".to_string() })
    );
    assert_eq!(alias_collision("l", &groups()), None);
    assert_eq!(alias_collision("ga", &vec![]), None);
}

#[test]
fn the_shell_classifies_words() {
    assert_eq!(check_shell("ls: command\n"), Some(Collision::Command));
    assert_eq!(check_shell("cd: builtin\n"), Some(Collision::Builtin));
    assert_eq!(check_shell("  nvm: function  "), Some(Collision::Function));
    assert_eq!(check_shell("ll: alias\n"), None);
    assert_eq!(check_shell("foo: none\n"), None);
    assert_eq!(check_shell(""), None);
    assert_eq!(check_shell("command"), Some(Collision::Command));
    assert_eq!(check_shell("a: b: function"), Some(Collision::Function));
}

#[test]
fn aliases_in_memory_come_before_the_shell() {
    assert_eq!(
        check_name_collision("ga", &groups(), "ga: command"),
        Some(Collision::Alias { source: "oh-my-zsh plugin: git".to_string() })
    );
    assert_eq!(check_name_collision("cat", &groups(), "cat: command"), Some(Collision::Command));
    assert_eq!(check_name_collision("zzz", &groups(), "zzz: none"), None);
}

#[test]
fn batches_keep_the_order_of_the_catalog() {
    let catalog = vec![("cb", "cargo build", "Build"), ("ll", "x", "y"), ("cr", "cargo run", "Run"), ("cd", "z", "w")];
    let outputs = vec![
        "cb: none".to_string(),
        "ll: alias".to_string(),
        "cr: command".to_string(),
        "cd: builtin".to_string(),
    ];
    assert_eq!(
        check_batch_collisions(&catalog, &groups(), &outputs),
        vec![
            ("ll".to_string(), Collision::Alias { source: "~/.zshrc".to_string() }),
            ("cr".to_string(), Collision::Command),
            ("cd".to_string(), Collision::Builtin),
        ]
    );
    assert_eq!(check_batch_collisions(&catalog, &vec![], &vec![]), vec![]);
    assert_eq!(
        check_batch_collisions(&catalog, &groups(), &vec![]),
        vec![("ll".to_string(), Collision::Alias { source: "~/.zshrc".to_string() })]
    );
}
