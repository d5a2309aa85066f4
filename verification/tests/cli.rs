use zam::alias::types::{Alias, AliasGroup, AliasSource};
use zam::cli::{
    extension_row, format_list, is_yes, parse_command, plan_install, plan_remove, usage, Command, ExtCommand,
    InstallPlan, RemovePlan,
};

fn args(list: &[&str]) -> Vec<String> {
    list.iter().map(|a| a.to_string()).collect()
}

#[test]
fn the_arguments_name_a_command() {
    assert_eq!(parse_command(&args(&["zam"])), Command::Tui);
    assert_eq!(parse_command(&args(&[])), Command::Tui);
    assert_eq!(parse_command(&args(&["zam", "--unknown"])), Command::Tui);
    assert_eq!(parse_command(&args(&["zam", "--list"])), Command::List);
    assert_eq!(parse_command(&args(&["zam", "-l"])), Command::List);
    assert_eq!(parse_command(&args(&["zam", "--init"])), Command::Init);
    assert_eq!(parse_command(&args(&["zam", "--nuke"])), Command::Nuke);
    assert_eq!(parse_command(&args(&["zam", "--mockup"])), Command::Mockup);
    assert_eq!(parse_command(&args(&["zam", "--help"])), Command::Help);
    assert_eq!(parse_command(&args(&["zam", "-h"])), Command::Help);
}

#[test]
fn earlier_commands_win() {
    assert_eq!(parse_command(&args(&["zam", "--list", "--nuke", "--init", "-h"])), Command::Help);
    assert_eq!(parse_command(&args(&["zam", "--list", "--nuke", "--init"])), Command::Init);
    assert_eq!(parse_command(&args(&["zam", "--mockup", "--nuke"])), Command::Nuke);
    assert_eq!(parse_command(&args(&["zam", "ext", "--nuke"])), Command::Nuke);
    assert_eq!(parse_command(&args(&["zam", "ext", "install", "--help"])), Command::Help);
    assert_eq!(parse_command(&args(&["zam", "--mockup", "--list"])), Command::List);
    assert_eq!(parse_command(&args(&["zam", "--list", "ext"])), Command::List);
}

#[test]
fn the_ext_subcommand() {
    assert_eq!(parse_command(&args(&["zam", "ext"])), Command::Ext(ExtCommand::List));
    assert_eq!(parse_command(&args(&["zam", "ext", "list"])), Command::Ext(ExtCommand::List));
    assert_eq!(parse_command(&args(&["zam", "ext", ""])), Command::Ext(ExtCommand::List));
    assert_eq!(parse_command(&args(&["zam", "ext", "--list"])), Command::Ext(ExtCommand::Unknown("--list".into())));
    assert_eq!(
        parse_command(&args(&["zam", "ext", "install", "rust"])),
        Command::Ext(ExtCommand::Install("rust".into()))
    );
    assert_eq!(parse_command(&args(&["zam", "ext", "install"])), Command::Ext(ExtCommand::Install("".into())));
    assert_eq!(
        parse_command(&args(&["zam", "ext", "remove", "c", "more"])),
        Command::Ext(ExtCommand::Remove("c".into()))
    );
    assert_eq!(parse_command(&args(&["zam", "ext", "remove"])), Command::Ext(ExtCommand::Remove("".into())));
    assert_eq!(
        parse_command(&args(&["zam", "ext", "upgrade", "x"])),
        Command::Ext(ExtCommand::Unknown("upgrade".into()))
    );
}

#[test]
fn only_y_is_yes() {
    for answer in ["y", "Y", " y\n", "\tY  "] {
        assert!(is_yes(answer), "{:?}", answer);
    }
    for answer in ["", "\n", "n", "yes", "yy", "N", "y es"] {
        assert!(!is_yes(answer), "{:?}", answer);
    }
}

#[test]
fn installing_is_decided_step_by_step() {
    assert_eq!(plan_install("", true, true), InstallPlan::Usage);
    assert_eq!(plan_install("go", true, true), InstallPlan::UnknownExtension);
    assert_eq!(plan_install("rust", true, false), InstallPlan::AlreadyInstalled);
    assert_eq!(plan_install("rust", false, false), InstallPlan::NotInitialized);
    match plan_install("rust", false, true) {
        InstallPlan::Install(ext) => {
            assert_eq!(ext.name, "rust");
            assert_eq!(ext.aliases.len(), 15);
        }
        other => panic!("not installed: {:?}", other),
    }
}

#[test]
fn removing_is_decided_step_by_step() {
    assert_eq!(plan_remove("", true), RemovePlan::Usage);
    assert_eq!(plan_remove("go", true), RemovePlan::UnknownExtension);
    assert_eq!(plan_remove("python", false), RemovePlan::NotInstalled);
    assert_eq!(plan_remove("python", true), RemovePlan::Remove);
}

#[test]
fn the_listing_shows_every_group() {
    let git = AliasSource::OhMyZshPlugin("git".to_string());
    let groups = vec![
        AliasGroup {
            source: git.clone(),
            aliases: vec![
                Alias { name: "ga".into(), command: "git add".into(), source: git.clone(), description: Some("Stage".into()) },
                Alias { name: "gcmsg".into(), command: "git commit -m".into(), source: git.clone(), description: None },
            ],
            collapsed: true,
        },
        AliasGroup {
            source: AliasSource::Unknown,
            aliases: vec![Alias { name: "é".into(), command: "".into(), source: AliasSource::Unknown, description: None }],
            collapsed: false,
        },
    ];
    assert_eq!(
        format_list(&groups),
        vec![
            "3 aliases in 2 groups (zsh)",
            "",
            "── oh-my-zsh plugin: git (2) ──",
            "   ~/.oh-my-zsh/plugins/git/git.plugin.zsh",
            "",
            "  ga     git add  # Stage",
            "  gcmsg  git commit -m",
            "",
            "── Unknown (1) ──",
            "",
            "  é  ",
            "",
        ]
    );
    assert_eq!(format_list(&vec![]), vec!["0 aliases in 0 groups (zsh)", ""]);
}

#[test]
fn the_usage_names_every_command() {
    let expected = "zam - zsh alias manager\n\
\n\
USAGE:\n\
\x20 zam                Launch interactive TUI\n\
\x20 zam --list         Print all aliases grouped by source\n\
\x20 zam --init         Initialize managed alias directory (~/.config/zam/)\n\
\x20 zam --nuke         Delete all zam config and clean ~/.zshrc\n\
\x20 zam ext            List available extensions\n\
\x20 zam ext install <name>  Install an extension\n\
\x20 zam ext remove <name>   Remove an extension\n\
\n\
OPTIONS:\n\
\x20 -l, --list         Print aliases to stdout instead of launching TUI\n\
\x20 --init             Set up ~/.config/zam/ and add source line to ~/.zshrc\n\
\x20 --nuke             Remove ~/.config/zam/ and source line from ~/.zshrc\n\
\x20 -h, --help         Show this help message\n";
    assert_eq!(usage(), expected);
}

#[test]
fn the_catalog_is_listed_in_columns() {
    assert_eq!(
        extension_row("rust", "Cargo shortcuts for Rust development", true),
        "  rust         Cargo shortcuts for Rust development [installed]"
    );
    assert_eq!(extension_row("c", "C tools", false), "  c            C tools [not installed]");
    assert_eq!(extension_row("averylongbundlename", "x", false), "  averylongbundlename x [not installed]");
}
