use zam::action::Action;
use zam::alias::types::{Alias, AliasGroup, AliasSource};
use zam::app::{AppState, EditField, EditState, InputMode, ListItem, PanelFocus, PendingAction, Reply};
use zam::ui::layout::{
    assemble_layout, band_wanted, box_wanted, build_layout, centered_rect, columns_wanted,
    rows_wanted, AppLayout, Area, Sizing,
};
use zam::ui::theme::{
    alias_cmd_style, alias_name_style, bold_fg, border_style, fg, group_style, help_fg, plain_style,
    search_fg, selected_style, Color, TextStyle,
};
use zam::ui::{alias_list, confirm_dialog, detail_panel, edit_form, help_bar, help_panel, inner, render, render_in, result_popup, search_bar, Panel, Span};

fn texts(line: &Vec<Span>) -> Vec<&str> {
    line.iter().map(|s| s.text.as_str()).collect()
}

fn flat(line: &Vec<Span>) -> String {
    line.iter().map(|s| s.text.as_str()).collect()
}

fn lines(panel: &Panel) -> Vec<String> {
    panel.lines.iter().map(flat).collect()
}

fn alias(name: &str, command: &str, source: AliasSource) -> Alias {
    Alias { name: name.to_string(), command: command.to_string(), source, description: None }
}

fn groups() -> Vec<AliasGroup> {
    let git = AliasSource::OhMyZshPlugin("git".to_string());
    vec![
        AliasGroup {
            source: git.clone(),
            aliases: vec![alias("ga", "git add", git.clone()), alias("gst", "git status", git)],
            collapsed: false,
        },
        AliasGroup {
            source: AliasSource::Zshrc,
            aliases: vec![alias("ls", "ls -la", AliasSource::Zshrc)],
            collapsed: true,
        },
    ]
}

fn area(x: u16, y: u16, width: u16, height: u16) -> Area {
    Area { x, y, width, height }
}

#[test]
fn the_palette() {
    let rgb = |r, g, b| TextStyle { fg: Color::Rgb(r, g, b), bg: Color::Default, bold: false };
    assert_eq!(border_style(true), rgb(120, 140, 255));
    assert_eq!(border_style(false), rgb(80, 80, 120));
    assert_eq!(selected_style(), TextStyle { fg: Color::White, bg: Color::Rgb(60, 60, 100), bold: true });
    assert_eq!(group_style(), TextStyle { fg: Color::Rgb(120, 180, 255), bg: Color::Default, bold: true });
    assert_eq!(alias_name_style(), rgb(200, 200, 100));
    assert_eq!(alias_cmd_style(), rgb(160, 160, 160));
    assert_eq!(fg(help_fg()), rgb(120, 120, 140));
    assert_eq!(fg(search_fg()), rgb(255, 200, 100));
    assert_eq!(fg(zam::ui::theme::detail_label_fg()), rgb(140, 140, 180));
    assert_eq!(fg(zam::ui::theme::detail_value_fg()).fg, Color::White);
    assert_eq!(bold_fg(Color::White), TextStyle { fg: Color::White, bg: Color::Default, bold: true });
    assert_eq!(plain_style(), TextStyle { fg: Color::Default, bg: Color::Default, bold: false });
}

#[test]
fn the_screen_is_partitioned() {
    let layout = build_layout(area(0, 0, 80, 24));
    assert_eq!(
        layout,
        AppLayout {
            search_bar: area(0, 0, 80, 3),
            alias_list: area(0, 3, 36, 19),
            detail_panel: area(36, 3, 44, 19),
            help_bar: area(0, 22, 80, 2),
        }
    );
    let moved = build_layout(area(10, 5, 100, 30));
    assert_eq!(moved.search_bar, area(10, 5, 100, 3));
    assert_eq!(moved.alias_list, area(10, 8, 45, 25));
    assert_eq!(moved.detail_panel, area(55, 8, 55, 25));
    assert_eq!(moved.help_bar, area(10, 33, 100, 2));
}

#[test]
fn a_layout_is_put_together_from_the_parts() {
    let rows = vec![area(0, 0, 9, 1), area(0, 1, 9, 2), area(0, 3, 9, 3)];
    let columns = vec![area(0, 1, 4, 2), area(4, 1, 5, 2)];
    assert_eq!(
        assemble_layout(&rows, &columns),
        AppLayout {
            search_bar: area(0, 0, 9, 1),
            alias_list: area(0, 1, 4, 2),
            detail_panel: area(4, 1, 5, 2),
            help_bar: area(0, 3, 9, 3),
        }
    );
    let none = area(0, 0, 0, 0);
    assert_eq!(
        assemble_layout(&vec![], &vec![area(1, 1, 1, 1)]),
        AppLayout { search_bar: none, alias_list: area(1, 1, 1, 1), detail_panel: none, help_bar: none }
    );
}

#[test]
fn a_frame_takes_two_cells() {
    assert_eq!(inner(0), 0);
    assert_eq!(inner(1), 0);
    assert_eq!(inner(2), 0);
    assert_eq!(inner(3), 1);
    assert_eq!(inner(80), 78);
}

#[test]
fn the_search_bar() {
    let bar = search_bar::render("Search", "", false, 7, 7);
    assert_eq!(bar.title.as_deref(), Some(" Search "));
    assert_eq!(bar.border, border_style(false));
    assert_eq!(bar.lines.len(), 1);
    assert_eq!(texts(&bar.lines[0]), vec!["[/] ", "Search: ", "name  =command  @group", "", "  (7 aliases)"]);
    assert_eq!(bar.lines[0][2].style, fg(help_fg()));
    let bar = search_bar::render("Command", "=la", true, 3, 12);
    assert_eq!(bar.border, border_style(true));
    assert_eq!(texts(&bar.lines[0]), vec!["[/] ", "Command: ", "=la", "█", "  (3/12 aliases)"]);
    assert_eq!(bar.lines[0][2].style, bold_fg(search_fg()));
    assert_eq!(bar.lines[0][3].style, fg(search_fg()));
    assert!(!bar.wrap);
}

#[test]
fn the_rows_of_the_list() {
    let header = ListItem::GroupHeader {
        group_index: 0,
        display_name: "~/.zshrc".to_string(),
        alias_count: 12,
        collapsed: false,
    };
    let row = alias_list::render_item(&header, false, 40);
    assert_eq!(texts(&row), vec![" ▾ ", "~/.zshrc", " (12)"]);
    assert_eq!(row[0].style, group_style());
    assert_eq!(row[1].style, group_style());
    assert_eq!(row[2].style, fg(help_fg()));
    let collapsed = ListItem::GroupHeader {
        group_index: 0,
        display_name: "Unknown".to_string(),
        alias_count: 0,
        collapsed: true,
    };
    let row = alias_list::render_item(&collapsed, true, 40);
    assert_eq!(texts(&row), vec![" ▸ ", "Unknown", " (0)"]);
    assert_eq!(row[0].style, selected_style());
    assert_eq!(row[2].style, fg(help_fg()));

    let entry = ListItem::AliasEntry { group_index: 0, alias: alias("ga", "git add --all", AliasSource::Zshrc) };
    let row = alias_list::render_item(&entry, false, 40);
    assert_eq!(texts(&row), vec!["   ga      ", "git add --all"]);
    assert_eq!(row[0].style, alias_name_style());
    assert_eq!(row[1].style, alias_cmd_style());
    let row = alias_list::render_item(&entry, true, 25);
    assert_eq!(texts(&row), vec!["   ga      ", "git add --all"]);
    assert_eq!(row[0].style, selected_style());
    assert_eq!(row[1].style, selected_style());
    assert_eq!(texts(&alias_list::render_item(&entry, false, 24)), vec!["   ga      ", "git add --a…"]);
    assert_eq!(texts(&alias_list::render_item(&entry, false, 13)), vec!["   ga      ", "…"]);
    assert_eq!(texts(&alias_list::render_item(&entry, false, 5)), vec!["   ga      ", "…"]);
    let long = ListItem::AliasEntry { group_index: 0, alias: alias("verylongname", "", AliasSource::Zshrc) };
    assert_eq!(texts(&alias_list::render_item(&long, false, 0)), vec!["   verylongname", ""]);
}

#[test]
fn the_list_shows_the_window() {
    let app = AppState::new(groups());
    let panel = alias_list::render(&app.visible_items, 1, 0, PanelFocus::List, 40, 10);
    assert_eq!(panel.title.as_deref(), Some(" Aliases "));
    assert_eq!(panel.border, border_style(true));
    assert_eq!(
        lines(&panel),
        vec![" ▾ oh-my-zsh plugin: git (2)", "   ga      git add", "   gst     git status", " ▸ ~/.zshrc (1)"]
    );
    assert_eq!(panel.lines[1][0].style, selected_style());
    assert_eq!(panel.lines[2][0].style, alias_name_style());
    let panel = alias_list::render(&app.visible_items, 1, 1, PanelFocus::Detail, 40, 4);
    assert_eq!(panel.border, border_style(false));
    assert_eq!(lines(&panel), vec!["   ga      git add", "   gst     git status"]);
    assert_eq!(lines(&alias_list::render(&app.visible_items, 0, 3, PanelFocus::List, 40, 9)), vec![" ▸ ~/.zshrc (1)"]);
    assert_eq!(lines(&alias_list::render(&app.visible_items, 0, 4, PanelFocus::List, 40, 9)), Vec::<String>::new());
    assert_eq!(lines(&alias_list::render(&app.visible_items, 0, 99, PanelFocus::List, 40, 9)), Vec::<String>::new());
    assert_eq!(lines(&alias_list::render(&app.visible_items, 0, 0, PanelFocus::List, 40, 2)), vec!["  No aliases found"]);
    assert_eq!(lines(&alias_list::render(&vec![], 0, 0, PanelFocus::List, 40, 9)), vec!["  No aliases found"]);
    assert_eq!(
        lines(&alias_list::render(&app.visible_items, 0, usize::MAX, PanelFocus::List, 40, 9)),
        Vec::<String>::new()
    );
}

#[test]
fn the_details_of_an_alias() {
    let git = AliasSource::OhMyZshPlugin("git".to_string());
    let mut a = alias("glog", "git log --oneline --decorate --graph", git);
    a.description = Some("Pretty log".to_string());
    let panel = detail_panel::render(Some(&a), PanelFocus::Detail, 35);
    assert_eq!(panel.title.as_deref(), Some(" Details "));
    assert_eq!(panel.border, border_style(true));
    assert!(panel.wrap);
    assert_eq!(
        lines(&panel),
        vec![
            "",
            "  Alias:   glog",
            "",
            "  Command: ",
            "             git log --oneline --",
            "             decorate --graph",
            "",
            "  Source:   oh-my-zsh plugin: git",
            "",
            "  File:    ~/.oh-my-zsh/plugins/git/git.plugin.zsh",
            "",
            "  Description:",
            "    Pretty log",
        ]
    );
    let plain = alias("x", "12345", AliasSource::Unknown);
    let panel = detail_panel::render(Some(&plain), PanelFocus::List, 20);
    assert_eq!(panel.border, border_style(false));
    assert_eq!(
        lines(&panel),
        vec!["", "  Alias:   x", "", "  Command: ", "             12345", "", "  Source:   Unknown"]
    );
    assert_eq!(lines(&detail_panel::render(Some(&plain), PanelFocus::List, 17))[4..7], [
        "             12".to_string(),
        "             34".to_string(),
        "             5".to_string(),
    ]);
    assert_eq!(
        lines(&detail_panel::render(Some(&plain), PanelFocus::List, 15)),
        vec!["", "  Alias:   x", "", "  Command: ", "", "  Source:   Unknown"]
    );
    let none = detail_panel::render(None, PanelFocus::List, 40);
    assert_eq!(lines(&none), vec!["  Select an alias to view details"]);
    assert!(!none.wrap);
}

#[test]
fn the_edit_form() {
    let mut state = EditState {
        name: "foo".to_string(),
        command: "bar".to_string(),
        active_field: EditField::Name,
        is_new: true,
        original_name: None,
        original_source: None,
    };
    let panel = edit_form::render(&state);
    assert_eq!(panel.title.as_deref(), Some(" New Alias "));
    assert_eq!(panel.border, border_style(true));
    assert_eq!(
        lines(&panel),
        vec!["", "  Name:    foo█", "", "  Command: bar", "", "", "  Tab:next field  Enter:save  Esc:cancel"]
    );
    assert_eq!(panel.lines[1][0].style, bold_fg(search_fg()));
    assert_eq!(panel.lines[1][1].style, bold_fg(search_fg()));
    assert_eq!(panel.lines[3][0].style, fg(zam::ui::theme::detail_label_fg()));
    assert_eq!(panel.lines[3][1].style, fg(zam::ui::theme::detail_value_fg()));
    state.active_field = EditField::Command;
    state.is_new = false;
    let panel = edit_form::render(&state);
    assert_eq!(panel.title.as_deref(), Some(" Edit Alias "));
    assert_eq!(lines(&panel)[1], "  Name:    foo");
    assert_eq!(lines(&panel)[3], "  Command: bar█");
}

#[test]
fn the_confirmation_dialog() {
    let delete = PendingAction::Delete { alias_name: "ga".to_string(), alias_source: AliasSource::Zshrc };
    let panel = confirm_dialog::render(&delete);
    assert_eq!(panel.title.as_deref(), Some(" Delete Alias "));
    assert_eq!(
        lines(&panel),
        vec!["", "  Delete alias ga?", "", "  Source: ~/.zshrc", "", "", "  y:confirm  n/Esc:cancel"]
    );
    let collision = PendingAction::CollisionOverride {
        edit_state: EditState {
            name: "cat".to_string(),
            command: "bat".to_string(),
            active_field: EditField::Name,
            is_new: true,
            original_name: None,
            original_source: None,
        },
        collision_desc: "shadows a shell command".to_string(),
    };
    let panel = confirm_dialog::render(&collision);
    assert_eq!(panel.title.as_deref(), Some(" Name Collision "));
    assert_eq!(
        lines(&panel),
        vec![
            "",
            "  \"cat\" shadows a shell command",
            "",
            "  Override and save?",
            "",
            "",
            "  y:confirm  n/Esc:cancel",
        ]
    );
}

#[test]
fn the_help_bar() {
    let normal = help_bar::render(InputMode::Normal { focus: PanelFocus::List }, None);
    assert_eq!(normal.title, None);
    assert_eq!(
        lines(&normal),
        vec![
            "/:search        a:add           e:edit          d:delete        ?:help          q:quit          ",
            "j/k:navigate    g/G:top/bottom  ^d/u:page       Enter:toggle    Tab:focus       ",
        ]
    );
    assert_eq!(normal.lines[0][0].style, fg(search_fg()));
    assert_eq!(normal.lines[0][1].style, fg(help_fg()));
    let search = help_bar::render(InputMode::Search, Some("Command cannot be empty"));
    assert_eq!(
        lines(&search),
        vec![
            "Esc:exit        Enter:confirm   ^u:clear        ",
            "=:cmd search    @:group search    │  Command cannot be empty",
        ]
    );
    assert_eq!(search.lines[1].last().unwrap().style, fg(search_fg()));
    assert_eq!(
        lines(&help_bar::render(InputMode::Editing { field: EditField::Name }, None)),
        vec!["Tab:next field  Enter:save      Esc:cancel      ^u:clear field  ", ""]
    );
    assert_eq!(
        lines(&help_bar::render(InputMode::Confirm, Some("x"))),
        vec!["y:confirm       n/Esc:cancel    ", "  │  x"]
    );
    assert_eq!(lines(&help_bar::render(InputMode::ResultPopup, None)), vec!["any key:continue", ""]);
    assert_eq!(lines(&help_bar::render(InputMode::Help, None)), vec!["any key:close help", ""]);
}

#[test]
fn the_help_panel() {
    let panel = help_panel::render();
    assert_eq!(panel.title.as_deref(), Some(" Help "));
    assert_eq!(
        lines(&panel),
        vec![
            "",
            "  Navigation            Search",
            "  j / k    up / down    /          open search",
            "  g / G    top / bottom Esc        close search",
            "  Ctrl+d/u page down/up Ctrl+u     clear query",
            "  Enter    toggle group =query     search commands",
            "  Tab      switch panel @query     search groups",
            "",
            "  Aliases               Edit Mode",
            "  a        create new   Tab        switch field",
            "  e        edit selectedEnter      save",
            "  d        delete selectedEsc        cancel",
            "                        Ctrl+u     clear field",
            "",
            "  General",
            "  ?        this help    q          quit",
            "  Ctrl+c   force quit   ",
            "",
            "  Press any key to close",
        ]
    );
}

#[test]
fn the_result_popup_stands_in_the_middle() {
    let (place, panel) = result_popup::render("Created alias: foo=bar", area(0, 0, 80, 25));
    assert_eq!(place, area(20, 9, 40, 7));
    assert_eq!(panel.title.as_deref(), Some(" Result "));
    assert_eq!(
        lines(&panel),
        vec!["", "  Created alias: foo=bar", "", "", "  Press any key to continue"]
    );
}

#[test]
fn a_frame_shows_the_state() {
    let mut app = AppState::new(groups());
    for _ in 0..3 {
        app.handle_action(Action::ScrollDown);
    }
    app.list_scroll_offset = 3;
    let screen = render(&mut app, area(0, 0, 80, 24));
    assert_eq!(screen.layout, build_layout(area(0, 0, 80, 24)));
    assert_eq!(app.list_scroll_offset, 3);
    assert_eq!(flat(&screen.search_bar.lines[0]), "[/] Search: name  =command  @group  (2/3 aliases)");
    assert_eq!(lines(&screen.alias_list), vec![" ▸ ~/.zshrc (1)"]);
    assert_eq!(screen.alias_list.lines[0][0].style, selected_style());
    assert_eq!(lines(screen.detail_panel.as_ref().unwrap())[1], "  Alias:   ls");
    assert_eq!(screen.help_bar.lines.len(), 2);
    assert_eq!(screen.popup, None);
}

#[test]
fn a_frame_scrolls_the_list_first() {
    let mut app = AppState::new(groups());
    app.handle_action(Action::GoToBottom);
    let layout = AppLayout {
        search_bar: area(0, 0, 40, 3),
        alias_list: area(0, 3, 20, 4),
        detail_panel: area(20, 3, 20, 4),
        help_bar: area(0, 7, 40, 2),
    };
    let screen = render_in(&mut app, layout, area(0, 0, 40, 9));
    assert_eq!(app.list_scroll_offset, 2);
    assert_eq!(lines(&screen.alias_list), vec!["   gst     git s…", " ▸ ~/.zshrc (1)"]);
}

#[test]
fn the_right_panel_follows_the_mode() {
    let mut app = AppState::new(groups());
    app.handle_action(Action::ShowHelp);
    let screen = render(&mut app, area(0, 0, 80, 24));
    assert_eq!(screen.detail_panel.as_ref().unwrap().title.as_deref(), Some(" Help "));
    app.handle_action(Action::CloseHelp);
    app.handle_action(Action::CreateAlias);
    app.handle_reply(Reply::Initialized(true));
    let screen = render(&mut app, area(0, 0, 80, 24));
    assert_eq!(screen.detail_panel.as_ref().unwrap().title.as_deref(), Some(" New Alias "));
    app.handle_action(Action::CancelEdit);
    app.handle_action(Action::DeleteAlias);
    app.handle_reply(Reply::Initialized(true));
    let screen = render(&mut app, area(0, 0, 80, 24));
    assert_eq!(screen.detail_panel.as_ref().unwrap().title.as_deref(), Some(" Delete Alias "));
    app.handle_action(Action::ConfirmYes);
    app.handle_reply(Reply::Finished(Ok(())));
    let screen = render(&mut app, area(0, 0, 80, 25));
    let (place, popup) = screen.popup.unwrap();
    assert_eq!(place, area(20, 9, 40, 7));
    assert_eq!(lines(&popup)[1], "  Deleted alias: ga");
    assert_eq!(screen.detail_panel.as_ref().unwrap().title.as_deref(), Some(" Details "));
    // A mode whose form is missing draws nothing to the right.
    app.mode = InputMode::Editing { field: EditField::Name };
    assert_eq!(render(&mut app, area(0, 0, 80, 24)).detail_panel, None);
    app.mode = InputMode::Confirm;
    assert_eq!(render(&mut app, area(0, 0, 80, 24)).detail_panel, None);
}

#[test]
fn the_status_is_shown_in_the_help_bar() {
    let mut app = AppState::new(groups());
    app.handle_action(Action::CreateAlias);
    app.handle_reply(Reply::Initialized(false));
    let screen = render(&mut app, area(0, 0, 120, 24));
    assert!(flat(&screen.help_bar.lines[1]).ends_with("  │  Not initialized — run `zam --init` first"));
}

fn lies_within(part: Area, whole: Area) -> bool {
    whole.x <= part.x
        && u32::from(part.x) + u32::from(part.width) <= u32::from(whole.x) + u32::from(whole.width)
        && whole.y <= part.y
        && u32::from(part.y) + u32::from(part.height) <= u32::from(whole.y) + u32::from(whole.height)
}

#[test]
fn the_sizes_asked_of_the_parts() {
    assert_eq!(rows_wanted(), vec![Sizing::Length(3), Sizing::Min(5), Sizing::Length(2)]);
    assert_eq!(columns_wanted(), vec![Sizing::Percentage(45), Sizing::Percentage(55)]);
    assert_eq!(band_wanted(7), vec![Sizing::Length(7)]);
    assert_eq!(box_wanted(50), vec![Sizing::Percentage(50)]);
    assert_eq!(result_popup::POPUP_PERCENT, 50);
    assert_eq!(result_popup::POPUP_HEIGHT, 7);
}

#[test]
fn every_panel_lies_within_the_screen() {
    for whole in [
        area(0, 0, 80, 24),
        area(10, 5, 100, 30),
        area(0, 0, 0, 0),
        area(3, 4, 1, 1),
        area(0, 0, 7, 4),
        area(65000, 65000, 535, 535),
        area(65000, 65000, 1000, 1000),
        area(65535, 65535, 10, 10),
        area(0, 0, 65535, 65535),
    ] {
        let layout = build_layout(whole);
        for part in [layout.search_bar, layout.alias_list, layout.detail_panel, layout.help_bar] {
            assert!(lies_within(part, whole), "{:?} in {:?}", part, whole);
        }
        assert_eq!((layout.search_bar.x, layout.search_bar.width), (whole.x, whole.width));
        assert_eq!((layout.help_bar.x, layout.help_bar.width), (whole.x, whole.width));
        assert_eq!(layout.alias_list.y, layout.detail_panel.y);
        assert_eq!(layout.alias_list.height, layout.detail_panel.height);
        let (place, _) = result_popup::render("done", whole);
        assert!(lies_within(place, whole), "{:?} in {:?}", place, whole);
        assert_eq!(place, centered_rect(50, 7, whole));
    }
}

#[test]
fn a_box_in_the_middle() {
    assert_eq!(centered_rect(50, 7, area(0, 0, 80, 25)), area(20, 9, 40, 7));
    assert_eq!(centered_rect(100, 3, area(2, 2, 10, 3)), area(2, 2, 10, 3));
    assert_eq!(centered_rect(50, 7, area(0, 0, 80, 5)), area(20, 0, 40, 5));
    assert_eq!(centered_rect(0, 0, area(4, 6, 10, 10)).width, 0);
}

#[test]
fn a_frame_with_a_result_has_the_box_in_the_middle() {
    let mut app = AppState::new(groups());
    app.show_result("Deleted alias: ls".to_string());
    let whole = area(0, 0, 80, 25);
    let screen = render(&mut app, whole);
    assert_eq!(screen.layout, build_layout(whole));
    let (place, panel) = screen.popup.unwrap();
    assert_eq!(place, area(20, 9, 40, 7));
    assert_eq!(lines(&panel)[1], "  Deleted alias: ls");
}

#[test]
fn parts_lie_within_many_areas() {
    // A walk through areas of all sizes, by a fixed linear congruence.
    let mut seed: u64 = 12345;
    let mut next = move |bound: u64| {
        seed = seed.wrapping_mul(6364136223846793005).wrapping_add(1442695040888963407);
        ((seed >> 33) % bound) as u16
    };
    for round in 0..1500 {
        let small = round % 2 == 0;
        let limit: u64 = if small { 40 } else { 65536 };
        let whole = area(next(limit), next(limit), next(limit), next(limit));
        let layout = build_layout(whole);
        for part in [layout.search_bar, layout.alias_list, layout.detail_panel, layout.help_bar] {
            assert!(lies_within(part, whole), "{:?} in {:?}", part, whole);
        }
        assert_eq!((layout.search_bar.x, layout.search_bar.width), (whole.x, whole.width));
        assert_eq!((layout.help_bar.x, layout.help_bar.width), (whole.x, whole.width));
        assert_eq!(layout.alias_list.y, layout.detail_panel.y);
        assert_eq!(layout.alias_list.height, layout.detail_panel.height);
        let place = centered_rect(next(300), next(limit), whole);
        assert!(lies_within(place, whole), "{:?} in {:?}", place, whole);
    }
}

fn check_layout_sizes(whole: Area) {
    let layout = build_layout(whole);
    if u32::from(whole.x) + u32::from(whole.width) <= 65535 {
        let w = i64::from(whole.width);
        let list = i64::from(layout.alias_list.width);
        assert_eq!(layout.alias_list.x, whole.x, "{:?}", whole);
        assert_eq!(
            u32::from(layout.detail_panel.x),
            u32::from(layout.alias_list.x) + u32::from(layout.alias_list.width),
            "{:?}",
            whole
        );
        assert_eq!(list + i64::from(layout.detail_panel.width), w, "{:?}", whole);
        assert!(45 * w - 100 < 100 * list && 100 * list < 45 * w + 100, "{:?}", whole);
        assert_eq!(list, (45 * w + 50) / 100, "{:?}", whole);
    }
    if u32::from(whole.y) + u32::from(whole.height) <= 65535 && whole.height >= 10 {
        assert_eq!(layout.search_bar.y, whole.y, "{:?}", whole);
        assert_eq!(layout.search_bar.height, 3, "{:?}", whole);
        assert_eq!(layout.alias_list.y, whole.y + 3, "{:?}", whole);
        assert_eq!(layout.alias_list.height, whole.height - 5, "{:?}", whole);
        assert_eq!(layout.help_bar.y, whole.y + whole.height - 2, "{:?}", whole);
        assert_eq!(layout.help_bar.height, 2, "{:?}", whole);
    }
}

fn check_box(percent: u16, height: u16, whole: Area) {
    let place = centered_rect(percent, height, whole);
    if u32::from(whole.y) + u32::from(whole.height) <= 65535 && height <= whole.height {
        assert_eq!(place.height, height, "{} {} {:?}", percent, height, whole);
        let before = i64::from(place.y) - i64::from(whole.y);
        let after = i64::from(whole.y) + i64::from(whole.height)
            - i64::from(place.y)
            - i64::from(place.height);
        assert!((before - after).abs() <= 1, "{} {} {:?} {:?}", percent, height, whole, place);
    }
    if u32::from(whole.x) + u32::from(whole.width) <= 65535 && percent <= 100 {
        let w = i64::from(whole.width);
        let got = i64::from(place.width);
        let p = i64::from(percent);
        assert!(p * w - 100 < 100 * got && 100 * got < p * w + 100, "{} {:?} {:?}", percent, whole, place);
        let before = i64::from(place.x) - i64::from(whole.x);
        let after = i64::from(whole.x) + w - i64::from(place.x) - got;
        assert!((before - after).abs() <= 1, "{} {} {:?} {:?}", percent, height, whole, place);
    }
}

#[test]
fn the_parts_have_the_sizes_asked_for() {
    for h in 0..200u16 {
        for (x, y, w) in [(0u16, 0u16, 80u16), (3, 7, 91), (65000, 65000, 200)] {
            check_layout_sizes(area(x, y, w, h));
        }
    }
    for w in 0..1200u16 {
        check_layout_sizes(area(5, 2, w, 24));
        check_layout_sizes(area(0, 0, w, 3));
    }
    let mut seed: u64 = 99;
    let mut next = move |bound: u64| {
        seed = seed.wrapping_mul(6364136223846793005).wrapping_add(1442695040888963407);
        ((seed >> 33) % bound) as u16
    };
    for _ in 0..1500 {
        let whole = area(next(65536), next(65536), next(65536), next(65536));
        check_layout_sizes(whole);
    }
    assert_eq!(
        build_layout(area(0, 0, 90, 18)),
        AppLayout {
            search_bar: area(0, 0, 90, 3),
            alias_list: area(0, 3, 41, 13),
            detail_panel: area(41, 3, 49, 13),
            help_bar: area(0, 16, 90, 2),
        }
    );
    // Ten rows are the least that hold the three bands.
    let least = build_layout(area(2, 1, 10, 10));
    assert_eq!(least.search_bar, area(2, 1, 10, 3));
    assert_eq!(least.alias_list, area(2, 4, 5, 5));
    assert_eq!(least.detail_panel, area(7, 4, 5, 5));
    assert_eq!(least.help_bar, area(2, 9, 10, 2));
}

#[test]
fn the_box_has_the_size_asked_for() {
    for w in 0..300u16 {
        for p in [0u16, 1, 33, 50, 51, 99, 100] {
            check_box(p, 7, area(4, 9, w, 30));
        }
    }
    for h in 0..120u16 {
        for rows in [0u16, 1, 7, 8, 119] {
            check_box(50, rows, area(1, 1, 90, h));
        }
    }
    let mut seed: u64 = 7;
    let mut next = move |bound: u64| {
        seed = seed.wrapping_mul(6364136223846793005).wrapping_add(1442695040888963407);
        ((seed >> 33) % bound) as u16
    };
    for _ in 0..1500 {
        let whole = area(next(65536), next(65536), next(65536), next(65536));
        check_box(next(140), next(65536), whole);
    }
    assert_eq!(centered_rect(50, 7, area(0, 0, 90, 18)), area(23, 6, 45, 7));
}
