use mark_shell::menu::{build_menu, Menu, MenuNode, PredefinedKind};

fn action(id: &str, label: &str, accelerator: Option<&str>) -> MenuNode {
    MenuNode::ActionItem {
        id: id.to_string(),
        label: label.to_string(),
        enabled: true,
        accelerator: accelerator.map(|a| a.to_string()),
    }
}

fn platform(kind: PredefinedKind, label: &str) -> MenuNode {
    MenuNode::PredefinedItem { kind, label: label.to_string() }
}

fn group(menu: &Menu, index: usize) -> (&str, &Vec<MenuNode>) {
    match &menu.items[index] {
        MenuNode::Submenu { label, children, .. } => (label.as_str(), children),
        other => panic!("not a submenu: {other:?}"),
    }
}

/// The entries of a group in the short form of the catalog: identifiers,
/// platform kinds in lower case, and a dash for a separator.
fn outline(children: &[MenuNode]) -> Vec<String> {
    children
        .iter()
        .map(|node| match node {
            MenuNode::ActionItem { id, .. } => id.clone(),
            MenuNode::Separator => "—".to_string(),
            MenuNode::PredefinedItem { kind, .. } => match kind {
                PredefinedKind::Undo => "undo",
                PredefinedKind::Redo => "redo",
                PredefinedKind::Cut => "cut",
                PredefinedKind::Copy => "copy",
                PredefinedKind::Paste => "paste",
                PredefinedKind::SelectAll => "select_all",
                PredefinedKind::Quit => "quit",
            }
            .to_string(),
            MenuNode::Submenu { label, .. } => format!("<{label}>"),
        })
        .collect()
}

#[test]
fn menu_has_four_groups_in_order() {
    let menu = build_menu();
    assert_eq!(menu.items.len(), 4);
    let labels: Vec<&str> = (0..4).map(|i| group(&menu, i).0).collect();
    assert_eq!(labels, vec!["File", "Edit", "View", "Help"]);
}

#[test]
fn groups_hold_the_listed_entries() {
    let menu = build_menu();
    assert_eq!(
        outline(group(&menu, 0).1),
        vec![
            "new_file", "open_file", "open_folder", "—", "save", "save_as", "—", "close_tab",
            "—", "quit"
        ]
    );
    assert_eq!(
        outline(group(&menu, 1).1),
        vec!["undo", "redo", "—", "cut", "copy", "paste", "select_all", "—", "find"]
    );
    assert_eq!(
        outline(group(&menu, 2).1),
        vec![
            "toggle_preview", "toggle_linter", "—", "toggle_sidebar", "—", "toggle_fullscreen"
        ]
    );
    assert_eq!(outline(group(&menu, 3).1), vec!["shortcuts", "cheatsheet", "—", "about"]);
}

#[test]
fn file_group_entries() {
    let menu = build_menu();
    let expected = vec![
        action("new_file", "Neue Datei", Some("CmdOrCtrl+N")),
        action("open_file", "Öffnen...", Some("CmdOrCtrl+O")),
        action("open_folder", "Ordner öffnen...", Some("CmdOrCtrl+Shift+O")),
        MenuNode::Separator,
        action("save", "Speichern", Some("CmdOrCtrl+S")),
        action("save_as", "Speichern unter...", Some("CmdOrCtrl+Shift+S")),
        MenuNode::Separator,
        action("close_tab", "Tab schließen", Some("CmdOrCtrl+W")),
        MenuNode::Separator,
        platform(PredefinedKind::Quit, "Beenden"),
    ];
    assert_eq!(group(&menu, 0).1, &expected);
}

#[test]
fn edit_group_entries() {
    let menu = build_menu();
    let expected = vec![
        platform(PredefinedKind::Undo, "Rückgängig"),
        platform(PredefinedKind::Redo, "Wiederherstellen"),
        MenuNode::Separator,
        platform(PredefinedKind::Cut, "Ausschneiden"),
        platform(PredefinedKind::Copy, "Kopieren"),
        platform(PredefinedKind::Paste, "Einfügen"),
        platform(PredefinedKind::SelectAll, "Alles auswählen"),
        MenuNode::Separator,
        action("find", "Suchen", Some("CmdOrCtrl+F")),
    ];
    assert_eq!(group(&menu, 1).1, &expected);
}

#[test]
fn view_group_entries() {
    let menu = build_menu();
    let expected = vec![
        action("toggle_preview", "Vorschau ein/aus", Some("CmdOrCtrl+P")),
        action("toggle_linter", "Linter ein/aus", Some("CmdOrCtrl+L")),
        MenuNode::Separator,
        action("toggle_sidebar", "Sidebar ein/aus", Some("CmdOrCtrl+B")),
        MenuNode::Separator,
        action("toggle_fullscreen", "Vollbild", Some("F11")),
    ];
    assert_eq!(group(&menu, 2).1, &expected);
}

#[test]
fn help_group_entries() {
    let menu = build_menu();
    let expected = vec![
        action("shortcuts", "Tastenkürzel", Some("CmdOrCtrl+/")),
        action("cheatsheet", "Markdown Cheatsheet", None),
        MenuNode::Separator,
        action("about", "Über Mark", None),
    ];
    assert_eq!(group(&menu, 3).1, &expected);
}

#[test]
fn action_ids_are_listed_in_display_order() {
    assert_eq!(
        build_menu().action_ids(),
        vec![
            "new_file", "open_file", "open_folder", "save", "save_as", "close_tab", "find",
            "toggle_preview", "toggle_linter", "toggle_sidebar", "toggle_fullscreen",
            "shortcuts", "cheatsheet", "about"
        ]
    );
}

#[test]
fn no_action_id_occurs_twice() {
    let ids = build_menu().action_ids();
    for (i, a) in ids.iter().enumerate() {
        for b in &ids[i + 1..] {
            assert_ne!(a, b);
        }
    }
}

#[test]
fn no_accelerator_occurs_twice() {
    let menu = build_menu();
    let mut chords: Vec<String> = Vec::new();
    for index in 0..4 {
        for node in group(&menu, index).1 {
            if let MenuNode::ActionItem { accelerator: Some(chord), .. } = node {
                assert!(!chords.contains(chord), "{chord} occurs twice");
                chords.push(chord.clone());
            }
        }
    }
    assert_eq!(chords.len(), 12);
}

#[test]
fn every_action_item_is_enabled() {
    let menu = build_menu();
    for index in 0..4 {
        for node in group(&menu, index).1 {
            if let MenuNode::ActionItem { enabled, .. } = node {
                assert!(*enabled);
            }
        }
    }
}

#[test]
fn every_group_is_enabled() {
    for node in &build_menu().items {
        assert!(matches!(node, MenuNode::Submenu { enabled: true, .. }));
    }
}

#[test]
fn building_twice_gives_the_same_menu() {
    assert_eq!(build_menu(), build_menu());
}

#[test]
fn constructors_fill_the_fields() {
    assert_eq!(
        MenuNode::action_item("save", "Speichern", true, Some("CmdOrCtrl+S")),
        action("save", "Speichern", Some("CmdOrCtrl+S"))
    );
    assert_eq!(
        MenuNode::action_item("about", "Über Mark", false, None),
        MenuNode::ActionItem {
            id: "about".to_string(),
            label: "Über Mark".to_string(),
            enabled: false,
            accelerator: None,
        }
    );
    assert_eq!(MenuNode::separator(), MenuNode::Separator);
    assert_eq!(
        MenuNode::predefined(PredefinedKind::Quit, "Beenden"),
        platform(PredefinedKind::Quit, "Beenden")
    );
    assert_eq!(
        MenuNode::submenu("Help", true, vec![MenuNode::separator()]),
        MenuNode::Submenu {
            label: "Help".to_string(),
            enabled: true,
            children: vec![MenuNode::Separator],
        }
    );
}

#[test]
fn action_ids_reach_into_nested_submenus() {
    let menu = Menu {
        items: vec![
            action("a", "A", None),
            MenuNode::submenu(
                "outer",
                true,
                vec![
                    action("b", "B", None),
                    MenuNode::submenu(
                        "inner",
                        true,
                        vec![MenuNode::Separator, action("c", "C", None)],
                    ),
                    platform(PredefinedKind::Copy, "Copy"),
                    action("d", "D", None),
                ],
            ),
            action("e", "E", None),
        ],
    };
    assert_eq!(menu.action_ids(), vec!["a", "b", "c", "d", "e"]);
}

#[test]
fn submenu_keeps_its_enabled_flag() {
    assert_eq!(
        MenuNode::submenu("Off", false, Vec::new()),
        MenuNode::Submenu { label: "Off".to_string(), enabled: false, children: Vec::new() }
    );
}

#[test]
fn empty_menu_has_no_action() {
    assert_eq!(Menu { items: Vec::new() }.action_ids(), Vec::<String>::new());
}
