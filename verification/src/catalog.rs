//! The menu of the editor, entry by entry.

use vstd::prelude::*;
use crate::menu::{
    accelerators, action_ids, forest_view, forest_view_is_pointwise, node_accelerators,
    node_action_ids, well_formed, Menu, MenuNode, NodeView, PredefinedKind,
};

verus! {

/// An enabled action item.
pub open spec fn action(id: &str, label: &str, accelerator: Option<&str>) -> NodeView {
    NodeView::ActionItem {
        id: id@,
        label: label@,
        enabled: true,
        accelerator: match accelerator {
            Some(chord) => Some(chord@),
            None => None,
        },
    }
}

/// A platform entry.
pub open spec fn platform(kind: PredefinedKind, label: &str) -> NodeView {
    NodeView::PredefinedItem { kind, label: label@ }
}

/// The File group.
pub open spec fn file_group() -> NodeView {
    NodeView::Submenu {
        label: "File"@,
        enabled: true,
        children: seq![
            action("new_file", "Neue Datei", Some("CmdOrCtrl+N")),
            action("open_file", "Öffnen...", Some("CmdOrCtrl+O")),
            action("open_folder", "Ordner öffnen...", Some("CmdOrCtrl+Shift+O")),
            NodeView::Separator,
            action("save", "Speichern", Some("CmdOrCtrl+S")),
            action("save_as", "Speichern unter...", Some("CmdOrCtrl+Shift+S")),
            NodeView::Separator,
            action("close_tab", "Tab schließen", Some("CmdOrCtrl+W")),
            NodeView::Separator,
            platform(PredefinedKind::Quit, "Beenden"),
        ],
    }
}

/// The Edit group.
pub open spec fn edit_group() -> NodeView {
    NodeView::Submenu {
        label: "Edit"@,
        enabled: true,
        children: seq![
            platform(PredefinedKind::Undo, "Rückgängig"),
            platform(PredefinedKind::Redo, "Wiederherstellen"),
            NodeView::Separator,
            platform(PredefinedKind::Cut, "Ausschneiden"),
            platform(PredefinedKind::Copy, "Kopieren"),
            platform(PredefinedKind::Paste, "Einfügen"),
            platform(PredefinedKind::SelectAll, "Alles auswählen"),
            NodeView::Separator,
            action("find", "Suchen", Some("CmdOrCtrl+F")),
        ],
    }
}

/// The View group.
pub open spec fn view_group() -> NodeView {
    NodeView::Submenu {
        label: "View"@,
        enabled: true,
        children: seq![
            action("toggle_preview", "Vorschau ein/aus", Some("CmdOrCtrl+P")),
            action("toggle_linter", "Linter ein/aus", Some("CmdOrCtrl+L")),
            NodeView::Separator,
            action("toggle_sidebar", "Sidebar ein/aus", Some("CmdOrCtrl+B")),
            NodeView::Separator,
            action("toggle_fullscreen", "Vollbild", Some("F11")),
        ],
    }
}

/// The Help group.
pub open spec fn help_group() -> NodeView {
    NodeView::Submenu {
        label: "Help"@,
        enabled: true,
        children: seq![
            action("shortcuts", "Tastenkürzel", Some("CmdOrCtrl+/")),
            action("cheatsheet", "Markdown Cheatsheet", None),
            NodeView::Separator,
            action("about", "Über Mark", None),
        ],
    }
}

/// The whole menu: File, Edit, View and Help, in that order.
pub open spec fn catalog() -> Seq<NodeView> {
    seq![file_group(), edit_group(), view_group(), help_group()]
}

fn build_file_group() -> (group: MenuNode)
    ensures
        group@ == file_group(),
{
    let items = vec![
        MenuNode::action_item("new_file", "Neue Datei", true, Some("CmdOrCtrl+N")),
        MenuNode::action_item("open_file", "Öffnen...", true, Some("CmdOrCtrl+O")),
        MenuNode::action_item("open_folder", "Ordner öffnen...", true, Some("CmdOrCtrl+Shift+O")),
        MenuNode::separator(),
        MenuNode::action_item("save", "Speichern", true, Some("CmdOrCtrl+S")),
        MenuNode::action_item("save_as", "Speichern unter...", true, Some("CmdOrCtrl+Shift+S")),
        MenuNode::separator(),
        MenuNode::action_item("close_tab", "Tab schließen", true, Some("CmdOrCtrl+W")),
        MenuNode::separator(),
        MenuNode::predefined(PredefinedKind::Quit, "Beenden"),
    ];
    proof {
        forest_view_is_pointwise(items@);
        assert(forest_view(items@) =~= file_group()->children);
    }
    MenuNode::submenu("File", true, items)
}

fn build_edit_group() -> (group: MenuNode)
    ensures
        group@ == edit_group(),
{
    let items = vec![
        MenuNode::predefined(PredefinedKind::Undo, "Rückgängig"),
        MenuNode::predefined(PredefinedKind::Redo, "Wiederherstellen"),
        MenuNode::separator(),
        MenuNode::predefined(PredefinedKind::Cut, "Ausschneiden"),
        MenuNode::predefined(PredefinedKind::Copy, "Kopieren"),
        MenuNode::predefined(PredefinedKind::Paste, "Einfügen"),
        MenuNode::predefined(PredefinedKind::SelectAll, "Alles auswählen"),
        MenuNode::separator(),
        MenuNode::action_item("find", "Suchen", true, Some("CmdOrCtrl+F")),
    ];
    proof {
        forest_view_is_pointwise(items@);
        assert(forest_view(items@) =~= edit_group()->children);
    }
    MenuNode::submenu("Edit", true, items)
}

fn build_view_group() -> (group: MenuNode)
    ensures
        group@ == view_group(),
{
    let items = vec![
        MenuNode::action_item("toggle_preview", "Vorschau ein/aus", true, Some("CmdOrCtrl+P")),
        MenuNode::action_item("toggle_linter", "Linter ein/aus", true, Some("CmdOrCtrl+L")),
        MenuNode::separator(),
        MenuNode::action_item("toggle_sidebar", "Sidebar ein/aus", true, Some("CmdOrCtrl+B")),
        MenuNode::separator(),
        MenuNode::action_item("toggle_fullscreen", "Vollbild", true, Some("F11")),
    ];
    proof {
        forest_view_is_pointwise(items@);
        assert(forest_view(items@) =~= view_group()->children);
    }
    MenuNode::submenu("View", true, items)
}

fn build_help_group() -> (group: MenuNode)
    ensures
        group@ == help_group(),
{
    let items = vec![
        MenuNode::action_item("shortcuts", "Tastenkürzel", true, Some("CmdOrCtrl+/")),
        MenuNode::action_item("cheatsheet", "Markdown Cheatsheet", true, None),
        MenuNode::separator(),
        MenuNode::action_item("about", "Über Mark", true, None),
    ];
    proof {
        forest_view_is_pointwise(items@);
        assert(forest_view(items@) =~= help_group()->children);
    }
    MenuNode::submenu("Help", true, items)
}

/// The identifiers of the catalog's action items, in display order.
pub open spec fn catalog_action_ids() -> Seq<Seq<char>> {
    seq![
        "new_file"@,
        "open_file"@,
        "open_folder"@,
        "save"@,
        "save_as"@,
        "close_tab"@,
        "find"@,
        "toggle_preview"@,
        "toggle_linter"@,
        "toggle_sidebar"@,
        "toggle_fullscreen"@,
        "shortcuts"@,
        "cheatsheet"@,
        "about"@,
    ]
}

/// The accelerators of the catalog, in display order.
pub open spec fn catalog_accelerators() -> Seq<Seq<char>> {
    seq![
        "CmdOrCtrl+N"@,
        "CmdOrCtrl+O"@,
        "CmdOrCtrl+Shift+O"@,
        "CmdOrCtrl+S"@,
        "CmdOrCtrl+Shift+S"@,
        "CmdOrCtrl+W"@,
        "CmdOrCtrl+F"@,
        "CmdOrCtrl+P"@,
        "CmdOrCtrl+L"@,
        "CmdOrCtrl+B"@,
        "F11"@,
        "CmdOrCtrl+/"@,
    ]
}

proof fn file_group_actions()
    ensures
        node_action_ids(file_group()) == seq![
            "new_file"@,
            "open_file"@,
            "open_folder"@,
            "save"@,
            "save_as"@,
            "close_tab"@,
        ],
        node_accelerators(file_group()) == seq![
            "CmdOrCtrl+N"@,
            "CmdOrCtrl+O"@,
            "CmdOrCtrl+Shift+O"@,
            "CmdOrCtrl+S"@,
            "CmdOrCtrl+Shift+S"@,
            "CmdOrCtrl+W"@,
        ],
{
    reveal_with_fuel(action_ids, 11);
    reveal_with_fuel(accelerators, 11);
    let items = file_group()->children;
    assert(action_ids(items) =~= seq![
        "new_file"@,
        "open_file"@,
        "open_folder"@,
        "save"@,
        "save_as"@,
        "close_tab"@,
    ]);
    assert(accelerators(items) =~= seq![
        "CmdOrCtrl+N"@,
        "CmdOrCtrl+O"@,
        "CmdOrCtrl+Shift+O"@,
        "CmdOrCtrl+S"@,
        "CmdOrCtrl+Shift+S"@,
        "CmdOrCtrl+W"@,
    ]);
}

proof fn edit_group_actions()
    ensures
        node_action_ids(edit_group()) == seq!["find"@],
        node_accelerators(edit_group()) == seq!["CmdOrCtrl+F"@],
{
    reveal_with_fuel(action_ids, 11);
    reveal_with_fuel(accelerators, 11);
    let items = edit_group()->children;
    assert(action_ids(items) =~= seq!["find"@]);
    assert(accelerators(items) =~= seq!["CmdOrCtrl+F"@]);
}

proof fn view_group_actions()
    ensures
        node_action_ids(view_group()) == seq![
            "toggle_preview"@,
            "toggle_linter"@,
            "toggle_sidebar"@,
            "toggle_fullscreen"@,
        ],
        node_accelerators(view_group()) == seq![
            "CmdOrCtrl+P"@,
            "CmdOrCtrl+L"@,
            "CmdOrCtrl+B"@,
            "F11"@,
        ],
{
    reveal_with_fuel(action_ids, 11);
    reveal_with_fuel(accelerators, 11);
    let items = view_group()->children;
    assert(action_ids(items) =~= seq![
        "toggle_preview"@,
        "toggle_linter"@,
        "toggle_sidebar"@,
        "toggle_fullscreen"@,
    ]);
    assert(accelerators(items) =~= seq!["CmdOrCtrl+P"@, "CmdOrCtrl+L"@, "CmdOrCtrl+B"@, "F11"@]);
}

proof fn help_group_actions()
    ensures
        node_action_ids(help_group()) == seq!["shortcuts"@, "cheatsheet"@, "about"@],
        node_accelerators(help_group()) == seq!["CmdOrCtrl+/"@],
{
    reveal_with_fuel(action_ids, 11);
    reveal_with_fuel(accelerators, 11);
    let items = help_group()->children;
    assert(action_ids(items) =~= seq!["shortcuts"@, "cheatsheet"@, "about"@]);
    assert(accelerators(items) =~= seq!["CmdOrCtrl+/"@]);
}

/// The catalog's action items carry exactly the identifiers and
/// accelerators listed, in that order.
pub proof fn catalog_actions()
    ensures
        action_ids(catalog()) == catalog_action_ids(),
        accelerators(catalog()) == catalog_accelerators(),
{
    reveal_with_fuel(action_ids, 5);
    reveal_with_fuel(accelerators, 5);
    file_group_actions();
    edit_group_actions();
    view_group_actions();
    help_group_actions();
    assert(action_ids(catalog()) =~= catalog_action_ids());
    assert(accelerators(catalog()) =~= catalog_accelerators());
}

/// The length, first and last character of a name: enough to tell any two
/// names of the catalog apart.
spec fn outline(name: Seq<char>) -> (nat, char, char) {
    (name.len(), name.first(), name.last())
}

proof fn catalog_ids_differ()
    ensures
        catalog_action_ids().no_duplicates(),
{
    let ids = catalog_action_ids();
    reveal_strlit("new_file");
    reveal_strlit("open_file");
    reveal_strlit("open_folder");
    reveal_strlit("save");
    reveal_strlit("save_as");
    reveal_strlit("close_tab");
    reveal_strlit("find");
    reveal_strlit("toggle_preview");
    reveal_strlit("toggle_linter");
    reveal_strlit("toggle_sidebar");
    reveal_strlit("toggle_fullscreen");
    reveal_strlit("shortcuts");
    reveal_strlit("cheatsheet");
    reveal_strlit("about");
    assert(outline("new_file"@) == (8nat, 'n', 'e'));
    assert(outline("open_file"@) == (9nat, 'o', 'e'));
    assert(outline("open_folder"@) == (11nat, 'o', 'r'));
    assert(outline("save"@) == (4nat, 's', 'e'));
    assert(outline("save_as"@) == (7nat, 's', 's'));
    assert(outline("close_tab"@) == (9nat, 'c', 'b'));
    assert(outline("find"@) == (4nat, 'f', 'd'));
    assert(outline("toggle_preview"@) == (14nat, 't', 'w'));
    assert(outline("toggle_linter"@) == (13nat, 't', 'r'));
    assert(outline("toggle_sidebar"@) == (14nat, 't', 'r'));
    assert(outline("toggle_fullscreen"@) == (17nat, 't', 'n'));
    assert(outline("shortcuts"@) == (9nat, 's', 's'));
    assert(outline("cheatsheet"@) == (10nat, 'c', 't'));
    assert(outline("about"@) == (5nat, 'a', 't'));
    assert forall|i: int, j: int| 0 <= i < ids.len() && 0 <= j < ids.len() && i != j implies ids[i]
        != ids[j] by {
        assert(outline(ids[i]) != outline(ids[j]));
    }
}

proof fn catalog_accelerators_differ()
    ensures
        catalog_accelerators().no_duplicates(),
{
    let chords = catalog_accelerators();
    reveal_strlit("CmdOrCtrl+N");
    reveal_strlit("CmdOrCtrl+O");
    reveal_strlit("CmdOrCtrl+Shift+O");
    reveal_strlit("CmdOrCtrl+S");
    reveal_strlit("CmdOrCtrl+Shift+S");
    reveal_strlit("CmdOrCtrl+W");
    reveal_strlit("CmdOrCtrl+F");
    reveal_strlit("CmdOrCtrl+P");
    reveal_strlit("CmdOrCtrl+L");
    reveal_strlit("CmdOrCtrl+B");
    reveal_strlit("F11");
    reveal_strlit("CmdOrCtrl+/");
    assert(outline("CmdOrCtrl+N"@) == (11nat, 'C', 'N'));
    assert(outline("CmdOrCtrl+O"@) == (11nat, 'C', 'O'));
    assert(outline("CmdOrCtrl+Shift+O"@) == (17nat, 'C', 'O'));
    assert(outline("CmdOrCtrl+S"@) == (11nat, 'C', 'S'));
    assert(outline("CmdOrCtrl+Shift+S"@) == (17nat, 'C', 'S'));
    assert(outline("CmdOrCtrl+W"@) == (11nat, 'C', 'W'));
    assert(outline("CmdOrCtrl+F"@) == (11nat, 'C', 'F'));
    assert(outline("CmdOrCtrl+P"@) == (11nat, 'C', 'P'));
    assert(outline("CmdOrCtrl+L"@) == (11nat, 'C', 'L'));
    assert(outline("CmdOrCtrl+B"@) == (11nat, 'C', 'B'));
    assert(outline("F11"@) == (3nat, 'F', '1'));
    assert(outline("CmdOrCtrl+/"@) == (11nat, 'C', '/'));
    assert forall|i: int, j: int|
        0 <= i < chords.len() && 0 <= j < chords.len() && i != j implies chords[i] != chords[j] by {
        assert(outline(chords[i]) != outline(chords[j]));
    }
}

/// No identifier and no accelerator occurs twice in the catalog.
pub proof fn catalog_is_well_formed()
    ensures
        well_formed(catalog()),
{
    catalog_actions();
    catalog_ids_differ();
    catalog_accelerators_differ();
}

/// Builds the application menu.
pub fn build_menu() -> (menu: Menu)
    ensures
        menu@ == catalog(),
        well_formed(menu@),
{
    let items = vec![build_file_group(), build_edit_group(), build_view_group(), build_help_group()];
    proof {
        forest_view_is_pointwise(items@);
        assert(forest_view(items@) =~= catalog());
        catalog_is_well_formed();
    }
    Menu { items }
}

} // verus!
