use vstd::prelude::*;

verus! {

/// One entry of the tray menu.
#[derive(Clone, Debug)]
pub enum MenuEntry {
    /// A clickable item: the identifier delivered on click, and its label.
    Item { id: String, label: String },
    Separator,
}

/// What a tray event asks the shell to do.
#[derive(Clone, Copy, Debug, PartialEq, Eq, Structural)]
pub enum TrayAction {
    ShowWindow,
    HideWindow,
    ToggleAutoStart,
    CheckForUpdates,
    Quit,
}

pub open spec fn is_item(e: MenuEntry, id: Seq<char>, label: Seq<char>) -> bool {
    match e {
        MenuEntry::Item { id: i, label: l } => i@ == id && l@ == label,
        MenuEntry::Separator => false,
    }
}

/// The fixed tray menu: Show, Hide, separator, Auto-Start toggle, separator,
/// Check-for-Updates, separator, Quit.
pub open spec fn is_tray_menu(m: Seq<MenuEntry>) -> bool {
    &&& m.len() == 8
    &&& is_item(m[0], "show"@, "Show Window"@)
    &&& is_item(m[1], "hide"@, "Hide Window"@)
    &&& m[2] is Separator
    &&& is_item(m[3], "auto_start"@, "Auto-Start on Boot"@)
    &&& m[4] is Separator
    &&& is_item(m[5], "update"@, "Check for Updates"@)
    &&& m[6] is Separator
    &&& is_item(m[7], "quit"@, "Quit"@)
}

/// The action bound to a menu identifier; unknown identifiers have none.
pub open spec fn menu_action_of(id: Seq<char>) -> Option<TrayAction> {
    if id == "show"@ {
        Some(TrayAction::ShowWindow)
    } else if id == "hide"@ {
        Some(TrayAction::HideWindow)
    } else if id == "auto_start"@ {
        Some(TrayAction::ToggleAutoStart)
    } else if id == "update"@ {
        Some(TrayAction::CheckForUpdates)
    } else if id == "quit"@ {
        Some(TrayAction::Quit)
    } else {
        None
    }
}

fn item(id: &str, label: &str) -> (e: MenuEntry)
    ensures
        is_item(e, id@, label@),
{
    MenuEntry::Item { id: id.to_owned(), label: label.to_owned() }
}

/// Builds the tray menu, once, at startup.
pub fn create_tray_menu() -> (m: Vec<MenuEntry>)
    ensures
        is_tray_menu(m@),
{
    let mut m: Vec<MenuEntry> = Vec::new();
    m.push(item("show", "Show Window"));
    m.push(item("hide", "Hide Window"));
    m.push(MenuEntry::Separator);
    m.push(item("auto_start", "Auto-Start on Boot"));
    m.push(MenuEntry::Separator);
    m.push(item("update", "Check for Updates"));
    m.push(MenuEntry::Separator);
    m.push(item("quit", "Quit"));
    m
}

/// Maps a clicked menu identifier to its action. Unknown identifiers map to
/// `None` and are ignored, so that newer menus stay compatible.
pub fn menu_action(id: &String) -> (r: Option<TrayAction>)
    ensures
        r == menu_action_of(id@),
{
    if *id == "show".to_owned() {
        Some(TrayAction::ShowWindow)
    } else if *id == "hide".to_owned() {
        Some(TrayAction::HideWindow)
    } else if *id == "auto_start".to_owned() {
        Some(TrayAction::ToggleAutoStart)
    } else if *id == "update".to_owned() {
        Some(TrayAction::CheckForUpdates)
    } else if *id == "quit".to_owned() {
        Some(TrayAction::Quit)
    } else {
        None
    }
}

/// Every action item of the tray menu is bound to an action, and distinct
/// items are bound to distinct actions.
pub proof fn lemma_menu_items_dispatch(m: Seq<MenuEntry>)
    requires
        is_tray_menu(m),
    ensures
        forall|k: int|
            0 <= k < m.len() && #[trigger] m[k] is Item ==> menu_action_of(m[k]->Item_id@)
                is Some,
        menu_action_of(m[0]->Item_id@) == Some(TrayAction::ShowWindow),
        menu_action_of(m[1]->Item_id@) == Some(TrayAction::HideWindow),
        menu_action_of(m[3]->Item_id@) == Some(TrayAction::ToggleAutoStart),
        menu_action_of(m[5]->Item_id@) == Some(TrayAction::CheckForUpdates),
        menu_action_of(m[7]->Item_id@) == Some(TrayAction::Quit),
{
    reveal_strlit("show");
    reveal_strlit("hide");
    reveal_strlit("auto_start");
    reveal_strlit("update");
    reveal_strlit("quit");
    assert("show"@[0] == 's' && "hide"@[0] == 'h' && "auto_start"@[0] == 'a');
    assert("update"@[0] == 'u' && "quit"@[0] == 'q');
    assert forall|k: int| 0 <= k < m.len() && #[trigger] m[k] is Item implies menu_action_of(
        m[k]->Item_id@,
    ) is Some by {
        assert(k == 0 || k == 1 || k == 3 || k == 5 || k == 7);
    }
}

} // verus!
