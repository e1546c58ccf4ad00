use vstd::prelude::*;

verus! {

/// What the tray does when a menu item is clicked.
#[derive(Clone, Copy, Debug, PartialEq, Eq, Structural)]
pub enum MenuAction {
    /// Open the program folder (configuration and logs) in the file manager.
    OpenFolder,
    /// Leave the event loop and shut the helper down.
    Quit,
    /// Unknown item: only logged.
    Ignore,
}

/// An item of the tray menu.
#[derive(Debug)]
pub struct MenuEntry {
    pub id: String,
    pub text: String,
}

/// The tray menu, top to bottom, as (id, text) pairs.
pub open spec fn menu_layout() -> Seq<(Seq<char>, Seq<char>)> {
    seq![("folder"@, "Open Program Folder"@), ("quit"@, "Quit"@)]
}

/// The action bound to the menu item with identifier `id`.
pub open spec fn action_for(id: Seq<char>) -> MenuAction {
    if id == "folder"@ {
        MenuAction::OpenFolder
    } else if id == "quit"@ {
        MenuAction::Quit
    } else {
        MenuAction::Ignore
    }
}

/// The items of the tray menu.
pub fn menu_entries() -> (entries: Vec<MenuEntry>)
    ensures
        entries@.len() == menu_layout().len(),
        forall|i: int|
            0 <= i < entries@.len() ==> (#[trigger] entries@[i].id@, entries@[i].text@)
                == menu_layout()[i],
{
    let mut entries: Vec<MenuEntry> = Vec::new();
    entries.push(
        MenuEntry { id: String::from_str("folder"), text: String::from_str("Open Program Folder") },
    );
    entries.push(MenuEntry { id: String::from_str("quit"), text: String::from_str("Quit") });
    entries
}

/// The tray icon's tooltip and title.
pub fn tray_label() -> (label: String)
    ensures
        label@ == "OrpheusDL"@,
{
    String::from_str("OrpheusDL")
}

/// The action for a click on the menu item with identifier `id`.
pub fn menu_action(id: &str) -> (action: MenuAction)
    ensures
        action == action_for(id@),
{
    let id = String::from_str(id);
    if id == String::from_str("folder") {
        MenuAction::OpenFolder
    } else if id == String::from_str("quit") {
        MenuAction::Quit
    } else {
        MenuAction::Ignore
    }
}

/// Every item of the tray menu does something, and no two items do the same.
pub proof fn every_entry_acts()
    ensures
        forall|i: int|
            0 <= i < menu_layout().len() ==> action_for(#[trigger] menu_layout()[i].0)
                != MenuAction::Ignore,
        forall|i: int, j: int|
            0 <= i < j < menu_layout().len() ==> action_for(#[trigger] menu_layout()[i].0)
                != action_for(#[trigger] menu_layout()[j].0),
{
    reveal_strlit("folder");
    reveal_strlit("quit");
    assert("folder"@ != "quit"@) by {
        assert("folder"@[0] != "quit"@[0]);
    }
}

} // verus!
