use vstd::prelude::*;
use vstd::string::StringExecFns;
use crate::text::same_text;

verus! {

/// Id of the tray menu item that ends the application.
pub const QUIT_ID: &'static str = "quit";

/// Id of the tray menu item that hides the main window.
pub const HIDE_ID: &'static str = "hide";

/// Id of the tray menu item that shows the main window.
pub const OPEN_ID: &'static str = "open";

/// What a click on a tray menu item asks for.
#[derive(Clone, Copy, Debug, PartialEq, Eq, Structural)]
pub enum MenuAction {
    Quit,
    Hide,
    Open,
    /// The id belongs to no item of the tray menu.
    Unhandled,
}

/// The action that the item with id `id` stands for.
pub open spec fn menu_action_of(id: Seq<char>) -> MenuAction {
    if id == QUIT_ID@ {
        MenuAction::Quit
    } else if id == HIDE_ID@ {
        MenuAction::Hide
    } else if id == OPEN_ID@ {
        MenuAction::Open
    } else {
        MenuAction::Unhandled
    }
}

/// Maps the id of a clicked tray menu item to its action.
pub fn menu_action(id: &str) -> (r: MenuAction)
    ensures
        r == menu_action_of(id@),
{
    if same_text(id, QUIT_ID) {
        MenuAction::Quit
    } else if same_text(id, HIDE_ID) {
        MenuAction::Hide
    } else if same_text(id, OPEN_ID) {
        MenuAction::Open
    } else {
        MenuAction::Unhandled
    }
}

/// One row of the tray menu.
pub enum MenuEntry {
    /// A clickable item, with the id that its click reports and its label.
    Item { id: String, label: String },
    Separator,
}

/// Whether `e` is an item with id `id` and label `label`.
pub open spec fn is_item(e: MenuEntry, id: Seq<char>, label: Seq<char>) -> bool {
    e matches MenuEntry::Item { id: i, label: l } && i@ == id && l@ == label
}

fn item(id: &str, label: &str) -> (r: MenuEntry)
    ensures
        is_item(r, id@, label@),
{
    MenuEntry::Item { id: String::from_str(id), label: String::from_str(label) }
}

/// The rows of the tray menu, top to bottom: Open, Hide, a separator, Quit.
pub fn tray_menu() -> (r: Vec<MenuEntry>)
    ensures
        r@.len() == 4,
        is_item(r@[0], OPEN_ID@, "Open"@),
        is_item(r@[1], HIDE_ID@, "Hide"@),
        r@[2] is Separator,
        is_item(r@[3], QUIT_ID@, "Quit"@),
{
    let mut r: Vec<MenuEntry> = Vec::new();
    r.push(item(OPEN_ID, "Open"));
    r.push(item(HIDE_ID, "Hide"));
    r.push(MenuEntry::Separator);
    r.push(item(QUIT_ID, "Quit"));
    r
}

} // verus!
