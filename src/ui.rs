use vstd::prelude::*;
use crate::cli::AppCommand;
use crate::components::Enhancer;

verus! {

/// The menus shown when no command is given.
#[derive(Clone, Copy, Debug, PartialEq, Eq, Structural)]
pub enum Menu {
    Main,
    QuickStart,
    Launch,
}

/// What choosing a menu item does.
#[derive(Clone, Debug, PartialEq, Eq)]
pub enum MenuAction {
    /// Run this command.
    Command(AppCommand),
    /// Show this menu.
    Submenu(Menu),
}

pub open spec fn spec_title(menu: Menu) -> Seq<char> {
    match menu {
        Menu::Main => "Please select the command you want to execute:"@,
        Menu::QuickStart => "Please select the profile you want to start:"@,
        Menu::Launch => "Please select the component you want to launch:"@,
    }
}

pub open spec fn spec_items(menu: Menu) -> Seq<Seq<char>> {
    match menu {
        Menu::Main => seq![
            "Quick start with predefined profiles"@,
            "Launch an individual component"@,
            "Show loader version"@,
        ],
        Menu::QuickStart => seq!["CS2 Overlay with KDMapper"@, "CS2 Web Radar with KDMapper"@],
        Menu::Launch => seq![
            "Map the kernel driver via KDMapper"@,
            "Start the CS2 overlay"@,
            "Start the CS2 standalone radar"@,
        ],
    }
}

/// What the item at `index` of `menu` does; nothing when there is no such item.
pub open spec fn spec_select(menu: Menu, index: usize) -> Option<MenuAction> {
    match (menu, index) {
        (Menu::Main, 0) => Some(MenuAction::Submenu(Menu::QuickStart)),
        (Menu::Main, 1) => Some(MenuAction::Submenu(Menu::Launch)),
        (Menu::Main, 2) => Some(MenuAction::Command(AppCommand::Version)),
        (Menu::QuickStart, 0) => Some(MenuAction::Command(AppCommand::QuickStart)),
        (Menu::QuickStart, 1) => Some(MenuAction::Command(AppCommand::QuickStart)),
        (Menu::Launch, 0) => Some(MenuAction::Command(AppCommand::MapDriver)),
        (Menu::Launch, 1) => Some(MenuAction::Command(AppCommand::Launch { enhancer: Enhancer::Cs2Overlay })),
        (Menu::Launch, 2) => Some(MenuAction::Command(AppCommand::Launch { enhancer: Enhancer::Cs2StandaloneRadar })),
        _ => None,
    }
}

/// The question that a menu asks.
pub fn title(menu: Menu) -> (r: &'static str)
    ensures
        r@ == spec_title(menu),
{
    match menu {
        Menu::Main => "Please select the command you want to execute:",
        Menu::QuickStart => "Please select the profile you want to start:",
        Menu::Launch => "Please select the component you want to launch:",
    }
}

/// The labels of a menu's items, in order.
pub fn item_names(menu: Menu) -> (r: Vec<&'static str>)
    ensures
        r@.len() == spec_items(menu).len(),
        forall|i: int| 0 <= i < r@.len() ==> (#[trigger] r@[i])@ == spec_items(menu)[i],
{
    match menu {
        Menu::Main => vec![
            "Quick start with predefined profiles",
            "Launch an individual component",
            "Show loader version",
        ],
        Menu::QuickStart => vec!["CS2 Overlay with KDMapper", "CS2 Web Radar with KDMapper"],
        Menu::Launch => vec![
            "Map the kernel driver via KDMapper",
            "Start the CS2 overlay",
            "Start the CS2 standalone radar",
        ],
    }
}

/// What choosing the item at `index` of `menu` does; `None` when the menu
/// has no such item.
pub fn select(menu: Menu, index: usize) -> (r: Option<MenuAction>)
    ensures
        r == spec_select(menu, index),
        r is Some <==> index < spec_items(menu).len(),
{
    match (menu, index) {
        (Menu::Main, 0) => Some(MenuAction::Submenu(Menu::QuickStart)),
        (Menu::Main, 1) => Some(MenuAction::Submenu(Menu::Launch)),
        (Menu::Main, 2) => Some(MenuAction::Command(AppCommand::Version)),
        (Menu::QuickStart, 0) => Some(MenuAction::Command(AppCommand::QuickStart)),
        (Menu::QuickStart, 1) => Some(MenuAction::Command(AppCommand::QuickStart)),
        (Menu::Launch, 0) => Some(MenuAction::Command(AppCommand::MapDriver)),
        (Menu::Launch, 1) => Some(MenuAction::Command(AppCommand::Launch { enhancer: Enhancer::Cs2Overlay })),
        (Menu::Launch, 2) => Some(MenuAction::Command(AppCommand::Launch { enhancer: Enhancer::Cs2StandaloneRadar })),
        _ => None,
    }
}

} // verus!
