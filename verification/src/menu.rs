//! The tray menu: a closed set of actions, each with the stable id by which
//! the host reports that it was chosen.

use crate::lifecycle::Trigger;
use crate::text::str_eq;
use vstd::prelude::*;

verus! {

/// An action of the tray menu.
#[derive(Clone, Copy, Debug, PartialEq, Eq, Structural)]
pub enum MenuAction {
    /// Bring the window back.
    Show,
    /// End the process.
    Quit,
}

/// A menu item as the host builds it. It does not change once made.
#[derive(Clone, Copy, Debug, PartialEq, Eq)]
pub struct MenuItem {
    action: MenuAction,
    enabled: bool,
}

/// What a menu item is to the host: the id it is dispatched by, the label it
/// shows, and whether it can be chosen.
pub struct MenuItemView {
    pub id: Seq<char>,
    pub label: Seq<char>,
    pub enabled: bool,
}

impl MenuAction {
    /// The id of the menu item that stands for the action.
    pub open spec fn spec_id(self) -> Seq<char> {
        match self {
            MenuAction::Show => "show"@,
            MenuAction::Quit => "quit"@,
        }
    }

    /// The label of the menu item that stands for the action.
    pub open spec fn spec_label(self) -> Seq<char> {
        match self {
            MenuAction::Show => "Hiện DinoMoney"@,
            MenuAction::Quit => "Thoát DinoMoney"@,
        }
    }

    /// The trigger that choosing the action sets off.
    pub open spec fn spec_trigger(self) -> Trigger {
        match self {
            MenuAction::Show => Trigger::TrayActivate,
            MenuAction::Quit => Trigger::QuitRequested,
        }
    }

    /// The action that a menu id stands for, if any.
    pub open spec fn spec_from_id(id: Seq<char>) -> Option<MenuAction> {
        if id == MenuAction::Show.spec_id() {
            Some(MenuAction::Show)
        } else if id == MenuAction::Quit.spec_id() {
            Some(MenuAction::Quit)
        } else {
            None
        }
    }

    /// The id of the menu item that stands for the action.
    pub fn id(self) -> (id: &'static str)
        ensures
            id@ == self.spec_id(),
    {
        match self {
            MenuAction::Show => "show",
            MenuAction::Quit => "quit",
        }
    }

    /// The label of the menu item that stands for the action.
    pub fn label(self) -> (label: &'static str)
        ensures
            label@ == self.spec_label(),
    {
        match self {
            MenuAction::Show => "Hiện DinoMoney",
            MenuAction::Quit => "Thoát DinoMoney",
        }
    }

    /// The trigger that choosing the action sets off.
    pub fn trigger(self) -> (trigger: Trigger)
        ensures
            trigger == self.spec_trigger(),
    {
        match self {
            MenuAction::Show => Trigger::TrayActivate,
            MenuAction::Quit => Trigger::QuitRequested,
        }
    }

    /// Finds the action that a menu id stands for. An id of no item of the
    /// tray menu gives `None`.
    pub fn from_id(id: &str) -> (action: Option<MenuAction>)
        ensures
            action == MenuAction::spec_from_id(id@),
    {
        if str_eq(id, MenuAction::Show.id()) {
            Some(MenuAction::Show)
        } else if str_eq(id, MenuAction::Quit.id()) {
            Some(MenuAction::Quit)
        } else {
            None
        }
    }
}

impl View for MenuItem {
    type V = MenuItemView;

    closed spec fn view(&self) -> MenuItemView {
        MenuItemView {
            id: self.action.spec_id(),
            label: self.action.spec_label(),
            enabled: self.enabled,
        }
    }
}

impl MenuItem {
    /// The view of the enabled item that stands for `action`.
    pub open spec fn enabled_view(action: MenuAction) -> MenuItemView {
        MenuItemView { id: action.spec_id(), label: action.spec_label(), enabled: true }
    }

    /// The id by which the host reports that the item was chosen.
    pub fn id(&self) -> (id: &'static str)
        ensures
            id@ == self@.id,
    {
        self.action.id()
    }

    /// The label that the item shows.
    pub fn label(&self) -> (label: &'static str)
        ensures
            label@ == self@.label,
    {
        self.action.label()
    }

    /// Whether the item can be chosen.
    pub fn enabled(&self) -> (enabled: bool)
        ensures
            enabled == self@.enabled,
    {
        self.enabled
    }
}

/// The views of the items of the tray menu, top to bottom.
pub open spec fn spec_tray_menu() -> Seq<MenuItemView> {
    seq![MenuItem::enabled_view(MenuAction::Show), MenuItem::enabled_view(MenuAction::Quit)]
}

/// The trigger that a menu event with the given id sets off, if any.
pub open spec fn spec_menu_trigger(id: Seq<char>) -> Option<Trigger> {
    match MenuAction::spec_from_id(id) {
        Some(action) => Some(action.spec_trigger()),
        None => None,
    }
}

/// Lists the items of the tray menu, top to bottom: "show", then "quit",
/// both enabled.
pub fn tray_menu() -> (menu: Vec<MenuItem>)
    ensures
        menu@.len() == spec_tray_menu().len(),
        forall|i: int| 0 <= i < menu@.len() ==> #[trigger] menu@[i]@ == spec_tray_menu()[i],
{
    let mut menu: Vec<MenuItem> = Vec::new();
    menu.push(MenuItem { action: MenuAction::Show, enabled: true });
    menu.push(MenuItem { action: MenuAction::Quit, enabled: true });
    menu
}

/// Decodes a menu event by the id of the item that was chosen.
pub fn menu_trigger(id: &str) -> (trigger: Option<Trigger>)
    ensures
        trigger == spec_menu_trigger(id@),
{
    match MenuAction::from_id(id) {
        Some(action) => Some(action.trigger()),
        None => None,
    }
}

/// Every action is found again by its id, so no two actions share an id.
pub proof fn lemma_action_found_by_id(action: MenuAction)
    ensures
        MenuAction::spec_from_id(action.spec_id()) == Some(action),
        forall|other: MenuAction| other.spec_id() == action.spec_id() ==> other == action,
{
    reveal_strlit("show");
    reveal_strlit("quit");
    assert("show"@[0] != "quit"@[0]);
}

/// Every item of the tray menu sets off a trigger when it is chosen: "show"
/// activates the window and "quit" ends the process. No item falls through.
pub proof fn lemma_every_item_is_dispatched()
    ensures
        spec_tray_menu().len() == 2,
        spec_menu_trigger(spec_tray_menu()[0].id) == Some(Trigger::TrayActivate),
        spec_menu_trigger(spec_tray_menu()[1].id) == Some(Trigger::QuitRequested),
        forall|i: int| 0 <= i < spec_tray_menu().len() ==> spec_tray_menu()[i].enabled,
{
    lemma_action_found_by_id(MenuAction::Show);
    lemma_action_found_by_id(MenuAction::Quit);
}

} // verus!
