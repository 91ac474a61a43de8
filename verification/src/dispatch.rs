//! One entry point for each callback of the host: decode the event, and if
//! it stands for a trigger, handle it.

use crate::events::{
    spec_tray_trigger, spec_window_trigger, tray_trigger, window_trigger, TrayEvent, WindowEvent,
};
use crate::lifecycle::{step, Controller, Directive, Trigger, Visibility};
use crate::menu::{menu_trigger, spec_menu_trigger};
use vstd::prelude::*;

verus! {

/// What a decoded event does to the window: an event that stands for a
/// trigger takes one step of the lifecycle, and any other event changes
/// nothing and asks nothing of the host.
pub open spec fn react(before: Visibility, trigger: Option<Trigger>) -> (
    Visibility,
    Option<Directive>,
) {
    match trigger {
        Some(trigger) => (step(before, trigger).0, Some(step(before, trigger).1)),
        None => (before, None),
    }
}

impl Controller {
    /// Handles the trigger, if there is one.
    pub fn dispatch(&mut self, trigger: Option<Trigger>) -> (directive: Option<Directive>)
        ensures
            (final(self)@, directive) == react(old(self)@, trigger),
    {
        match trigger {
            Some(trigger) => Some(self.handle(trigger)),
            None => None,
        }
    }

    /// Answers an event on the main window: a close request hides the window
    /// and is vetoed; every other event is left to the host.
    pub fn on_window_event(&mut self, event: WindowEvent) -> (directive: Option<Directive>)
        ensures
            (final(self)@, directive) == react(old(self)@, spec_window_trigger(event)),
    {
        self.dispatch(window_trigger(event))
    }

    /// Answers an event on the tray icon: a click with the left button brings
    /// the window back; every other event is ignored.
    pub fn on_tray_event(&mut self, event: TrayEvent) -> (directive: Option<Directive>)
        ensures
            (final(self)@, directive) == react(old(self)@, spec_tray_trigger(event)),
    {
        self.dispatch(tray_trigger(event))
    }

    /// Answers the choice of the menu item with the given id: "show" brings
    /// the window back and "quit" ends the process; an id of no item of the
    /// tray menu is ignored.
    pub fn on_menu_event(&mut self, id: &str) -> (directive: Option<Directive>)
        ensures
            (final(self)@, directive) == react(old(self)@, spec_menu_trigger(id@)),
    {
        self.dispatch(menu_trigger(id))
    }
}

} // verus!
