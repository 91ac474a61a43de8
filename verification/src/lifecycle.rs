//! The window's lifecycle: its visibility, the triggers that change it, and
//! the calls the host makes in answer.
//!
//! The controller never touches the window. It records the visibility it has
//! asked for and hands the host a [`Directive`]; the host carries the
//! directive out, call by call, and reports how each window call went (see
//! [`crate::failure`]).

use vstd::prelude::*;

verus! {

/// Exit code with which the process ends when the user quits.
pub const EXIT_CODE: i32 = 0;

/// Whether the main window is on screen.
#[derive(Clone, Copy, Debug, PartialEq, Eq, Structural)]
pub enum Visibility {
    Shown,
    Hidden,
}

/// What the user did, once the host event behind it has been decoded.
#[derive(Clone, Copy, Debug, PartialEq, Eq, Structural)]
pub enum Trigger {
    /// The native close control of the window was used.
    CloseRequested,
    /// The tray icon was left-clicked, or the "show" menu item was chosen.
    TrayActivate,
    /// The "quit" menu item was chosen, or the quit command was invoked.
    QuitRequested,
}

/// One call into the host framework.
#[derive(Clone, Copy, Debug, PartialEq, Eq, Structural)]
pub enum HostCall {
    /// Take the window off the screen.
    HideWindow,
    /// Put the window on the screen.
    ShowWindow,
    /// Give the window input focus.
    FocusWindow,
    /// Veto the close that is pending on the window.
    PreventClose,
    /// End the process with the given exit code.
    Exit(i32),
}

/// What the host has to do in answer to a trigger or an operation.
#[derive(Clone, Copy, Debug, PartialEq, Eq, Structural)]
pub enum Directive {
    /// Hide the window; with `veto_close`, also keep the pending close from
    /// destroying it.
    Hide { veto_close: bool },
    /// Show the window and give it input focus.
    ShowAndFocus,
    /// End the process. No trigger is handled after this.
    Exit { code: i32 },
}

/// The visibility once the window has been hidden. Hiding a hidden window
/// changes nothing.
pub open spec fn after_hide(before: Visibility) -> Visibility {
    Visibility::Hidden
}

/// The visibility once the window has been shown. Showing a shown window
/// changes nothing.
pub open spec fn after_show(before: Visibility) -> Visibility {
    Visibility::Shown
}

/// One step of the lifecycle: the visibility that follows `before` when
/// `trigger` is handled, and the directive that answers the trigger.
///
/// A close request hides the window and is vetoed, also when the window is
/// hidden already. A tray activation shows and focuses the window. A quit
/// request ends the process and leaves the window as it is.
pub open spec fn step(before: Visibility, trigger: Trigger) -> (Visibility, Directive) {
    match trigger {
        Trigger::CloseRequested => (after_hide(before), Directive::Hide { veto_close: true }),
        Trigger::TrayActivate => (after_show(before), Directive::ShowAndFocus),
        Trigger::QuitRequested => (before, Directive::Exit { code: EXIT_CODE }),
    }
}

impl Directive {
    /// The host calls that carry the directive out, in the order in which
    /// they are made: the window is hidden before the close is vetoed, and
    /// shown before it is focused.
    pub open spec fn spec_calls(self) -> Seq<HostCall> {
        match self {
            Directive::Hide { veto_close } => if veto_close {
                seq![HostCall::HideWindow, HostCall::PreventClose]
            } else {
                seq![HostCall::HideWindow]
            },
            Directive::ShowAndFocus => seq![HostCall::ShowWindow, HostCall::FocusWindow],
            Directive::Exit { code } => seq![HostCall::Exit(code)],
        }
    }

    /// Lists the host calls that carry the directive out, in order.
    pub fn calls(self) -> (calls: Vec<HostCall>)
        ensures
            calls@ == self.spec_calls(),
    {
        let mut calls: Vec<HostCall> = Vec::new();
        match self {
            Directive::Hide { veto_close } => {
                calls.push(HostCall::HideWindow);
                if veto_close {
                    calls.push(HostCall::PreventClose);
                }
            },
            Directive::ShowAndFocus => {
                calls.push(HostCall::ShowWindow);
                calls.push(HostCall::FocusWindow);
            },
            Directive::Exit { code } => {
                calls.push(HostCall::Exit(code));
            },
        }
        calls
    }
}

/// Keeps the visibility that was last asked of the window. This is the only
/// state of the shell. The host runs its callbacks one after another, so the
/// controller needs no locking of its own.
#[derive(Clone, Copy, Debug)]
pub struct Controller {
    visibility: Visibility,
}

impl View for Controller {
    type V = Visibility;

    closed spec fn view(&self) -> Visibility {
        self.visibility
    }
}

impl Controller {
    /// A controller for a window that has just been created: it is shown.
    pub fn new() -> (controller: Controller)
        ensures
            controller@ == Visibility::Shown,
    {
        Controller { visibility: Visibility::Shown }
    }

    /// The visibility last asked of the window.
    pub fn visibility(&self) -> (visibility: Visibility)
        ensures
            visibility == self@,
    {
        self.visibility
    }

    /// Asks for the window to be hidden. No close is pending, so none is
    /// vetoed. Hiding a hidden window changes nothing.
    pub fn hide_window(&mut self) -> (directive: Directive)
        ensures
            final(self)@ == after_hide(old(self)@),
            directive == (Directive::Hide { veto_close: false }),
    {
        self.visibility = Visibility::Hidden;
        Directive::Hide { veto_close: false }
    }

    /// Asks for the window to be shown and focused.
    pub fn show_and_focus(&mut self) -> (directive: Directive)
        ensures
            final(self)@ == after_show(old(self)@),
            directive == Directive::ShowAndFocus,
    {
        self.visibility = Visibility::Shown;
        Directive::ShowAndFocus
    }

    /// Asks for the process to end at once, with [`EXIT_CODE`]. The window is
    /// left as it is.
    pub fn quit(&self) -> (directive: Directive)
        ensures
            directive == (Directive::Exit { code: EXIT_CODE }),
    {
        Directive::Exit { code: EXIT_CODE }
    }

    /// Handles one trigger: moves to the next visibility and tells the host
    /// what to do.
    pub fn handle(&mut self, trigger: Trigger) -> (directive: Directive)
        ensures
            (final(self)@, directive) == step(old(self)@, trigger),
    {
        match trigger {
            Trigger::CloseRequested => {
                self.hide_window();
                Directive::Hide { veto_close: true }
            },
            Trigger::TrayActivate => self.show_and_focus(),
            Trigger::QuitRequested => self.quit(),
        }
    }
}

impl Default for Controller {
    fn default() -> (controller: Controller)
        ensures
            controller@ == Visibility::Shown,
    {
        Controller::new()
    }
}

} // verus!
