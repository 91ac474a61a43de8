//! Host events, reduced to what the shell reads of them, and the triggers
//! they stand for.

use crate::lifecycle::Trigger;
use vstd::prelude::*;

verus! {

/// Label of the window that the tray brings back.
pub const MAIN_WINDOW_LABEL: &'static str = "main";

/// Whether a left click on the tray icon opens the tray menu. It does not:
/// a left click brings the window back, and the menu is left to the other
/// button.
pub const SHOW_MENU_ON_LEFT_CLICK: bool = false;

/// The mouse button behind a tray event.
#[derive(Clone, Copy, Debug, PartialEq, Eq, Structural)]
pub enum MouseButton {
    Left,
    Right,
    Middle,
}

/// Whether the button went down or came up.
#[derive(Clone, Copy, Debug, PartialEq, Eq, Structural)]
pub enum MouseButtonState {
    Up,
    Down,
}

/// An event on the tray icon.
#[derive(Clone, Copy, Debug, PartialEq, Eq, Structural)]
pub enum TrayEvent {
    /// A click on the icon.
    Click { button: MouseButton, state: MouseButtonState },
    /// A double click on the icon.
    DoubleClick { button: MouseButton },
    /// The pointer entered the icon.
    Enter,
    /// The pointer moved over the icon.
    Move,
    /// The pointer left the icon.
    Leave,
}

/// An event on the main window.
#[derive(Clone, Copy, Debug, PartialEq, Eq, Structural)]
pub enum WindowEvent {
    Resized,
    Moved,
    /// The user asked for the window to be closed.
    CloseRequested,
    Destroyed,
    Focused,
    ScaleFactorChanged,
    DragDrop,
    ThemeChanged,
}

/// The trigger behind a tray event: a click with the left button activates,
/// whether the button went down or came up; nothing else does anything.
pub open spec fn spec_tray_trigger(event: TrayEvent) -> Option<Trigger> {
    match event {
        TrayEvent::Click { button: MouseButton::Left, .. } => Some(Trigger::TrayActivate),
        _ => None,
    }
}

/// The trigger behind a window event: only a close request is one.
pub open spec fn spec_window_trigger(event: WindowEvent) -> Option<Trigger> {
    match event {
        WindowEvent::CloseRequested => Some(Trigger::CloseRequested),
        _ => None,
    }
}

/// Decodes a tray event.
pub fn tray_trigger(event: TrayEvent) -> (trigger: Option<Trigger>)
    ensures
        trigger == spec_tray_trigger(event),
{
    match event {
        TrayEvent::Click { button, state: _ } => match button {
            MouseButton::Left => Some(Trigger::TrayActivate),
            MouseButton::Right | MouseButton::Middle => None,
        },
        TrayEvent::DoubleClick { .. } | TrayEvent::Enter | TrayEvent::Move | TrayEvent::Leave => None,
    }
}

/// Decodes a window event.
pub fn window_trigger(event: WindowEvent) -> (trigger: Option<Trigger>)
    ensures
        trigger == spec_window_trigger(event),
{
    match event {
        WindowEvent::CloseRequested => Some(Trigger::CloseRequested),
        WindowEvent::Resized
        | WindowEvent::Moved
        | WindowEvent::Destroyed
        | WindowEvent::Focused
        | WindowEvent::ScaleFactorChanged
        | WindowEvent::DragDrop
        | WindowEvent::ThemeChanged => None,
    }
}

} // verus!
