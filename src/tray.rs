//! Decisions behind the tray menu.

use vstd::prelude::*;

verus! {

/// A tray menu entry the user picked.
#[derive(Clone, Copy, Debug, PartialEq, Eq, Structural)]
pub enum TrayMenuEvent {
    Quit,
    ToggleWindow,
}

/// What the UI loop is asked to do.
#[derive(Clone, Copy, Debug, PartialEq, Eq, Structural)]
pub enum WindowCommand {
    /// Shut everything down.
    Shutdown,
    /// Flip the overlay UI of the fullscreen window.
    ToggleUi,
    ShowWindow,
    HideWindow,
}

/// The outcome of a menu pick: the command, and whether the window is
/// visible afterwards.
#[derive(Clone, Copy, Debug, PartialEq, Eq, Structural)]
pub struct TrayOutcome {
    pub command: WindowCommand,
    pub window_visible: bool,
}

/// Text of the show/hide entry: about the overlay UI when fullscreen,
/// about the window otherwise.
pub fn toggle_label(fullscreen: bool, ui_visible: bool, window_visible: bool) -> (r: &'static str)
    ensures
        fullscreen && ui_visible ==> r@ == "Hide UI"@,
        fullscreen && !ui_visible ==> r@ == "Show UI"@,
        !fullscreen && window_visible ==> r@ == "Hide Window"@,
        !fullscreen && !window_visible ==> r@ == "Show Window"@,
{
    if fullscreen {
        if ui_visible {
            "Hide UI"
        } else {
            "Show UI"
        }
    } else if window_visible {
        "Hide Window"
    } else {
        "Show Window"
    }
}

/// Handles a menu pick. Quit shuts down. Toggle flips the overlay UI when
/// fullscreen; otherwise it flips the window's visibility and shows or
/// hides it accordingly.
pub fn handle_menu_event(event: TrayMenuEvent, fullscreen: bool, window_visible: bool) -> (r:
    TrayOutcome)
    ensures
        event == TrayMenuEvent::Quit ==> r == (TrayOutcome {
            command: WindowCommand::Shutdown,
            window_visible,
        }),
        event == TrayMenuEvent::ToggleWindow && fullscreen ==> r == (TrayOutcome {
            command: WindowCommand::ToggleUi,
            window_visible,
        }),
        event == TrayMenuEvent::ToggleWindow && !fullscreen ==> r == (TrayOutcome {
            command: if window_visible {
                WindowCommand::HideWindow
            } else {
                WindowCommand::ShowWindow
            },
            window_visible: !window_visible,
        }),
{
    match event {
        TrayMenuEvent::Quit => TrayOutcome { command: WindowCommand::Shutdown, window_visible },
        TrayMenuEvent::ToggleWindow => {
            if fullscreen {
                TrayOutcome { command: WindowCommand::ToggleUi, window_visible }
            } else {
                let visible = !window_visible;
                TrayOutcome {
                    command: if visible {
                        WindowCommand::ShowWindow
                    } else {
                        WindowCommand::HideWindow
                    },
                    window_visible: visible,
                }
            }
        },
    }
}

} // verus!
