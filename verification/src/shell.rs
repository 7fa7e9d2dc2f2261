//! How the application's windows react: the settings window, the login
//! popup and the labels they are known by.
use vstd::prelude::*;
use crate::text::same_text;

verus! {

/// The label of the timeline window.
pub const MAIN_WINDOW_LABEL: &'static str = "main";

/// The label of the timeline settings window.
pub const SETTINGS_WINDOW_LABEL: &'static str = "timeline-settings";

/// The label of the Discord login popup.
pub const LOGIN_WINDOW_LABEL: &'static str = "discord-login";

/// The label of the version-history window.
pub const VERSION_HISTORY_WINDOW_LABEL: &'static str = "version-history";

/// The events of a window that the application reacts to.
#[derive(Clone, Copy, PartialEq, Eq, Structural)]
pub enum WindowEventKind {
    CloseRequested,
    Destroyed,
    Other,
}

/// What to do about a window event.
#[derive(Clone, Copy, PartialEq, Eq, Structural)]
pub enum WindowEventAction {
    /// Keep the window from closing, hide it, and after a pause destroy it
    /// and reload the timeline, so that changed settings show.
    HideThenDestroyAndReload,
    /// Reload the timeline, so that a finished login shows.
    ReloadMain,
    Nothing,
}

/// Closing the settings window hides it first and reloads the timeline after
/// a pause; the end of the login popup reloads the timeline.
pub open spec fn window_event_action_spec(label: Seq<char>, event: WindowEventKind) -> WindowEventAction {
    if label == SETTINGS_WINDOW_LABEL@ && event == WindowEventKind::CloseRequested {
        WindowEventAction::HideThenDestroyAndReload
    } else if label == LOGIN_WINDOW_LABEL@ && event == WindowEventKind::Destroyed {
        WindowEventAction::ReloadMain
    } else {
        WindowEventAction::Nothing
    }
}

pub fn window_event_action(label: &str, event: WindowEventKind) -> (r: WindowEventAction)
    ensures
        r == window_event_action_spec(label@, event),
{
    if same_text(label, SETTINGS_WINDOW_LABEL) && event == WindowEventKind::CloseRequested {
        WindowEventAction::HideThenDestroyAndReload
    } else if same_text(label, LOGIN_WINDOW_LABEL) && event == WindowEventKind::Destroyed {
        WindowEventAction::ReloadMain
    } else {
        WindowEventAction::Nothing
    }
}

/// What to do when a window is asked for that may already be open.
#[derive(Clone, Copy, PartialEq, Eq, Structural)]
pub enum OpenWindowAction {
    /// Create the window.
    Create,
    /// Show the existing window and give it the focus.
    ShowAndFocus,
    /// Give the existing window the focus.
    Focus,
    /// Leave the existing window alone.
    Nothing,
}

/// The login popup is created when it does not exist, and otherwise shown
/// and focused.
pub fn login_window_action(exists: bool) -> (r: OpenWindowAction)
    ensures
        r == (if exists {
            OpenWindowAction::ShowAndFocus
        } else {
            OpenWindowAction::Create
        }),
{
    if exists {
        OpenWindowAction::ShowAndFocus
    } else {
        OpenWindowAction::Create
    }
}

/// The settings window is created when it does not exist; an existing one is
/// focused only while it is visible (a hidden one is about to be destroyed).
pub fn settings_window_action(exists: bool, visible: bool) -> (r: OpenWindowAction)
    ensures
        r == (if !exists {
            OpenWindowAction::Create
        } else if visible {
            OpenWindowAction::Focus
        } else {
            OpenWindowAction::Nothing
        }),
{
    if !exists {
        OpenWindowAction::Create
    } else if visible {
        OpenWindowAction::Focus
    } else {
        OpenWindowAction::Nothing
    }
}

/// A settings change reloads the timeline only when no later change arrived
/// during the pause.
pub fn refresh_is_current(generation: u64, latest_generation: u64) -> (r: bool)
    ensures
        r == (generation == latest_generation),
{
    generation == latest_generation
}

} // verus!
