//! The names that the backend and the presentation layer agree on.

use vstd::prelude::*;

verus! {

/// The label of the main window.
pub const MAIN_WINDOW: &'static str = "main";

/// The page that a window built on demand loads.
pub const MAIN_WINDOW_PAGE: &'static str = "index.html";

/// The title of a window built on demand.
pub const MAIN_WINDOW_TITLE: &'static str = "Transmission Remote GUI";

/// The event that asks a window's presentation layer to get ready for its end.
pub const EXIT_REQUESTED: &'static str = "exit-requested";

/// The event by which the presentation layer says that it is ready.
pub const FRONTEND_DONE: &'static str = "frontend-done";

/// The global signal that asks for the listener to be started again.
pub const LISTENER_START: &'static str = "listener-start";

/// The identifier of the tray item that shows or hides the window.
pub const TOGGLE_ITEM: &'static str = "showhide";

/// The identifier of the tray item that quits.
pub const QUIT_ITEM: &'static str = "quit";

/// The title of the tray item that quits.
pub const QUIT_TITLE: &'static str = "Quit";

} // verus!
