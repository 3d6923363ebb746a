//! The tray controller: the status icon's menu, and the routing of what the
//! user does with it.

use crate::lifecycle::{Event, Orchestrator, Reaction};
use crate::names::{QUIT_ITEM, QUIT_TITLE, TOGGLE_ITEM};
use crate::window::{label_for, toggle_label, WindowVisibility};
use vstd::prelude::*;
use vstd::string::StringExecFns;

verus! {

/// The identifier of the menu item that shows or hides the window.
pub open spec fn toggle_item_id() -> Seq<char> {
    TOGGLE_ITEM@
}

/// The identifier of the menu item that quits.
pub open spec fn quit_item_id() -> Seq<char> {
    QUIT_ITEM@
}

/// One entry of the tray's menu.
#[derive(Debug, PartialEq, Eq)]
pub enum TrayMenuEntry {
    /// An item that the user can click.
    Item { id: String, title: String },
    /// A line between two groups of items.
    Separator,
}

impl TrayMenuEntry {
    /// Whether the entry is an item with this identifier and this title.
    pub open spec fn is_item(self, id: Seq<char>, title: Seq<char>) -> bool {
        self matches TrayMenuEntry::Item { id: own_id, title: own_title } && own_id@ == id
            && own_title@ == title
    }
}

/// The tray's menu as it is shown when the icon is created.
#[derive(Debug, PartialEq, Eq)]
pub struct TrayMenu {
    pub entries: Vec<TrayMenuEntry>,
}

/// Describes the tray's menu as it is when the process starts: the toggle
/// item, a separator, and the quit item. No window exists yet, so the toggle
/// item carries the label that belongs to a window not on screen.
pub fn create_tray() -> (tray: TrayMenu)
    ensures
        tray.entries@.len() == 3,
        tray.entries@[0].is_item(
            toggle_item_id(),
            label_for(WindowVisibility::Hidden).spec_text(),
        ),
        tray.entries@[1] is Separator,
        tray.entries@[2].is_item(quit_item_id(), QUIT_TITLE@),
{
    let toggle = TrayMenuEntry::Item {
        id: String::from_str(TOGGLE_ITEM),
        title: String::from_str(toggle_label(WindowVisibility::Hidden).text()),
    };
    let quit = TrayMenuEntry::Item {
        id: String::from_str(QUIT_ITEM),
        title: String::from_str(QUIT_TITLE),
    };
    let mut entries: Vec<TrayMenuEntry> = Vec::new();
    entries.push(toggle);
    entries.push(TrayMenuEntry::Separator);
    entries.push(quit);
    TrayMenu { entries }
}

/// What the user did with the tray icon.
#[derive(Debug, PartialEq, Eq)]
pub enum TrayEvent {
    /// A click on the icon with the primary button.
    LeftClick,
    /// A click on the menu item with this identifier.
    MenuItemClick { id: String },
    /// Any other gesture.
    Other,
}

/// What a tray event asks the orchestrator for.
#[derive(Clone, Copy, Debug, PartialEq, Eq, Structural)]
pub enum TrayCommand {
    Toggle,
    Quit,
    Ignore,
}

/// The command that belongs to a tray event: a primary click and the toggle
/// item toggle the window, the quit item quits, anything else is ignored.
pub open spec fn routed(event: TrayEvent) -> TrayCommand {
    match event {
        TrayEvent::LeftClick => TrayCommand::Toggle,
        TrayEvent::MenuItemClick { id } => if id@ == quit_item_id() {
            TrayCommand::Quit
        } else if id@ == toggle_item_id() {
            TrayCommand::Toggle
        } else {
            TrayCommand::Ignore
        },
        TrayEvent::Other => TrayCommand::Ignore,
    }
}

/// Finds the command that belongs to a tray event.
pub fn route(event: &TrayEvent) -> (command: TrayCommand)
    ensures
        command == routed(*event),
{
    match event {
        TrayEvent::LeftClick => TrayCommand::Toggle,
        TrayEvent::MenuItemClick { id } => {
            if *id == String::from_str(QUIT_ITEM) {
                TrayCommand::Quit
            } else if *id == String::from_str(TOGGLE_ITEM) {
                TrayCommand::Toggle
            } else {
                TrayCommand::Ignore
            }
        },
        TrayEvent::Other => TrayCommand::Ignore,
    }
}

impl TrayCommand {
    /// The event that the command reports to the orchestrator, if any.
    pub open spec fn event(self) -> Option<Event> {
        match self {
            TrayCommand::Toggle => Some(Event::Toggle),
            TrayCommand::Quit => Some(Event::Quit),
            TrayCommand::Ignore => None,
        }
    }
}

/// Handles a tray event: routes it and has the orchestrator toggle the
/// window or quit. An event that asks for nothing changes nothing.
pub fn on_tray_event(core: &mut Orchestrator, event: &TrayEvent) -> (reaction: Reaction)
    ensures
        match routed(*event).event() {
            Some(reported) => {
                &&& final(core)@ == old(core)@.step(reported).0
                &&& reaction.actions@ == old(core)@.step(reported).1
                &&& reaction.wait is Some <==> old(core)@.starts_wait(reported)
            },
            None => {
                &&& final(core)@ == old(core)@
                &&& reaction.actions@.len() == 0
                &&& reaction.wait is None
            },
        },
{
    match route(event) {
        TrayCommand::Toggle => core.toggle_main_window(),
        TrayCommand::Quit => core.exit(),
        TrayCommand::Ignore => Reaction { actions: Vec::new(), wait: None },
    }
}

} // verus!
