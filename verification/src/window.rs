//! Visibility of the main window and the label of the tray's toggle item.

use vstd::prelude::*;

verus! {

/// Where the main window stands.
#[derive(Clone, Copy, Debug, PartialEq, Eq, Structural)]
pub enum WindowVisibility {
    /// A window object exists and has not been shown yet.
    Created,
    /// A window object exists and is on screen.
    Visible,
    /// No window object exists: none was built yet, or the last one was
    /// destroyed. One is built on demand.
    Hidden,
    /// The window is gone for good.
    Closed,
}

/// The label of the tray's single toggle item. It names the next action on offer.
#[derive(Clone, Copy, Debug, PartialEq, Eq, Structural)]
pub enum ToggleLabel {
    Hide,
    Show,
}

/// The label that belongs to a visibility: `Hide` exactly when a window is on screen.
pub open spec fn label_for(visibility: WindowVisibility) -> ToggleLabel {
    if visibility == WindowVisibility::Visible {
        ToggleLabel::Hide
    } else {
        ToggleLabel::Show
    }
}

/// Computes the toggle item's label from the window's visibility.
pub fn toggle_label(visibility: WindowVisibility) -> (label: ToggleLabel)
    ensures
        label == label_for(visibility),
{
    match visibility {
        WindowVisibility::Visible => ToggleLabel::Hide,
        _ => ToggleLabel::Show,
    }
}

impl ToggleLabel {
    /// The characters that the label shows.
    pub open spec fn spec_text(self) -> Seq<char> {
        match self {
            ToggleLabel::Hide => "Hide"@,
            ToggleLabel::Show => "Show"@,
        }
    }

    /// The text to put on the tray's toggle item.
    pub fn text(&self) -> (text: &'static str)
        ensures
            text@ == self.spec_text(),
    {
        match self {
            ToggleLabel::Hide => "Hide",
            ToggleLabel::Show => "Show",
        }
    }
}

} // verus!
