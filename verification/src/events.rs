//! Events the host runtime delivers and actions the core asks it to perform.

use vstd::prelude::*;

verus! {

/// The window titles the application ever sets.
///
/// The controller only knows two labels: the application label set when the
/// window is created, and the label shown while the cursor is hidden.
#[derive(Clone, Copy, Debug, PartialEq, Eq, Structural)]
pub enum Title {
    /// The fixed application label, set right after window creation.
    AppLabel,
    /// The label set when keyboard input hides the cursor.
    HiddenLabel,
}

impl Title {
    /// The character sequence of the label.
    pub open spec fn chars(self) -> Seq<char> {
        match self {
            Title::AppLabel => "Learning WPU"@,
            Title::HiddenLabel => "Mouse hidden"@,
        }
    }

    /// The label as an owned string, for the host to hand to the window.
    pub fn text(&self) -> (r: String)
        ensures
            r@ == self.chars(),
    {
        match self {
            Title::AppLabel => String::from_str("Learning WPU"),
            Title::HiddenLabel => String::from_str("Mouse hidden"),
        }
    }
}

/// A window event as the core sees it: plain values only.
///
/// The host translates its own event type into this one; `text` carries the
/// characters a keyboard event produced (empty when it produced none).
#[derive(Debug, PartialEq, Eq)]
pub enum Event {
    /// The user asked to close the window.
    CloseRequested,
    /// The window was resized to the given physical pixel dimensions.
    Resized { width: u32, height: u32 },
    /// The host asks for a frame to be drawn.
    RedrawRequested,
    /// The cursor left the window (diagnostic only).
    CursorLeft,
    /// Keyboard input that produced the given text.
    Keyboard { text: String },
    /// Any other event kind; the core ignores it.
    Other,
}

/// An action the host must perform after a lifecycle callback.
#[derive(Clone, Copy, Debug, PartialEq, Eq, Structural)]
pub enum Action {
    /// Signal the host event loop to terminate.
    Exit,
    /// The holder reports a resize to the given dimensions (diagnostic; a
    /// complete implementation would reconfigure the surface here).
    Resize { width: u32, height: u32 },
    /// The holder reports one drawing pass (diagnostic).
    Draw,
    /// Set the cursor visibility of the owned window.
    SetCursorVisible { visible: bool },
    /// Set the title of the owned window.
    SetTitle { title: Title },
}

} // verus!
