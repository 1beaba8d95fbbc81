//! What the interface asks of the application after an input event.
use vstd::prelude::*;

verus! {

/// The application's next step after a key or mouse event.
pub enum UiAction {
    /// The user pressed Enter on this text.
    Submit(String),
    /// The user pressed Ctrl+C or Ctrl+Q.
    Quit,
    /// The event was handled by the interface; nothing for the application
    /// to do.
    Consumed,
}

pub enum UiActionView {
    Submit(Seq<char>),
    Quit,
    Consumed,
}

impl View for UiAction {
    type V = UiActionView;

    open spec fn view(&self) -> UiActionView {
        match self {
            UiAction::Submit(s) => UiActionView::Submit(s@),
            UiAction::Quit => UiActionView::Quit,
            UiAction::Consumed => UiActionView::Consumed,
        }
    }
}

} // verus!
