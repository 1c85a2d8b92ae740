//! Per-message display state kept by the foreground: whether a message
//! is collapsed in the transcript view.

use vstd::prelude::*;

verus! {

/// Stores the open or collapsed state of one displayed message.
#[derive(Clone, Copy, Debug, PartialEq, Eq, Structural, Default)]
pub struct MessageState {
    pub collapse: bool,
}

impl MessageState {
    /// Shows the message in full.
    pub fn open(&mut self)
        ensures
            !final(self).collapse,
    {
        self.collapse = false;
    }

    /// Collapses the message.
    pub fn close(&mut self)
        ensures
            final(self).collapse,
    {
        self.collapse = true;
    }

    /// Flips between the two states.
    pub fn toggle(&mut self)
        ensures
            final(self).collapse == !old(self).collapse,
    {
        self.collapse = !self.collapse;
    }
}

} // verus!
