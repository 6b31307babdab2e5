//! Window-chrome emulation for a frameless window.
//!
//! The window has no OS title bar, so the whole client area acts as a drag
//! handle: on a pointer-down transition the shell asks the host windowing
//! system for one interactive move session and then stands back. The only
//! state this side keeps is whether the pointer was already down on the
//! previous frame, so that a held button raises exactly one request.

use vstd::prelude::*;

verus! {

/// Per-frame pointer observation state of the drag handshake.
pub struct DragTracker {
    /// Whether the pointer button was observed down on the previous frame.
    pub pointer_was_down: bool,
}

/// The tracker state after observing one frame with pointer state `down`.
pub open spec fn drag_step(s: DragTracker, down: bool) -> DragTracker {
    DragTracker { pointer_was_down: down }
}

/// Whether observing pointer state `down` from state `s` raises a
/// begin-interactive-move request: only on a down transition.
pub open spec fn drag_begins(s: DragTracker, down: bool) -> bool {
    down && !s.pointer_was_down
}

impl DragTracker {
    /// A fresh tracker: no pointer press has been observed yet.
    pub fn new() -> (s: Self)
        ensures
            !s.pointer_was_down,
    {
        DragTracker { pointer_was_down: false }
    }

    /// Observes the pointer-button state of one frame. Returns whether the
    /// shell must request an interactive move session from the host.
    pub fn observe(&mut self, down: bool) -> (begin_move: bool)
        ensures
            begin_move == drag_begins(*old(self), down),
            *final(self) == drag_step(*old(self), down),
    {
        let begin_move = down && !self.pointer_was_down;
        self.pointer_was_down = down;
        begin_move
    }
}

/// Law: a down transition raises exactly one request. From any state, a
/// pointer press raises a request only if the button was not already down,
/// and a second observation of the still-held button raises none.
pub proof fn lemma_drag_single_request(s: DragTracker)
    ensures
        drag_begins(s, true) == !s.pointer_was_down,
        !drag_begins(drag_step(s, true), true),
        !drag_begins(s, false),
{
}

/// Law: releasing the button re-arms the tracker: after any frame with the
/// button up, the next press raises a request again.
pub proof fn lemma_drag_rearm(s: DragTracker)
    ensures
        drag_begins(drag_step(s, false), true),
{
}

} // verus!
