//! The panel traits: how the editor's panels exchange state with the
//! remote interpreter.
//!
//! A panel never talks to the channel itself: it pushes the commands it
//! wants sent onto an outbox that the caller drains into the channel, and
//! receives classified responses to react to. The caller's clock is passed
//! in as a tick in milliseconds.

use crate::response::Response;
use vstd::prelude::*;

verus! {

/// A panel's own well-formedness condition, which its operations keep.
pub trait PanelInv {
    spec fn inv(&self) -> bool;
}

/// Keeping a panel's state in step with the remote interpreter.
pub trait StateSync: PanelInv {
    /// One-time setup; may push initial commands onto the outbox.
    fn initialize_state(&mut self, send: &mut Vec<String>)
        requires
            old(self).inv(),
        ensures
            final(self).inv(),
    ;

    /// Book-keeping once per tick.
    fn update_state(&mut self, now_ms: u64)
        requires
            old(self).inv(),
        ensures
            final(self).inv(),
    ;

    /// Pushes the commands that re-request this panel's state.
    fn request_state(&self, send: &mut Vec<String>)
        requires
            self.inv(),
    ;

    /// Pushes the commands that write pending edits back.
    fn write_state(&mut self, now_ms: u64, send: &mut Vec<String>)
        requires
            old(self).inv(),
        ensures
            final(self).inv(),
    ;
}

/// Reacting to classified responses.
pub trait CommandHandler: PanelInv {
    /// Whether this panel wants the response to the named command.
    fn should_handle(&self, command: &str) -> bool
        requires
            self.inv(),
    ;

    /// Consumes one response; an unreadable one is reported as an error
    /// message.
    fn handle(&mut self, response: &Response) -> (r: Result<(), String>)
        requires
            old(self).inv(),
        ensures
            final(self).inv(),
    ;
}

/// A full panel.
pub trait Panel: CommandHandler + StateSync {

}

} // verus!
