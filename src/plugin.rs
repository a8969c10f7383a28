use vstd::prelude::*;

use crate::event::{Event, EventError, EventResult};

verus! {

/// A unit that receives the events it accepts.
///
/// A plugin states the name it goes by. What it accepts and how it handles
/// an event are its own affair, so callers learn nothing of those results
/// beyond their types.
pub trait Plugin: Send + Sync {
    /// The name this plugin goes by. A verified plugin states it; for one
    /// that does not, nothing is known of it.
    closed spec fn spec_name(&self) -> Seq<char> {
        arbitrary()
    }

    /// A name for diagnostics and listing; names need not be unique.
    fn name(&self) -> (r: &str)
        ensures
            r@ == self.spec_name(),
    ;

    /// Whether this plugin wants the event. By default it takes every event.
    fn accepts(&self, event: &Event) -> (r: bool)
        default_ensures
            r,
    {
        true
    }

    /// Handles the event at once. A plugin that gives no handler fails
    /// every event with the error of `EventError::not_implemented`.
    fn handle_sync(&self, event: &Event) -> (r: EventResult)
        default_ensures
            r is Err && r->Err_0.message@ == "Sync handler not implemented"@,
    {
        Err(EventError::not_implemented())
    }
}

/// The plugin that takes only events named "echo" and answers them with success.
pub struct EchoPlugin;

/// The message of the failure that `EchoPlugin` reports for any other event.
pub open spec fn echo_refusal_text() -> Seq<char> {
    "Echo plugin received unexpected event"@
}

impl Plugin for EchoPlugin {
    open spec fn spec_name(&self) -> Seq<char> {
        "echo"@
    }

    fn name(&self) -> (r: &str) {
        "echo"
    }

    fn accepts(&self, event: &Event) -> (r: bool)
        ensures
            r == (event.name@ == "echo"@),
    {
        event.is_named("echo")
    }

    fn handle_sync(&self, event: &Event) -> (r: EventResult)
        ensures
            event.name@ == "echo"@ ==> r is Ok,
            event.name@ != "echo"@ ==> r is Err && r->Err_0.message@ == echo_refusal_text(),
    {
        if event.is_named("echo") {
            Ok(())
        } else {
            Err(EventError::new(String::from_str("Echo plugin received unexpected event")))
        }
    }
}

} // verus!
