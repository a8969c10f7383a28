use vstd::prelude::*;

verus! {

/// A named event with a string payload, shared read-only by every plugin.
#[derive(Clone, Debug)]
pub struct Event {
    pub name: String,
    pub payload: String,
}

impl Event {
    /// Builds an event; any strings, the empty one included, are accepted.
    pub fn new(name: String, payload: String) -> (r: Event)
        ensures
            r.name@ == name@,
            r.payload@ == payload@,
    {
        Event { name, payload }
    }

    /// Whether the event carries exactly this name.
    pub fn is_named(&self, name: &str) -> (r: bool)
        ensures
            r == (self.name@ == name@),
    {
        self.name == String::from_str(name)
    }
}

impl PartialEq for Event {
    fn eq(&self, other: &Event) -> (r: bool) {
        self.name == other.name && self.payload == other.payload
    }
}

impl vstd::std_specs::cmp::PartialEqSpecImpl for Event {
    open spec fn obeys_eq_spec() -> bool {
        true
    }

    open spec fn eq_spec(&self, other: &Event) -> bool {
        self.name@ == other.name@ && self.payload@ == other.payload@
    }
}

impl Eq for Event {
}

/// A failure reported for one plugin.
#[derive(Clone, Debug)]
pub struct EventError {
    pub message: String,
}

impl PartialEq for EventError {
    fn eq(&self, other: &EventError) -> (r: bool) {
        self.message == other.message
    }
}

impl vstd::std_specs::cmp::PartialEqSpecImpl for EventError {
    open spec fn obeys_eq_spec() -> bool {
        true
    }

    open spec fn eq_spec(&self, other: &EventError) -> bool {
        self.message@ == other.message@
    }
}

impl Eq for EventError {
}

/// What one plugin's run produced: success carries nothing.
pub type EventResult = Result<(), EventError>;

impl EventError {
    pub fn new(message: String) -> (r: EventError)
        ensures
            r.message@ == message@,
    {
        EventError { message }
    }

    /// The failure of a plugin that gives no handler of its own.
    pub fn not_implemented() -> (r: EventError)
        ensures
            r.message@ == "Sync handler not implemented"@,
    {
        EventError::new(String::from_str("Sync handler not implemented"))
    }

    /// The text shown for this error: its message.
    pub fn to_string(&self) -> (r: String)
        ensures
            r@ == self.message@,
    {
        self.message.clone()
    }
}

} // verus!
