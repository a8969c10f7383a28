//! An event bus that fans one event out to registered plugins and gathers
//! one outcome per accepting plugin, in registration order.

pub mod bus;
pub mod event;
pub mod outcome;
pub mod plugin;

pub use event::{Event, EventError, EventResult};
pub use outcome::{collect_outcomes, copy_result, outcome_of, select_accepted, RunReport};
pub use plugin::{EchoPlugin, Plugin};
pub use bus::{EventBus, DEFAULT_TIMEOUT_MS};
