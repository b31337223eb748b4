//! Event handling: the kinds of events, the events themselves, and the
//! raw 56-byte event records in which the event queue stores them.

pub mod event;
pub mod event_type;
pub mod keys;
pub mod laws;
pub mod queue;
pub mod raw;
pub mod record_laws;
pub mod text;
pub mod window_event;

pub use event::Event;
pub use event_type::EventType;
pub use window_event::WindowEventId;
