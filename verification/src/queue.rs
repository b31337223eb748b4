//! The decisions around the event queue: what is pushed onto it, and what
//! a registration of user events answers.

use vstd::prelude::*;

use crate::event::{Event, spec_to_ll};

verus! {

/// The message with which pushing an event that has no raw record fails.
pub open spec fn spec_unsupported_push_message() -> Seq<char> {
    "Unsupport event type to push back to queue."@
}

/// The raw record to push onto the queue for `event`; only user events
/// have one, and every other event is refused with a message.
pub fn push_event_record(event: &Event) -> (r: Result<Vec<u8>, String>)
    ensures
        match spec_to_ll(event@) {
            Some(b) => r matches Ok(v) && v@ == b,
            None => r matches Err(m) && m@ == spec_unsupported_push_message(),
        },
{
    match event.to_ll() {
        Some(raw) => Ok(raw),
        None => Err("Unsupport event type to push back to queue.".to_owned()),
    }
}

/// What a registration of user events answers, given the number that the
/// queue returned: the first of the new event numbers, or nothing where
/// the queue returned the all-ones error value.
pub fn register_events_result(first: u32) -> (r: Option<u32>)
    ensures
        r == (if first == u32::MAX {
            None
        } else {
            Some(first)
        }),
{
    if first == u32::MAX {
        None
    } else {
        Some(first)
    }
}

} // verus!
