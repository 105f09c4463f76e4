//! The decisions of the event poll loops: a subscriber polls the bus
//! again and again until an event matches, or until polling fails.

use vstd::prelude::*;

use crate::event_bus::EventBusError;

verus! {

/// Whether a single polled event matches: there must be an event, and the
/// matcher must accept it.
pub fn event_matches<T, F: Fn(&T) -> bool>(event: &Option<T>, matcher: &F) -> (m: bool)
    requires
        forall|t: &T| #[trigger] matcher.requires((t,)),
    ensures
        match event {
            Some(ev) => matcher.ensures((ev,), m),
            None => !m,
        },
{
    match event {
        Some(ev) => matcher(ev),
        None => false,
    }
}

/// Whether a batch of polled events matches: the matcher is tried on the
/// events in order, and the batch matches as soon as one is accepted.
pub fn any_event_matches<T, F: Fn(&T) -> bool>(events: &Vec<T>, matcher: &F) -> (m: bool)
    requires
        forall|t: &T| #[trigger] matcher.requires((t,)),
    ensures
        m ==> exists|i: int| 0 <= i < events@.len() && matcher.ensures((&events@[i],), true),
        !m ==> forall|i: int| 0 <= i < events@.len() ==> matcher.ensures((&events@[i],), false),
{
    let mut i: usize = 0;
    while i < events.len()
        invariant
            0 <= i <= events@.len(),
            forall|t: &T| #[trigger] matcher.requires((t,)),
            forall|j: int| 0 <= j < i ==> matcher.ensures((&events@[j],), false),
        decreases events@.len() - i,
    {
        let hit = matcher(&events[i]);
        if hit {
            return true;
        }
        i = i + 1;
    }
    false
}

/// Whether a poll loop stops after one poll: it stops when the poll
/// failed, and when the handler accepts what was polled.
pub fn poll_loop_stops<O, H: Fn(&O) -> bool>(
    outcome: &Result<O, EventBusError>,
    handler: &H,
) -> (stop: bool)
    requires
        forall|o: &O| #[trigger] handler.requires((o,)),
    ensures
        match outcome {
            Ok(o) => handler.ensures((o,), stop),
            Err(_) => stop,
        },
{
    match outcome {
        Ok(o) => handler(o),
        Err(_) => true,
    }
}

} // verus!
