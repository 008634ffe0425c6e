//! Runtime events, reduced to what the watcher reads: a type tag, an action
//! string, and the identifier of the actor.  Only a container's `start`
//! action ever triggers work.

use vstd::prelude::*;
use crate::names::{start_action, start_action_string};

verus! {

/// The type tag of a runtime event.  Only `Container` is handled; every
/// other tag is carried so that filtering on it can be stated.
#[derive(PartialEq, Eq, Structural, Clone, Copy, Debug)]
pub enum EventKind {
    Container,
    Image,
    Network,
    Other,
}

/// One event from the runtime's stream.
pub struct RuntimeEvent {
    pub kind: EventKind,
    pub action: String,
    pub actor_id: Option<String>,
}

/// The container an event asks the watcher to attach: present exactly when
/// the event is a container `start` whose actor carries an identifier.
pub open spec fn spec_event_target(ev: RuntimeEvent) -> Option<Seq<char>> {
    if ev.kind == EventKind::Container && ev.action@ == start_action() && ev.actor_id is Some {
        Some(ev.actor_id.unwrap()@)
    } else {
        None
    }
}

/// The identifier of the container an event starts, if the event is a
/// container `start` carrying one; `None` for every other event shape.
pub fn event_start_target(ev: &RuntimeEvent) -> (r: Option<String>)
    ensures
        r.deep_view() == spec_event_target(*ev),
{
    if ev.kind == EventKind::Container && ev.action == start_action_string() {
        match &ev.actor_id {
            Some(id) => Some(id.clone()),
            None => None,
        }
    } else {
        None
    }
}

} // verus!
