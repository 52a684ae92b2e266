use vstd::prelude::*;
use crate::event::Event;

pub mod input;

verus! {

/// Something that follows the events of an event thread.
///
/// Reacting is a filter: an event that does not concern the implementor
/// leaves it unchanged, and no event is an error.
pub trait React {
    fn react(&mut self, event: &Event);
}

} // verus!
