use vstd::prelude::*;
use crate::game_event::GameEvent;

verus! {

/// The single capability an observer exposes: receive one event. The
/// engine calls it once per emitted event, in subscription order, always
/// with a deep copy of the event.
pub trait Listener {
    fn notify(&self, game_event: GameEvent);
}

} // verus!
