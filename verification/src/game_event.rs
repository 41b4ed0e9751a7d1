use vstd::prelude::*;
use crate::game_error::GameError;
use crate::game_state::GameState;
use crate::game_state::game_state_equiv;
use crate::player::Color;

verus! {

/// What the engine reports after processing one command. Exactly one
/// event is emitted per command, success or failure.
#[derive(Debug)]
pub enum GameEvent {
    NewGameEvent(GameState),
    BoardUpdateEvent(GameState),
    GameWinEvent(Color),
    GameErrorEvent(GameError),
    ExitEvent,
}

/// Two events of the same kind describing the same state.
pub open spec fn game_event_equiv(a: GameEvent, b: GameEvent) -> bool {
    match (a, b) {
        (GameEvent::NewGameEvent(sa), GameEvent::NewGameEvent(sb)) => game_state_equiv(sa, sb),
        (GameEvent::BoardUpdateEvent(sa), GameEvent::BoardUpdateEvent(sb)) => game_state_equiv(
            sa,
            sb,
        ),
        (GameEvent::GameWinEvent(ca), GameEvent::GameWinEvent(cb)) => ca == cb,
        (GameEvent::GameErrorEvent(ea), GameEvent::GameErrorEvent(eb)) => ea == eb,
        (GameEvent::ExitEvent, GameEvent::ExitEvent) => true,
        _ => false,
    }
}

impl Clone for GameEvent {
    /// A deep copy: observers receive clones, never the live state.
    fn clone(&self) -> (r: Self)
        ensures
            game_event_equiv(r, *self),
    {
        match self {
            GameEvent::NewGameEvent(state) => GameEvent::NewGameEvent(state.clone()),
            GameEvent::BoardUpdateEvent(state) => GameEvent::BoardUpdateEvent(state.clone()),
            GameEvent::GameWinEvent(color) => GameEvent::GameWinEvent(*color),
            GameEvent::GameErrorEvent(error) => GameEvent::GameErrorEvent(*error),
            GameEvent::ExitEvent => GameEvent::ExitEvent,
        }
    }
}

} // verus!
