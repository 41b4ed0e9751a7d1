use vstd::prelude::*;
use crate::game_command::GameCommand;
use crate::game_command::command_wf;
use crate::game_error::GameError;
use crate::game_event::GameEvent;
use crate::board::boards_cells_equal;
use crate::game_instance::GameInstance;
use crate::game_instance::game_state_matches;
use crate::game_instance::move_error;
use crate::game_instance::move_ok;
use crate::game_instance::put_error;
use crate::game_instance::put_ok;
use crate::game_state::GameState;
use crate::listener::Listener;

verus! {

/// The top-level dispatcher: owns the running game, if any, and fans
/// every emitted event out to the subscribed observers.
pub struct Game<L: Listener> {
    game_instance: Option<GameInstance>,
    listeners: Vec<L>,
}

impl<L: Listener> Game<L> {
    /// The running game, if one was started.
    pub closed spec fn instance(self) -> Option<GameInstance> {
        self.game_instance
    }

    /// The subscribed observers, in subscription order.
    pub closed spec fn listeners_seq(self) -> Seq<L> {
        self.listeners@
    }

    /// The running game, if any, is well formed.
    pub open spec fn wf(self) -> bool {
        match self.instance() {
            Some(g) => g.wf(),
            None => true,
        }
    }

    /// The turn counter of the running game, if any, can still advance.
    pub open spec fn turn_in_range(self) -> bool {
        match self.instance() {
            Some(g) => g.turn < u32::MAX,
            None => true,
        }
    }
}

/// The event that one command produces, and how the game changes with it:
/// starting a game installs a fresh instance and reports its snapshot; a
/// piece command without a running game is rejected; a piece command on a
/// running game follows the put or move outcome of the instance and
/// reports the new snapshot, the winner once a line is full, or the exact
/// error; exit changes nothing.
pub open spec fn step_outcome<L: Listener>(
    pre: Game<L>,
    post: Game<L>,
    cmd: GameCommand,
    ev: GameEvent,
) -> bool {
    match cmd {
        GameCommand::NewGameCommand => {
            &&& post.instance() matches Some(g) && g.wf() && g.is_initial() && (
            ev matches GameEvent::NewGameEvent(st) && game_state_matches(st, g))
        },
        GameCommand::PutPieceCommand(x, y, size) => match pre.instance() {
            None => post.instance() is None && ev == GameEvent::GameErrorEvent(
                GameError::CurrentlyNoGame,
            ),
            Some(g) => post.instance() matches Some(g2) && match put_error(
                g,
                x as int,
                y as int,
                size,
            ) {
                Some(e) => g2 == g && ev == GameEvent::GameErrorEvent(e),
                None => put_ok(g, g2, x as int, y as int, size) && win_or_update_event(ev, g2),
            },
        },
        GameCommand::MovePieceCommand(ox, oy, dx, dy) => match pre.instance() {
            None => post.instance() is None && ev == GameEvent::GameErrorEvent(
                GameError::CurrentlyNoGame,
            ),
            Some(g) => post.instance() matches Some(g2) && match move_error(
                g,
                ox as int,
                oy as int,
                dx as int,
                dy as int,
            ) {
                Some(e) => boards_cells_equal(g2.board, g.board) && g2.player_red == g.player_red
                    && g2.player_blue == g.player_blue && g2.turn == g.turn && ev
                    == GameEvent::GameErrorEvent(e),
                None => move_ok(g, g2, ox as int, oy as int, dx as int, dy as int)
                    && win_or_update_event(ev, g2),
            },
        },
        GameCommand::ExitCommand => post.instance() == pre.instance() && ev
            == GameEvent::ExitEvent,
    }
}

/// After a successful piece command the event is the winner, as soon as
/// the position has one, and the updated snapshot otherwise.
pub open spec fn win_or_update_event(ev: GameEvent, g: GameInstance) -> bool {
    match g.board.winner() {
        Some(color) => ev == GameEvent::GameWinEvent(color),
        None => ev matches GameEvent::BoardUpdateEvent(st) && game_state_matches(st, g),
    }
}

impl<L: Listener> Default for Game<L> {
    /// A dispatcher with no running game and no observers.
    fn default() -> (r: Game<L>)
        ensures
            r.instance() is None,
            r.listeners_seq().len() == 0,
    {
        Game { game_instance: None, listeners: Vec::new() }
    }
}

impl<L: Listener> Game<L> {
    /// Discards any running game and starts a fresh one; reports its
    /// snapshot.
    fn new_game(&mut self) -> (r: Result<GameState, GameError>)
        ensures
            final(self).wf(),
            final(self).listeners_seq() == old(self).listeners_seq(),
            final(self).instance() matches Some(g) && g.is_initial() && (
            r matches Ok(st) && game_state_matches(st, g)),
    {
        self.game_instance = Some(GameInstance::default());
        match &self.game_instance {
            Some(game_instance) => Ok(game_instance.to_game_state()),
            None => Err(GameError::UnknownError),
        }
    }

    /// Forwards a put to the running game and snapshots the result.
    fn put_piece(&mut self, x: usize, y: usize, piece_size: crate::piece::PieceSize) -> (r: Result<
        GameState,
        GameError,
    >)
        requires
            old(self).wf(),
            old(self).turn_in_range(),
            x < 3,
            y < 3,
        ensures
            final(self).wf(),
            final(self).listeners_seq() == old(self).listeners_seq(),
            match old(self).instance() {
                None => r == Err::<GameState, _>(GameError::CurrentlyNoGame)
                    && final(self).instance() is None,
                Some(g) => final(self).instance() matches Some(g2) && match put_error(
                    g,
                    x as int,
                    y as int,
                    piece_size,
                ) {
                    Some(e) => g2 == g && r == Err::<GameState, _>(e),
                    None => put_ok(g, g2, x as int, y as int, piece_size) && (
                    r matches Ok(st) && game_state_matches(st, g2)),
                },
            },
    {
        match &mut self.game_instance {
            Some(game_instance) => match game_instance.put_piece(x, y, piece_size) {
                Ok(()) => Ok(game_instance.to_game_state()),
                Err(e) => Err(e),
            },
            None => Err(GameError::CurrentlyNoGame),
        }
    }

    /// Forwards a move to the running game and snapshots the result.
    pub fn move_piece(
        &mut self,
        origin_x: usize,
        origin_y: usize,
        destination_x: usize,
        destination_y: usize,
    ) -> (r: Result<GameState, GameError>)
        requires
            old(self).wf(),
            old(self).turn_in_range(),
            origin_x < 3,
            origin_y < 3,
            destination_x < 3,
            destination_y < 3,
        ensures
            final(self).wf(),
            final(self).listeners_seq() == old(self).listeners_seq(),
            match old(self).instance() {
                None => r == Err::<GameState, _>(GameError::CurrentlyNoGame)
                    && final(self).instance() is None,
                Some(g) => final(self).instance() matches Some(g2) && match move_error(
                    g,
                    origin_x as int,
                    origin_y as int,
                    destination_x as int,
                    destination_y as int,
                ) {
                    Some(e) => boards_cells_equal(g2.board, g.board) && g2.player_red
                        == g.player_red && g2.player_blue == g.player_blue && g2.turn == g.turn
                        && r == Err::<GameState, _>(e),
                    None => move_ok(
                        g,
                        g2,
                        origin_x as int,
                        origin_y as int,
                        destination_x as int,
                        destination_y as int,
                    ) && (r matches Ok(st) && game_state_matches(st, g2)),
                },
            },
    {
        match &mut self.game_instance {
            Some(game_instance) => match game_instance.move_piece(
                origin_x,
                origin_y,
                destination_x,
                destination_y,
            ) {
                Ok(()) => Ok(game_instance.to_game_state()),
                Err(e) => Err(e),
            },
            None => Err(GameError::CurrentlyNoGame),
        }
    }

    /// Turns one command into its event, applying the command to the
    /// running game.
    fn step(&mut self, game_command: GameCommand) -> (ev: GameEvent)
        requires
            old(self).wf(),
            old(self).turn_in_range(),
            command_wf(game_command),
        ensures
            final(self).wf(),
            final(self).listeners_seq() == old(self).listeners_seq(),
            step_outcome(*old(self), *final(self), game_command, ev),
    {
        match game_command {
            GameCommand::NewGameCommand => match self.new_game() {
                Ok(state) => GameEvent::NewGameEvent(state),
                Err(e) => {
                    proof {
                        assert(false);
                    }
                    GameEvent::GameErrorEvent(e)
                },
            },
            GameCommand::PutPieceCommand(x, y, size) => match self.put_piece(x, y, size) {
                Ok(state) => match state.winner_color {
                    Some(color) => GameEvent::GameWinEvent(color),
                    None => GameEvent::BoardUpdateEvent(state),
                },
                Err(e) => GameEvent::GameErrorEvent(e),
            },
            GameCommand::MovePieceCommand(ox, oy, dx, dy) => match self.move_piece(ox, oy, dx, dy) {
                Ok(state) => match state.winner_color {
                    Some(color) => GameEvent::GameWinEvent(color),
                    None => GameEvent::BoardUpdateEvent(state),
                },
                Err(e) => GameEvent::GameErrorEvent(e),
            },
            GameCommand::ExitCommand => GameEvent::ExitEvent,
        }
    }

    /// Processes one command to completion: applies it, delivers exactly
    /// one event to every observer in subscription order, and tells the
    /// caller whether this was the terminal exit command.
    pub fn execute(&mut self, game_command: GameCommand) -> (exit: bool)
        requires
            old(self).wf(),
            old(self).turn_in_range(),
            command_wf(game_command),
        ensures
            final(self).wf(),
            final(self).listeners_seq() == old(self).listeners_seq(),
            exists|ev: GameEvent|
                #[trigger] step_outcome(*old(self), *final(self), game_command, ev),
            exit == (game_command is ExitCommand),
    {
        let event = self.step(game_command);
        let exit = match &event {
            GameEvent::ExitEvent => true,
            _ => false,
        };
        self.notify_all(event);
        exit
    }

    /// Appends an observer; observers are never removed.
    pub fn subscribe(&mut self, listener: L)
        ensures
            final(self).listeners_seq() == old(self).listeners_seq().push(listener),
            final(self).instance() == old(self).instance(),
    {
        self.listeners.push(listener);
    }

    /// Hands every observer, in subscription order, its own deep copy of
    /// the event.
    fn notify_all(&self, game_event: GameEvent) {
        let mut i: usize = 0;
        while i < self.listeners.len()
            invariant
                i <= self.listeners@.len(),
            decreases self.listeners@.len() - i,
        {
            self.listeners[i].notify(game_event.clone());
            i = i + 1;
        }
    }

    /// Whether a game is currently running.
    pub fn has_game_instance(&self) -> (r: bool)
        ensures
            r == (self.instance() is Some),
    {
        match &self.game_instance {
            Some(_) => true,
            None => false,
        }
    }

    /// How many observers are subscribed.
    pub fn listener_count(&self) -> (r: usize)
        ensures
            r == self.listeners_seq().len(),
    {
        self.listeners.len()
    }
}

} // verus!
