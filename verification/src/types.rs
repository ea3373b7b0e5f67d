//! Data shapes of the game: configuration, actions, events, queries,
//! replies, errors, and the authoritative game state with its invariant.

use vstd::prelude::*;

verus! {

/// How the computer opponent picks its counter-move.
#[derive(Clone, Copy, Debug, PartialEq, Eq)]
pub enum DifficultyLevel {
    /// The opponent draws its move from supplied entropy bytes.
    Easy,
    /// The opponent plays the forcing strategy.
    Hard,
}

/// The two participants of a game.
#[derive(Clone, Copy, Debug, PartialEq, Eq)]
pub enum Player {
    User,
    Program,
}

/// Configuration supplied when a game is created.
#[derive(Clone, Copy, Debug, PartialEq, Eq)]
pub struct PebblesInit {
    pub difficulty: DifficultyLevel,
    pub pebbles_count: u8,
    pub max_pebbles_per_turn: u8,
}

/// An action submitted to the turn engine.
#[derive(Clone, Copy, Debug, PartialEq, Eq)]
pub enum PebblesAction {
    /// The human removes this many pebbles.
    Turn(u8),
    /// The human concedes; the program wins at once.
    GiveUp,
    /// Discard the current game and start a fresh one.
    Restart {
        difficulty: DifficultyLevel,
        pebbles_count: u8,
        max_pebbles_per_turn: u8,
    },
}

/// An event reported back to the caller after an action.
#[derive(Clone, Copy, Debug, PartialEq, Eq)]
pub enum PebblesEvent {
    /// A half-move happened; carries the turn counter after it.
    CounterTurn(u8),
    /// The game concluded with this winner.
    Won(Player),
}

/// A read-only question about the current game.
#[derive(Clone, Copy, Debug, PartialEq, Eq)]
pub enum StateQuery {
    All,
    Winner,
    CounterTurn,
    PebblesRemaining,
}

/// The answer to a `StateQuery`.
#[derive(Clone, Copy, Debug, PartialEq, Eq)]
pub enum StateReply {
    All(GameState),
    Winner(Option<Player>),
    CounterTurn(u8),
    PebblesRemaining(u8),
}

/// Why an action or a query was rejected. Every failure leaves the game
/// state exactly as it was.
#[derive(Clone, Copy, Debug, PartialEq, Eq)]
pub enum GameError {
    /// The move is outside the legal bounds for the current position.
    InvalidMove,
    /// A mutating action other than a restart arrived after a win.
    GameAlreadyOver,
    /// A creation or restart with an unusable pile or per-turn maximum.
    InvalidConfiguration,
    /// No entropy byte was supplied where the random policy needed one.
    EntropyUnavailable,
    /// An action or query arrived before any game was created.
    NotInitialized,
}

/// The authoritative record of one game in progress or concluded.
#[derive(Clone, Copy, Debug, PartialEq, Eq)]
pub struct GameState {
    /// Pile size at game start; immutable after creation.
    pub pebbles_count: u8,
    /// Upper bound on one half-move; immutable after creation.
    pub max_pebbles_per_turn: u8,
    /// Pebbles still on the pile.
    pub pebbles_remaining: u8,
    /// Opponent policy; immutable after creation.
    pub difficulty: DifficultyLevel,
    /// Who moved first; an observability field, immutable after creation.
    pub first_player: Player,
    /// `None` while in progress; set exactly once when the game concludes.
    pub winner: Option<Player>,
    /// Half-moves played so far; an observability counter.
    pub counter_turn: u8,
}

/// A configuration is acceptable when at least one pebble may be taken per
/// turn and a turn can never take more than the whole starting pile.
pub open spec fn valid_config(pebbles_count: u8, max_pebbles_per_turn: u8) -> bool {
    &&& 1 <= max_pebbles_per_turn
    &&& max_pebbles_per_turn <= pebbles_count
}

impl GameState {
    /// Invariant of every state the engine hands out: the configuration is
    /// acceptable, the pile never exceeds its starting size, an unfinished
    /// game has pebbles left, and each half-move counted removed at least
    /// one pebble (which also keeps the counter from overflowing).
    pub open spec fn wf(self) -> bool {
        &&& valid_config(self.pebbles_count, self.max_pebbles_per_turn)
        &&& self.pebbles_remaining <= self.pebbles_count
        &&& (self.winner is None ==> 1 <= self.pebbles_remaining)
        &&& self.counter_turn + self.pebbles_remaining <= self.pebbles_count
    }

    /// The largest amount either player may remove right now.
    pub open spec fn move_bound(self) -> int {
        if self.max_pebbles_per_turn <= self.pebbles_remaining {
            self.max_pebbles_per_turn as int
        } else {
            self.pebbles_remaining as int
        }
    }

    /// A human move `n` is within the legal bounds of the current position.
    pub open spec fn move_in_bounds(self, n: u8) -> bool {
        &&& 1 <= n
        &&& n <= self.move_bound()
    }

    /// Checks a proposed human move against the current state: rejects any
    /// move once the game is concluded, and any amount outside
    /// `1..=min(max_pebbles_per_turn, pebbles_remaining)`. Reads only.
    pub fn validate_move(&self, n: u8) -> (r: Result<(), GameError>)
        ensures
            match r {
                Ok(()) => self.winner is None && self.move_in_bounds(n),
                Err(e) => match e {
                    GameError::GameAlreadyOver => self.winner is Some,
                    GameError::InvalidMove => self.winner is None && !self.move_in_bounds(n),
                    _ => false,
                },
            },
    {
        if self.winner.is_some() {
            Err(GameError::GameAlreadyOver)
        } else if n < 1 || n > self.max_pebbles_per_turn || n > self.pebbles_remaining {
            Err(GameError::InvalidMove)
        } else {
            Ok(())
        }
    }
}

} // verus!
