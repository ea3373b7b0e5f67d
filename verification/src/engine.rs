//! The turn engine: creating a game, resolving one full round (the human
//! half-move, terminal checks, the computer counter-move), conceding,
//! restarting, and dispatching actions. Every transition is pinned by an
//! outcome predicate relating the state before, the state after, the
//! entropy supplied, and the events emitted.

use vstd::prelude::*;
use crate::strategy::choose_move;
use crate::strategy::chosen_amount;
use crate::types::valid_config;
use crate::types::DifficultyLevel;
use crate::types::GameError;
use crate::types::GameState;
use crate::types::PebblesAction;
use crate::types::PebblesEvent;
use crate::types::PebblesInit;
use crate::types::Player;

verus! {

/// The state a fresh game starts in for a given configuration: a full pile,
/// no winner, and the half-move counter at zero.
pub open spec fn fresh_state(
    difficulty: DifficultyLevel,
    pebbles_count: u8,
    max_pebbles_per_turn: u8,
) -> GameState {
    GameState {
        pebbles_count,
        max_pebbles_per_turn,
        pebbles_remaining: pebbles_count,
        difficulty,
        first_player: Player::User,
        winner: None,
        counter_turn: 0,
    }
}

/// The state after a winning human half-move: the pile is empty and the
/// human is recorded as the winner in the same step.
pub open spec fn human_win_state(pre: GameState) -> GameState {
    GameState {
        pebbles_remaining: 0,
        counter_turn: (pre.counter_turn + 1) as u8,
        winner: Some(Player::User),
        ..pre
    }
}

/// The state after a full round: the human removed `n`, the computer
/// replied with `m`, and the program wins exactly when that empties the
/// pile.
pub open spec fn round_state(pre: GameState, n: u8, m: int) -> GameState {
    GameState {
        pebbles_remaining: (pre.pebbles_remaining - n - m) as u8,
        counter_turn: (pre.counter_turn + 2) as u8,
        winner: if pre.pebbles_remaining - n - m == 0 {
            Some(Player::Program)
        } else {
            None
        },
        ..pre
    }
}

/// Everything a `Turn(n)` action does, as a relation between the state
/// before, the state after, the entropy supplied, and the result. A failure
/// leaves the state untouched; a success applies the human move, and the
/// computer's reply unless the human already emptied the pile.
pub open spec fn turn_outcome(
    pre: GameState,
    post: GameState,
    n: u8,
    entropy: Seq<u8>,
    r: Result<Vec<PebblesEvent>, GameError>,
) -> bool {
    match r {
        Ok(evs) => {
            &&& pre.winner is None
            &&& pre.move_in_bounds(n)
            &&& if pre.pebbles_remaining == n {
                &&& post == human_win_state(pre)
                &&& evs@ == seq![
                    PebblesEvent::CounterTurn(post.counter_turn),
                    PebblesEvent::Won(Player::User),
                ]
            } else {
                let m = chosen_amount(
                    pre.difficulty,
                    (pre.pebbles_remaining - n) as u8,
                    pre.max_pebbles_per_turn,
                    entropy,
                );
                &&& 1 <= m
                &&& m <= pre.max_pebbles_per_turn
                &&& n + m <= pre.pebbles_remaining
                &&& post == round_state(pre, n, m)
                &&& evs@ == if post.pebbles_remaining == 0 {
                    seq![
                        PebblesEvent::CounterTurn((pre.counter_turn + 1) as u8),
                        PebblesEvent::CounterTurn(post.counter_turn),
                        PebblesEvent::Won(Player::Program),
                    ]
                } else {
                    seq![
                        PebblesEvent::CounterTurn((pre.counter_turn + 1) as u8),
                        PebblesEvent::CounterTurn(post.counter_turn),
                    ]
                }
            }
        },
        Err(e) => {
            &&& post == pre
            &&& match e {
                GameError::GameAlreadyOver => pre.winner is Some,
                GameError::InvalidMove => pre.winner is None && !pre.move_in_bounds(n),
                GameError::EntropyUnavailable => {
                    &&& pre.winner is None
                    &&& pre.move_in_bounds(n)
                    &&& pre.pebbles_remaining != n
                    &&& pre.difficulty is Easy
                    &&& entropy.len() == 0
                },
                _ => false,
            }
        },
    }
}

/// Everything a `GiveUp` action does: in a running game the program wins at
/// once with no pebble accounting; in a concluded one it is rejected.
pub open spec fn give_up_outcome(
    pre: GameState,
    post: GameState,
    r: Result<Vec<PebblesEvent>, GameError>,
) -> bool {
    match r {
        Ok(evs) => {
            &&& pre.winner is None
            &&& post == (GameState { winner: Some(Player::Program), ..pre })
            &&& evs@ == seq![PebblesEvent::Won(Player::Program)]
        },
        Err(e) => {
            &&& e == GameError::GameAlreadyOver
            &&& pre.winner is Some
            &&& post == pre
        },
    }
}

/// Everything a `Restart` action does: with an acceptable configuration the
/// whole state is replaced by a fresh one, in any prior state; otherwise
/// the old state stands untouched.
pub open spec fn restart_outcome(
    pre: GameState,
    post: GameState,
    difficulty: DifficultyLevel,
    pebbles_count: u8,
    max_pebbles_per_turn: u8,
    r: Result<Vec<PebblesEvent>, GameError>,
) -> bool {
    match r {
        Ok(evs) => {
            &&& valid_config(pebbles_count, max_pebbles_per_turn)
            &&& post == fresh_state(difficulty, pebbles_count, max_pebbles_per_turn)
            &&& evs@ == Seq::<PebblesEvent>::empty()
        },
        Err(e) => {
            &&& e == GameError::InvalidConfiguration
            &&& !valid_config(pebbles_count, max_pebbles_per_turn)
            &&& post == pre
        },
    }
}

/// What any action does, dispatching on its kind.
pub open spec fn action_outcome(
    pre: GameState,
    post: GameState,
    action: PebblesAction,
    entropy: Seq<u8>,
    r: Result<Vec<PebblesEvent>, GameError>,
) -> bool {
    match action {
        PebblesAction::Turn(n) => turn_outcome(pre, post, n, entropy, r),
        PebblesAction::GiveUp => give_up_outcome(pre, post, r),
        PebblesAction::Restart { difficulty, pebbles_count, max_pebbles_per_turn } =>
            restart_outcome(pre, post, difficulty, pebbles_count, max_pebbles_per_turn, r),
    }
}

/// Creates a game from its configuration, rejecting an empty pile, a zero
/// per-turn maximum, or a maximum above the pile.
pub fn init_game(init: PebblesInit) -> (r: Result<GameState, GameError>)
    ensures
        match r {
            Ok(s) => {
                &&& valid_config(init.pebbles_count, init.max_pebbles_per_turn)
                &&& s == fresh_state(init.difficulty, init.pebbles_count, init.max_pebbles_per_turn)
                &&& s.wf()
            },
            Err(e) => {
                &&& e == GameError::InvalidConfiguration
                &&& !valid_config(init.pebbles_count, init.max_pebbles_per_turn)
            },
        },
{
    if init.max_pebbles_per_turn < 1 || init.max_pebbles_per_turn > init.pebbles_count {
        Err(GameError::InvalidConfiguration)
    } else {
        Ok(
            GameState {
                pebbles_count: init.pebbles_count,
                max_pebbles_per_turn: init.max_pebbles_per_turn,
                pebbles_remaining: init.pebbles_count,
                difficulty: init.difficulty,
                first_player: Player::User,
                winner: None,
                counter_turn: 0,
            },
        )
    }
}

impl GameState {
    /// Resolves one full round for a human move of `n` pebbles: validates
    /// the move, applies it, and unless the human emptied the pile lets the
    /// opponent reply with the amount `choose_move` picks from `entropy`.
    /// Fails without touching the state when the game is over, the move is
    /// out of bounds, or the random policy finds no entropy byte.
    pub fn turn(&mut self, n: u8, entropy: &Vec<u8>) -> (r: Result<Vec<PebblesEvent>, GameError>)
        requires
            old(self).wf(),
        ensures
            final(self).wf(),
            turn_outcome(*old(self), *final(self), n, entropy@, r),
    {
        match self.validate_move(n) {
            Ok(()) => {},
            Err(e) => {
                return Err(e);
            },
        }
        let t1: u8 = self.counter_turn + 1;
        let rem1: u8 = self.pebbles_remaining - n;
        if rem1 == 0 {
            self.pebbles_remaining = 0;
            self.counter_turn = t1;
            self.winner = Some(Player::User);
            let mut evs: Vec<PebblesEvent> = Vec::new();
            evs.push(PebblesEvent::CounterTurn(t1));
            evs.push(PebblesEvent::Won(Player::User));
            proof {
                assert(evs@ =~= seq![
                    PebblesEvent::CounterTurn(t1),
                    PebblesEvent::Won(Player::User),
                ]);
            }
            Ok(evs)
        } else {
            let m: u8 = match choose_move(
                self.difficulty,
                rem1,
                self.max_pebbles_per_turn,
                entropy,
            ) {
                Ok(m) => m,
                Err(e) => {
                    return Err(e);
                },
            };
            let t2: u8 = self.counter_turn + 2;
            let rem2: u8 = rem1 - m;
            self.pebbles_remaining = rem2;
            self.counter_turn = t2;
            let mut evs: Vec<PebblesEvent> = Vec::new();
            evs.push(PebblesEvent::CounterTurn(t1));
            evs.push(PebblesEvent::CounterTurn(t2));
            if rem2 == 0 {
                self.winner = Some(Player::Program);
                evs.push(PebblesEvent::Won(Player::Program));
                proof {
                    assert(evs@ =~= seq![
                        PebblesEvent::CounterTurn(t1),
                        PebblesEvent::CounterTurn(t2),
                        PebblesEvent::Won(Player::Program),
                    ]);
                }
                Ok(evs)
            } else {
                proof {
                    assert(evs@ =~= seq![
                        PebblesEvent::CounterTurn(t1),
                        PebblesEvent::CounterTurn(t2),
                    ]);
                }
                Ok(evs)
            }
        }
    }

    /// Concedes a running game: the program wins at once, whatever the
    /// pile; rejected once the game is already concluded.
    pub fn give_up(&mut self) -> (r: Result<Vec<PebblesEvent>, GameError>)
        requires
            old(self).wf(),
        ensures
            final(self).wf(),
            give_up_outcome(*old(self), *final(self), r),
    {
        if self.winner.is_some() {
            return Err(GameError::GameAlreadyOver);
        }
        self.winner = Some(Player::Program);
        let mut evs: Vec<PebblesEvent> = Vec::new();
        evs.push(PebblesEvent::Won(Player::Program));
        proof {
            assert(evs@ =~= seq![PebblesEvent::Won(Player::Program)]);
        }
        Ok(evs)
    }

    /// Replaces the whole game by a fresh one for the new configuration,
    /// in any prior state; an unacceptable configuration is rejected and
    /// the old game stands.
    pub fn restart(
        &mut self,
        difficulty: DifficultyLevel,
        pebbles_count: u8,
        max_pebbles_per_turn: u8,
    ) -> (r: Result<Vec<PebblesEvent>, GameError>)
        requires
            old(self).wf(),
        ensures
            final(self).wf(),
            restart_outcome(
                *old(self),
                *final(self),
                difficulty,
                pebbles_count,
                max_pebbles_per_turn,
                r,
            ),
    {
        match init_game(
            PebblesInit { difficulty, pebbles_count, max_pebbles_per_turn },
        ) {
            Ok(s) => {
                *self = s;
                let evs: Vec<PebblesEvent> = Vec::new();
                proof {
                    assert(evs@ =~= Seq::<PebblesEvent>::empty());
                }
                Ok(evs)
            },
            Err(e) => Err(e),
        }
    }

    /// Dispatches one submitted action to the transition it names.
    pub fn handle_action(
        &mut self,
        action: PebblesAction,
        entropy: &Vec<u8>,
    ) -> (r: Result<Vec<PebblesEvent>, GameError>)
        requires
            old(self).wf(),
        ensures
            final(self).wf(),
            action_outcome(*old(self), *final(self), action, entropy@, r),
    {
        match action {
            PebblesAction::Turn(n) => self.turn(n, entropy),
            PebblesAction::GiveUp => self.give_up(),
            PebblesAction::Restart { difficulty, pebbles_count, max_pebbles_per_turn } => self
                .restart(difficulty, pebbles_count, max_pebbles_per_turn),
        }
    }
}

/// Applies one action against a possibly not-yet-created game, reporting
/// `NotInitialized` (and creating nothing) when none exists.
pub fn process_action(
    game: &mut Option<GameState>,
    action: PebblesAction,
    entropy: &Vec<u8>,
) -> (r: Result<Vec<PebblesEvent>, GameError>)
    requires
        (*old(game)) matches Some(s) ==> s.wf(),
    ensures
        match *old(game) {
            None => {
                &&& *final(game) is None
                &&& r == Err::<Vec<PebblesEvent>, GameError>(GameError::NotInitialized)
            },
            Some(pre) => {
                &&& *final(game) matches Some(post)
                &&& post.wf()
                &&& action_outcome(pre, post, action, entropy@, r)
            },
        },
{
    match game {
        Some(s) => s.handle_action(action, entropy),
        None => Err(GameError::NotInitialized),
    }
}

/// Law: a successful `Turn(n)` strictly shrinks the pile, and by at least
/// `n` — exactly `n` plus the opponent's reply, when there is one.
pub proof fn lemma_turn_decreases_pile(
    pre: GameState,
    post: GameState,
    n: u8,
    entropy: Seq<u8>,
    r: Result<Vec<PebblesEvent>, GameError>,
)
    requires
        turn_outcome(pre, post, n, entropy, r),
        r is Ok,
    ensures
        post.pebbles_remaining + n <= pre.pebbles_remaining,
        post.pebbles_remaining < pre.pebbles_remaining,
{
}

/// Law: in every well-formed state the pile is never negative and never
/// exceeds the starting pile.
pub proof fn lemma_pile_within_bounds(s: GameState)
    requires
        s.wf(),
    ensures
        0 <= s.pebbles_remaining,
        s.pebbles_remaining <= s.pebbles_count,
{
}

/// Law: once a winner is set, `Turn` and `GiveUp` are rejected with
/// `GameAlreadyOver` and change neither the pile nor the winner.
pub proof fn lemma_concluded_rejects_actions(
    pre: GameState,
    post: GameState,
    action: PebblesAction,
    entropy: Seq<u8>,
    r: Result<Vec<PebblesEvent>, GameError>,
)
    requires
        pre.winner is Some,
        !(action matches PebblesAction::Restart { .. }),
        action_outcome(pre, post, action, entropy, r),
    ensures
        r == Err::<Vec<PebblesEvent>, GameError>(GameError::GameAlreadyOver),
        post == pre,
{
}

/// Law: a successful `GiveUp` makes the program the winner whatever the
/// pile holds, and moves no pebbles.
pub proof fn lemma_give_up_program_wins(
    pre: GameState,
    post: GameState,
    r: Result<Vec<PebblesEvent>, GameError>,
)
    requires
        give_up_outcome(pre, post, r),
        r is Ok,
    ensures
        post.winner == Some(Player::Program),
        post.pebbles_remaining == pre.pebbles_remaining,
{
}

/// Law: a successful `Restart` sets the pile to the new `pebbles_count`,
/// clears the winner, and zeroes the half-move counter, irrespective of the
/// state it found.
pub proof fn lemma_restart_resets(
    pre: GameState,
    post: GameState,
    difficulty: DifficultyLevel,
    pebbles_count: u8,
    max_pebbles_per_turn: u8,
    r: Result<Vec<PebblesEvent>, GameError>,
)
    requires
        restart_outcome(pre, post, difficulty, pebbles_count, max_pebbles_per_turn, r),
        r is Ok,
    ensures
        post.pebbles_remaining == pebbles_count,
        post.winner is None,
        post.counter_turn == 0,
{
}

} // verus!
