//! Read-only projections over the game state. Queries take the state by
//! shared reference and so can never mutate it; each reply is pinned to the
//! field it projects.

use vstd::prelude::*;
use crate::types::GameError;
use crate::types::GameState;
use crate::types::StateQuery;
use crate::types::StateReply;

verus! {

/// The reply a query is owed: a pure projection of the state.
pub open spec fn query_reply(s: GameState, q: StateQuery) -> StateReply {
    match q {
        StateQuery::All => StateReply::All(s),
        StateQuery::Winner => StateReply::Winner(s.winner),
        StateQuery::CounterTurn => StateReply::CounterTurn(s.counter_turn),
        StateQuery::PebblesRemaining => StateReply::PebblesRemaining(s.pebbles_remaining),
    }
}

/// Answers one query over the current state: the full snapshot, the winner,
/// the half-move counter, or the remaining pile.
pub fn query(state: &GameState, q: StateQuery) -> (r: StateReply)
    ensures
        r == query_reply(*state, q),
{
    match q {
        StateQuery::All => StateReply::All(*state),
        StateQuery::Winner => StateReply::Winner(state.winner),
        StateQuery::CounterTurn => StateReply::CounterTurn(state.counter_turn),
        StateQuery::PebblesRemaining => StateReply::PebblesRemaining(state.pebbles_remaining),
    }
}

/// Answers a query against a possibly not-yet-created game, reporting
/// `NotInitialized` when none exists. Never mutates the game.
pub fn process_query(game: &Option<GameState>, q: StateQuery) -> (r: Result<StateReply, GameError>)
    ensures
        match game {
            Some(s) => r == Ok::<StateReply, GameError>(query_reply(*s, q)),
            None => r == Err::<StateReply, GameError>(GameError::NotInitialized),
        },
{
    match game {
        Some(s) => Ok(query(s, q)),
        None => Err(GameError::NotInitialized),
    }
}

} // verus!
