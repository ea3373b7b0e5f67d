//! The computer opponent: mapping entropy bytes into a legal random move,
//! and the forcing strategy for the hard difficulty.

use vstd::prelude::*;
use vstd::arithmetic::div_mod::lemma_fundamental_div_mod;
use vstd::arithmetic::div_mod::lemma_mod_multiples_basic;
use vstd::arithmetic::div_mod::lemma_small_mod;
use crate::types::DifficultyLevel;
use crate::types::GameError;

verus! {

/// The value the random policy picks from a non-empty run of entropy bytes:
/// the first byte that already lies in `1..=bound`, and otherwise the last
/// byte reduced modulo `bound` into that range. Scanning for an in-range
/// byte first avoids modulo bias, and the reduction of the final byte keeps
/// the number of attempts bounded.
pub open spec fn entropy_pick(entropy: Seq<u8>, bound: u8) -> u8
    recommends
        1 <= bound,
        entropy.len() > 0,
    decreases entropy.len(),
{
    if 1 <= entropy[0] && entropy[0] <= bound {
        entropy[0]
    } else if entropy.len() <= 1 {
        ((entropy[0] % bound) + 1) as u8
    } else {
        entropy_pick(entropy.drop_first(), bound)
    }
}

/// Whatever bytes arrive, the picked move is legal: it lies in `1..=bound`.
pub proof fn lemma_entropy_pick_in_range(entropy: Seq<u8>, bound: u8)
    requires
        1 <= bound,
        entropy.len() > 0,
    ensures
        1 <= entropy_pick(entropy, bound) <= bound,
    decreases entropy.len(),
{
    if 1 <= entropy[0] && entropy[0] <= bound {
    } else if entropy.len() <= 1 {
    } else {
        lemma_entropy_pick_in_range(entropy.drop_first(), bound);
    }
}

/// Scans `entropy` from `start` for the pick described by `entropy_pick`.
fn pick_from(entropy: &Vec<u8>, start: usize, bound: u8) -> (r: u8)
    requires
        1 <= bound,
        start < entropy.len(),
    ensures
        r == entropy_pick(entropy@.skip(start as int), bound),
    decreases entropy.len() - start,
{
    let b: u8 = entropy[start];
    if 1 <= b && b <= bound {
        b
    } else if start + 1 == entropy.len() {
        b % bound + 1
    } else {
        proof {
            assert(entropy@.skip(start as int).drop_first() =~= entropy@.skip(
                start as int + 1,
            ));
        }
        pick_from(entropy, start + 1, bound)
    }
}

/// Draws a move in `1..=bound` from the supplied entropy bytes, or reports
/// that none were supplied. Rejection sampling over the bytes with a
/// deterministic modulo fallback on the last one: never loops beyond the
/// bytes it was given.
pub fn pick_in_range(entropy: &Vec<u8>, bound: u8) -> (r: Result<u8, GameError>)
    requires
        1 <= bound,
    ensures
        match r {
            Ok(v) => entropy@.len() > 0 && v == entropy_pick(entropy@, bound) && 1 <= v <= bound,
            Err(e) => entropy@.len() == 0 && e == GameError::EntropyUnavailable,
        },
{
    if entropy.len() == 0 {
        Err(GameError::EntropyUnavailable)
    } else {
        proof {
            assert(entropy@.skip(0) =~= entropy@);
            lemma_entropy_pick_in_range(entropy@, bound);
        }
        Ok(pick_from(entropy, 0, bound))
    }
}

/// The amount the forcing strategy removes from a pile of `remaining`: the
/// remainder of `remaining` modulo `max_per_turn + 1` when that is not zero
/// (leaving the pile at a multiple of `max_per_turn + 1`), and the minimal
/// legal move of one pebble when no forcing move exists.
pub open spec fn forcing_amount(remaining: u8, max_per_turn: u8) -> int {
    let k = max_per_turn as int + 1;
    if remaining as int % k != 0 {
        remaining as int % k
    } else {
        1
    }
}

/// The amount the opponent removes under each policy, as a function of the
/// position and of the entropy bytes supplied for the random policy.
pub open spec fn chosen_amount(
    difficulty: DifficultyLevel,
    remaining: u8,
    max_per_turn: u8,
    entropy: Seq<u8>,
) -> int {
    match difficulty {
        DifficultyLevel::Easy => entropy_pick(
            entropy,
            if max_per_turn <= remaining {
                max_per_turn
            } else {
                remaining
            },
        ) as int,
        DifficultyLevel::Hard => forcing_amount(remaining, max_per_turn),
    }
}

/// When a forcing move exists — the pile is not already a multiple of
/// `k = max_per_turn + 1` — the strategy removes exactly `remaining % k`,
/// that amount is a legal move, and the pile afterward is exactly divisible
/// by `k`.
pub proof fn lemma_forcing_restores_multiple(remaining: u8, max_per_turn: u8)
    requires
        1 <= remaining,
        1 <= max_per_turn,
        remaining as int % (max_per_turn as int + 1) != 0,
    ensures
        forcing_amount(remaining, max_per_turn) == remaining as int % (max_per_turn as int + 1),
        1 <= forcing_amount(remaining, max_per_turn),
        forcing_amount(remaining, max_per_turn) <= max_per_turn,
        forcing_amount(remaining, max_per_turn) <= remaining,
        (remaining as int - forcing_amount(remaining, max_per_turn)) % (max_per_turn as int + 1)
            == 0,
{
    let k = max_per_turn as int + 1;
    let m = remaining as int % k;
    if remaining < k {
        lemma_small_mod(remaining as nat, k as nat);
    }
    lemma_fundamental_div_mod(remaining as int, k);
    assert(remaining as int - m == k * (remaining as int / k));
    lemma_mod_multiples_basic(remaining as int / k, k);
}

/// Computes the opponent's counter-move for a position with `remaining >= 1`
/// pebbles: the random policy draws from the entropy bytes, the forcing
/// policy needs none. The result is always a legal move, and the only
/// failure is the random policy finding the entropy run empty.
pub fn choose_move(
    difficulty: DifficultyLevel,
    remaining: u8,
    max_per_turn: u8,
    entropy: &Vec<u8>,
) -> (r: Result<u8, GameError>)
    requires
        1 <= remaining,
        1 <= max_per_turn,
    ensures
        match r {
            Ok(m) => {
                &&& m as int == chosen_amount(difficulty, remaining, max_per_turn, entropy@)
                &&& 1 <= m
                &&& m <= max_per_turn
                &&& m <= remaining
            },
            Err(e) => {
                &&& e == GameError::EntropyUnavailable
                &&& difficulty is Easy
                &&& entropy@.len() == 0
            },
        },
{
    match difficulty {
        DifficultyLevel::Easy => {
            let bound: u8 = if max_per_turn <= remaining {
                max_per_turn
            } else {
                remaining
            };
            pick_in_range(entropy, bound)
        },
        DifficultyLevel::Hard => {
            let k: u16 = max_per_turn as u16 + 1;
            let m: u16 = remaining as u16 % k;
            if m != 0 {
                proof {
                    lemma_forcing_restores_multiple(remaining, max_per_turn);
                }
                Ok(m as u8)
            } else {
                Ok(1)
            }
        },
    }
}

} // verus!
