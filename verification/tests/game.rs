use pebbles_game::engine::init_game;
use pebbles_game::engine::process_action;
use pebbles_game::query::process_query;
use pebbles_game::query::query;
use pebbles_game::strategy::choose_move;
use pebbles_game::strategy::pick_in_range;
use pebbles_game::types::DifficultyLevel;
use pebbles_game::types::GameError;
use pebbles_game::types::GameState;
use pebbles_game::types::PebblesAction;
use pebbles_game::types::PebblesEvent;
use pebbles_game::types::PebblesInit;
use pebbles_game::types::Player;
use pebbles_game::types::StateQuery;
use pebbles_game::types::StateReply;

fn new_game(difficulty: DifficultyLevel, pebbles_count: u8, max_pebbles_per_turn: u8) -> GameState {
    init_game(PebblesInit { difficulty, pebbles_count, max_pebbles_per_turn })
        .expect("configuration should be acceptable")
}

#[test]
fn init_sets_fresh_state() {
    let s = new_game(DifficultyLevel::Easy, 15, 4);
    assert_eq!(s.pebbles_count, 15);
    assert_eq!(s.max_pebbles_per_turn, 4);
    assert_eq!(s.pebbles_remaining, 15);
    assert_eq!(s.difficulty, DifficultyLevel::Easy);
    assert_eq!(s.first_player, Player::User);
    assert_eq!(s.winner, None);
    assert_eq!(s.counter_turn, 0);
}

#[test]
fn init_rejects_bad_configurations() {
    let zero_pile = PebblesInit {
        difficulty: DifficultyLevel::Easy,
        pebbles_count: 0,
        max_pebbles_per_turn: 1,
    };
    assert_eq!(init_game(zero_pile), Err(GameError::InvalidConfiguration));
    let zero_max = PebblesInit {
        difficulty: DifficultyLevel::Easy,
        pebbles_count: 5,
        max_pebbles_per_turn: 0,
    };
    assert_eq!(init_game(zero_max), Err(GameError::InvalidConfiguration));
    let max_above_pile = PebblesInit {
        difficulty: DifficultyLevel::Hard,
        pebbles_count: 3,
        max_pebbles_per_turn: 4,
    };
    assert_eq!(init_game(max_above_pile), Err(GameError::InvalidConfiguration));
}

#[test]
fn hard_scenario_forces_program_win() {
    let mut s = new_game(DifficultyLevel::Hard, 5, 2);
    let entropy: Vec<u8> = Vec::new();

    let evs = s.turn(1, &entropy).expect("legal move");
    // Human leaves 4; 4 mod 3 = 1, so the program removes 1 and leaves 3.
    assert_eq!(s.pebbles_remaining, 3);
    assert_eq!(s.winner, None);
    assert_eq!(
        evs,
        vec![PebblesEvent::CounterTurn(1), PebblesEvent::CounterTurn(2)]
    );

    let evs = s.turn(2, &entropy).expect("legal move");
    // Human leaves 1; 1 mod 3 = 1, so the program removes 1 and wins.
    assert_eq!(s.pebbles_remaining, 0);
    assert_eq!(s.winner, Some(Player::Program));
    assert_eq!(
        evs,
        vec![
            PebblesEvent::CounterTurn(3),
            PebblesEvent::CounterTurn(4),
            PebblesEvent::Won(Player::Program),
        ]
    );
}

#[test]
fn forcing_move_leaves_multiple_of_k() {
    let mut s = new_game(DifficultyLevel::Hard, 10, 3);
    let entropy: Vec<u8> = Vec::new();
    s.turn(1, &entropy).expect("legal move");
    // Before the program's move the pile held 9; 9 mod 4 = 1, so it takes 1
    // and what it leaves is exactly divisible by 4.
    assert_eq!(s.pebbles_remaining, 8);
    assert_eq!(s.pebbles_remaining % 4, 0);
}

#[test]
fn forcing_fallback_takes_one() {
    let mut s = new_game(DifficultyLevel::Hard, 10, 3);
    let entropy: Vec<u8> = Vec::new();
    s.turn(2, &entropy).expect("legal move");
    // The human left 8, already a multiple of 4: no forcing move exists and
    // the program falls back to the minimal legal move of one pebble.
    assert_eq!(s.pebbles_remaining, 7);
}

#[test]
fn human_wins_taking_last_pebble() {
    let mut s = new_game(DifficultyLevel::Hard, 1, 1);
    let entropy: Vec<u8> = Vec::new();
    let evs = s.turn(1, &entropy).expect("legal move");
    assert_eq!(s.pebbles_remaining, 0);
    assert_eq!(s.winner, Some(Player::User));
    // No computer move was attempted: one half-move, then the win.
    assert_eq!(
        evs,
        vec![PebblesEvent::CounterTurn(1), PebblesEvent::Won(Player::User)]
    );
}

#[test]
fn invalid_moves_change_nothing() {
    let mut s = new_game(DifficultyLevel::Hard, 5, 2);
    let entropy: Vec<u8> = Vec::new();
    let before = s;

    assert_eq!(s.turn(0, &entropy), Err(GameError::InvalidMove));
    assert_eq!(s, before);

    assert_eq!(s.turn(3, &entropy), Err(GameError::InvalidMove));
    assert_eq!(s, before);
    assert_eq!(s.pebbles_remaining, 5);
    assert_eq!(s.counter_turn, 0);
}

#[test]
fn move_above_pile_is_invalid() {
    let mut s = new_game(DifficultyLevel::Easy, 5, 4);
    let entropy: Vec<u8> = vec![1];
    s.turn(2, &entropy).expect("legal move");
    // The pile now holds fewer pebbles than the per-turn maximum.
    let remaining: u8 = s.pebbles_remaining;
    assert!(remaining < 4);
    assert_eq!(s.turn(remaining + 1, &entropy), Err(GameError::InvalidMove));
    assert_eq!(s.pebbles_remaining, remaining);
}

#[test]
fn give_up_always_makes_program_winner() {
    let mut s = new_game(DifficultyLevel::Easy, 7, 3);
    let evs = s.give_up().expect("running game");
    assert_eq!(s.winner, Some(Player::Program));
    assert_eq!(s.pebbles_remaining, 7);
    assert_eq!(evs, vec![PebblesEvent::Won(Player::Program)]);
}

#[test]
fn concluded_game_rejects_turn_and_give_up() {
    let mut s = new_game(DifficultyLevel::Hard, 1, 1);
    let entropy: Vec<u8> = Vec::new();
    s.turn(1, &entropy).expect("legal move");
    let concluded = s;

    assert_eq!(s.turn(1, &entropy), Err(GameError::GameAlreadyOver));
    assert_eq!(s, concluded);
    assert_eq!(s.give_up(), Err(GameError::GameAlreadyOver));
    assert_eq!(s, concluded);
    assert_eq!(s.winner, Some(Player::User));
}

#[test]
fn restart_resets_pile_and_winner() {
    let mut s = new_game(DifficultyLevel::Hard, 1, 1);
    let entropy: Vec<u8> = Vec::new();
    s.turn(1, &entropy).expect("legal move");
    assert_eq!(s.winner, Some(Player::User));

    let evs = s
        .restart(DifficultyLevel::Easy, 12, 5)
        .expect("acceptable configuration");
    assert!(evs.is_empty());
    assert_eq!(s.pebbles_count, 12);
    assert_eq!(s.max_pebbles_per_turn, 5);
    assert_eq!(s.pebbles_remaining, 12);
    assert_eq!(s.difficulty, DifficultyLevel::Easy);
    assert_eq!(s.winner, None);
    assert_eq!(s.counter_turn, 0);
}

#[test]
fn restart_rejects_bad_configuration() {
    let mut s = new_game(DifficultyLevel::Easy, 5, 2);
    let before = s;
    assert_eq!(
        s.restart(DifficultyLevel::Hard, 3, 4),
        Err(GameError::InvalidConfiguration)
    );
    assert_eq!(s, before);
}

#[test]
fn easy_uses_first_in_range_byte() {
    let mut s = new_game(DifficultyLevel::Easy, 10, 3);
    let entropy: Vec<u8> = vec![2];
    s.turn(1, &entropy).expect("legal move");
    // Human left 9; the byte 2 lies in 1..=3 and is taken as the reply.
    assert_eq!(s.pebbles_remaining, 7);
}

#[test]
fn easy_rejects_out_of_range_bytes() {
    let mut s = new_game(DifficultyLevel::Easy, 10, 3);
    let entropy: Vec<u8> = vec![0, 200, 2];
    s.turn(1, &entropy).expect("legal move");
    // 0 and 200 fall outside 1..=3 and are rejected; 2 is accepted.
    assert_eq!(s.pebbles_remaining, 7);
}

#[test]
fn easy_falls_back_to_modulo_on_last_byte() {
    let mut s = new_game(DifficultyLevel::Easy, 10, 3);
    let entropy: Vec<u8> = vec![200];
    s.turn(1, &entropy).expect("legal move");
    // No byte fell in 1..=3: the last one is reduced, 200 % 3 + 1 = 3.
    assert_eq!(s.pebbles_remaining, 6);
}

#[test]
fn easy_without_entropy_fails_untouched() {
    let mut s = new_game(DifficultyLevel::Easy, 10, 3);
    let before = s;
    let entropy: Vec<u8> = Vec::new();
    assert_eq!(s.turn(1, &entropy), Err(GameError::EntropyUnavailable));
    assert_eq!(s, before);
}

#[test]
fn turn_decreases_by_at_least_n() {
    let mut s = new_game(DifficultyLevel::Easy, 20, 4);
    let entropy: Vec<u8> = vec![3];
    let before = s.pebbles_remaining;
    s.turn(4, &entropy).expect("legal move");
    assert!(s.pebbles_remaining + 4 <= before);
    assert!(s.pebbles_remaining < before);
}

#[test]
fn pick_in_range_accepts_rejects_and_falls_back() {
    assert_eq!(pick_in_range(&vec![5], 10), Ok(5));
    assert_eq!(pick_in_range(&vec![0, 0, 7], 5), Ok(3));
    assert_eq!(pick_in_range(&vec![9, 4], 5), Ok(4));
    let empty: Vec<u8> = Vec::new();
    assert_eq!(pick_in_range(&empty, 5), Err(GameError::EntropyUnavailable));
}

#[test]
fn choose_move_hard_matches_remainder() {
    let entropy: Vec<u8> = Vec::new();
    assert_eq!(choose_move(DifficultyLevel::Hard, 9, 3, &entropy), Ok(1));
    assert_eq!(choose_move(DifficultyLevel::Hard, 11, 3, &entropy), Ok(3));
    // A pile already at a multiple of 4 leaves no forcing move.
    assert_eq!(choose_move(DifficultyLevel::Hard, 8, 3, &entropy), Ok(1));
    // A pile below the per-turn maximum is taken whole.
    assert_eq!(choose_move(DifficultyLevel::Hard, 2, 3, &entropy), Ok(2));
}

#[test]
fn queries_project_without_mutating() {
    let mut s = new_game(DifficultyLevel::Hard, 10, 3);
    let entropy: Vec<u8> = Vec::new();
    s.turn(1, &entropy).expect("legal move");

    let first = query(&s, StateQuery::PebblesRemaining);
    let second = query(&s, StateQuery::PebblesRemaining);
    assert_eq!(first, second);
    assert_eq!(first, StateReply::PebblesRemaining(8));

    assert_eq!(query(&s, StateQuery::Winner), StateReply::Winner(None));
    assert_eq!(query(&s, StateQuery::CounterTurn), StateReply::CounterTurn(2));
    assert_eq!(query(&s, StateQuery::All), StateReply::All(s));
    assert_eq!(s.pebbles_remaining, 8);
    assert_eq!(s.counter_turn, 2);
}

#[test]
fn uninitialized_game_reports_not_initialized() {
    let mut game: Option<GameState> = None;
    let entropy: Vec<u8> = Vec::new();
    assert_eq!(
        process_action(&mut game, PebblesAction::GiveUp, &entropy),
        Err(GameError::NotInitialized)
    );
    assert!(game.is_none());
    assert_eq!(
        process_query(&game, StateQuery::Winner),
        Err(GameError::NotInitialized)
    );
}

#[test]
fn process_action_dispatches_all_actions() {
    let mut game: Option<GameState> = Some(new_game(DifficultyLevel::Hard, 5, 2));
    let entropy: Vec<u8> = Vec::new();

    let evs = process_action(&mut game, PebblesAction::Turn(1), &entropy)
        .expect("legal move");
    assert_eq!(evs.len(), 2);
    assert_eq!(game.unwrap().pebbles_remaining, 3);

    process_action(&mut game, PebblesAction::GiveUp, &entropy).expect("running game");
    assert_eq!(game.unwrap().winner, Some(Player::Program));

    process_action(
        &mut game,
        PebblesAction::Restart {
            difficulty: DifficultyLevel::Easy,
            pebbles_count: 9,
            max_pebbles_per_turn: 2,
        },
        &entropy,
    )
    .expect("acceptable configuration");
    let s = game.unwrap();
    assert_eq!(s.pebbles_remaining, 9);
    assert_eq!(s.winner, None);

    assert_eq!(
        process_query(&game, StateQuery::PebblesRemaining),
        Ok(StateReply::PebblesRemaining(9))
    );
}

#[test]
fn largest_pile_taken_whole() {
    let mut s = new_game(DifficultyLevel::Hard, 255, 255);
    let entropy: Vec<u8> = Vec::new();
    let evs = s.turn(255, &entropy).expect("legal move");
    assert_eq!(s.pebbles_remaining, 0);
    assert_eq!(s.winner, Some(Player::User));
    assert_eq!(
        evs,
        vec![PebblesEvent::CounterTurn(1), PebblesEvent::Won(Player::User)]
    );
}

#[test]
fn longest_game_fills_the_counter() {
    // 255 pebbles, one per half-move: 127 full rounds, then the winning
    // human half-move, driving the counter to its very ceiling of 255.
    let mut s = new_game(DifficultyLevel::Easy, 255, 1);
    let entropy: Vec<u8> = vec![1];
    for round in 0..127u32 {
        s.turn(1, &entropy).expect("legal move");
        assert_eq!(u32::from(s.pebbles_remaining), 253 - 2 * round);
        assert_eq!(s.winner, None);
    }
    assert_eq!(s.pebbles_remaining, 1);
    assert_eq!(s.counter_turn, 254);
    s.turn(1, &entropy).expect("legal move");
    assert_eq!(s.pebbles_remaining, 0);
    assert_eq!(s.counter_turn, 255);
    assert_eq!(s.winner, Some(Player::User));
}

#[test]
fn validate_move_checks_bounds_and_conclusion() {
    let mut s = new_game(DifficultyLevel::Easy, 5, 2);
    assert_eq!(s.validate_move(1), Ok(()));
    assert_eq!(s.validate_move(2), Ok(()));
    assert_eq!(s.validate_move(0), Err(GameError::InvalidMove));
    assert_eq!(s.validate_move(3), Err(GameError::InvalidMove));
    s.give_up().expect("running game");
    assert_eq!(s.validate_move(1), Err(GameError::GameAlreadyOver));
}
