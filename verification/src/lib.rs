//! A two-player pebble-subtraction game. A pile starts with a fixed number
//! of pebbles; the human and the computer alternately remove between 1 and a
//! configured maximum, and whoever removes the last pebble wins. The computer
//! opponent plays either randomly (from caller-supplied entropy bytes) or with
//! a forcing strategy that leaves the pile at a multiple of
//! `max_pebbles_per_turn + 1` whenever it can.

pub mod engine;
pub mod query;
pub mod strategy;
pub mod types;
