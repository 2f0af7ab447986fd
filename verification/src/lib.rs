//! A chess engine core: board representation, move making, move generation,
//! evaluation and search, with their contracts proved by Verus.

pub mod square;
pub mod piece;
pub mod bit_board;
pub mod board;
pub mod move_data;
pub mod encoded_move;
pub mod maker;
pub mod pv;
pub mod zobrist;
pub mod repetition_table;
pub mod eval_data;
pub mod evaluation;
pub mod search_params;
pub mod flags;
pub mod time_manager;
pub mod search;
pub mod rules;
pub mod move_generator;
pub mod perft;
pub mod fen;
pub mod bench;
pub mod pseudo_legal;
pub mod tuning;
pub mod uci;
pub mod slider_keys;
pub mod fen_writer;
