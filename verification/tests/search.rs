use std::sync::atomic::AtomicBool;
use std::sync::Arc;
use encrustant::board::Board;
use encrustant::search::{megabytes_to_capacity, DepthSearchInfo, Search, IMMEDIATE_CHECKMATE_SCORE};
use encrustant::time_manager::TimeManager;
use encrustant::search_params::default_tunables;
use encrustant::time_manager::scaled_soft_limit;

#[test]
fn finds_a_mate_in_one() {
    let board = Board::from_fen("6k1/5ppp/8/8/8/8/5PPP/R5K1 w - - 0 1").unwrap();
    let mut search = Search::new(board, megabytes_to_capacity(1));
    let time_manager = TimeManager::depth_limited(None, 2);
    let mut infos: Vec<DepthSearchInfo> = Vec::new();
    let (depth, score) = search.iterative_deepening(&time_manager, &mut infos);
    assert_eq!(depth, 2);
    assert_eq!(score, IMMEDIATE_CHECKMATE_SCORE - 1);
    assert_eq!(infos.len(), 2);
    assert_eq!(infos[0].depth, 1);
    assert_eq!(infos[1].depth, 2);
    assert_eq!(infos[1].best.1, IMMEDIATE_CHECKMATE_SCORE - 1);
    assert_eq!(infos[1].best.0.len(), 1);
    let best = infos[1].best.0[0].decode();
    assert_eq!(best.from.0, 0);
    assert_eq!(best.to.0, 56);
}

#[test]
fn search_leaves_the_board_as_it_was() {
    let board = Board::from_fen(Board::START_POSITION_FEN).unwrap();
    let mut search = Search::new(board, megabytes_to_capacity(1));
    let time_manager = TimeManager::depth_limited(None, 3);
    let mut infos = Vec::new();
    let (depth, _) = search.iterative_deepening(&time_manager, &mut infos);
    assert_eq!(depth, 3);
    assert_eq!(search.board().bit_boards, board.bit_boards);
    assert_eq!(search.board().game_state, board.game_state);
    assert!(search.node_count() > 0);
}

#[test]
fn node_limit_stops_the_search() {
    let board = Board::from_fen(Board::START_POSITION_FEN).unwrap();
    let mut search = Search::new(board, megabytes_to_capacity(1));
    let time_manager = TimeManager::depth_limited(Some(30), 10);
    let mut infos = Vec::new();
    let (depth, _) = search.iterative_deepening(&time_manager, &mut infos);
    assert!(depth <= 3);
    assert!(search.node_count() <= 30);
    assert_eq!(search.board().bit_boards, board.bit_boards);
}

#[test]
fn static_evaluation_of_the_start_position_is_even() {
    let board = Board::from_fen(Board::START_POSITION_FEN).unwrap();
    let search = Search::new(board, megabytes_to_capacity(1));
    assert_eq!(search.static_evaluate(), 0);
}

#[test]
fn checkmate_scores() {
    assert!(Search::score_is_checkmate(IMMEDIATE_CHECKMATE_SCORE));
    assert!(Search::score_is_checkmate(-69745));
    assert!(!Search::score_is_checkmate(69744));
}

#[test]
fn stalemate_is_worth_nothing() {
    // Black to move has no legal move and is not in check.
    let board = Board::from_fen("7k/5Q2/6K1/8/8/8/8/8 b - - 0 1").unwrap();
    let mut search = Search::new(board, megabytes_to_capacity(1));
    let time_manager = TimeManager::depth_limited(None, 1);
    let mut infos = Vec::new();
    let (_, score) = search.iterative_deepening(&time_manager, &mut infos);
    assert_eq!(score, 0);
}

#[test]
fn null_move_and_back() {
    let board = Board::from_fen("rnbqkbnr/pppp1ppp/8/4p3/4P3/8/PPPP1PPP/RNBQKBNR w KQkq e6 0 2").unwrap();
    let mut search = Search::new(board, megabytes_to_capacity(1));
    let key = search.position_zobrist_key();
    let state = search.make_null_move();
    assert!(!search.board().white_to_move);
    assert_eq!(search.board().game_state.en_passant_square, None);
    assert_ne!(search.position_zobrist_key(), key);
    search.unmake_null_move(&state);
    assert_eq!(search.position_zobrist_key(), key);
    assert_eq!(search.board().game_state, board.game_state);
    assert!(search.repetition_table().contains(key, 0) == false);
}

#[test]
fn zobrist_keys_tell_positions_apart() {
    let a = Board::from_fen(Board::START_POSITION_FEN).unwrap();
    let b = Board::from_fen("rnbqkbnr/pppppppp/8/8/8/8/PPPPPPPP/RNBQKBNR b KQkq - 0 1").unwrap();
    let c = Board::from_fen("rnbqkbnr/pppppppp/8/8/8/8/PPPPPPPP/RNBQKBNR w Kkq - 0 1").unwrap();
    let search_a = Search::new(a, 1);
    let search_b = Search::new(b, 1);
    let search_c = Search::new(c, 1);
    assert_ne!(search_a.position_zobrist_key(), search_b.position_zobrist_key());
    assert_ne!(search_a.position_zobrist_key(), search_c.position_zobrist_key());
    assert_eq!(search_a.position_zobrist_key(), Search::new(a, 1).position_zobrist_key());
}

#[test]
fn calculate_time_splits_the_clock() {
    let board = Board::from_fen(Board::START_POSITION_FEN).unwrap();
    let search = Search::new(board, 1);
    // hard: 60000 / 6 + 2 * 1000 = 12000; soft: 60000 / 25 + 500 = 2900
    assert_eq!(search.calculate_time(60000, 1000), (12000, 2900));
    // hard limited to half the clock
    assert_eq!(search.calculate_time(100, 1000), (50, 50));
}

#[test]
fn a_time_limit_of_nothing_stops_at_once() {
    let board = Board::from_fen(Board::START_POSITION_FEN).unwrap();
    let mut search = Search::new(board, megabytes_to_capacity(1));
    let time_manager = TimeManager::time_limited(0, 0, None, None);
    let mut infos = Vec::new();
    let (depth, _) = search.iterative_deepening(&time_manager, &mut infos);
    assert_eq!(depth, 1);
    assert!(infos.is_empty());
    assert_eq!(search.node_count(), 0);
}

#[test]
fn node_counts_of_the_first_depths() {
    let board = Board::from_fen(Board::START_POSITION_FEN).unwrap();
    let mut search = Search::new(board, megabytes_to_capacity(1));
    let mut infos = Vec::new();
    let (depth, _) = search.iterative_deepening(&TimeManager::depth_limited(None, 1), &mut infos);
    assert_eq!(depth, 1);
    assert_eq!(search.node_count(), 20);
    search.clear_for_new_search();
    let (depth, _) = search.iterative_deepening(&TimeManager::depth_limited(None, 2), &mut infos);
    assert_eq!(depth, 2);
    // 20 moves at depth 1, then 20 + 20 * 20 at depth 2.
    assert_eq!(search.node_count(), 440);
}

#[test]
fn bench_position_counts_nodes() {
    let board = Board::from_fen(Board::START_POSITION_FEN).unwrap();
    let mut search = Search::new(board, megabytes_to_capacity(1));
    let nodes = encrustant::bench::bench_position(&mut search, Board::START_POSITION_FEN, 2);
    assert_eq!(nodes, Some(440));
    assert_eq!(encrustant::bench::bench_position(&mut search, "not a position", 2), None);
}

#[test]
fn soft_node_limit_stops_deepening() {
    let board = Board::from_fen(Board::START_POSITION_FEN).unwrap();
    let mut search = Search::new(board, megabytes_to_capacity(1));
    let mut infos = Vec::new();
    // Depth 1 makes 20 moves, reaching the soft limit of 10.
    let (depth, _) = search.iterative_deepening(&TimeManager::node_limited(1000, 10), &mut infos);
    assert_eq!(depth, 1);
    assert_eq!(search.node_count(), 20);
}

#[test]
fn a_default_principal_variation_is_empty() {
    let pv = encrustant::pv::Pv::default();
    assert!(pv.root_best_move().is_none());
    assert!(pv.best_line().is_empty());
}

#[test]
fn no_legal_move_stops_at_the_first_depth() {
    let time_manager = TimeManager::depth_limited(None, 5);
    let mate = Board::from_fen("7k/6Q1/6K1/8/8/8/8/8 b - - 0 1").unwrap();
    let mut search = Search::new(mate, megabytes_to_capacity(8));
    let mut infos = Vec::new();
    assert_eq!(search.iterative_deepening(&time_manager, &mut infos), (1, -IMMEDIATE_CHECKMATE_SCORE));
    assert!(infos.is_empty());
    let stalemate = Board::from_fen("7k/5Q2/6K1/8/8/8/8/8 b - - 0 1").unwrap();
    let mut search = Search::new(stalemate, megabytes_to_capacity(8));
    assert_eq!(search.iterative_deepening(&time_manager, &mut infos), (1, 0));
    assert!(infos.is_empty());
}

#[test]
fn a_node_limit_out_of_reach_changes_nothing() {
    // Depths 1 and 2 of the start position make 20 + 420 moves.
    let board = Board::from_fen(Board::START_POSITION_FEN).unwrap();
    let mut search = Search::new(board, megabytes_to_capacity(1));
    let mut infos = Vec::new();
    let (depth, _) = search.iterative_deepening(&TimeManager::depth_limited(Some(1000), 2), &mut infos);
    assert_eq!(depth, 2);
    assert_eq!(infos.len(), 2);
    assert_eq!(infos[0].node_count, 20);
    assert_eq!(infos[1].node_count, 440);
    assert_eq!(search.node_count(), 440);
}

#[test]
fn a_node_limit_within_a_depth_throws_that_depth_away() {
    // 440 moves finish depth 2; a limit of 100 cuts depth 2 short.
    let board = Board::from_fen(Board::START_POSITION_FEN).unwrap();
    let mut search = Search::new(board, megabytes_to_capacity(1));
    let mut infos = Vec::new();
    let (depth, _) = search.iterative_deepening(&TimeManager::depth_limited(Some(100), 5), &mut infos);
    assert_eq!(depth, 2);
    assert_eq!(infos.len(), 1);
    assert_eq!(infos[0].node_count, 20);
    assert_eq!(search.node_count(), 100);
}

#[test]
fn the_soft_time_limit_scales_with_stability() {
    let tunable = default_tunables();
    assert_eq!(scaled_soft_limit(1000, 0, &tunable), 1760);
    assert_eq!(scaled_soft_limit(1000, 3, &tunable), 1100);
    assert_eq!(scaled_soft_limit(1000, 7, &tunable), 830);
    assert_eq!(scaled_soft_limit(1000, 40, &tunable), 830);
    assert_eq!(scaled_soft_limit(u64::MAX, 0, &tunable), u64::MAX);
}

#[test]
fn a_new_search_has_an_empty_line() {
    let board = Board::from_fen(Board::START_POSITION_FEN).unwrap();
    let search = Search::new(board, megabytes_to_capacity(1));
    assert!(search.pv.root_best_move().is_none());
    assert!(search.pv.best_line().is_empty());
}

#[test]
fn stop_decisions_on_given_times() {
    let tunable = default_tunables();
    let timed = TimeManager::time_limited(100, 50, None, None);
    assert!(!timed.hard_stop_after(0, 99, false));
    assert!(timed.hard_stop_after(0, 100, false));
    assert!(timed.hard_stop_after(0, 0, true));
    // 50 ms scaled by 176 % for a new best move is 88 ms.
    assert!(!timed.soft_stop_after(3, 0, 0, &tunable, 87, false));
    assert!(timed.soft_stop_after(3, 0, 0, &tunable, 88, false));
    assert!(!timed.soft_stop_after(3, 0, 0, &tunable, 1000, true));
    let nodes = TimeManager::node_limited(10, 5);
    assert!(nodes.hard_stop_after(10, 0, false));
    assert!(!nodes.hard_stop_after(9, 1_000_000, false));
    assert!(nodes.soft_stop_after(1, 5, 0, &tunable, 0, false));
}

#[test]
fn a_stop_flag_set_before_the_search_keeps_every_depth_back() {
    let board = Board::from_fen(Board::START_POSITION_FEN).unwrap();
    let mut search = Search::new(board, megabytes_to_capacity(1));
    let stop = Arc::new(AtomicBool::new(true));
    let pondering = Arc::new(AtomicBool::new(false));
    let time_manager = TimeManager::depth_limited(None, 3).with_flags(stop, pondering);
    let mut infos = Vec::new();
    let (depth, score) = search.iterative_deepening(&time_manager, &mut infos);
    assert_eq!(depth, 1);
    assert_eq!(score, -i32::MAX);
    assert!(infos.is_empty());
    assert_eq!(search.node_count(), 0);
}
