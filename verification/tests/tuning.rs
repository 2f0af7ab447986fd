use encrustant::board::Board;
use encrustant::tuning::{get_active, label_score, WDL};

#[test]
fn active_parameters_of_two_kings() {
    let board = Board::from_fen("8/8/8/3K4/8/8/8/7k w - - 0 1").unwrap();
    let [white, black] = get_active(&board);
    // White king on d5 (square 35) seen from White's side is square 27.
    assert_eq!(white, vec![5 * 64 + 27]);
    // Black king on h1 (square 7).
    assert_eq!(black, vec![5 * 64 + 7]);
}

#[test]
fn active_parameters_of_the_start_position() {
    let board = Board::from_fen(Board::START_POSITION_FEN).unwrap();
    let [white, black] = get_active(&board);
    assert_eq!(white.len(), 16);
    assert_eq!(black.len(), 16);
    // Pawns come first, on the second rank seen from each side.
    assert_eq!(white[0], 48);
    assert_eq!(black[0], 48);
}

#[test]
fn scores_label_outcomes() {
    assert_eq!(label_score(101, true), WDL::WhiteWin);
    assert_eq!(label_score(101, false), WDL::BlackWin);
    assert_eq!(label_score(100, true), WDL::Draw);
    assert_eq!(label_score(-101, true), WDL::BlackWin);
    assert_eq!(label_score(-101, false), WDL::WhiteWin);
}
