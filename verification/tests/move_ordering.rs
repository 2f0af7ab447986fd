use encrustant::board::Board;
use encrustant::encoded_move::EncodedMove;
use encrustant::move_data::{Flag, Move};
use encrustant::move_generator::MoveGenerator;
use encrustant::search::move_ordering::{
    ContinuationHistory, MoveOrderer, CAPTURE_BONUS, HASH_MOVE_BONUS, KILLER_MOVE_BONUS, QUEEN_PROMOTION_BONUS,
};
use encrustant::search::{megabytes_to_capacity, Search};
use encrustant::square::Square;

#[test]
fn move_ordering_works() {
    let board = Board::from_fen("8/P6p/6r1/1q1n4/2P3R1/8/2K2k2/8 w - - 0 1").unwrap();
    let move_generator = MoveGenerator::new(&board);

    let (mut move_guesses, move_count) = MoveOrderer::get_move_guesses(
        &Search::new(board, megabytes_to_capacity(8)),
        &move_generator,
        EncodedMove::none(),
        EncodedMove::none(),
        0,
    );

    let mut index = 0;
    let mut next_move = || {
        let move_guess = MoveOrderer::put_highest_guessed_move(&mut move_guesses, index, move_count);
        println!("{index} {:?} {}", move_guess.move_data, move_guess.guess());
        index += 1;
        (move_guess.move_data, index != move_count)
    };

    assert!(
        next_move().0.decode()
            == Move {
                from: Square::from_notation("c4").unwrap(),
                to: Square::from_notation("b5").unwrap(),
                flag: Flag::Normal
            }
    );
    while next_move().1 {}
}

#[test]
fn guesses_come_out_highest_first() {
    let board = Board::from_fen("8/P6p/6r1/1q1n4/2P3R1/8/2K2k2/8 w - - 0 1").unwrap();
    let move_generator = MoveGenerator::new(&board);
    let search = Search::new(board, megabytes_to_capacity(8));
    let (mut guesses, count) =
        MoveOrderer::get_move_guesses(&search, &move_generator, EncodedMove::none(), EncodedMove::none(), 0);
    assert_eq!(count, guesses.len());
    let mut previous = i32::MAX;
    for index in 0..count {
        let guess = MoveOrderer::put_highest_guessed_move(&mut guesses, index, count);
        assert!(guess.guess() <= previous);
        previous = guess.guess();
    }
}

#[test]
fn capture_of_a_queen_by_a_pawn_is_guessed_exactly() {
    let board = Board::from_fen("8/P6p/6r1/1q1n4/2P3R1/8/2K2k2/8 w - - 0 1").unwrap();
    let move_generator = MoveGenerator::new(&board);
    let search = Search::new(board, megabytes_to_capacity(8));
    let (guesses, _) =
        MoveOrderer::get_move_guesses(&search, &move_generator, EncodedMove::none(), EncodedMove::none(), 0);
    let pawn_takes_queen = EncodedMove::new(Move {
        from: Square::from_notation("c4").unwrap(),
        to: Square::from_notation("b5").unwrap(),
        flag: Flag::Normal,
    });
    let promotion = EncodedMove::new(Move {
        from: Square::from_notation("a7").unwrap(),
        to: Square::from_notation("a8").unwrap(),
        flag: Flag::QueenPromotion,
    });
    for guess in &guesses {
        if guess.move_data == pawn_takes_queen {
            assert_eq!(guess.guess(), CAPTURE_BONUS + 45000);
        }
        if guess.move_data == promotion {
            assert_eq!(guess.guess(), QUEEN_PROMOTION_BONUS);
        }
    }
}

#[test]
fn hash_and_killer_moves_come_first() {
    let board = Board::from_fen(Board::START_POSITION_FEN).unwrap();
    let move_generator = MoveGenerator::new(&board);
    let search = Search::new(board, megabytes_to_capacity(8));
    let hash = EncodedMove::new(Move {
        from: Square::from_notation("b1").unwrap(),
        to: Square::from_notation("a3").unwrap(),
        flag: Flag::Normal,
    });
    let killer = EncodedMove::new(Move {
        from: Square::from_notation("h2").unwrap(),
        to: Square::from_notation("h3").unwrap(),
        flag: Flag::Normal,
    });
    let (mut guesses, count) = MoveOrderer::get_move_guesses(&search, &move_generator, hash, killer, 3);
    assert_eq!(count, 20);
    let first = MoveOrderer::put_highest_guessed_move(&mut guesses, 0, count);
    assert_eq!(first.move_data, hash);
    assert_eq!(first.guess(), HASH_MOVE_BONUS);
    let second = MoveOrderer::put_highest_guessed_move(&mut guesses, 1, count);
    assert_eq!(second.move_data, killer);
    assert_eq!(second.guess(), KILLER_MOVE_BONUS);
}

#[test]
fn captures_are_guessed_by_victim_and_attacker() {
    // White pawn on e4 can take the knight on d5, the queen on b1 can take the rook on b8.
    let board = Board::from_fen("1r2k3/8/8/3n4/4P3/8/8/1Q2K3 w - - 0 1").unwrap();
    let move_generator = MoveGenerator::new(&board);
    let search = Search::new(board, megabytes_to_capacity(8));
    let (guesses, count) = MoveOrderer::get_move_guesses_captures_only(&search, &move_generator);
    assert_eq!(count, 2);
    for guess in &guesses {
        let move_data = guess.move_data.decode();
        if move_data.from == Square::from_notation("e4").unwrap() {
            // knight victim (25), pawn attacker (0)
            assert_eq!(guess.guess(), 25);
        } else {
            // rook victim (45), queen attacker (4)
            assert_eq!(guess.guess(), 41);
        }
    }
}

#[test]
fn continuation_entries_do_not_share_a_place() {
    let mut history = ContinuationHistory::new();
    *history.get_mut(11, 63, 5, 63) = 7;
    *history.get_mut(0, 0, 0, 1) = -3;
    assert_eq!(history.get(11, 63, 5, 63), 7);
    assert_eq!(history.get(0, 0, 0, 1), -3);
    assert_eq!(history.get(0, 0, 1, 0), 0);
    assert_eq!(history.get(0, 1, 0, 0), 0);
}
