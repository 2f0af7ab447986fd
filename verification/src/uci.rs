//! The text of the Universal Chess Interface: words, moves, positions and
//! search limits.

use vstd::prelude::*;
use vstd::string::StringSliceAdditionalSpecFns;
use crate::square::{Square, rank_of, file_of};
use crate::board::{Board, BoardView};
use crate::move_data::{Flag, Move, flag_index, flag_from_index};
use crate::maker::{made, lemma_can_make_runs};
use crate::rules::{legal, legal_moves, pseudo_legal, listed, moves_upto, move_number};
use crate::move_generator::{MoveGenerator, lemma_pseudo_legal_can_make, lemma_move_number};
use crate::perft::lemma_moves_upto_legal;
use crate::fen::{fen_board, views, decimal, read_number};
use crate::search::Search;
use crate::time_manager::TimeManager;
use crate::pv::Ply;

verus! {

/// Whether a byte is ASCII white space.
pub open spec fn is_space(byte: u8) -> bool {
    byte == 32 || byte == 9 || byte == 10 || byte == 11 || byte == 12 || byte == 13
}

/// The words of a text: its longest runs of bytes that are not white space.
pub open spec fn words(bytes: Seq<u8>) -> Seq<Seq<u8>>
    decreases bytes.len(),
{
    if bytes.len() == 0 {
        Seq::empty()
    } else {
        let previous = words(bytes.drop_last());
        let byte = bytes.last();
        if is_space(byte) {
            previous
        } else if bytes.len() >= 2 && !is_space(bytes[bytes.len() - 2]) {
            previous.update(previous.len() - 1, previous.last().push(byte))
        } else {
            previous.push(seq![byte])
        }
    }
}

/// Splits a text into its words.
pub fn split_words(bytes: &[u8]) -> (pieces: Vec<Vec<u8>>)
    ensures
        views(pieces@) == words(bytes@),
{
    let mut pieces: Vec<Vec<u8>> = Vec::new();
    let mut current: Vec<u8> = Vec::new();
    let mut in_word = false;
    let mut i: usize = 0;
    proof {
        assert(bytes@.take(0) =~= Seq::<u8>::empty());
        assert(views(pieces@) =~= words(bytes@.take(0)));
    }
    while i < bytes.len()
        invariant
            i <= bytes@.len(),
            in_word == (i > 0 && !is_space(bytes@[i - 1])),
            in_word ==> current@.len() > 0,
            !in_word ==> current@.len() == 0,
            (if in_word {
                views(pieces@).push(current@)
            } else {
                views(pieces@)
            }) == words(bytes@.take(i as int)),
        decreases bytes@.len() - i,
    {
        let byte = bytes[i];
        let ghost before = if in_word {
            views(pieces@).push(current@)
        } else {
            views(pieces@)
        };
        proof {
            assert(bytes@.take(i + 1).drop_last() =~= bytes@.take(i as int));
            assert(bytes@.take(i + 1).last() == byte);
            if i > 0 {
                assert(bytes@.take(i + 1)[i - 1] == bytes@[i - 1]);
            }
        }
        let space = byte == 32 || byte == 9 || byte == 10 || byte == 11 || byte == 12 || byte == 13;
        if space {
            if in_word {
                pieces.push(current);
                current = Vec::new();
                in_word = false;
                proof {
                    assert(views(pieces@) =~= before);
                }
            }
        } else {
            current.push(byte);
            if in_word {
                proof {
                    assert(views(pieces@).push(current@) =~= before.update(
                        before.len() - 1,
                        before.last().push(byte),
                    ));
                }
            } else {
                in_word = true;
                proof {
                    assert(current@ =~= seq![byte]);
                    assert(views(pieces@).push(current@) =~= before.push(seq![byte]));
                }
            }
        }
        i = i + 1;
    }
    proof {
        assert(bytes@.take(bytes@.len() as int) =~= bytes@);
    }
    if in_word {
        pieces.push(current);
        proof {
            assert(views(pieces@) =~= views(pieces@.drop_last()).push(current@));
        }
    }
    pieces
}

/// The letter naming the promotion of a move, if it is one: `q`, `r`, `b` or `n`.
pub open spec fn promotion_letter(flag: Flag) -> Seq<u8> {
    match flag {
        Flag::QueenPromotion => seq![113u8],
        Flag::RookPromotion => seq![114u8],
        Flag::BishopPromotion => seq![98u8],
        Flag::KnightPromotion => seq![110u8],
        _ => Seq::empty(),
    }
}

/// A square in algebraic notation: file letter, then rank digit.
pub open spec fn square_text(square: Square) -> Seq<u8> {
    seq![(97 + file_of(square.0 as int)) as u8, (49 + rank_of(square.0 as int)) as u8]
}

/// A move in long algebraic notation: its start square, its target square,
/// and the letter of the piece it promotes to.
pub open spec fn move_text(move_data: Move) -> Seq<u8> {
    square_text(move_data.from) + square_text(move_data.to) + promotion_letter(move_data.flag)
}

/// Writes a move in long algebraic notation (castling is the king's move,
/// such as `e1g1`).
pub fn encode_move(move_data: Move) -> (text: Vec<u8>)
    requires
        move_data.is_valid(),
    ensures
        text@ == move_text(move_data),
{
    let (from_file, from_rank) = move_data.from.notation_bytes();
    let (to_file, to_rank) = move_data.to.notation_bytes();
    let mut text: Vec<u8> = Vec::new();
    text.push(from_file);
    text.push(from_rank);
    text.push(to_file);
    text.push(to_rank);
    match move_data.flag {
        Flag::QueenPromotion => text.push(113),
        Flag::RookPromotion => text.push(114),
        Flag::BishopPromotion => text.push(98),
        Flag::KnightPromotion => text.push(110),
        _ => {},
    }
    assert(text@ =~= move_text(move_data));
    text
}

/// The first of the moves whose text is the given one.
pub open spec fn first_with_text(moves: Seq<Move>, text: Seq<u8>) -> Option<Move>
    decreases moves.len(),
{
    if moves.len() == 0 {
        None
    } else if move_text(moves[0]) == text {
        Some(moves[0])
    } else {
        first_with_text(moves.drop_first(), text)
    }
}

/// The legal move of the position written as the text.
pub open spec fn move_of_text(v: BoardView, text: Seq<u8>) -> Option<Move> {
    first_with_text(legal_moves(v, false), text)
}

/// Whether two byte strings are equal.
fn same_bytes(a: &[u8], b: &[u8]) -> (same: bool)
    ensures
        same == (a@ == b@),
{
    if a.len() != b.len() {
        return false;
    }
    let mut i: usize = 0;
    while i < a.len()
        invariant
            a@.len() == b@.len(),
            i <= a@.len(),
            forall|j: int| 0 <= j < i ==> a@[j] == b@[j],
        decreases a@.len() - i,
    {
        if a[i] != b[i] {
            return false;
        }
        i = i + 1;
    }
    assert(a@ =~= b@);
    true
}

/// The commands of the Universal Chess Interface that the engine knows.
#[derive(Clone, Copy, PartialEq, Eq, Structural, Debug)]
pub enum UciCommand {
    IsReady,
    Go,
    Position,
    UciNewGame,
    SetOption,
    PonderHit,
    Stop,
    Uci,
    Quit,
    Bench,
}

/// The command a word names, if any.
pub open spec fn spec_command_of(word: Seq<u8>) -> Option<UciCommand> {
    if word == "isready".spec_bytes() {
        Some(UciCommand::IsReady)
    } else if word == "go".spec_bytes() {
        Some(UciCommand::Go)
    } else if word == "position".spec_bytes() {
        Some(UciCommand::Position)
    } else if word == "ucinewgame".spec_bytes() {
        Some(UciCommand::UciNewGame)
    } else if word == "setoption".spec_bytes() {
        Some(UciCommand::SetOption)
    } else if word == "ponderhit".spec_bytes() {
        Some(UciCommand::PonderHit)
    } else if word == "stop".spec_bytes() {
        Some(UciCommand::Stop)
    } else if word == "uci".spec_bytes() {
        Some(UciCommand::Uci)
    } else if word == "quit".spec_bytes() {
        Some(UciCommand::Quit)
    } else if word == "bench".spec_bytes() {
        Some(UciCommand::Bench)
    } else {
        None
    }
}

/// Each command word of the protocol names its own command: `uci`,
/// `isready`, `position`, `go`, `stop`, `ponderhit`, `setoption`,
/// `ucinewgame`, `quit` and `bench`, written in lower case.
pub proof fn lemma_command_words()
    ensures
        spec_command_of(seq![105u8, 115u8, 114u8, 101u8, 97u8, 100u8, 121u8]) == Some(UciCommand::IsReady),
        spec_command_of(seq![103u8, 111u8]) == Some(UciCommand::Go),
        spec_command_of(seq![112u8, 111u8, 115u8, 105u8, 116u8, 105u8, 111u8, 110u8]) == Some(UciCommand::Position),
        spec_command_of(seq![117u8, 99u8, 105u8, 110u8, 101u8, 119u8, 103u8, 97u8, 109u8, 101u8]) == Some(UciCommand::UciNewGame),
        spec_command_of(seq![115u8, 101u8, 116u8, 111u8, 112u8, 116u8, 105u8, 111u8, 110u8]) == Some(UciCommand::SetOption),
        spec_command_of(seq![112u8, 111u8, 110u8, 100u8, 101u8, 114u8, 104u8, 105u8, 116u8]) == Some(UciCommand::PonderHit),
        spec_command_of(seq![115u8, 116u8, 111u8, 112u8]) == Some(UciCommand::Stop),
        spec_command_of(seq![117u8, 99u8, 105u8]) == Some(UciCommand::Uci),
        spec_command_of(seq![113u8, 117u8, 105u8, 116u8]) == Some(UciCommand::Quit),
        spec_command_of(seq![98u8, 101u8, 110u8, 99u8, 104u8]) == Some(UciCommand::Bench),
{
    reveal_strlit("isready");
    vstd::utf8::is_ascii_chars_encode_utf8("isready"@);
    assert("isready".spec_bytes() =~= seq![105u8, 115u8, 114u8, 101u8, 97u8, 100u8, 121u8]);
    reveal_strlit("go");
    vstd::utf8::is_ascii_chars_encode_utf8("go"@);
    assert("go".spec_bytes() =~= seq![103u8, 111u8]);
    reveal_strlit("position");
    vstd::utf8::is_ascii_chars_encode_utf8("position"@);
    assert("position".spec_bytes() =~= seq![112u8, 111u8, 115u8, 105u8, 116u8, 105u8, 111u8, 110u8]);
    reveal_strlit("ucinewgame");
    vstd::utf8::is_ascii_chars_encode_utf8("ucinewgame"@);
    assert("ucinewgame".spec_bytes() =~= seq![117u8, 99u8, 105u8, 110u8, 101u8, 119u8, 103u8, 97u8, 109u8, 101u8]);
    reveal_strlit("setoption");
    vstd::utf8::is_ascii_chars_encode_utf8("setoption"@);
    assert("setoption".spec_bytes() =~= seq![115u8, 101u8, 116u8, 111u8, 112u8, 116u8, 105u8, 111u8, 110u8]);
    reveal_strlit("ponderhit");
    vstd::utf8::is_ascii_chars_encode_utf8("ponderhit"@);
    assert("ponderhit".spec_bytes() =~= seq![112u8, 111u8, 110u8, 100u8, 101u8, 114u8, 104u8, 105u8, 116u8]);
    reveal_strlit("stop");
    vstd::utf8::is_ascii_chars_encode_utf8("stop"@);
    assert("stop".spec_bytes() =~= seq![115u8, 116u8, 111u8, 112u8]);
    reveal_strlit("uci");
    vstd::utf8::is_ascii_chars_encode_utf8("uci"@);
    assert("uci".spec_bytes() =~= seq![117u8, 99u8, 105u8]);
    reveal_strlit("quit");
    vstd::utf8::is_ascii_chars_encode_utf8("quit"@);
    assert("quit".spec_bytes() =~= seq![113u8, 117u8, 105u8, 116u8]);
    reveal_strlit("bench");
    vstd::utf8::is_ascii_chars_encode_utf8("bench"@);
    assert("bench".spec_bytes() =~= seq![98u8, 101u8, 110u8, 99u8, 104u8]);
}

/// The command a word names, if any (see `spec_command_of`).
pub fn command_of(word: &[u8]) -> (command: Option<UciCommand>)
    ensures
        command == spec_command_of(word@),
{
    if same_bytes(word, "isready".as_bytes()) {
        Some(UciCommand::IsReady)
    } else if same_bytes(word, "go".as_bytes()) {
        Some(UciCommand::Go)
    } else if same_bytes(word, "position".as_bytes()) {
        Some(UciCommand::Position)
    } else if same_bytes(word, "ucinewgame".as_bytes()) {
        Some(UciCommand::UciNewGame)
    } else if same_bytes(word, "setoption".as_bytes()) {
        Some(UciCommand::SetOption)
    } else if same_bytes(word, "ponderhit".as_bytes()) {
        Some(UciCommand::PonderHit)
    } else if same_bytes(word, "stop".as_bytes()) {
        Some(UciCommand::Stop)
    } else if same_bytes(word, "uci".as_bytes()) {
        Some(UciCommand::Uci)
    } else if same_bytes(word, "quit".as_bytes()) {
        Some(UciCommand::Quit)
    } else if same_bytes(word, "bench".as_bytes()) {
        Some(UciCommand::Bench)
    } else {
        None
    }
}

/// Reads a move in long algebraic notation: the legal move of the board
/// with that text, if there is one.
pub fn decode_move(board: &Board, text: &[u8]) -> (move_data: Option<Move>)
    requires
        board.wf(),
    ensures
        move_data == move_of_text(board@, text@),
        move_data matches Some(m) ==> legal(board@, m),
{
    let moves = MoveGenerator::new(board).generate(false);
    proof {
        lemma_moves_upto_legal(board@, false, 32768);
        assert(moves@.skip(0) =~= moves@);
    }
    let mut i: usize = 0;
    while i < moves.len()
        invariant
            i <= moves@.len(),
            moves@ == legal_moves(board@, false),
            forall|j: int| 0 <= j < moves@.len() ==> legal(board@, #[trigger] moves@[j]),
            first_with_text(moves@.skip(i as int), text@) == first_with_text(moves@, text@),
        decreases moves@.len() - i,
    {
        let candidate = moves[i];
        proof {
            assert(moves@.skip(i as int)[0] == candidate);
            assert(moves@.skip(i as int).drop_first() =~= moves@.skip(i + 1));
        }
        proof {
            assert(legal(board@, candidate));
            lemma_pseudo_legal_can_make(board@, candidate);
        }
        let candidate_text = encode_move(candidate);
        if same_bytes(candidate_text.as_slice(), text) {
            proof {
                assert(legal(board@, moves@[i as int]));
            }
            return Some(candidate);
        }
        i = i + 1;
    }
    proof {
        assert(moves@.skip(moves@.len() as int) =~= Seq::<Move>::empty());
    }
    None
}

/// Plays the moves written as texts one after another; `None` when one is
/// not a legal move, or when the half move clock has reached its largest value.
pub open spec fn play(v: BoardView, texts: Seq<Seq<u8>>) -> Option<BoardView>
    decreases texts.len(),
{
    if texts.len() == 0 {
        Some(v)
    } else if v.state.half_move_clock == u32::MAX {
        None
    } else {
        match move_of_text(v, texts[0]) {
            Some(m) => play(made(v, m), texts.drop_first()),
            None => None,
        }
    }
}

/// Words joined by single spaces.
pub open spec fn join(words: Seq<Seq<u8>>) -> Seq<u8>
    decreases words.len(),
{
    if words.len() == 0 {
        Seq::empty()
    } else if words.len() == 1 {
        words[0]
    } else {
        join(words.drop_last()) + seq![32u8] + words.last()
    }
}

/// The position the words after `position` describe: `startpos`, or `fen`
/// and the six fields of a position, then optionally `moves` and the moves
/// played from it.
pub open spec fn position_of_words(words: Seq<Seq<u8>>) -> Option<BoardView> {
    let start = if words.len() >= 1 && words[0] == "startpos".spec_bytes() {
        fen_board(Board::START_POSITION_FEN.spec_bytes())
    } else if words.len() >= 7 && words[0] == "fen".spec_bytes() {
        fen_board(join(words.subrange(1, 7)))
    } else {
        None
    };
    let rest = if words.len() >= 1 && words[0] == "startpos".spec_bytes() {
        words.skip(1)
    } else {
        words.skip(7)
    };
    match start {
        None => None,
        Some(v) => if rest.len() == 0 {
            Some(v)
        } else if rest[0] == "moves".spec_bytes() {
            play(v, rest.skip(1))
        } else {
            None
        },
    }
}

/// Plays moves written as texts on the board (see `play`).
pub fn play_moves(board: &mut Board, texts: &[Vec<u8>]) -> (played: bool)
    requires
        old(board).wf(),
    ensures
        played == (play(old(board)@, views(texts@)) is Some),
        played ==> final(board).wf() && final(board)@ == play(old(board)@, views(texts@))->0,
{
    let ghost initial = board@;
    let mut i: usize = 0;
    proof {
        assert(views(texts@).skip(0) =~= views(texts@));
    }
    while i < texts.len()
        invariant
            i <= texts@.len(),
            board.wf(),
            initial == old(board)@,
            play(board@, views(texts@).skip(i as int)) == play(initial, views(texts@)),
        decreases texts@.len() - i,
    {
        let ghost rest = views(texts@).skip(i as int);
        proof {
            assert(rest.len() == texts@.len() - i);
            assert(rest[0] == texts@[i as int]@);
            assert(rest.drop_first() =~= views(texts@).skip(i + 1));
        }
        if board.game_state.half_move_clock == 0xffff_ffff {
            proof {
                assert(play(board@, rest) is None);
            }
            return false;
        }
        match decode_move(board, texts[i].as_slice()) {
            Some(m) => {
                proof {
                    lemma_pseudo_legal_can_make(board@, m);
                    lemma_can_make_runs(*board, m);
                }
                board.make_move(&m);
            },
            None => {
                proof {
                    assert(play(board@, rest) is None);
                }
                return false;
            },
        }
        i = i + 1;
    }
    proof {
        assert(views(texts@).skip(texts@.len() as int) =~= Seq::<Seq<u8>>::empty());
    }
    true
}

/// Joins words with single spaces.
fn join_words(words: &[Vec<u8>]) -> (joined: Vec<u8>)
    ensures
        joined@ == join(views(words@)),
{
    let mut joined: Vec<u8> = Vec::new();
    let mut i: usize = 0;
    proof {
        assert(views(words@).take(0) =~= Seq::<Seq<u8>>::empty());
    }
    while i < words.len()
        invariant
            i <= words@.len(),
            joined@ == join(views(words@).take(i as int)),
        decreases words@.len() - i,
    {
        let ghost before = joined@;
        if i > 0 {
            joined.push(32);
        }
        let word = &words[i];
        let mut j: usize = 0;
        let ghost middle = joined@;
        while j < word.len()
            invariant
                j <= word@.len(),
                joined@ == middle + word@.take(j as int),
            decreases word@.len() - j,
        {
            joined.push(word[j]);
            proof {
                assert(word@.take(j + 1) =~= word@.take(j as int).push(word@[j as int]));
            }
            j = j + 1;
        }
        proof {
            assert(word@.take(word@.len() as int) =~= word@);
            let taken = views(words@).take(i + 1);
            assert(taken.drop_last() =~= views(words@).take(i as int));
            assert(taken.last() == word@);
            if i == 0 {
                assert(joined@ =~= join(taken));
            } else {
                assert(joined@ =~= join(taken));
            }
        }
        i = i + 1;
    }
    proof {
        assert(views(words@).take(words@.len() as int) =~= views(words@));
    }
    joined
}

/// Sets up the position the words after `position` describe (see
/// `position_of_words`).
pub fn parse_position(words: &Vec<Vec<u8>>) -> (board: Option<Board>)
    ensures
        board is Some <==> position_of_words(views(words@)) is Some,
        board matches Some(b) ==> b.wf() && b@ == position_of_words(views(words@))->0,
{
    let ghost texts = views(words@);
    let (start, rest_from) = if words.len() >= 1 && same_bytes(words[0].as_slice(), "startpos".as_bytes()) {
        (Board::from_fen(Board::START_POSITION_FEN), 1usize)
    } else if words.len() >= 7 && same_bytes(words[0].as_slice(), "fen".as_bytes()) {
        let fen = join_words(&words.as_slice()[1..7]);
        proof {
            assert(views(words@.subrange(1, 7)) =~= texts.subrange(1, 7));
        }
        (Board::from_fen_bytes(fen.as_slice()), 7usize)
    } else {
        return None;
    };
    let mut board = match start {
        Some(board) => board,
        None => return None,
    };
    let ghost rest = texts.skip(rest_from as int);
    if words.len() == rest_from {
        return Some(board);
    }
    if !same_bytes(words[rest_from].as_slice(), "moves".as_bytes()) {
        return None;
    }
    let moves = &words.as_slice()[rest_from + 1..words.len()];
    proof {
        assert(views(moves@) =~= rest.skip(1));
    }
    if play_moves(&mut board, moves) {
        Some(board)
    } else {
        None
    }
}

/// What `go` asks of a search.
#[derive(Clone, Copy, PartialEq, Eq, Structural, Debug)]
pub struct GoParameters {
    /// Milliseconds left on White's clock.
    pub white_time: Option<u64>,
    /// Milliseconds left on Black's clock.
    pub black_time: Option<u64>,
    pub white_increment: Option<u64>,
    pub black_increment: Option<u64>,
    pub moves_to_go: Option<u64>,
    pub depth: Option<u64>,
    pub nodes: Option<u64>,
    pub mate: Option<u64>,
    /// Milliseconds to search for.
    pub move_time: Option<u64>,
    pub infinite: bool,
    pub ponder: bool,
    /// Depth of a perft count asked for instead of a search.
    pub perft: Option<u64>,
}

/// No limit asked for.
pub open spec fn no_parameters() -> GoParameters {
    GoParameters {
        white_time: None,
        black_time: None,
        white_increment: None,
        black_increment: None,
        moves_to_go: None,
        depth: None,
        nodes: None,
        mate: None,
        move_time: None,
        infinite: false,
        ponder: false,
        perft: None,
    }
}

/// The value of a number word, if it fits in 64 bits.
pub open spec fn number(word: Seq<u8>) -> Option<u64> {
    if decimal(word) is Some && decimal(word)->0 <= u64::MAX {
        Some(decimal(word)->0 as u64)
    } else {
        None
    }
}

/// The parameters after setting the one a label names to a value (the
/// label is known to be one that takes a value).
pub open spec fn with_value(p: GoParameters, label: Seq<u8>, value: u64) -> GoParameters {
    if label == "wtime".spec_bytes() {
        GoParameters { white_time: Some(value), ..p }
    } else if label == "btime".spec_bytes() {
        GoParameters { black_time: Some(value), ..p }
    } else if label == "winc".spec_bytes() {
        GoParameters { white_increment: Some(value), ..p }
    } else if label == "binc".spec_bytes() {
        GoParameters { black_increment: Some(value), ..p }
    } else if label == "movestogo".spec_bytes() {
        GoParameters { moves_to_go: Some(value), ..p }
    } else if label == "depth".spec_bytes() {
        GoParameters { depth: Some(value), ..p }
    } else if label == "nodes".spec_bytes() {
        GoParameters { nodes: Some(value), ..p }
    } else if label == "mate".spec_bytes() {
        GoParameters { mate: Some(value), ..p }
    } else if label == "movetime".spec_bytes() {
        GoParameters { move_time: Some(value), ..p }
    } else {
        GoParameters { perft: Some(value), ..p }
    }
}

/// Whether a label takes a number after it.
pub open spec fn takes_value(label: Seq<u8>) -> bool {
    label == "wtime".spec_bytes() || label == "btime".spec_bytes() || label == "winc".spec_bytes() || label
        == "binc".spec_bytes() || label == "movestogo".spec_bytes() || label == "depth".spec_bytes() || label
        == "nodes".spec_bytes() || label == "mate".spec_bytes() || label == "movetime".spec_bytes() || label
        == "perft".spec_bytes()
}

/// Reads the words after `go` into the parameters `p`: each label that
/// takes a value with the number after it, `ponder` and `infinite` alone,
/// `searchmoves` ignored; `None` for any other word or a missing number.
pub open spec fn go_parameters(p: GoParameters, words: Seq<Seq<u8>>) -> Option<GoParameters>
    decreases words.len(),
{
    if words.len() == 0 {
        Some(p)
    } else {
        let label = words[0];
        if label == "searchmoves".spec_bytes() {
            go_parameters(p, words.drop_first())
        } else if label == "ponder".spec_bytes() {
            go_parameters(GoParameters { ponder: true, ..p }, words.drop_first())
        } else if label == "infinite".spec_bytes() {
            go_parameters(GoParameters { infinite: true, ..p }, words.drop_first())
        } else if takes_value(label) && words.len() >= 2 && number(words[1]) is Some {
            go_parameters(with_value(p, label, number(words[1])->0), words.skip(2))
        } else {
            None
        }
    }
}

/// Reading the words after `go` one step at a time: a label that takes a
/// value followed by a number sets that label's field to the number and
/// leaves every other field as it was (so of two occurrences the last one
/// counts); `ponder` and `infinite` set their flags; `searchmoves` changes
/// nothing; and with no words left the parameters are those read so far.
#[verifier::rlimit(40)]
pub proof fn lemma_go_steps(p: GoParameters, value: Seq<u8>, rest: Seq<Seq<u8>>)
    requires
        number(value) is Some,
    ensures
        go_parameters(p, Seq::empty()) == Some(p),
        go_parameters(p, seq![seq![119u8, 116u8, 105u8, 109u8, 101u8], value] + rest) == go_parameters(GoParameters { white_time: Some(number(value)->0), ..p }, rest),
        go_parameters(p, seq![seq![98u8, 116u8, 105u8, 109u8, 101u8], value] + rest) == go_parameters(GoParameters { black_time: Some(number(value)->0), ..p }, rest),
        go_parameters(p, seq![seq![119u8, 105u8, 110u8, 99u8], value] + rest) == go_parameters(GoParameters { white_increment: Some(number(value)->0), ..p }, rest),
        go_parameters(p, seq![seq![98u8, 105u8, 110u8, 99u8], value] + rest) == go_parameters(GoParameters { black_increment: Some(number(value)->0), ..p }, rest),
        go_parameters(p, seq![seq![109u8, 111u8, 118u8, 101u8, 115u8, 116u8, 111u8, 103u8, 111u8], value] + rest) == go_parameters(GoParameters { moves_to_go: Some(number(value)->0), ..p }, rest),
        go_parameters(p, seq![seq![100u8, 101u8, 112u8, 116u8, 104u8], value] + rest) == go_parameters(GoParameters { depth: Some(number(value)->0), ..p }, rest),
        go_parameters(p, seq![seq![110u8, 111u8, 100u8, 101u8, 115u8], value] + rest) == go_parameters(GoParameters { nodes: Some(number(value)->0), ..p }, rest),
        go_parameters(p, seq![seq![109u8, 97u8, 116u8, 101u8], value] + rest) == go_parameters(GoParameters { mate: Some(number(value)->0), ..p }, rest),
        go_parameters(p, seq![seq![109u8, 111u8, 118u8, 101u8, 116u8, 105u8, 109u8, 101u8], value] + rest) == go_parameters(GoParameters { move_time: Some(number(value)->0), ..p }, rest),
        go_parameters(p, seq![seq![112u8, 101u8, 114u8, 102u8, 116u8], value] + rest) == go_parameters(GoParameters { perft: Some(number(value)->0), ..p }, rest),
        go_parameters(p, seq![seq![112u8, 111u8, 110u8, 100u8, 101u8, 114u8]] + rest) == go_parameters(GoParameters { ponder: true, ..p }, rest),
        go_parameters(p, seq![seq![105u8, 110u8, 102u8, 105u8, 110u8, 105u8, 116u8, 101u8]] + rest) == go_parameters(GoParameters { infinite: true, ..p }, rest),
        go_parameters(p, seq![seq![115u8, 101u8, 97u8, 114u8, 99u8, 104u8, 109u8, 111u8, 118u8, 101u8, 115u8]] + rest) == go_parameters(p, rest),
{
    reveal_strlit("wtime");
    vstd::utf8::is_ascii_chars_encode_utf8("wtime"@);
    assert("wtime".spec_bytes() =~= seq![119u8, 116u8, 105u8, 109u8, 101u8]);
    reveal_strlit("btime");
    vstd::utf8::is_ascii_chars_encode_utf8("btime"@);
    assert("btime".spec_bytes() =~= seq![98u8, 116u8, 105u8, 109u8, 101u8]);
    reveal_strlit("winc");
    vstd::utf8::is_ascii_chars_encode_utf8("winc"@);
    assert("winc".spec_bytes() =~= seq![119u8, 105u8, 110u8, 99u8]);
    reveal_strlit("binc");
    vstd::utf8::is_ascii_chars_encode_utf8("binc"@);
    assert("binc".spec_bytes() =~= seq![98u8, 105u8, 110u8, 99u8]);
    reveal_strlit("movestogo");
    vstd::utf8::is_ascii_chars_encode_utf8("movestogo"@);
    assert("movestogo".spec_bytes() =~= seq![109u8, 111u8, 118u8, 101u8, 115u8, 116u8, 111u8, 103u8, 111u8]);
    reveal_strlit("depth");
    vstd::utf8::is_ascii_chars_encode_utf8("depth"@);
    assert("depth".spec_bytes() =~= seq![100u8, 101u8, 112u8, 116u8, 104u8]);
    reveal_strlit("nodes");
    vstd::utf8::is_ascii_chars_encode_utf8("nodes"@);
    assert("nodes".spec_bytes() =~= seq![110u8, 111u8, 100u8, 101u8, 115u8]);
    reveal_strlit("mate");
    vstd::utf8::is_ascii_chars_encode_utf8("mate"@);
    assert("mate".spec_bytes() =~= seq![109u8, 97u8, 116u8, 101u8]);
    reveal_strlit("movetime");
    vstd::utf8::is_ascii_chars_encode_utf8("movetime"@);
    assert("movetime".spec_bytes() =~= seq![109u8, 111u8, 118u8, 101u8, 116u8, 105u8, 109u8, 101u8]);
    reveal_strlit("perft");
    vstd::utf8::is_ascii_chars_encode_utf8("perft"@);
    assert("perft".spec_bytes() =~= seq![112u8, 101u8, 114u8, 102u8, 116u8]);
    reveal_strlit("searchmoves");
    vstd::utf8::is_ascii_chars_encode_utf8("searchmoves"@);
    assert("searchmoves".spec_bytes() =~= seq![115u8, 101u8, 97u8, 114u8, 99u8, 104u8, 109u8, 111u8, 118u8, 101u8, 115u8]);
    reveal_strlit("ponder");
    vstd::utf8::is_ascii_chars_encode_utf8("ponder"@);
    assert("ponder".spec_bytes() =~= seq![112u8, 111u8, 110u8, 100u8, 101u8, 114u8]);
    reveal_strlit("infinite");
    vstd::utf8::is_ascii_chars_encode_utf8("infinite"@);
    assert("infinite".spec_bytes() =~= seq![105u8, 110u8, 102u8, 105u8, 110u8, 105u8, 116u8, 101u8]);
    assert((seq![seq![119u8, 116u8, 105u8, 109u8, 101u8], value] + rest).skip(2) =~= rest);
    assert((seq![seq![98u8, 116u8, 105u8, 109u8, 101u8], value] + rest).skip(2) =~= rest);
    assert((seq![seq![119u8, 105u8, 110u8, 99u8], value] + rest).skip(2) =~= rest);
    assert((seq![seq![98u8, 105u8, 110u8, 99u8], value] + rest).skip(2) =~= rest);
    assert((seq![seq![109u8, 111u8, 118u8, 101u8, 115u8, 116u8, 111u8, 103u8, 111u8], value] + rest).skip(2) =~= rest);
    assert((seq![seq![100u8, 101u8, 112u8, 116u8, 104u8], value] + rest).skip(2) =~= rest);
    assert((seq![seq![110u8, 111u8, 100u8, 101u8, 115u8], value] + rest).skip(2) =~= rest);
    assert((seq![seq![109u8, 97u8, 116u8, 101u8], value] + rest).skip(2) =~= rest);
    assert((seq![seq![109u8, 111u8, 118u8, 101u8, 116u8, 105u8, 109u8, 101u8], value] + rest).skip(2) =~= rest);
    assert((seq![seq![112u8, 101u8, 114u8, 102u8, 116u8], value] + rest).skip(2) =~= rest);
    assert((seq![seq![112u8, 111u8, 110u8, 100u8, 101u8, 114u8]] + rest).drop_first() =~= rest);
    assert((seq![seq![105u8, 110u8, 102u8, 105u8, 110u8, 105u8, 116u8, 101u8]] + rest).drop_first() =~= rest);
    assert((seq![seq![115u8, 101u8, 97u8, 114u8, 99u8, 104u8, 109u8, 111u8, 118u8, 101u8, 115u8]] + rest).drop_first() =~= rest);
}

impl GoParameters {
    /// No limit asked for.
    pub fn empty() -> (parameters: GoParameters)
        ensures
            parameters == no_parameters(),
    {
        GoParameters {
            white_time: None,
            black_time: None,
            white_increment: None,
            black_increment: None,
            moves_to_go: None,
            depth: None,
            nodes: None,
            mate: None,
            move_time: None,
            infinite: false,
            ponder: false,
            perft: None,
        }
    }

    /// Reads the words after `go` (see `go_parameters`); `false`, with the
    /// parameters read so far, on a word it does not know.
    pub fn parse(&mut self, words: &[Vec<u8>]) -> (parsed: bool)
        ensures
            parsed == (go_parameters(*old(self), views(words@)) is Some),
            parsed ==> *final(self) == go_parameters(*old(self), views(words@))->0,
    {
        let ghost initial = *self;
        let mut i: usize = 0;
        proof {
            assert(views(words@).skip(0) =~= views(words@));
        }
        while i < words.len()
            invariant
                i <= words@.len(),
                initial == *old(self),
                go_parameters(*self, views(words@).skip(i as int)) == go_parameters(initial, views(words@)),
            decreases words@.len() - i,
        {
            let ghost rest = views(words@).skip(i as int);
            proof {
                assert(rest.len() == words@.len() - i);
                assert(rest[0] == words@[i as int]@);
                assert(rest.drop_first() =~= views(words@).skip(i + 1));
            }
            let label = words[i].as_slice();
            if same_bytes(label, "searchmoves".as_bytes()) {
                i = i + 1;
            } else if same_bytes(label, "ponder".as_bytes()) {
                self.ponder = true;
                i = i + 1;
            } else if same_bytes(label, "infinite".as_bytes()) {
                self.infinite = true;
                i = i + 1;
            } else {
                if i + 1 >= words.len() {
                    return false;
                }
                let value = match read_number(words[i + 1].as_slice()) {
                    Some(value) => value,
                    None => return false,
                };
                proof {
                    assert(rest[1] == words@[i + 1]@);
                    assert(rest.skip(2) =~= views(words@).skip(i + 2));
                }
                if same_bytes(label, "wtime".as_bytes()) {
                    self.white_time = Some(value);
                } else if same_bytes(label, "btime".as_bytes()) {
                    self.black_time = Some(value);
                } else if same_bytes(label, "winc".as_bytes()) {
                    self.white_increment = Some(value);
                } else if same_bytes(label, "binc".as_bytes()) {
                    self.black_increment = Some(value);
                } else if same_bytes(label, "movestogo".as_bytes()) {
                    self.moves_to_go = Some(value);
                } else if same_bytes(label, "depth".as_bytes()) {
                    self.depth = Some(value);
                } else if same_bytes(label, "nodes".as_bytes()) {
                    self.nodes = Some(value);
                } else if same_bytes(label, "mate".as_bytes()) {
                    self.mate = Some(value);
                } else if same_bytes(label, "movetime".as_bytes()) {
                    self.move_time = Some(value);
                } else if same_bytes(label, "perft".as_bytes()) {
                    self.perft = Some(value);
                } else {
                    return false;
                }
                i = i + 2;
            }
        }
        proof {
            assert(views(words@).skip(words@.len() as int) =~= Seq::<Seq<u8>>::empty());
        }
        true
    }
}

/// The limits of the search the parameters ask for, for the side to move:
/// to a depth (at most 255) if one is given; else for the move time; else
/// without end if `infinite`; else by the side's clock and increment (as
/// `Search::calculate_time` divides it, when the numbers allow); else
/// without end. A node limit, if given, applies in every case.
pub fn time_manager_for(parameters: &GoParameters, white_to_move: bool, search: &Search) -> (time_manager:
    TimeManager)
    ensures
        time_manager.spec_max_nodes() == parameters.nodes,
        parameters.depth matches Some(depth) ==> !time_manager.interruptible() && time_manager.spec_max_depth()
            == Some((if depth < 255 {
            depth
        } else {
            255
        }) as Ply),
        parameters.depth is None ==> time_manager.spec_max_depth() is None,
        parameters.depth is None && parameters.move_time is Some ==> time_manager.spec_hard_time_limit()
            == parameters.move_time && time_manager.spec_soft_time_limit() == parameters.move_time,
        parameters.depth is None && parameters.move_time is None && parameters.infinite ==> !time_manager.interruptible(),
        parameters.depth is None && parameters.move_time is None && !parameters.infinite ==> {
            let clock = if white_to_move {
                parameters.white_time
            } else {
                parameters.black_time
            };
            let increment = match (if white_to_move {
                parameters.white_increment
            } else {
                parameters.black_increment
            }) {
                Some(increment) => increment,
                None => 0u64,
            };
            let tunable = search.spec_tunable();
            match clock {
                Some(clock) => if tunable.hard_time_divisor > 0 && tunable.soft_time_divisor > 0 && increment
                    <= 0x3fff_ffff_ffff_ffff && clock / tunable.hard_time_divisor <= 0x7fff_ffff_ffff_ffff
                    && clock / tunable.soft_time_divisor <= 0x7fff_ffff_ffff_ffff {
                    let hard = crate::search::min(
                        clock / tunable.hard_time_divisor + increment * 2,
                        (clock / 2) as int,
                    );
                    let soft = crate::search::min(
                        clock / tunable.soft_time_divisor + (increment / 2) as int,
                        hard,
                    );
                    time_manager.spec_hard_time_limit() == Some(hard as u64) && time_manager.spec_soft_time_limit()
                        == Some(soft as u64)
                } else {
                    !time_manager.interruptible()
                },
                None => !time_manager.interruptible(),
            }
        },
{
    if let Some(depth) = parameters.depth {
        let depth: Ply = if depth < 255 {
            depth as Ply
        } else {
            255
        };
        return TimeManager::depth_limited(parameters.nodes, depth);
    }
    if let Some(move_time) = parameters.move_time {
        return TimeManager::time_limited(move_time, move_time, None, parameters.nodes);
    }
    if parameters.infinite {
        return TimeManager::infinite(parameters.nodes);
    }
    let (clock, increment) = if white_to_move {
        (parameters.white_time, parameters.white_increment)
    } else {
        (parameters.black_time, parameters.black_increment)
    };
    let increment = match increment {
        Some(increment) => increment,
        None => 0,
    };
    match clock {
        Some(clock) => {
            let tunable = search.tunable();
            if tunable.hard_time_divisor > 0 && tunable.soft_time_divisor > 0 && increment
                <= 0x3fff_ffff_ffff_ffff && clock / tunable.hard_time_divisor <= 0x7fff_ffff_ffff_ffff
                && clock / tunable.soft_time_divisor <= 0x7fff_ffff_ffff_ffff {
                let (hard, soft) = search.calculate_time(clock, increment);
                TimeManager::time_limited(hard, soft, None, parameters.nodes)
            } else {
                TimeManager::infinite(parameters.nodes)
            }
        },
        None => TimeManager::infinite(parameters.nodes),
    }
}

/// Squares with the same notation are the same square.
proof fn lemma_square_text_injective(a: Square, b: Square)
    requires
        a.is_valid(),
        b.is_valid(),
        square_text(a) == square_text(b),
    ensures
        a == b,
{
    assert(square_text(a)[0] == square_text(b)[0]);
    assert(square_text(a)[1] == square_text(b)[1]);
    assert(a.0 == 8 * rank_of(a.0 as int) + file_of(a.0 as int));
    assert(b.0 == 8 * rank_of(b.0 as int) + file_of(b.0 as int));
}

/// Two legal moves of a position with the same text are the same move.
#[verifier::rlimit(40)]
proof fn lemma_move_text_injective(v: BoardView, a: Move, b: Move)
    requires
        legal(v, a),
        legal(v, b),
        move_text(a) == move_text(b),
    ensures
        a == b,
{
    let ta = move_text(a);
    let tb = move_text(b);
    assert(ta[0] == square_text(a.from)[0] && ta[1] == square_text(a.from)[1]);
    assert(tb[0] == square_text(b.from)[0] && tb[1] == square_text(b.from)[1]);
    assert(ta[2] == square_text(a.to)[0] && ta[3] == square_text(a.to)[1]);
    assert(tb[2] == square_text(b.to)[0] && tb[3] == square_text(b.to)[1]);
    assert(square_text(a.from) =~= square_text(b.from));
    assert(square_text(a.to) =~= square_text(b.to));
    lemma_square_text_injective(a.from, b.from);
    lemma_square_text_injective(a.to, b.to);
    assert(promotion_letter(a.flag).len() == promotion_letter(b.flag).len());
    if promotion_letter(a.flag).len() == 1 {
        assert(ta[4] == promotion_letter(a.flag)[0]);
        assert(tb[4] == promotion_letter(b.flag)[0]);
    }
    let from = a.from.0 as int;
    let to = a.to.0 as int;
    let white = v.white_to_move;
    let piece = v.squares[from]->0;
    if a.flag != b.flag {
        // Only the flags without a letter remain; each asks for a different
        // piece or a different step.
        assert(promotion_letter(a.flag).len() == 0);
        assert(pseudo_legal(v, a) && pseudo_legal(v, b));
    }
}

/// A move of the list has a first move with its text in the list.
proof fn lemma_first_with_text(moves: Seq<Move>, text: Seq<u8>, i: int)
    requires
        0 <= i < moves.len(),
        move_text(moves[i]) == text,
    ensures
        first_with_text(moves, text) matches Some(m) && moves.contains(m) && move_text(m) == text,
    decreases moves.len(),
{
    if move_text(moves[0]) != text {
        assert(moves.drop_first()[i - 1] == moves[i]);
        lemma_first_with_text(moves.drop_first(), text, i - 1);
        let m = first_with_text(moves.drop_first(), text)->0;
        let j = choose|j: int| 0 <= j < moves.drop_first().len() && moves.drop_first()[j] == m;
        assert(moves[j + 1] == m);
    } else {
        assert(moves[0] == moves[0]);
    }
}

/// Every listed move number below `n` is in the list.
proof fn lemma_listed_in_list(v: BoardView, captures_only: bool, k: int, n: int)
    requires
        0 <= k < n,
        listed(v, move_number(k), captures_only),
    ensures
        moves_upto(v, captures_only, n).contains(move_number(k)),
    decreases n,
{
    let list = moves_upto(v, captures_only, n);
    if k == n - 1 {
        assert(list[list.len() - 1] == move_number(k));
    } else {
        lemma_listed_in_list(v, captures_only, k, n - 1);
        let previous = moves_upto(v, captures_only, n - 1);
        let j = choose|j: int| 0 <= j < previous.len() && previous[j] == move_number(k);
        assert(list[j] == move_number(k));
    }
}

/// Reading the text of a legal move gives back the move.
pub proof fn lemma_decode_encode_move(v: BoardView, m: Move)
    requires
        legal(v, m),
    ensures
        move_of_text(v, move_text(m)) == Some(m),
{
    let from = m.from.0 as int;
    let to = m.to.0 as int;
    let f = flag_index(m.flag);
    assert(0 <= f < 8);
    lemma_move_number(from, to, f);
    assert(flag_from_index(f) == m.flag);
    assert(move_number(from * 512 + to * 8 + f) == m);
    lemma_listed_in_list(v, false, from * 512 + to * 8 + f, 32768);
    let moves = legal_moves(v, false);
    let i = choose|i: int| 0 <= i < moves.len() && moves[i] == m;
    lemma_first_with_text(moves, move_text(m), i);
    let found = first_with_text(moves, move_text(m))->0;
    let j = choose|j: int| 0 <= j < moves.len() && moves[j] == found;
    crate::rules::lemma_moves_upto_listed(v, false, 32768);
    assert(listed(v, moves[j], false));
    lemma_move_text_injective(v, m, found);
}

} // verus!
