//! The rules engine, as far as the board controller relies on it.
//!
//! Every item here is a thin wrapper over the `chess` crate. The facts it
//! reports about a board are given names (spec functions without a body);
//! the controller states its own behaviour in terms of those names.
use chess::{Board, ChessMove, Color, ALL_SQUARES};
use vstd::prelude::*;

use crate::placement::placement_slots;

verus! {

#[verifier::external_type_specification]
#[verifier::external_body]
pub struct ExBoard(chess::Board);

/// Whether black is the side to move on `b`.
pub uninterp spec fn black_to_move(b: Board) -> bool;

/// Whether square `p` (0 = a1, 63 = h8) holds a piece of black (`black`) or white.
pub uninterp spec fn holds_piece(b: Board, black: bool, p: int) -> bool;

/// Whether moving from square `from` to square `to`, with no promotion piece,
/// is a legal move on `b`.
pub uninterp spec fn is_legal(b: Board, from: int, to: int) -> bool;

/// The board that results from playing `from`-`to` (no promotion piece) on `b`.
pub uninterp spec fn moved(b: Board, from: int, to: int) -> Board;

/// Whether the side to move on `b` is in check.
pub uninterp spec fn in_check(b: Board) -> bool;

/// The square index of the king of black (`black`) or white on `b`.
pub uninterp spec fn king_square(b: Board, black: bool) -> int;

/// The FEN text that `b` displays as.
pub uninterp spec fn fen_of(b: Board) -> Seq<char>;

/// FEN of the standard initial position.
pub open spec fn start_fen() -> Seq<char> {
    "rnbqkbnr/pppppppp/8/8/8/8/PPPPPPPP/RNBQKBNR w KQkq - 0 1"@
}

/// Relies on `Board::default`: the standard initial position, which displays
/// as the FEN it is parsed from, and where no side is in check.
#[verifier::external_body]
pub(crate) fn start_board() -> (r: Board)
    ensures
        fen_of(r) == start_fen(),
        !in_check(r),
{
    Board::default()
}

/// Relies on `Board::side_to_move`.
#[verifier::external_body]
pub(crate) fn black_moves(b: &Board) -> (r: bool)
    ensures
        r == black_to_move(*b),
{
    b.side_to_move() == Color::Black
}

/// Relies on `Board::color_on`: the colour of the piece on a square, if any.
#[verifier::external_body]
pub(crate) fn has_piece(b: &Board, black: bool, p: u8) -> (r: bool)
    requires
        p < 64,
    ensures
        r == holds_piece(*b, black, p as int),
{
    let color = if black { Color::Black } else { Color::White };
    b.color_on(ALL_SQUARES[p as usize]) == Some(color)
}

/// Relies on `Board::legal`: whether the move is among the legal moves.
#[verifier::external_body]
pub(crate) fn legal_move(b: &Board, from: u8, to: u8) -> (r: bool)
    requires
        from < 64,
        to < 64,
    ensures
        r == is_legal(*b, from as int, to as int),
{
    b.legal(ChessMove::new(ALL_SQUARES[from as usize], ALL_SQUARES[to as usize], None))
}

/// Relies on `Board::make_move_new`, which panics only when a king is
/// captured: never by a legal move.
#[verifier::external_body]
pub(crate) fn apply_move(b: &Board, from: u8, to: u8) -> (r: Board)
    requires
        from < 64,
        to < 64,
        is_legal(*b, from as int, to as int),
    ensures
        r == moved(*b, from as int, to as int),
{
    b.make_move_new(ChessMove::new(ALL_SQUARES[from as usize], ALL_SQUARES[to as usize], None))
}

/// Relies on `Board::checkers`: the pieces that give check to the side to move.
#[verifier::external_body]
pub(crate) fn side_in_check(b: &Board) -> (r: bool)
    ensures
        r == in_check(*b),
{
    b.checkers().clone().next().is_some()
}

/// Relies on `Board::king_square` and `Square::to_int`.
#[verifier::external_body]
pub(crate) fn king_of(b: &Board, black: bool) -> (r: u8)
    ensures
        r as int == king_square(*b, black),
{
    let color = if black { Color::Black } else { Color::White };
    b.king_square(color).to_int()
}

/// Relies on `Board`'s `Display`, which writes FEN: the placement field first,
/// eight ranks of eight squares, each piece a letter and each run of empty
/// squares a digit, ranks apart by `/`.
#[verifier::external_body]
pub(crate) fn board_fen(b: &Board) -> (r: Vec<char>)
    ensures
        r@ == fen_of(*b),
        placement_slots(r@).len() == 64,
{
    b.to_string().chars().collect()
}

} // verus!
