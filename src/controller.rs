//! The board controller: selection, moves, orientation, and the state that
//! each of the 64 tiles is drawn with.
//!
//! Squares are numbered 0 (a1) to 63 (h8). Tiles are numbered in display
//! order, 0 at the top left; tile `d` sits on row `d / 8` and column `d % 8`.
use chess::Board;
use vstd::prelude::*;

use crate::engine::{
    apply_move, black_moves, black_to_move, board_fen, fen_of, has_piece, holds_piece, in_check,
    is_legal, king_of, king_square, legal_move, moved, side_in_check, start_board, start_fen,
};
use crate::placement::{parse_placement, placement_slots};

verus! {

/// The square that faces `p` through the centre of the board.
pub open spec fn flip(p: int) -> int {
    63 - p
}

/// The square a raw tile position stands for, the board being shown
/// flipped or not.
pub open spec fn decode(raw: int, flipped: bool) -> int {
    if flipped {
        flip(raw)
    } else {
        raw
    }
}

/// Whether the board is shown from black's side: flipping is on and black
/// is to move.
pub open spec fn shown_flipped(b: Board, should_flip: bool) -> bool {
    should_flip && black_to_move(b)
}

/// The raw position of tile `d`: row 0 is rank 8.
pub open spec fn tile_square(d: int) -> int {
    (7 - d / 8) * 8 + d % 8
}

/// The sprite keys of a board, in FEN order.
pub open spec fn board_slots(b: Board) -> Seq<Seq<char>> {
    placement_slots(fen_of(b))
}

/// The sprite keys of a board in display order: reversed when the board is
/// shown from black's side.
pub open spec fn display_slots(b: Board, should_flip: bool) -> Seq<Seq<char>> {
    if shown_flipped(b, should_flip) {
        board_slots(b).reverse()
    } else {
        board_slots(b)
    }
}

/// The check marker of a board: the king square of the side to move when it
/// is in check, with the orientation it is shown in.
pub open spec fn check_marker(b: Board, should_flip: bool) -> Option<(int, bool)> {
    if in_check(b) {
        Some((king_square(b, black_to_move(b)), shown_flipped(b, should_flip)))
    } else {
        None
    }
}

/// Whether a marked square (a selection or a check marker, with the
/// orientation it was recorded in) falls on tile `d`.
pub open spec fn marks(mark: Option<(int, bool)>, d: int) -> bool {
    match mark {
        Some((p, flipped)) => p == decode(tile_square(d), flipped),
        None => false,
    }
}

pub open spec fn mark_of(m: Option<(i32, bool)>) -> Option<(int, bool)> {
    match m {
        Some((p, f)) => Some((p as int, f)),
        None => None,
    }
}

/// What a click on a tile does.
pub enum Click {
    /// Nothing changes.
    Ignore,
    /// The selection is cleared.
    Deselect,
    /// The selection becomes this square, recorded with this orientation.
    Select { pos: int, flipped: bool },
    /// This move is played and the selection is cleared.
    Move { from: int, to: int },
}

/// The effect of a click on raw position `raw`, given the board, the
/// selection and the flipping setting.
pub open spec fn click_outcome(
    b: Board,
    selected: Option<(int, bool)>,
    should_flip: bool,
    raw: int,
) -> Click {
    let black = black_to_move(b);
    let pos = decode(raw, shown_flipped(b, should_flip));
    match selected {
        Some((from, flipped)) => {
            if pos == from {
                Click::Deselect
            } else if holds_piece(b, black, pos) {
                Click::Select { pos, flipped: should_flip && flipped }
            } else if is_legal(b, from, pos) {
                Click::Move { from, to: pos }
            } else {
                Click::Ignore
            }
        },
        None => {
            if holds_piece(b, black, pos) {
                Click::Select { pos, flipped: shown_flipped(b, should_flip) }
            } else {
                Click::Ignore
            }
        },
    }
}

/// An input event of the board view.
#[derive(Clone, Copy, Debug)]
pub enum ChessEvent {
    TileClicked(i32),
    ToggleFlipping,
    Reset,
}

/// The state one tile is drawn with.
pub struct SquareView {
    /// Empty for an empty square, else the piece's letter.
    pub sprite: String,
    pub selected: bool,
    pub in_check: bool,
}

/// The state of the board view.
pub struct Chess {
    board: Board,
    images: Vec<String>,
    selected: Option<(i32, bool)>,
    on_check: Option<(i32, bool)>,
    should_flip: bool,
}

impl Chess {
    pub closed spec fn spec_board(&self) -> Board {
        self.board
    }

    /// The sprite keys, in display order.
    pub closed spec fn spec_images(&self) -> Seq<Seq<char>> {
        self.images@.map_values(|s: String| s@)
    }

    pub closed spec fn spec_selected(&self) -> Option<(int, bool)> {
        mark_of(self.selected)
    }

    pub closed spec fn spec_on_check(&self) -> Option<(int, bool)> {
        mark_of(self.on_check)
    }

    pub closed spec fn spec_should_flip(&self) -> bool {
        self.should_flip
    }

    /// The derived state matches the board, and a selection is a square.
    pub open spec fn wf(&self) -> bool {
        &&& board_slots(self.spec_board()).len() == 64
        &&& self.spec_images() == display_slots(self.spec_board(), self.spec_should_flip())
        &&& self.spec_on_check() == check_marker(self.spec_board(), self.spec_should_flip())
        &&& match self.spec_selected() {
            Some((p, _)) => 0 <= p < 64,
            None => true,
        }
    }

    /// The state after a click on raw position `raw`, `old` the state before.
    pub open spec fn clicked(old: Chess, new: Chess, raw: int) -> bool {
        &&& new.spec_should_flip() == old.spec_should_flip()
        &&& match click_outcome(
            old.spec_board(),
            old.spec_selected(),
            old.spec_should_flip(),
            raw,
        ) {
            Click::Ignore => new == old,
            Click::Deselect => {
                &&& new.spec_board() == old.spec_board()
                &&& new.spec_images() == old.spec_images()
                &&& new.spec_on_check() == old.spec_on_check()
                &&& new.spec_selected() is None
            },
            Click::Select { pos, flipped } => {
                &&& new.spec_board() == old.spec_board()
                &&& new.spec_images() == old.spec_images()
                &&& new.spec_on_check() == old.spec_on_check()
                &&& new.spec_selected() == Some((pos, flipped))
            },
            Click::Move { from, to } => {
                &&& new.spec_board() == moved(old.spec_board(), from, to)
                &&& new.spec_selected() is None
            },
        }
    }

    /// The state after the flipping setting is toggled.
    pub open spec fn toggled(old: Chess, new: Chess) -> bool {
        &&& new.spec_should_flip() == !old.spec_should_flip()
        &&& new.spec_board() == old.spec_board()
        &&& new.spec_selected() == old.spec_selected()
    }

    /// The state after a reset.
    pub open spec fn was_reset(old: Chess, new: Chess) -> bool {
        &&& fen_of(new.spec_board()) == start_fen()
        &&& new.spec_selected() is None
        &&& new.spec_on_check() is None
        &&& new.spec_should_flip() == old.spec_should_flip()
    }

    /// The standard initial position, nothing selected, flipping on.
    pub fn new() -> (r: Chess)
        ensures
            r.wf(),
            fen_of(r.spec_board()) == start_fen(),
            r.spec_selected() is None,
            r.spec_on_check() is None,
            r.spec_should_flip(),
    {
        let board = start_board();
        let mut chess = Chess {
            board,
            images: Vec::new(),
            selected: None,
            on_check: None,
            should_flip: true,
        };
        chess.update_board();
        chess
    }

    /// Handles one input event.
    pub fn event(&mut self, event: ChessEvent)
        requires
            old(self).wf(),
            match event {
                ChessEvent::TileClicked(pos) => 0 <= pos < 64,
                _ => true,
            },
        ensures
            final(self).wf(),
            match event {
                ChessEvent::TileClicked(pos) => Chess::clicked(*old(self), *final(self), pos as int),
                ChessEvent::ToggleFlipping => Chess::toggled(*old(self), *final(self)),
                ChessEvent::Reset => Chess::was_reset(*old(self), *final(self)),
            },
    {
        match event {
            ChessEvent::TileClicked(pos) => self.tile_clicked(pos),
            ChessEvent::ToggleFlipping => self.toggle_flipping(),
            ChessEvent::Reset => self.reset(),
        }
    }

    /// A click on the tile at raw position `pos`: selects an own piece,
    /// clears the selection when the selected square is clicked again, and
    /// otherwise plays the move from the selected square when it is legal.
    /// Moves are asked for with no promotion piece, so the engine finds no
    /// legal move that takes a pawn to its last rank.
    pub fn tile_clicked(&mut self, pos: i32)
        requires
            old(self).wf(),
            0 <= pos < 64,
        ensures
            final(self).wf(),
            Chess::clicked(*old(self), *final(self), pos as int),
    {
        let black = black_moves(&self.board);
        let pos: i32 = if self.should_flip && black {
            63 - pos
        } else {
            pos
        };
        let own = has_piece(&self.board, black, pos as u8);
        match self.selected {
            Some((selected_pos, flipped)) => {
                let flipped = self.should_flip && flipped;
                if pos == selected_pos {
                    self.selected = None;
                } else if own {
                    self.selected = Some((pos, flipped));
                } else if legal_move(&self.board, selected_pos as u8, pos as u8) {
                    self.board = apply_move(&self.board, selected_pos as u8, pos as u8);
                    self.update_board();
                    self.selected = None;
                }
            },
            None => {
                if own {
                    self.selected = Some((pos, self.should_flip && black));
                }
            },
        }
    }

    /// Toggles whether the board is shown from the side to move.
    pub fn toggle_flipping(&mut self)
        requires
            old(self).wf(),
        ensures
            final(self).wf(),
            Chess::toggled(*old(self), *final(self)),
    {
        self.should_flip = !self.should_flip;
        self.update_board();
    }

    /// Back to the standard initial position, with nothing selected.
    pub fn reset(&mut self)
        requires
            old(self).wf(),
        ensures
            final(self).wf(),
            Chess::was_reset(*old(self), *final(self)),
    {
        self.board = start_board();
        self.update_board();
        self.selected = None;
    }

    /// Recomputes the sprite keys and the check marker from the board.
    fn update_board(&mut self)
        ensures
            final(self).board == old(self).board,
            final(self).selected == old(self).selected,
            final(self).should_flip == old(self).should_flip,
            board_slots(final(self).board).len() == 64,
            final(self).spec_images() == display_slots(final(self).board, final(self).should_flip),
            final(self).spec_on_check() == check_marker(final(self).board, final(self).should_flip),
    {
        let slots = get_paths_from_pos(&self.board);
        let black = black_moves(&self.board);
        let flipped = self.should_flip && black;
        let mut images: Vec<String> = Vec::new();
        let mut i: usize = 0;
        while i < 64
            invariant
                i <= 64,
                slots@.len() == 64,
                board_slots(self.board).len() == 64,
                images@.len() == i,
                forall|j: int|
                    0 <= j < i ==> (#[trigger] images@[j])@ == if flipped {
                        slots@[63 - j]@
                    } else {
                        slots@[j]@
                    },
            decreases 64 - i,
        {
            let key = if flipped {
                slots[63 - i].clone()
            } else {
                slots[i].clone()
            };
            images.push(key);
            i = i + 1;
        }
        self.images = images;
        proof {
            let b = self.board;
            let want = display_slots(b, self.should_flip);
            assert(want.len() == 64);
            assert forall|j: int| 0 <= j < 64 implies self.spec_images()[j] == want[j] by {
                if flipped {
                    assert(want[j] == board_slots(b)[63 - j]);
                    assert(slots@[63 - j]@ == board_slots(b)[63 - j]);
                } else {
                    assert(slots@[j]@ == board_slots(b)[j]);
                }
            }
            assert(self.spec_images() =~= want);
        }
        if side_in_check(&self.board) {
            let king = king_of(&self.board, black);
            self.on_check = Some((king as i32, flipped));
        } else {
            self.on_check = None;
        }
    }

    /// The state of each tile, in display order.
    pub fn square_views(&self) -> (r: Vec<SquareView>)
        requires
            self.wf(),
        ensures
            r@.len() == 64,
            forall|d: int|
                0 <= d < 64 ==> {
                    &&& (#[trigger] r@[d]).sprite@ == self.spec_images()[d]
                    &&& r@[d].selected == marks(self.spec_selected(), d)
                    &&& r@[d].in_check == marks(self.spec_on_check(), d)
                },
    {
        let mut views: Vec<SquareView> = Vec::new();
        let mut d: usize = 0;
        assert(self.images@.len() == self.spec_images().len());
        while d < 64
            invariant
                d <= 64,
                self.wf(),
                self.images@.len() == 64,
                views@.len() == d,
                forall|k: int|
                    0 <= k < d ==> {
                        &&& (#[trigger] views@[k]).sprite@ == self.spec_images()[k]
                        &&& views@[k].selected == marks(self.spec_selected(), k)
                        &&& views@[k].in_check == marks(self.spec_on_check(), k)
                    },
            decreases 64 - d,
        {
            let raw = tile_click_position(d);
            let view = SquareView {
                sprite: self.images[d].clone(),
                selected: marked(self.selected, raw),
                in_check: marked(self.on_check, raw),
            };
            views.push(view);
            d = d + 1;
        }
        views
    }

    pub fn board(&self) -> (r: Board)
        ensures
            r == self.spec_board(),
    {
        self.board
    }

    /// The sprite keys, in display order.
    pub fn images(&self) -> (r: &Vec<String>)
        ensures
            r@.map_values(|s: String| s@) == self.spec_images(),
    {
        &self.images
    }

    pub fn selected(&self) -> (r: Option<(i32, bool)>)
        ensures
            mark_of(r) == self.spec_selected(),
    {
        self.selected
    }

    pub fn on_check(&self) -> (r: Option<(i32, bool)>)
        ensures
            mark_of(r) == self.spec_on_check(),
    {
        self.on_check
    }

    pub fn should_flip(&self) -> (r: bool)
        ensures
            r == self.spec_should_flip(),
    {
        self.should_flip
    }
}

/// The raw position of tile `d`, the one a click on it reports.
pub fn tile_click_position(d: usize) -> (r: i32)
    requires
        d < 64,
    ensures
        r == tile_square(d as int),
        0 <= r < 64,
{
    let row = (d / 8) as i32;
    let col = (d % 8) as i32;
    (7 - row) * 8 + col
}

/// Whether the mark falls on the tile whose raw position is `raw`.
fn marked(mark: Option<(i32, bool)>, raw: i32) -> (r: bool)
    requires
        0 <= raw < 64,
    ensures
        r == match mark_of(mark) {
            Some((p, flipped)) => p == decode(raw as int, flipped),
            None => false,
        },
{
    match mark {
        Some((p, flipped)) => {
            if flipped {
                p == 63 - raw
            } else {
                p == raw
            }
        },
        None => false,
    }
}

/// The sprite keys of a board, in FEN order.
fn get_paths_from_pos(board: &Board) -> (r: Vec<String>)
    ensures
        r@.len() == 64,
        board_slots(*board).len() == 64,
        forall|j: int| 0 <= j < 64 ==> (#[trigger] r@[j])@ == board_slots(*board)[j],
{
    let fen = board_fen(board);
    match parse_placement(&fen) {
        Some(slots) => slots,
        None => {
            proof {
                assert(false);
            }
            Vec::new()
        },
    }
}

} // verus!
