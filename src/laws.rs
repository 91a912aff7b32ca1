//! Properties of the controller that relate several of its operations.
use vstd::prelude::*;

use crate::controller::{board_slots, click_outcome, decode, flip, shown_flipped, Chess};
use crate::engine::{black_to_move, fen_of, holds_piece, in_check, is_legal, king_square};
use crate::placement::{
    filled, lemma_filled_expand, lemma_filled_reverse, piece_letters, placement_field,
};

verus! {

/// Flipping a square twice gives the square back, and a flipped square is a square.
pub proof fn lemma_flip_involution(p: int)
    requires
        0 <= p < 64,
    ensures
        flip(flip(p)) == p,
        0 <= flip(p) < 64,
        decode(decode(p, true), true) == p,
        decode(decode(p, false), false) == p,
{
}

/// Clicking the tile on which the selected square is shown clears the
/// selection and leaves the board alone, whatever the orientation.
pub proof fn lemma_click_selected_deselects(
    old: Chess,
    new: Chess,
    raw: int,
    from: int,
    flipped: bool,
)
    requires
        old.wf(),
        old.spec_selected() == Some((from, flipped)),
        raw == decode(from, shown_flipped(old.spec_board(), old.spec_should_flip())),
        Chess::clicked(old, new, raw),
    ensures
        new.spec_selected() is None,
        new.spec_board() == old.spec_board(),
        new.spec_should_flip() == old.spec_should_flip(),
{
    lemma_flip_involution(from);
}

/// A click that asks for an illegal move from the selected square changes
/// nothing at all.
pub proof fn lemma_illegal_move_changes_nothing(
    old: Chess,
    new: Chess,
    raw: int,
    from: int,
    flipped: bool,
)
    requires
        old.wf(),
        old.spec_selected() == Some((from, flipped)),
        Chess::clicked(old, new, raw),
        ({
            let b = old.spec_board();
            let to = decode(raw, shown_flipped(b, old.spec_should_flip()));
            &&& to != from
            &&& !holds_piece(b, black_to_move(b), to)
            &&& !is_legal(b, from, to)
        }),
    ensures
        new == old,
{
}

/// Clicking another piece of the side to move while a square is selected
/// moves the selection there and plays no move, legal or not.
pub proof fn lemma_reselect_never_moves(
    old: Chess,
    new: Chess,
    raw: int,
    from: int,
    flipped: bool,
)
    requires
        old.wf(),
        old.spec_selected() == Some((from, flipped)),
        Chess::clicked(old, new, raw),
        ({
            let b = old.spec_board();
            let to = decode(raw, shown_flipped(b, old.spec_should_flip()));
            &&& to != from
            &&& holds_piece(b, black_to_move(b), to)
        }),
    ensures
        new.spec_board() == old.spec_board(),
        new.spec_selected() == Some(
            (
                decode(raw, shown_flipped(old.spec_board(), old.spec_should_flip())),
                old.spec_should_flip() && flipped,
            ),
        ),
{
}

/// After a move, the check marker is present exactly when the side now to
/// move is in check, and then it stands on that side's king.
pub proof fn lemma_check_marker_after_move(old: Chess, new: Chess, raw: int)
    requires
        old.wf(),
        new.wf(),
        Chess::clicked(old, new, raw),
        click_outcome(old.spec_board(), old.spec_selected(), old.spec_should_flip(), raw) is Move,
    ensures
        ({
            let b = new.spec_board();
            &&& new.spec_on_check() is Some <==> in_check(b)
            &&& forall|p: int, f: bool|
                new.spec_on_check() == Some((p, f)) ==> p == king_square(b, black_to_move(b))
        }),
{
}

/// There are always 64 sprite keys, and as many of them are non-empty as the
/// board's placement field has piece letters.
pub proof fn lemma_sprite_count(s: Chess)
    requires
        s.wf(),
    ensures
        s.spec_images().len() == 64,
        filled(s.spec_images()) == piece_letters(placement_field(fen_of(s.spec_board()))),
{
    let b = s.spec_board();
    lemma_filled_expand(placement_field(fen_of(b)));
    lemma_filled_reverse(board_slots(b));
}

/// Toggling the flipping setting twice gives back the setting and the whole
/// derived view.
pub proof fn lemma_toggle_twice(a: Chess, b: Chess, c: Chess)
    requires
        a.wf(),
        b.wf(),
        c.wf(),
        Chess::toggled(a, b),
        Chess::toggled(b, c),
    ensures
        c.spec_should_flip() == a.spec_should_flip(),
        c.spec_board() == a.spec_board(),
        c.spec_selected() == a.spec_selected(),
        c.spec_images() == a.spec_images(),
        c.spec_on_check() == a.spec_on_check(),
{
}

} // verus!
