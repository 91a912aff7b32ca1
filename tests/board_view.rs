use chess::{Board, ChessMove, Square};
use vizia_chess::controller::tile_click_position;
use vizia_chess::placement::parse_placement;
use vizia_chess::{Chess, ChessEvent};

fn fen_chars(text: &str) -> Vec<char> {
    text.chars().collect()
}

fn filled_count(chess: &Chess) -> usize {
    chess.images().iter().filter(|s| !s.is_empty()).count()
}

#[test]
fn starts_from_initial_position() {
    let chess = Chess::new();
    assert_eq!(chess.board(), Board::default());
    assert_eq!(chess.selected(), None);
    assert_eq!(chess.on_check(), None);
    assert!(chess.should_flip());
    assert_eq!(chess.images().len(), 64);
    assert_eq!(chess.images()[0], "r");
    assert_eq!(chess.images()[4], "k");
    assert_eq!(chess.images()[20], "");
    assert_eq!(chess.images()[60], "K");
    assert_eq!(chess.images()[63], "R");
}

#[test]
fn pawn_advance_moves_and_clears_selection() {
    let mut chess = Chess::new();
    chess.tile_clicked(12);
    assert_eq!(chess.selected(), Some((12, false)));
    chess.tile_clicked(28);
    let expected = Board::default().make_move_new(ChessMove::new(Square::E2, Square::E4, None));
    assert_eq!(chess.board(), expected);
    assert_eq!(chess.selected(), None);
}

#[test]
fn empty_square_without_selection_is_inert() {
    let mut chess = Chess::new();
    chess.tile_clicked(35);
    assert_eq!(chess.selected(), None);
    assert_eq!(chess.board(), Board::default());
}

#[test]
fn opponent_piece_without_selection_is_inert() {
    let mut chess = Chess::new();
    chess.tile_clicked(52);
    assert_eq!(chess.selected(), None);
    assert_eq!(chess.board(), Board::default());
}

#[test]
fn clicking_selected_square_deselects() {
    let mut chess = Chess::new();
    chess.tile_clicked(12);
    chess.tile_clicked(12);
    assert_eq!(chess.selected(), None);
    assert_eq!(chess.board(), Board::default());
}

#[test]
fn clicking_selected_square_deselects_when_flipped() {
    let mut chess = Chess::new();
    chess.tile_clicked(12);
    chess.tile_clicked(28);
    // black to move, board shown flipped: e7 (52) is on raw tile 11
    chess.tile_clicked(11);
    assert_eq!(chess.selected(), Some((52, true)));
    chess.tile_clicked(11);
    assert_eq!(chess.selected(), None);
}

#[test]
fn reselect_overrides_and_does_not_move() {
    let mut chess = Chess::new();
    chess.tile_clicked(12);
    chess.tile_clicked(11);
    assert_eq!(chess.selected(), Some((11, false)));
    assert_eq!(chess.board(), Board::default());
}

#[test]
fn illegal_move_changes_nothing() {
    let mut chess = Chess::new();
    chess.tile_clicked(12);
    let images = chess.images().clone();
    chess.tile_clicked(44);
    assert_eq!(chess.selected(), Some((12, false)));
    assert_eq!(chess.board(), Board::default());
    assert_eq!(chess.images(), &images);
    assert_eq!(chess.on_check(), None);
}

#[test]
fn check_marker_follows_the_king() {
    let mut chess = Chess::new();
    chess.tile_clicked(12); // e2
    chess.tile_clicked(28); // e4
    chess.tile_clicked(63 - 53); // f7, board flipped for black
    chess.tile_clicked(63 - 45); // f6
    assert_eq!(chess.on_check(), None);
    chess.tile_clicked(3); // d1
    chess.tile_clicked(39); // h5, check
    assert_eq!(chess.on_check(), Some((60, true)));
    let views = chess.square_views();
    let marked: Vec<usize> = (0..64).filter(|d| views[*d].in_check).collect();
    // e8 shown flipped: raw position 3, top row
    assert_eq!(marked, vec![59]);
    assert_eq!(views[59].sprite, "k");
}

#[test]
fn check_marker_without_flipping() {
    let mut chess = Chess::new();
    chess.toggle_flipping();
    chess.tile_clicked(12);
    chess.tile_clicked(28);
    chess.tile_clicked(53);
    chess.tile_clicked(45);
    chess.tile_clicked(3);
    chess.tile_clicked(39);
    assert_eq!(chess.on_check(), Some((60, false)));
    let views = chess.square_views();
    assert!(views[4].in_check);
    assert_eq!(views[4].sprite, "k");
}

#[test]
fn board_reversed_for_black_when_flipping() {
    let mut chess = Chess::new();
    chess.tile_clicked(12);
    chess.tile_clicked(28);
    assert_eq!(chess.images()[63], "r");
    assert_eq!(chess.images()[0], "R");
    chess.toggle_flipping();
    assert!(!chess.should_flip());
    assert_eq!(chess.images()[0], "r");
}

#[test]
fn toggle_twice_restores_view() {
    let mut chess = Chess::new();
    chess.tile_clicked(12);
    chess.tile_clicked(28);
    chess.tile_clicked(11);
    let before = chess.square_views();
    let flip = chess.should_flip();
    chess.toggle_flipping();
    chess.toggle_flipping();
    let after = chess.square_views();
    assert_eq!(chess.should_flip(), flip);
    assert_eq!(chess.selected(), Some((52, true)));
    for d in 0..64 {
        assert_eq!(before[d].sprite, after[d].sprite);
        assert_eq!(before[d].selected, after[d].selected);
        assert_eq!(before[d].in_check, after[d].in_check);
    }
}

#[test]
fn reset_restores_start() {
    let mut chess = Chess::new();
    chess.tile_clicked(12);
    chess.tile_clicked(28);
    chess.tile_clicked(63 - 53);
    chess.tile_clicked(63 - 45);
    chess.tile_clicked(3);
    chess.tile_clicked(39);
    chess.tile_clicked(63 - 52);
    chess.reset();
    assert_eq!(chess.board(), Board::default());
    assert_eq!(chess.selected(), None);
    assert_eq!(chess.on_check(), None);
    assert!(chess.should_flip());
    assert_eq!(chess.images()[0], "r");
}

#[test]
fn events_dispatch() {
    let mut chess = Chess::new();
    chess.event(ChessEvent::TileClicked(12));
    chess.event(ChessEvent::TileClicked(28));
    assert_eq!(chess.selected(), None);
    chess.event(ChessEvent::ToggleFlipping);
    assert!(!chess.should_flip());
    chess.event(ChessEvent::Reset);
    assert_eq!(chess.board(), Board::default());
}

#[test]
fn selection_highlight_on_its_tile() {
    let mut chess = Chess::new();
    chess.tile_clicked(12);
    let views = chess.square_views();
    let marked: Vec<usize> = (0..64).filter(|d| views[*d].selected).collect();
    assert_eq!(marked, vec![52]);
    assert_eq!(views[52].sprite, "P");
}

#[test]
fn sprite_count_matches_pieces() {
    let mut chess = Chess::new();
    assert_eq!(filled_count(&chess), 32);
    chess.tile_clicked(12);
    chess.tile_clicked(28);
    chess.tile_clicked(63 - 51); // d7
    chess.tile_clicked(63 - 35); // d5
    chess.tile_clicked(28);
    chess.tile_clicked(35); // exd5
    assert_eq!(chess.images().len(), 64);
    assert_eq!(filled_count(&chess), 31);
}

#[test]
fn tile_positions() {
    assert_eq!(tile_click_position(0), 56);
    assert_eq!(tile_click_position(7), 63);
    assert_eq!(tile_click_position(52), 12);
    assert_eq!(tile_click_position(63), 7);
    for d in 0..64usize {
        let p = tile_click_position(d);
        assert_eq!(63 - (63 - p), p);
    }
}

#[test]
fn placement_of_empty_board() {
    let slots = parse_placement(&fen_chars("8/8/8/8/8/8/8/8 w - - 0 1")).unwrap();
    assert_eq!(slots.len(), 64);
    assert!(slots.iter().all(|s| s.is_empty()));
}

#[test]
fn placement_letters_and_gaps() {
    let slots = parse_placement(&fen_chars("4k3/8/8/8/8/8/3P4/4K3 b - - 0 1")).unwrap();
    assert_eq!(slots[4], "k");
    assert_eq!(slots[51], "P");
    assert_eq!(slots[60], "K");
    assert_eq!(slots.iter().filter(|s| !s.is_empty()).count(), 3);
}

#[test]
fn placement_wrong_size_rejected() {
    assert!(parse_placement(&fen_chars("8/8 w - - 0 1")).is_none());
    assert!(parse_placement(&fen_chars("9/8/8/8/8/8/8/8/8 w")).is_none());
    assert!(parse_placement(&fen_chars("")).is_none());
}

#[test]
fn start_position_text() {
    assert_eq!(
        Board::default().to_string(),
        "rnbqkbnr/pppppppp/8/8/8/8/PPPPPPPP/RNBQKBNR w KQkq - 0 1"
    );
    let board = Board::default().make_move_new(ChessMove::new(Square::E2, Square::E4, None));
    let text: Vec<char> = board.to_string().chars().collect();
    let slots = parse_placement(&text).unwrap();
    assert_eq!(slots[36], "P");
    assert_eq!(slots[52], "");
}

#[test]
fn promotion_square_without_piece_is_not_a_move() {
    let board: Board = "4k3/P7/8/8/8/8/8/4K3 w - - 0 1".parse().unwrap();
    assert!(!board.legal(ChessMove::new(Square::A7, Square::A8, None)));
}
