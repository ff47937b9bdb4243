use land_battle_chess::board_utils::{layout_board, piece_name, Board, LayoutError};
use land_battle_chess::game_logic::Piece;

#[test]
fn place_then_get() {
    let mut b = Board::default();
    assert!(b.place_piece(2, 7, Piece::FieldMarshal));
    assert_eq!(b.get_piece(2, 7), Piece::FieldMarshal);
    assert_eq!(b.lines, [0, 0, 12 << 28, 0, 0]);
    assert_eq!(b.get_piece(2, 6), Piece::Empty);
}

#[test]
fn place_on_taken_square_is_refused() {
    let mut b = Board::new([0, 0, 0, 0, 0]);
    assert!(b.place_piece(0, 0, Piece::Bomb));
    assert!(!b.place_piece(0, 0, Piece::Flag));
    assert_eq!(b.get_piece(0, 0), Piece::Bomb);
}

#[test]
fn wide_code_spills_into_next_row() {
    let mut b = Board::default();
    assert!(b.place_piece(4, 3, Piece::Opponent));
    assert_eq!(b.lines[4], 1 << 16);
    assert_eq!(b.get_piece(4, 3), Piece::Empty);
    assert_eq!(b.get_piece(4, 4), Piece::Flag);
}

#[test]
fn reads_four_bit_fields() {
    assert_eq!(Board::get_piece_from_line(0x1234, 0), 4);
    assert_eq!(Board::get_piece_from_line(0x1234, 1), 3);
    assert_eq!(Board::get_piece_from_line(0x1234, 3), 1);
    assert_eq!(Board::get_piece_from_line(0xf000_0000_0000_0000, 15), 15);
}

#[test]
fn gen_first_player() {
    let pieces = vec![vec![Piece::Engineer; 5]; 6];
    let b = Board::gen(pieces, false);
    assert_eq!(b.lines, [0x1010_1044_4444; 5]);
}

#[test]
fn gen_second_player_mirrors_rows() {
    let pieces = vec![vec![Piece::Engineer; 5]; 6];
    let b = Board::gen(pieces, true);
    assert_eq!(b.lines, [0x4444_4511_1110; 5]);
}

#[test]
fn gen_places_each_piece() {
    let mut pieces = vec![vec![Piece::Lieutenant; 5]; 6];
    pieces[0][0] = Piece::Flag;
    pieces[5][4] = Piece::FieldMarshal;
    let b = Board::gen(pieces, false);
    assert_eq!(b.get_piece(0, 0), Piece::Flag);
    assert_eq!(b.get_piece(4, 5), Piece::FieldMarshal);
    assert_eq!(b.get_piece(2, 3), Piece::Lieutenant);
}

#[test]
fn names_of_pieces() {
    assert_eq!(piece_name(Piece::FieldMarshal), "司令");
    assert_eq!(piece_name(Piece::Flag), "军棋");
    assert_eq!(piece_name(Piece::Opponent), "XXX");
    assert_eq!(piece_name(Piece::Empty), "");
    assert_eq!(piece_name(Piece::Unchanged), "");
}

#[test]
fn pieces_from_names() {
    assert_eq!(Piece::from("司令".to_string()), Piece::FieldMarshal);
    assert_eq!(Piece::from("工兵".to_string()), Piece::Engineer);
    assert_eq!(Piece::from("对手".to_string()), Piece::Opponent);
    assert_eq!(Piece::from("nothing".to_string()), Piece::Empty);
    assert_eq!(Piece::from(String::new()), Piece::Empty);
}

#[test]
fn name_grid_of_board() {
    let mut b = Board::default();
    b.place_piece(1, 0, Piece::General);
    let grid = b.name_grid();
    assert_eq!(grid.len(), 13);
    assert_eq!(grid[0], vec!["l0", "l1", "l2", "l3", "l4"]);
    assert_eq!(grid[1], vec!["", "军长", "", "", ""]);
    assert_eq!(grid[12], vec!["", "", "", "", ""]);
}

#[test]
fn table_draws_names() {
    let mut b = Board::default();
    b.place_piece(3, 11, Piece::Colonel);
    let text = b.to_table();
    assert!(text.contains("团长"));
    assert!(text.contains("l4"));
    assert!(text.lines().count() > 13);
}

fn layout_text(row: &str, rows: usize) -> String {
    let one = format!("[{}]", vec![format!("\"{}\"", row); 5].join(","));
    format!("[{}]", vec![one; rows].join(","))
}

#[test]
fn layout_file_packs_like_gen() {
    let b = layout_board(&layout_text("工兵", 6), false).unwrap();
    assert_eq!(b.lines, [0x1010_1044_4444; 5]);
    let b = layout_board(&layout_text("工兵", 6), true).unwrap();
    assert_eq!(b.lines, [0x4444_4511_1110; 5]);
}

#[test]
fn layout_file_unknown_names_are_empty() {
    let b = layout_board(&layout_text("?", 6), false).unwrap();
    assert_eq!(b.get_piece(0, 0), Piece::Empty);
    assert_eq!(b.get_piece(0, 7), Piece::Flag);
}

#[test]
fn layout_file_errors() {
    assert_eq!(layout_board("not json", false).err(), Some(LayoutError::NotJson));
    assert_eq!(layout_board("[[1, 2]]", false).err(), Some(LayoutError::NotJson));
    assert_eq!(layout_board(&layout_text("工兵", 5), false).err(), Some(LayoutError::Shape));
    assert_eq!(layout_board("[[],[],[],[],[],[]]", false).err(), Some(LayoutError::Shape));
}
