use vstd::prelude::*;

use crate::game_logic::{is_piece_code, piece_code, piece_of_code, Piece};

verus! {

/// The four-bit field of `line` that holds row `y`.
pub open spec fn cell(line: u64, y: u64) -> u64 {
    (line >> ((y * 4) as u64)) & 0xf
}

/// `line` with the code of `piece` or-ed in at row `y`. A code wider than
/// four bits spills into the next row; what passes the top bit is lost.
pub open spec fn with_code(line: u64, y: u64, piece: Piece) -> u64 {
    line | ((piece_code(piece) << ((y * 4) as u64)) as u64)
}

/// The columns after placing `piece` at `(x, y)`: unchanged where that
/// square is taken.
pub open spec fn place_on(lines: Seq<u64>, x: int, y: u64, piece: Piece) -> Seq<u64> {
    if cell(lines[x], y) != 0 {
        lines
    } else {
        lines.update(x, with_code(lines[x], y, piece))
    }
}

/// The `i`-th placement that [`Board::gen`] makes, as (column, row, piece):
/// the first thirty put the given pieces row by row on the near half, the
/// last thirty an `Opponent` marker on each square of the far half. For the
/// second player the rows are mirrored.
pub open spec fn gen_placement(pieces: Seq<Seq<Piece>>, is_player2: bool, i: int) -> (u64, u64, Piece) {
    let row = i / 5;
    let x = i % 5;
    let y = if is_player2 { 11 - row } else { row };
    let piece = if row < 6 { pieces[row][x] } else { Piece::Opponent };
    (x as u64, y as u64, piece)
}

/// The columns after the first `n` placements of [`gen_placement`], each
/// skipped when its square is already taken.
pub open spec fn gen_lines(pieces: Seq<Seq<Piece>>, is_player2: bool, n: nat) -> Seq<u64>
    decreases n,
{
    if n == 0 {
        seq![0u64, 0u64, 0u64, 0u64, 0u64]
    } else {
        let (x, y, piece) = gen_placement(pieces, is_player2, n - 1);
        place_on(gen_lines(pieces, is_player2, (n - 1) as nat), x as int, y, piece)
    }
}

/// Whether `pieces` is a near half: six rows of at least five pieces.
pub open spec fn is_half_layout<T>(pieces: Seq<Seq<T>>) -> bool {
    &&& pieces.len() == 6
    &&& forall|r: int| 0 <= r < 6 ==> #[trigger] pieces[r].len() >= 5
}

/// The rows of a layout as sequences.
pub open spec fn rows_of(pieces: Seq<Vec<Piece>>) -> Seq<Seq<Piece>> {
    pieces.map_values(|r: Vec<Piece>| r@)
}

/// The number of placements in a generated board.
pub open spec fn gen_count() -> nat {
    60
}

/// The display name of a piece; empty for `Empty` and `Unchanged`.
pub open spec fn name_of(piece: Piece) -> Seq<char> {
    match piece {
        Piece::Flag => "军棋"@,
        Piece::Bomb => "炸弹"@,
        Piece::Landmine => "地雷"@,
        Piece::Engineer => "工兵"@,
        Piece::Lieutenant => "排长"@,
        Piece::Captain => "连长"@,
        Piece::Major => "营长"@,
        Piece::Colonel => "团长"@,
        Piece::Brigadier => "旅长"@,
        Piece::MajorGeneral => "师长"@,
        Piece::General => "军长"@,
        Piece::FieldMarshal => "司令"@,
        Piece::Opponent => "XXX"@,
        _ => ""@,
    }
}

/// The piece a layout file names by `s`; `Empty` for any other text.
pub open spec fn piece_of_name(s: Seq<char>) -> Piece {
    if s == "军棋"@ {
        Piece::Flag
    } else if s == "炸弹"@ {
        Piece::Bomb
    } else if s == "地雷"@ {
        Piece::Landmine
    } else if s == "工兵"@ {
        Piece::Engineer
    } else if s == "排长"@ {
        Piece::Lieutenant
    } else if s == "连长"@ {
        Piece::Captain
    } else if s == "营长"@ {
        Piece::Major
    } else if s == "团长"@ {
        Piece::Colonel
    } else if s == "旅长"@ {
        Piece::Brigadier
    } else if s == "师长"@ {
        Piece::MajorGeneral
    } else if s == "军长"@ {
        Piece::General
    } else if s == "司令"@ {
        Piece::FieldMarshal
    } else if s == "对手"@ {
        Piece::Opponent
    } else {
        Piece::Empty
    }
}

/// The text that tabled renders for `grid`, its first row as the header.
pub uninterp spec fn table_text(grid: Seq<Seq<Seq<char>>>) -> Seq<char>;

/// Relies on tabled's `Builder::from` and `Table`'s `Display`: the grid is
/// drawn with its first row as header in the default style, and the text
/// depends on the cells alone. tabled takes the column count from the first
/// row and indexes out of bounds on a longer row, so all rows are as long.
#[verifier::external_body]
fn render_grid(grid: Vec<Vec<String>>) -> (text: String)
    requires
        forall|i: int| 0 <= i < grid@.len() ==> #[trigger] grid@[i]@.len() == grid@[0]@.len(),
    ensures
        text@ == table_text(grid.deep_view()),
{
    tabled::builder::Builder::from(grid).build().to_string()
}

/// The header of a board table: one column name per board column.
pub open spec fn grid_header() -> Seq<Seq<char>> {
    seq!["l0"@, "l1"@, "l2"@, "l3"@, "l4"@]
}

/// The names on row `y` of `b`, column by column.
pub open spec fn grid_row(b: Board, y: u64) -> Seq<Seq<char>> {
    Seq::new(5, |x: int| name_of(piece_of_code(b.square(x, y))))
}

/// The table of a board: the header, then rows 0 to 11.
pub open spec fn board_grid(b: Board) -> Seq<Seq<Seq<char>>> {
    seq![grid_header()] + Seq::new(12, |y: int| grid_row(b, y as u64))
}

/// Whether every square on rows 0 to 11 holds the code of a piece.
pub open spec fn is_displayable(b: Board) -> bool {
    forall|x: int, y: u64| 0 <= x < 5 && y < 12 ==> #[trigger] is_piece_code(b.square(x, y))
}

/// The display name of a piece.
pub fn piece_name(piece: Piece) -> (name: &'static str)
    ensures
        name@ == name_of(piece),
{
    match piece {
        Piece::Flag => "军棋",
        Piece::Bomb => "炸弹",
        Piece::Landmine => "地雷",
        Piece::Engineer => "工兵",
        Piece::Lieutenant => "排长",
        Piece::Captain => "连长",
        Piece::Major => "营长",
        Piece::Colonel => "团长",
        Piece::Brigadier => "旅长",
        Piece::MajorGeneral => "师长",
        Piece::General => "军长",
        Piece::FieldMarshal => "司令",
        Piece::Opponent => "XXX",
        _ => "",
    }
}

impl From<String> for Piece {
    fn from(v: String) -> Piece {
        if v == "军棋".to_owned() {
            Piece::Flag
        } else if v == "炸弹".to_owned() {
            Piece::Bomb
        } else if v == "地雷".to_owned() {
            Piece::Landmine
        } else if v == "工兵".to_owned() {
            Piece::Engineer
        } else if v == "排长".to_owned() {
            Piece::Lieutenant
        } else if v == "连长".to_owned() {
            Piece::Captain
        } else if v == "营长".to_owned() {
            Piece::Major
        } else if v == "团长".to_owned() {
            Piece::Colonel
        } else if v == "旅长".to_owned() {
            Piece::Brigadier
        } else if v == "师长".to_owned() {
            Piece::MajorGeneral
        } else if v == "军长".to_owned() {
            Piece::General
        } else if v == "司令".to_owned() {
            Piece::FieldMarshal
        } else if v == "对手".to_owned() {
            Piece::Opponent
        } else {
            Piece::Empty
        }
    }
}

impl vstd::std_specs::convert::FromSpecImpl<String> for Piece {
    open spec fn obeys_from_spec() -> bool {
        true
    }

    open spec fn from_spec(v: String) -> Piece {
        piece_of_name(v@)
    }
}

/// What serde_json reads from `text` as an array of arrays of strings;
/// `None` where the text is not one.
pub uninterp spec fn json_string_rows(text: Seq<char>) -> Option<Seq<Seq<Seq<char>>>>;

/// Relies on `serde_json::from_str::<Vec<Vec<String>>>`: the result depends
/// on the text alone, and an error becomes `None`.
#[verifier::external_body]
fn parse_string_rows(text: &str) -> (r: Option<Vec<Vec<String>>>)
    ensures
        r is None <==> json_string_rows(text@) is None,
        r is Some ==> json_string_rows(text@) == Some(r->0.deep_view()),
{
    serde_json::from_str::<Vec<Vec<String>>>(text).ok()
}

/// The pieces named by a layout's rows.
pub open spec fn pieces_named(rows: Seq<Seq<Seq<char>>>) -> Seq<Seq<Piece>> {
    rows.map_values(|row: Seq<Seq<char>>| row.map_values(|name: Seq<char>| piece_of_name(name)))
}

/// Why a layout file gives no board.
#[derive(Clone, Copy, Debug, PartialEq, Eq, Structural)]
pub enum LayoutError {
    /// The text is not a JSON array of arrays of strings.
    NotJson,
    /// There are not six rows of at least five names.
    Shape,
}

/// The pieces named in each row of `names`.
pub fn pieces_of_names(names: &Vec<Vec<String>>) -> (pieces: Vec<Vec<Piece>>)
    ensures
        rows_of(pieces@) == pieces_named(names.deep_view()),
{
    let mut pieces: Vec<Vec<Piece>> = Vec::new();
    let mut i: usize = 0;
    while i < names.len()
        invariant
            i <= names@.len(),
            pieces@.len() == i,
            forall|r: int| 0 <= r < i ==> #[trigger] rows_of(pieces@)[r] == pieces_named(names.deep_view())[r],
        decreases names@.len() - i,
    {
        let row = &names[i];
        let mut out: Vec<Piece> = Vec::new();
        let mut j: usize = 0;
        while j < row.len()
            invariant
                j <= row@.len(),
                i < names@.len(),
                row == names@[i as int],
                out@.len() == j,
                forall|c: int| 0 <= c < j ==> #[trigger] out@[c] == piece_of_name(row@[c]@),
            decreases row@.len() - j,
        {
            let p = Piece::from(row[j].clone());
            out.push(p);
            j = j + 1;
        }
        assert(out@ =~= pieces_named(names.deep_view())[i as int]) by {
            assert(names.deep_view()[i as int] == row.deep_view());
        }
        let ghost before = pieces@;
        pieces.push(out);
        assert forall|r: int| 0 <= r < i + 1 implies #[trigger] rows_of(pieces@)[r] == pieces_named(
            names.deep_view(),
        )[r] by {
            if r < i {
                assert(pieces@[r] == before[r]);
                assert(rows_of(before)[r] == pieces_named(names.deep_view())[r]);
            }
        }
        i = i + 1;
    }
    assert(rows_of(pieces@) =~= pieces_named(names.deep_view()));
    pieces
}

/// The board of the layout file `text`: a JSON array of six rows of at
/// least five piece names.
pub fn layout_board(text: &str, is_player2: bool) -> (r: Result<Board, LayoutError>)
    ensures
        match json_string_rows(text@) {
            None => r == Err::<Board, LayoutError>(LayoutError::NotJson),
            Some(rows) => if is_half_layout(rows) {
                r is Ok && r->Ok_0.lines@ == gen_lines(pieces_named(rows), is_player2, gen_count())
            } else {
                r == Err::<Board, LayoutError>(LayoutError::Shape)
            },
        },
{
    match parse_string_rows(text) {
        None => Err(LayoutError::NotJson),
        Some(names) => {
            let ghost rows = names.deep_view();
            assert(rows.len() == names@.len());
            if names.len() != 6 {
                return Err(LayoutError::Shape);
            }
            let mut y: usize = 0;
            while y < 6
                invariant
                    y <= 6,
                    names@.len() == 6,
                    rows == names.deep_view(),
                    json_string_rows(text@) == Some(rows),
                    forall|r: int| 0 <= r < y ==> #[trigger] rows[r].len() >= 5,
                decreases 6 - y,
            {
                if names[y].len() < 5 {
                    assert(rows[y as int] == names@[y as int].deep_view());
                    assert(rows[y as int].len() < 5);
                    assert(!is_half_layout(rows));
                    return Err(LayoutError::Shape);
                }
                assert(rows[y as int].len() == names@[y as int]@.len());
                y = y + 1;
            }
            let pieces = pieces_of_names(&names);
            assert(is_half_layout(rows_of(pieces@)));
            Ok(Board::gen(pieces, is_player2))
        },
    }
}

/// A board packed as five columns, each a `u64` holding one four-bit piece
/// code per row, row 0 in the lowest bits.
pub struct Board {
    pub lines: [u64; 5],
}

impl Default for Board {
    fn default() -> (b: Board)
        ensures
            b.lines@ == seq![0u64, 0u64, 0u64, 0u64, 0u64],
    {
        Board { lines: [0, 0, 0, 0, 0] }
    }
}

impl Board {
    /// The code stored at column `x`, row `y`.
    pub open spec fn square(self, x: int, y: u64) -> u64 {
        cell(self.lines@[x], y)
    }

    /// A board with the given columns.
    pub fn new(lines: [u64; 5]) -> (b: Board)
        ensures
            b.lines == lines,
    {
        Board { lines }
    }

    /// The board of one side's initial layout: `pieces` on rows 0 to 5
    /// (row `r` at row `11 - r` for the second player), then an `Opponent`
    /// marker on every square of the other half.
    pub fn gen(pieces: Vec<Vec<Piece>>, is_player2: bool) -> (b: Board)
        requires
            is_half_layout(rows_of(pieces@)),
        ensures
            b.lines@ == gen_lines(rows_of(pieces@), is_player2, gen_count()),
    {
        let mut board = Board::default();
        let mut y: u64 = 0;
        while y < 6
            invariant
                y <= 6,
                is_half_layout(rows_of(pieces@)),
                board.lines@ == gen_lines(rows_of(pieces@), is_player2, (5 * y) as nat),
            decreases 6 - y,
        {
            let mut x: u64 = 0;
            while x < 5
                invariant
                    x <= 5,
                    y < 6,
                    is_half_layout(rows_of(pieces@)),
                    board.lines@ == gen_lines(rows_of(pieces@), is_player2, (5 * y + x) as nat),
                decreases 5 - x,
            {
                assert(rows_of(pieces@)[y as int].len() >= 5);
                let piece = pieces[y as usize][x as usize];
                let row = if is_player2 { 11 - y } else { y };
                proof {
                    Self::lemma_placement_index(5 * y + x, y, x);
                }
                board.place_piece(x, row, piece);
                x = x + 1;
            }
            y = y + 1;
        }
        while y < 12
            invariant
                6 <= y <= 12,
                board.lines@ == gen_lines(rows_of(pieces@), is_player2, (5 * y) as nat),
            decreases 12 - y,
        {
            let mut x: u64 = 0;
            while x < 5
                invariant
                    x <= 5,
                    6 <= y < 12,
                    board.lines@ == gen_lines(rows_of(pieces@), is_player2, (5 * y + x) as nat),
                decreases 5 - x,
            {
                let row = if is_player2 { 11 - y } else { y };
                proof {
                    Self::lemma_placement_index(5 * y + x, y, x);
                }
                board.place_piece(x, row, Piece::Opponent);
                x = x + 1;
            }
            y = y + 1;
        }
        board
    }

    proof fn lemma_placement_index(i: int, y: u64, x: u64)
        requires
            i == 5 * y + x,
            x < 5,
        ensures
            i / 5 == y,
            i % 5 == x,
    {
        assert(i / 5 == y && i % 5 == x) by (nonlinear_arith)
            requires
                i == 5 * y + x,
                x < 5,
        ;
    }

    /// The names on the board as a table: a header row, then rows 0 to 11.
    pub fn name_grid(&self) -> (grid: Vec<Vec<String>>)
        requires
            is_displayable(*self),
        ensures
            grid.deep_view() == board_grid(*self),
    {
        let mut grid: Vec<Vec<String>> = Vec::new();
        let mut header: Vec<String> = Vec::new();
        header.push("l0".to_owned());
        header.push("l1".to_owned());
        header.push("l2".to_owned());
        header.push("l3".to_owned());
        header.push("l4".to_owned());
        assert(header.deep_view() =~= grid_header()) by {
            assert(header.deep_view()[0] == header@[0]@);
            assert(header.deep_view()[1] == header@[1]@);
            assert(header.deep_view()[2] == header@[2]@);
            assert(header.deep_view()[3] == header@[3]@);
            assert(header.deep_view()[4] == header@[4]@);
        }
        grid.push(header);
        assert(grid.deep_view() =~= seq![grid_header()]) by {
            assert(grid.deep_view()[0] == grid@[0].deep_view());
        }
        let mut y: u64 = 0;
        while y < 12
            invariant
                y <= 12,
                is_displayable(*self),
                grid@.len() == y + 1,
                grid.deep_view() =~= seq![grid_header()] + Seq::new(
                    y as nat,
                    |r: int| grid_row(*self, r as u64),
                ),
            decreases 12 - y,
        {
            let mut names: Vec<String> = Vec::new();
            let mut x: u64 = 0;
            while x < 5
                invariant
                    x <= 5,
                    y < 12,
                    is_displayable(*self),
                    names@.len() == x,
                    names.deep_view() =~= grid_row(*self, y).take(x as int),
                decreases 5 - x,
            {
                assert(is_piece_code(self.square(x as int, y)));
                let piece = self.get_piece(x, y);
                let name = piece_name(piece).to_owned();
                let ghost before = names.deep_view();
                names.push(name);
                assert(names.deep_view() =~= before.push(name@)) by {
                    assert(names.deep_view()[x as int] == names@[x as int]@);
                }
                assert(grid_row(*self, y).take(x + 1) =~= grid_row(*self, y).take(x as int).push(
                    name@,
                ));
                x = x + 1;
            }
            let ghost before = grid.deep_view();
            grid.push(names);
            assert(names.deep_view() =~= grid_row(*self, y));
            assert(grid.deep_view() =~= before.push(grid_row(*self, y))) by {
                assert(grid.deep_view()[y + 1] == grid@[y + 1].deep_view());
            }
            y = y + 1;
        }
        grid
    }

    /// The board drawn as a text table of piece names.
    pub fn to_table(&self) -> (text: String)
        requires
            is_displayable(*self),
        ensures
            text@ == table_text(board_grid(*self)),
    {
        let grid = self.name_grid();
        assert forall|i: int| 0 <= i < grid@.len() implies #[trigger] grid@[i]@.len()
            == grid@[0]@.len() by {
            assert(grid.deep_view()[i] == grid@[i].deep_view());
            assert(grid.deep_view()[0] == grid@[0].deep_view());
            assert(board_grid(*self)[0].len() == 5);
            assert(grid.deep_view().len() == grid@.len());
            let rows = Seq::new(12, |y: int| grid_row(*self, y as u64));
            assert(board_grid(*self) == seq![grid_header()] + rows);
            if i > 0 {
                assert(board_grid(*self)[i] == rows[i - 1]);
                assert(rows[i - 1].len() == 5);
            }
        }
        render_grid(grid)
    }

    /// Places `piece` at column `x`, row `y`, if that square is empty; tells
    /// whether it did.
    pub fn place_piece(&mut self, x: u64, y: u64, piece: Piece) -> (placed: bool)
        requires
            x < 5,
            y < 16,
        ensures
            placed == (old(self).square(x as int, y) == 0),
            final(self).lines@ == place_on(old(self).lines@, x as int, y, piece),
    {
        let square = Self::get_piece_from_line(self.lines[x as usize], y);
        if square != 0 {
            return false;
        }
        let row = y * 4;
        let code = piece.code();
        let shifted = code << row;
        let line = self.lines[x as usize] | shifted;
        self.lines[x as usize] = line;
        proof {
            assert(shifted == ((piece_code(piece) << ((y * 4) as u64)) as u64));
            assert(self.lines@ =~= place_on(old(self).lines@, x as int, y, piece));
        }
        true
    }

    /// The piece at column `x`, row `y`.
    pub fn get_piece(&self, x: u64, y: u64) -> (p: Piece)
        requires
            x < 5,
            y < 16,
            is_piece_code(self.square(x as int, y)),
        ensures
            p == piece_of_code(self.square(x as int, y)),
            piece_code(p) == self.square(x as int, y),
    {
        let line = self.lines[x as usize];
        Piece::from_repr(Self::get_piece_from_line(line, y)).unwrap()
    }

    /// The four-bit code at row `y` of the column `x`.
    pub fn get_piece_from_line(x: u64, y: u64) -> (c: u64)
        requires
            y < 16,
        ensures
            c == cell(x, y),
            c < 16,
    {
        let mask: u64 = 0xf;
        let row = y * 4;
        let c = ((mask << row) & x) >> row;
        assert(((mask << row) & x) >> row == (x >> row) & 0xf && (x >> row) & 0xf < 16)
            by (bit_vector)
            requires
                row < 64,
                mask == 0xf,
        ;
        c
    }
}

} // verus!
