//! The board and how it is shown: eight rows from rank 8 down to rank 1,
//! files a to h from left to right, and a row of file letters below.

use vstd::prelude::*;
use vstd::string::StringExecFns;
use crate::engine::{engine_piece_at, piece_on};
use crate::pieces::{ascii_glyph, piece_ascii, Color, Piece};

verus! {

/// What stands on the 64 squares, counted from a1 (0) along the ranks to
/// h8 (63).
#[derive(Debug)]
pub struct Board {
    squares: Vec<Option<Piece>>,
}

impl View for Board {
    type V = Seq<Option<Piece>>;

    closed spec fn view(&self) -> Seq<Option<Piece>> {
        self.squares@
    }
}

/// The colour that a cell is painted with.
#[derive(Clone, Copy, PartialEq, Eq, Structural, Debug)]
pub enum Tint {
    /// A white piece.
    Blue,
    /// A black piece.
    Red,
    /// An empty square, in a grey of the given level.
    Grey(u8),
}

/// One cell of the shown board: a glyph and its colour.
#[derive(Debug)]
pub struct Cell {
    pub glyph: String,
    pub tint: Tint,
}

impl View for Cell {
    type V = (Seq<char>, Tint);

    open spec fn view(&self) -> (Seq<char>, Tint) {
        (self.glyph@, self.tint)
    }
}

/// The grey of an empty light square.
pub const LIGHT_GREY: u8 = 140;

/// The grey of an empty dark square.
pub const DARK_GREY: u8 = 80;

/// The square shown in a row and a column of the picture, both counted
/// from 0: row 0 is rank 8, column 0 is file a.
pub open spec fn square_shown(row: int, col: int) -> int {
    64 - (row + 1) * 8 + col
}

/// Whether the picture shades a cell as light: where row and column add
/// up to an even number.
pub open spec fn shaded_light(row: int, col: int) -> bool {
    (row + col) % 2 == 0
}

/// The cell for what stands on a square: a piece shows its glyph in its
/// side's colour, an empty square a dot in the grey of its shade.
pub open spec fn cell_for(content: Option<Piece>, light: bool) -> (Seq<char>, Tint) {
    match content {
        Some(piece) => (
            ascii_glyph(piece),
            if piece.color == Color::White {
                Tint::Blue
            } else {
                Tint::Red
            },
        ),
        None => (
            "·"@,
            Tint::Grey(
                if light {
                    LIGHT_GREY
                } else {
                    DARK_GREY
                },
            ),
        ),
    }
}

/// The 64 cells of the picture, row by row from the top.
pub open spec fn cells_of(board: Seq<Option<Piece>>) -> Seq<(Seq<char>, Tint)> {
    Seq::new(
        64,
        |k: int| cell_for(board[square_shown(k / 8, k % 8)], shaded_light(k / 8, k % 8)),
    )
}

/// The glyphs of the cells, without their colours.
pub open spec fn glyphs_of(board: Seq<Option<Piece>>) -> Seq<Seq<char>> {
    Seq::new(64, |k: int| cells_of(board)[k].0)
}

/// The digit that labels a row of the picture.
pub open spec fn rank_label(row: int) -> Seq<char> {
    if row == 0 {
        "8"@
    } else if row == 1 {
        "7"@
    } else if row == 2 {
        "6"@
    } else if row == 3 {
        "5"@
    } else if row == 4 {
        "4"@
    } else if row == 5 {
        "3"@
    } else if row == 6 {
        "2"@
    } else {
        "1"@
    }
}

/// The first `n` cells of a row, each followed by a blank.
pub open spec fn cells_text(painted: Seq<Seq<char>>, row: int, n: nat) -> Seq<char>
    decreases n,
{
    if n == 0 {
        Seq::<char>::empty()
    } else {
        cells_text(painted, row, (n - 1) as nat) + painted[row * 8 + n - 1] + " "@
    }
}

/// One row of the picture: its label between blanks, then its eight cells.
pub open spec fn row_text(painted: Seq<Seq<char>>, row: int) -> Seq<char> {
    "  "@ + rank_label(row) + "  "@ + cells_text(painted, row, 8)
}

/// The row of file letters below the board.
pub open spec fn files_text() -> Seq<char> {
    "     a b c d e f g h"@
}

/// The nine lines of the picture, given the text of its 64 cells.
pub open spec fn picture(painted: Seq<Seq<char>>) -> Seq<Seq<char>> {
    Seq::new(
        9,
        |r: int|
            if r < 8 {
                row_text(painted, r)
            } else {
                files_text()
            },
    )
}

impl Board {
    #[verifier::type_invariant]
    spec fn inv(self) -> bool {
        self.squares@.len() == 64
    }

    /// A board from what stands on its 64 squares; `None` for any other
    /// number of squares.
    pub fn from_squares(squares: Vec<Option<Piece>>) -> (res: Option<Board>)
        ensures
            res is Some <==> squares@.len() == 64,
            res is Some ==> res.unwrap()@ == squares@,
    {
        if squares.len() == 64 {
            Some(Board { squares })
        } else {
            None
        }
    }

    /// What stands on a square.
    pub fn piece_at(&self, square: u8) -> (res: Option<Piece>)
        requires
            square < 64,
        ensures
            self@.len() == 64,
            res == self@[square as int],
    {
        proof {
            use_type_invariant(self);
        }
        self.squares[square as usize]
    }

    /// The board of a position given as FEN text, asked of the engine
    /// square by square; `None` where the engine does not answer for some
    /// square.
    pub fn of_position(fen: &str) -> (res: Option<Board>)
        ensures
            match res {
                Some(board) => board@.len() == 64 && forall|sq: int|
                    0 <= sq < 64 ==> piece_on(fen@, sq) == Some(#[trigger] board@[sq]),
                None => exists|sq: int| 0 <= sq < 64 && (#[trigger] piece_on(fen@, sq)) is None,
            },
    {
        let mut squares: Vec<Option<Piece>> = Vec::new();
        let mut square: u8 = 0;
        while square < 64
            invariant
                square <= 64,
                squares@.len() == square,
                forall|sq: int|
                    0 <= sq < square ==> piece_on(fen@, sq) == Some(#[trigger] squares@[sq]),
            decreases 64 - square,
        {
            match engine_piece_at(fen, square) {
                Some(content) => {
                    squares.push(content);
                },
                None => {
                    assert(piece_on(fen@, square as int) is None);
                    return None;
                },
            }
            square += 1;
        }
        Some(Board { squares })
    }
}

/// The cell of the picture in a row and a column.
pub fn cell_at(board: &Board, row: u8, col: u8) -> (res: Cell)
    requires
        row < 8,
        col < 8,
    ensures
        res@ == cell_for(
            board@[square_shown(row as int, col as int)],
            shaded_light(row as int, col as int),
        ),
{
    let square: u8 = 64 - (row + 1) * 8 + col;
    let light = (row + col) % 2 == 0;
    match board.piece_at(square) {
        Some(piece) => Cell {
            glyph: piece_ascii(&piece),
            tint: match piece.color {
                Color::White => Tint::Blue,
                Color::Black => Tint::Red,
            },
        },
        None => Cell {
            glyph: "·".to_owned(),
            tint: Tint::Grey(
                if light {
                    LIGHT_GREY
                } else {
                    DARK_GREY
                },
            ),
        },
    }
}

/// The 64 cells of the picture of a board, row by row from the top.
pub fn board_cells(board: &Board) -> (res: Vec<Cell>)
    ensures
        res.len() == 64,
        forall|k: int| 0 <= k < 64 ==> (#[trigger] res[k])@ == cells_of(board@)[k],
{
    let mut cells: Vec<Cell> = Vec::new();
    let mut row: u8 = 0;
    while row < 8
        invariant
            row <= 8,
            cells.len() == row * 8,
            forall|k: int| 0 <= k < cells.len() ==> (#[trigger] cells[k])@ == cells_of(board@)[k],
        decreases 8 - row,
    {
        let mut col: u8 = 0;
        while col < 8
            invariant
                row < 8,
                col <= 8,
                cells.len() == row * 8 + col,
                forall|k: int|
                    0 <= k < cells.len() ==> (#[trigger] cells[k])@ == cells_of(board@)[k],
            decreases 8 - col,
        {
            let cell = cell_at(board, row, col);
            proof {
                let k = row * 8 + col;
                assert(k / 8 == row && k % 8 == col);
            }
            cells.push(cell);
            col += 1;
        }
        row += 1;
    }
    cells
}

/// A text that holds no escape character.
pub open spec fn unescaped(text: Seq<char>) -> bool {
    forall|i: int| 0 <= i < text.len() ==> text[i] != '\u{1b}'
}

/// The painted text holds the glyph, whatever stands before and after it.
pub open spec fn framed(painted: Seq<char>, glyph: Seq<char>) -> bool {
    exists|before: Seq<char>, after: Seq<char>| painted == before + glyph + after
}

/// Calls `colored::Colorize::blue` on the glyph and writes the result with
/// its `Display`. Which colour codes come out depends on the terminal and
/// the environment. Trusted: a glyph without an escape character is
/// written unchanged, alone or between the codes.
#[verifier::external_body]
fn paint_blue(glyph: &str) -> (res: String)
    ensures
        unescaped(glyph@) ==> framed(res@, glyph@),
{
    colored::Colorize::blue(glyph).to_string()
}

/// Calls `colored::Colorize::red` on the glyph and writes the result with
/// its `Display`. Which colour codes come out depends on the terminal and
/// the environment. Trusted: a glyph without an escape character is
/// written unchanged, alone or between the codes.
#[verifier::external_body]
fn paint_red(glyph: &str) -> (res: String)
    ensures
        unescaped(glyph@) ==> framed(res@, glyph@),
{
    colored::Colorize::red(glyph).to_string()
}

/// Calls `colored::Colorize::truecolor` on the glyph, with the level for
/// red, green and blue alike, and writes the result with its `Display`.
/// Which colour codes come out depends on the terminal and the
/// environment. Trusted: a glyph without an escape character is written
/// unchanged, alone or between the codes.
#[verifier::external_body]
fn paint_grey(glyph: &str, level: u8) -> (res: String)
    ensures
        unescaped(glyph@) ==> framed(res@, glyph@),
{
    colored::Colorize::truecolor(glyph, level, level, level).to_string()
}

/// The text of a cell in its colour, as the terminal at hand takes it:
/// the glyph, alone or between colour codes.
pub fn paint(cell: &Cell) -> (res: String)
    ensures
        unescaped(cell.glyph@) ==> framed(res@, cell.glyph@),
{
    match cell.tint {
        Tint::Blue => paint_blue(cell.glyph.as_str()),
        Tint::Red => paint_red(cell.glyph.as_str()),
        Tint::Grey(level) => paint_grey(cell.glyph.as_str(), level),
    }
}

/// No glyph of the board holds an escape character.
pub proof fn lemma_glyphs_unescaped(board: Seq<Option<Piece>>, k: int)
    requires
        0 <= k < 64,
    ensures
        unescaped(glyphs_of(board)[k]),
{
    reveal_strlit("▲");
    reveal_strlit("N");
    reveal_strlit("B");
    reveal_strlit("R");
    reveal_strlit("Q");
    reveal_strlit("K");
    reveal_strlit("·");
}

fn label_of(row: u8) -> (res: &'static str)
    requires
        row < 8,
    ensures
        res@ == rank_label(row as int),
{
    if row == 0 {
        "8"
    } else if row == 1 {
        "7"
    } else if row == 2 {
        "6"
    } else if row == 3 {
        "5"
    } else if row == 4 {
        "4"
    } else if row == 5 {
        "3"
    } else if row == 6 {
        "2"
    } else {
        "1"
    }
}

/// The nine lines of the picture, given the text of its 64 cells row by
/// row from the top: eight labelled rows, then the file letters.
pub fn draw(painted: &Vec<String>) -> (res: Vec<String>)
    requires
        painted.len() == 64,
    ensures
        res.deep_view() == picture(painted.deep_view()),
{
    let ghost texts = painted.deep_view();
    let mut lines: Vec<String> = Vec::new();
    let mut row: u8 = 0;
    while row < 8
        invariant
            row <= 8,
            painted.len() == 64,
            texts == painted.deep_view(),
            lines.len() == row,
            forall|r: int| 0 <= r < row ==> (#[trigger] lines[r])@ == row_text(texts, r),
        decreases 8 - row,
    {
        let mut line = "  ".to_owned();
        line.append(label_of(row));
        line.append("  ");
        let ghost head = line@;
        let mut col: u8 = 0;
        while col < 8
            invariant
                row < 8,
                col <= 8,
                painted.len() == 64,
                texts == painted.deep_view(),
                line@ == head + cells_text(texts, row as int, col as nat),
            decreases 8 - col,
        {
            let at: usize = (row * 8 + col) as usize;
            line.append(painted[at].as_str());
            line.append(" ");
            col += 1;
            assert(line@ =~= head + cells_text(texts, row as int, col as nat));
        }
        lines.push(line);
        row += 1;
    }
    lines.push("     a b c d e f g h".to_owned());
    assert(lines.deep_view() =~= picture(texts));
    lines
}

/// The picture of a board in colours: white pieces blue, black pieces red,
/// empty squares a grey dot. Each cell is painted as the terminal at hand
/// takes it, so it holds its glyph, alone or between colour codes, and the
/// painted cells are laid out by `draw`.
pub fn print_board(board: &Board) -> (res: Vec<String>)
    ensures
        exists|painted: Seq<Seq<char>>|
            {
                &&& painted.len() == 64
                &&& forall|k: int|
                    0 <= k < 64 ==> framed(#[trigger] painted[k], glyphs_of(board@)[k])
                &&& res.deep_view() == picture(painted)
            },
{
    let cells = board_cells(board);
    let mut painted: Vec<String> = Vec::new();
    let mut at: usize = 0;
    while at < 64
        invariant
            at <= 64,
            cells.len() == 64,
            painted.len() == at,
            forall|k: int| 0 <= k < 64 ==> (#[trigger] cells[k])@ == cells_of(board@)[k],
            forall|k: int|
                0 <= k < at ==> framed((#[trigger] painted[k])@, glyphs_of(board@)[k]),
        decreases 64 - at,
    {
        proof {
            lemma_glyphs_unescaped(board@, at as int);
        }
        painted.push(paint(&cells[at]));
        at += 1;
    }
    let lines = draw(&painted);
    proof {
        let texts = painted.deep_view();
        assert forall|k: int| 0 <= k < 64 implies framed(
            #[trigger] texts[k],
            glyphs_of(board@)[k],
        ) by {
            assert(texts[k] == painted[k]@);
        }
    }
    lines
}

/// The picture of a board without colours.
pub fn plain_board(board: &Board) -> (res: Vec<String>)
    ensures
        res.deep_view() == picture(glyphs_of(board@)),
{
    let cells = board_cells(board);
    let mut texts: Vec<String> = Vec::new();
    let mut at: usize = 0;
    while at < 64
        invariant
            at <= 64,
            cells.len() == 64,
            texts.len() == at,
            forall|k: int| 0 <= k < 64 ==> (#[trigger] cells[k])@ == cells_of(board@)[k],
            forall|k: int| 0 <= k < at ==> (#[trigger] texts[k])@ == glyphs_of(board@)[k],
        decreases 64 - at,
    {
        texts.push(cells[at].glyph.clone());
        at += 1;
    }
    assert(texts.deep_view() =~= glyphs_of(board@));
    draw(&texts)
}

} // verus!
