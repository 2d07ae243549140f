//! Sides, piece kinds and the glyphs that stand for them.

use vstd::prelude::*;

verus! {

/// One of the two sides.
#[derive(Clone, Copy, PartialEq, Eq, Structural, Debug)]
pub enum Color {
    White,
    Black,
}

/// The six kinds of piece.
#[derive(Clone, Copy, PartialEq, Eq, Structural, Debug)]
pub enum Role {
    Pawn,
    Knight,
    Bishop,
    Rook,
    Queen,
    King,
}

/// A piece: a kind of one side.
#[derive(Clone, Copy, PartialEq, Eq, Structural, Debug)]
pub struct Piece {
    pub color: Color,
    pub role: Role,
}

impl Color {
    /// The side that is not `self`.
    pub open spec fn spec_other(self) -> Color {
        match self {
            Color::White => Color::Black,
            Color::Black => Color::White,
        }
    }

    /// The side that is not `self`.
    #[verifier::when_used_as_spec(spec_other)]
    pub fn other(self) -> (res: Color)
        ensures
            res == self.spec_other(),
    {
        match self {
            Color::White => Color::Black,
            Color::Black => Color::White,
        }
    }

    /// `White` for `true`, `Black` for `false`.
    pub open spec fn spec_from_white(white: bool) -> Color {
        if white {
            Color::White
        } else {
            Color::Black
        }
    }

    /// `White` for `true`, `Black` for `false`.
    #[verifier::when_used_as_spec(spec_from_white)]
    pub fn from_white(white: bool) -> (res: Color)
        ensures
            res == Color::spec_from_white(white),
    {
        if white {
            Color::White
        } else {
            Color::Black
        }
    }
}

/// The English name of a side, capitalised.
pub open spec fn side_name(side: Color) -> Seq<char> {
    match side {
        Color::White => "White"@,
        Color::Black => "Black"@,
    }
}

/// The English name of a side, capitalised.
pub fn print_side(side: &Color) -> (res: String)
    ensures
        res@ == side_name(*side),
{
    match side {
        Color::White => "White".to_owned(),
        Color::Black => "Black".to_owned(),
    }
}

/// The upper-case English letter of a piece kind.
pub open spec fn role_letter(role: Role) -> Seq<char> {
    match role {
        Role::Pawn => "P"@,
        Role::Knight => "N"@,
        Role::Bishop => "B"@,
        Role::Rook => "R"@,
        Role::Queen => "Q"@,
        Role::King => "K"@,
    }
}

/// What a piece looks like on the plain board: a triangle for a pawn of
/// either side, the upper-case letter of its kind for any other piece.
pub open spec fn ascii_glyph(piece: Piece) -> Seq<char> {
    if piece.role == Role::Pawn {
        "▲"@
    } else {
        role_letter(piece.role)
    }
}

/// The glyph of a piece on the plain board. The side does not show in the
/// glyph: it shows in the colour the glyph is painted with.
pub fn piece_ascii(piece: &Piece) -> (res: String)
    ensures
        res@ == ascii_glyph(*piece),
{
    match piece.role {
        Role::Pawn => "▲".to_owned(),
        Role::Knight => "N".to_owned(),
        Role::Bishop => "B".to_owned(),
        Role::Rook => "R".to_owned(),
        Role::Queen => "Q".to_owned(),
        Role::King => "K".to_owned(),
    }
}

/// The filled chess figurine of a piece kind. Both sides share the filled
/// figurines; the pawn's carries a text variation selector.
pub open spec fn unicode_glyph(piece: Piece) -> Seq<char> {
    match piece.role {
        Role::Pawn => "♟︎"@,
        Role::Knight => "♞"@,
        Role::Bishop => "♝"@,
        Role::Rook => "♜"@,
        Role::Queen => "♛"@,
        Role::King => "♚"@,
    }
}

/// The figurine of a piece.
pub fn piece_unicode(piece: &Piece) -> (res: &'static str)
    ensures
        res@ == unicode_glyph(*piece),
{
    match piece.role {
        Role::Pawn => "♟︎",
        Role::Knight => "♞",
        Role::Bishop => "♝",
        Role::Rook => "♜",
        Role::Queen => "♛",
        Role::King => "♚",
    }
}

} // verus!
