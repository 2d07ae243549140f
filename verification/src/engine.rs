//! The position engine: what the `shakmaty` crate computes for a position
//! given as FEN text and a move given in coordinate notation.
//!
//! A position is carried as text. Every function here parses the text, asks
//! `shakmaty`, and hands plain values back. Nothing in this file is proved:
//! each contract names the engine's answer, so that the session's contracts
//! can speak of it.

use vstd::prelude::*;
use crate::pieces::{Color, Piece, Role};

verus! {

/// The position reached by playing the move `uci` in the position `fen`, as
/// FEN text; `None` where the text is no valid position or the move is not
/// legal in it.
pub uninterp spec fn played(fen: Seq<char>, uci: Seq<char>) -> Option<Seq<char>>;

/// The move `uci` in the position `fen`, in short algebraic notation; `None`
/// where the text is no valid position or the move is not legal in it.
pub uninterp spec fn rendered(fen: Seq<char>, uci: Seq<char>) -> Option<Seq<char>>;

/// Whether White is to move in the position `fen`; `None` where the text is
/// no valid position.
pub uninterp spec fn white_to_move(fen: Seq<char>) -> Option<bool>;

/// The position `fen` without its move counters (its EPD); `None` where the
/// text is no valid position.
pub uninterp spec fn notation(fen: Seq<char>) -> Option<Seq<char>>;

/// What stands on a square of the position `fen`, squares counted from a1
/// (0) along the ranks to h8 (63); `None` where the text is no valid
/// position.
pub uninterp spec fn piece_on(fen: Seq<char>, square: int) -> Option<Option<Piece>>;

/// Calls `shakmaty::Position::play` on the standard-chess position parsed
/// from `fen` (`Fen::from_str`, `Fen::into_position`) with the move parsed
/// from `uci` (`UciMove::from_str`, `UciMove::to_move`), and writes the
/// position that comes out as FEN (`Fen::from_position`).
/// Trusted: the answer depends on the two texts alone.
#[verifier::external_body]
pub(crate) fn engine_play(fen: &str, uci: &str) -> (res: Option<String>)
    ensures
        res.is_some() == played(fen@, uci@).is_some(),
        res.is_some() ==> res.unwrap()@ == played(fen@, uci@).unwrap(),
{
    let setup: shakmaty::fen::Fen = fen.parse().ok()?;
    let position: shakmaty::Chess = setup.into_position(shakmaty::CastlingMode::Standard).ok()?;
    let coordinates: shakmaty::uci::UciMove = uci.parse().ok()?;
    let chosen = coordinates.to_move(&position).ok()?;
    let next = shakmaty::Position::play(position, chosen).ok()?;
    Some(shakmaty::fen::Fen::from_position(&next, shakmaty::EnPassantMode::Legal).to_string())
}

/// Calls `shakmaty::san::San::from_move` on the standard-chess position
/// parsed from `fen` with the move parsed from `uci`, and writes the result
/// with its `Display`.
/// Trusted: the answer depends on the two texts alone.
#[verifier::external_body]
pub(crate) fn engine_san(fen: &str, uci: &str) -> (res: Option<String>)
    ensures
        res.is_some() == rendered(fen@, uci@).is_some(),
        res.is_some() ==> res.unwrap()@ == rendered(fen@, uci@).unwrap(),
{
    let setup: shakmaty::fen::Fen = fen.parse().ok()?;
    let position: shakmaty::Chess = setup.into_position(shakmaty::CastlingMode::Standard).ok()?;
    let coordinates: shakmaty::uci::UciMove = uci.parse().ok()?;
    let chosen = coordinates.to_move(&position).ok()?;
    Some(shakmaty::san::San::from_move(&position, chosen).to_string())
}

/// Calls `shakmaty::Position::turn` on the standard-chess position parsed
/// from `fen`.
/// Trusted: the answer depends on the text alone.
#[verifier::external_body]
pub(crate) fn engine_turn(fen: &str) -> (res: Option<bool>)
    ensures
        res == white_to_move(fen@),
{
    let setup: shakmaty::fen::Fen = fen.parse().ok()?;
    let position: shakmaty::Chess = setup.into_position(shakmaty::CastlingMode::Standard).ok()?;
    Some(shakmaty::Position::turn(&position).is_white())
}

/// Calls `shakmaty::fen::Epd::from_position` on the standard-chess position
/// parsed from `fen`, and writes the result with its `Display`.
/// Trusted: the answer depends on the text alone.
#[verifier::external_body]
pub(crate) fn engine_epd(fen: &str) -> (res: Option<String>)
    ensures
        res.is_some() == notation(fen@).is_some(),
        res.is_some() ==> res.unwrap()@ == notation(fen@).unwrap(),
{
    let setup: shakmaty::fen::Fen = fen.parse().ok()?;
    let position: shakmaty::Chess = setup.into_position(shakmaty::CastlingMode::Standard).ok()?;
    Some(shakmaty::fen::Epd::from_position(&position, shakmaty::EnPassantMode::Legal).to_string())
}

/// Calls `shakmaty::Board::piece_at` on the board of the standard-chess
/// position parsed from `fen`, for the square with the given index
/// (`Square::new`, which panics from 64 on).
/// Trusted: the answer depends on the text and the index alone.
#[verifier::external_body]
pub(crate) fn engine_piece_at(fen: &str, square: u8) -> (res: Option<Option<Piece>>)
    requires
        square < 64,
    ensures
        res == piece_on(fen@, square as int),
{
    let setup: shakmaty::fen::Fen = fen.parse().ok()?;
    let position: shakmaty::Chess = setup.into_position(shakmaty::CastlingMode::Standard).ok()?;
    let at = shakmaty::Square::new(u32::from(square));
    let Some(found) = shakmaty::Position::board(&position).piece_at(at) else { return Some(None) };
    let role = match found.role {
        shakmaty::Role::Pawn => Role::Pawn,
        shakmaty::Role::Knight => Role::Knight,
        shakmaty::Role::Bishop => Role::Bishop,
        shakmaty::Role::Rook => Role::Rook,
        shakmaty::Role::Queen => Role::Queen,
        shakmaty::Role::King => Role::King,
    };
    Some(Some(Piece { color: Color::from_white(found.color.is_white()), role }))
}

} // verus!
