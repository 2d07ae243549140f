//! The puzzle record, and the request that asks the puzzle server for one.

use vstd::prelude::*;
use vstd::string::{StrSliceExecFns, StringExecFns};

verus! {

/// A tactic: a starting position and the forced line that solves it. The
/// first move of the line sets the tactic up; the side that answers it is
/// the solver's. A usable tactic has at least two moves.
#[derive(Debug)]
pub struct ChessTactic {
    pub id: String,
    /// The line, each move in coordinate notation.
    pub moves: Vec<String>,
    /// The starting position as FEN text.
    pub fen: String,
    pub popularity: i32,
    pub tags: Vec<String>,
    pub game_link: String,
    pub rating: i32,
    pub rating_deviation: i32,
    pub number_plays: i32,
}

impl ChessTactic {
    /// The line as a sequence of texts.
    pub open spec fn line(&self) -> Seq<Seq<char>> {
        self.moves.deep_view()
    }
}

/// What is wrong with a rating range.
#[derive(Clone, Copy, PartialEq, Eq, Structural, Debug)]
pub enum RatingError {
    /// The text holds no `-`: it is not of the form `500-1200`.
    NotARange,
    /// What stands before the first `-` is no rating.
    BadLowerBound,
    /// What stands after the first `-` is no rating.
    BadUpperBound,
}

/// What is asked of the puzzle server: ratings from `rating_gte` up to
/// `rating_lte`, both included, and a tactic that carries one of the tags.
#[derive(Debug)]
pub struct ChessTacticRequest {
    pub rating_gte: Option<i32>,
    pub rating_lte: Option<i32>,
    pub tags: Vec<String>,
}

/// The value of a decimal digit.
pub open spec fn digit_value(c: char) -> Option<int> {
    if c == '0' {
        Some(0)
    } else if c == '1' {
        Some(1)
    } else if c == '2' {
        Some(2)
    } else if c == '3' {
        Some(3)
    } else if c == '4' {
        Some(4)
    } else if c == '5' {
        Some(5)
    } else if c == '6' {
        Some(6)
    } else if c == '7' {
        Some(7)
    } else if c == '8' {
        Some(8)
    } else if c == '9' {
        Some(9)
    } else {
        None
    }
}

/// The number that a run of decimal digits writes; `None` where a
/// character is no digit. The empty run writes 0.
pub open spec fn digits_value(digits: Seq<char>) -> Option<int>
    decreases digits.len(),
{
    if digits.len() == 0 {
        Some(0)
    } else {
        match (digits_value(digits.drop_last()), digit_value(digits.last())) {
            (Some(high), Some(low)) => Some(10 * high + low),
            _ => None,
        }
    }
}

/// The rating that a text writes: decimal digits, at least one, after an
/// optional `+`, with a value that fits an `i32`.
pub open spec fn bound_of(part: Seq<char>) -> Option<i32> {
    let digits = if part.len() > 0 && part[0] == '+' {
        part.drop_first()
    } else {
        part
    };
    if digits.len() == 0 {
        None
    } else {
        match digits_value(digits) {
            Some(value) => if value <= i32::MAX {
                Some(value as i32)
            } else {
                None
            },
            None => None,
        }
    }
}

/// The place of the first `-` at or after `from`; the length of the text
/// where there is none.
pub open spec fn dash_at(text: Seq<char>, from: int) -> int
    decreases text.len() - from,
{
    if from < 0 || from >= text.len() {
        text.len() as int
    } else if text[from] == '-' {
        from
    } else {
        dash_at(text, from + 1)
    }
}

/// The range that a text of the form `500-1200` writes: the lower bound
/// stands before the first `-`, the upper bound after it, up to a second
/// `-` where there is one. The lower bound is read first.
pub open spec fn rating_range(text: Seq<char>) -> Result<(i32, i32), RatingError> {
    let first = dash_at(text, 0);
    if first >= text.len() {
        Err(RatingError::NotARange)
    } else {
        let second = dash_at(text, first + 1);
        match bound_of(text.subrange(0, first)) {
            None => Err(RatingError::BadLowerBound),
            Some(low) => match bound_of(text.subrange(first + 1, second)) {
                None => Err(RatingError::BadUpperBound),
                Some(high) => Ok((low, high)),
            },
        }
    }
}

/// A run of digits writes no less than any run it begins with, and is a
/// number only where each such run is.
proof fn lemma_digits_prefix(digits: Seq<char>, n: int)
    requires
        0 <= n <= digits.len(),
    ensures
        digits_value(digits) matches Some(whole) ==> (digits_value(digits.take(n)) matches Some(
            part,
        ) && 0 <= part <= whole),
    decreases digits.len(),
{
    if n == digits.len() {
        assert(digits.take(n) =~= digits);
        if digits.len() > 0 {
            lemma_digits_prefix(digits.drop_last(), n - 1);
        }
    } else {
        lemma_digits_prefix(digits.drop_last(), n);
        assert(digits.drop_last().take(n) =~= digits.take(n));
    }
}

fn digit_of(c: char) -> (res: Option<u8>)
    ensures
        match res {
            Some(d) => digit_value(c) == Some(d as int) && d <= 9,
            None => digit_value(c) is None,
        },
{
    if c == '0' {
        Some(0)
    } else if c == '1' {
        Some(1)
    } else if c == '2' {
        Some(2)
    } else if c == '3' {
        Some(3)
    } else if c == '4' {
        Some(4)
    } else if c == '5' {
        Some(5)
    } else if c == '6' {
        Some(6)
    } else if c == '7' {
        Some(7)
    } else if c == '8' {
        Some(8)
    } else if c == '9' {
        Some(9)
    } else {
        None
    }
}

fn find_dash(text: &str, from: usize, len: usize) -> (res: usize)
    requires
        len == text@.len(),
        from <= len,
    ensures
        res == dash_at(text@, from as int),
        from <= res <= len,
{
    let mut at = from;
    while at < len
        invariant
            from <= at <= len,
            len == text@.len(),
            dash_at(text@, from as int) == dash_at(text@, at as int),
        decreases len - at,
    {
        if text.get_char(at) == '-' {
            return at;
        }
        at += 1;
    }
    at
}

fn read_bound(text: &str, from: usize, to: usize) -> (res: Option<i32>)
    requires
        from <= to <= text@.len(),
    ensures
        res == bound_of(text@.subrange(from as int, to as int)),
{
    let ghost part = text@.subrange(from as int, to as int);
    let mut at = from;
    if at < to && text.get_char(at) == '+' {
        at += 1;
    }
    let first = at;
    let ghost digits = text@.subrange(first as int, to as int);
    assert(digits =~= if part.len() > 0 && part[0] == '+' {
        part.drop_first()
    } else {
        part
    });
    if at == to {
        return None;
    }
    let mut value: i64 = 0;
    while at < to
        invariant
            first <= at <= to <= text@.len(),
            from <= to,
            part == text@.subrange(from as int, to as int),
            digits == text@.subrange(first as int, to as int),
            digits.len() > 0,
            digits == if part.len() > 0 && part[0] == '+' {
                part.drop_first()
            } else {
                part
            },
            digits_value(digits.take(at - first)) == Some(value as int),
            0 <= value <= i32::MAX,
        decreases to - at,
    {
        let ghost seen = digits.take(at - first + 1);
        assert(seen.drop_last() =~= digits.take(at - first));
        assert(seen.last() == text@[at as int]);
        proof {
            lemma_digits_prefix(digits, at - first + 1);
        }
        match digit_of(text.get_char(at)) {
            None => {
                return None;
            },
            Some(digit) => {
                value = value * 10 + digit as i64;
                if value > i32::MAX as i64 {
                    return None;
                }
            },
        }
        at += 1;
    }
    assert(digits.take(to - first) =~= digits);
    Some(value as i32)
}

/// Reads a rating range of the form `500-1200`.
pub fn parse_rating_range(text: &str) -> (res: Result<(i32, i32), RatingError>)
    ensures
        res == rating_range(text@),
{
    let len = text.unicode_len();
    let first = find_dash(text, 0, len);
    if first >= len {
        return Err(RatingError::NotARange);
    }
    let second = find_dash(text, first + 1, len);
    match read_bound(text, 0, first) {
        None => Err(RatingError::BadLowerBound),
        Some(low) => match read_bound(text, first + 1, second) {
            None => Err(RatingError::BadUpperBound),
            Some(high) => Ok((low, high)),
        },
    }
}

impl ChessTacticRequest {
    /// The request for a rating range, where one is given, and a list of
    /// tags. The bounds of the range are asked for as they are written.
    pub fn new(rating: Option<&str>, tags: Vec<String>) -> (res: Result<
        ChessTacticRequest,
        RatingError,
    >)
        ensures
            match rating {
                None => res matches Ok(request) && request.rating_gte is None && request.rating_lte
                    is None && request.tags == tags,
                Some(text) => match rating_range(text@) {
                    Ok((low, high)) => res matches Ok(request) && request.rating_gte == Some(low)
                        && request.rating_lte == Some(high) && request.tags == tags,
                    Err(error) => res matches Err(found) && found == error,
                },
            },
    {
        match rating {
            None => Ok(ChessTacticRequest { rating_gte: None, rating_lte: None, tags }),
            Some(text) => match parse_rating_range(text) {
                Ok((low, high)) => Ok(
                    ChessTacticRequest { rating_gte: Some(low), rating_lte: Some(high), tags },
                ),
                Err(error) => Err(error),
            },
        }
    }
}

/// The address of the puzzle server where none is configured.
pub open spec fn default_server() -> Seq<char> {
    "https://tactics.exoapi.app"@
}

/// The address that a request goes to: the path of the tactic service on
/// the configured server, or on the default server where none is
/// configured.
pub open spec fn endpoint_of(server: Option<Seq<char>>) -> Seq<char> {
    (match server {
        Some(address) => address,
        None => default_server(),
    }) + "/api/v1/tactic"@
}

/// The address that a request goes to.
pub fn get_api_endpoint(server: Option<&str>) -> (res: String)
    ensures
        res@ == endpoint_of(
            match server {
                Some(address) => Some(address@),
                None => None,
            },
        ),
{
    let mut address = match server {
        Some(address) => address.to_owned(),
        None => "https://tactics.exoapi.app".to_owned(),
    };
    address.append("/api/v1/tactic");
    address
}

} // verus!
