//! What the session says after a command: the lines to print for an
//! outcome.

use vstd::prelude::*;
use vstd::string::StringExecFns;
use crate::pieces::{print_side, side_name, Color};
use crate::machine::{Outcome, OutcomeModel};

verus! {

/// How a line about a played move begins: with praise where the solver
/// found the move, with the move itself where they did not.
pub open spec fn verdict(correct: bool, expected: Seq<char>) -> Seq<char> {
    if correct {
        "Correct! "@
    } else {
        "The correct move was "@ + expected + ". "@
    }
}

/// The line that names the opponent's reply.
pub open spec fn reply_line(correct: bool, expected: Seq<char>, opponent: Color, reply: Seq<char>)
    -> Seq<char> {
    verdict(correct, expected) + side_name(opponent) + " responds with "@ + reply
}

/// The line that closes the tactic.
pub open spec fn completion_line(correct: bool, expected: Seq<char>) -> Seq<char> {
    verdict(correct, expected) + "Completed this tactic."@
}

/// The line that turns an attempt down.
pub open spec fn rejection_line(text: Seq<char>) -> Seq<char> {
    text + " is not the correct move"@
}

/// The lines to print for an outcome, in their order. `opponent` is the
/// side that replies. An outcome that only asks for something to be shown
/// has no lines of its own.
pub open spec fn lines_for(outcome: OutcomeModel, opponent: Color) -> Seq<Seq<char>> {
    match outcome {
        OutcomeModel::Rejected { text } => seq![rejection_line(text)],
        OutcomeModel::Advanced { correct, expected, reply, completed } => {
            let replied = match reply {
                Some(san) => seq![reply_line(correct, expected, opponent, san)],
                None => Seq::<Seq<char>>::empty(),
            };
            if completed {
                replied.push(completion_line(correct, expected))
            } else {
                replied
            }
        },
        _ => Seq::<Seq<char>>::empty(),
    }
}

fn verdict_text(correct: bool, expected: &str) -> (res: String)
    ensures
        res@ == verdict(correct, expected@),
{
    if correct {
        "Correct! ".to_owned()
    } else {
        let mut out = "The correct move was ".to_owned();
        out.append(expected);
        out.append(". ");
        out
    }
}

/// The lines to print for an outcome.
pub fn report(outcome: &Outcome, opponent: &Color) -> (res: Vec<String>)
    ensures
        res.deep_view() == lines_for(outcome@, *opponent),
{
    let mut lines: Vec<String> = Vec::new();
    match outcome {
        Outcome::Rejected { text } => {
            let mut line = text.clone();
            line.append(" is not the correct move");
            lines.push(line);
        },
        Outcome::Advanced { correct, expected, reply, completed } => {
            match reply {
                Some(san) => {
                    let mut line = verdict_text(*correct, expected.as_str());
                    line.append(print_side(opponent).as_str());
                    line.append(" responds with ");
                    line.append(san.as_str());
                    lines.push(line);
                },
                None => {},
            }
            if *completed {
                let mut line = verdict_text(*correct, expected.as_str());
                line.append("Completed this tactic.");
                lines.push(line);
            }
        },
        _ => {},
    }
    assert(lines.deep_view() =~= lines_for(outcome@, *opponent));
    lines
}

} // verus!
