//! The prompt: what it asks, how a line typed at it is read, and the help
//! it offers.

use vstd::prelude::*;
use vstd::string::StringExecFns;
use crate::pieces::{print_side, side_name, Color};
use crate::text::same_text;

verus! {

/// What a line typed at the prompt asks for.
#[derive(Debug)]
pub enum PromptResponse {
    /// Show the board.
    ShowBoard,
    /// An empty line: reveal the move and go on.
    NoResponse,
    /// Print the position in text notation.
    PrintFen,
    /// Show the command reference.
    Help,
    /// Anything else: an attempted move, kept as it was typed.
    Move(String),
}

/// The mathematical value of a `PromptResponse`.
pub enum Command {
    ShowBoard,
    PrintNotation,
    Help,
    NoInput,
    Attempt(Seq<char>),
}

impl View for PromptResponse {
    type V = Command;

    open spec fn view(&self) -> Command {
        match self {
            PromptResponse::ShowBoard => Command::ShowBoard,
            PromptResponse::NoResponse => Command::NoInput,
            PromptResponse::PrintFen => Command::PrintNotation,
            PromptResponse::Help => Command::Help,
            PromptResponse::Move(text) => Command::Attempt(text@),
        }
    }
}

impl Command {
    /// A command that shows something and leaves the session as it is.
    pub open spec fn is_peripheral(self) -> bool {
        self is ShowBoard || self is PrintNotation || self is Help
    }
}

/// The command that a line stands for. Keywords are matched exactly, case
/// included; an empty line asks for the answer; every other line is an
/// attempt that carries the line unchanged.
pub open spec fn classified(line: Seq<char>) -> Command {
    if line == "s"@ || line == "show"@ {
        Command::ShowBoard
    } else if line == "f"@ || line == "fen"@ {
        Command::PrintNotation
    } else if line == "?"@ || line == "help"@ {
        Command::Help
    } else if line.len() == 0 {
        Command::NoInput
    } else {
        Command::Attempt(line)
    }
}

/// Reads one line typed at the prompt.
pub fn get_prompt_response(reply: &str) -> (res: PromptResponse)
    ensures
        res@ == classified(reply@),
{
    if same_text(reply, "s") || same_text(reply, "show") {
        PromptResponse::ShowBoard
    } else if same_text(reply, "f") || same_text(reply, "fen") {
        PromptResponse::PrintFen
    } else if same_text(reply, "?") || same_text(reply, "help") {
        PromptResponse::Help
    } else if reply.is_empty() {
        PromptResponse::NoResponse
    } else {
        PromptResponse::Move(reply.to_owned())
    }
}

/// The text of the prompt for the side that is to move.
pub open spec fn prompt_text(side: Color) -> Seq<char> {
    side_name(side) + " to move, enter the best move, or '?' for help: "@
}

/// The prompt for the side that is to move.
pub fn get_prompt(side: &Color) -> (res: String)
    ensures
        res@ == prompt_text(*side),
{
    let mut out = print_side(side);
    out.append(" to move, enter the best move, or '?' for help: ");
    out
}

/// One row of the command reference: what to type, and what it does.
#[derive(Debug)]
pub struct HelpRow {
    pub input: String,
    pub effect: String,
}

impl View for HelpRow {
    type V = (Seq<char>, Seq<char>);

    open spec fn view(&self) -> (Seq<char>, Seq<char>) {
        (self.input@, self.effect@)
    }
}

/// The command reference, row by row.
pub open spec fn help_table() -> Seq<(Seq<char>, Seq<char>)> {
    seq![
        ("Any move, ex. Qxd7"@, "Attempt to solve the tactic with the given move"@),
        ("No input"@, "Reveal the answer, and continue the tactic if there are more moves."@),
        ("'f' or 'fen'"@, "Print out the current board, in FEN notation"@),
        ("'s' or 'show'"@, "Show the current board."@),
        ("'?' or 'help'"@, "Display this help"@),
    ]
}

fn help_row(input: &str, effect: &str) -> (res: HelpRow)
    ensures
        res@ == (input@, effect@),
{
    HelpRow { input: input.to_owned(), effect: effect.to_owned() }
}

/// The rows of the command reference.
pub fn print_help() -> (res: Vec<HelpRow>)
    ensures
        res.len() == help_table().len(),
        forall|i: int| 0 <= i < res.len() ==> (#[trigger] res[i])@ == help_table()[i],
{
    let mut rows: Vec<HelpRow> = Vec::new();
    rows.push(help_row("Any move, ex. Qxd7", "Attempt to solve the tactic with the given move"));
    rows.push(
        help_row(
            "No input",
            "Reveal the answer, and continue the tactic if there are more moves.",
        ),
    );
    rows.push(help_row("'f' or 'fen'", "Print out the current board, in FEN notation"));
    rows.push(help_row("'s' or 'show'", "Show the current board."));
    rows.push(help_row("'?' or 'help'", "Display this help"));
    rows
}

} // verus!
