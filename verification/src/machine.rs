//! The decisions of a session, apart from the engine: how a tactic is
//! begun and what a command leads to, given what the engine answers.
//!
//! Everything here works on plain values. The session asks the engine and
//! hands its answers over; nothing here depends on what the engine is.

use vstd::prelude::*;
use crate::pieces::Color;
use crate::prompt::{Command, PromptResponse};
use crate::text::same_text;

verus! {

/// Why a session cannot start or go on. All but `Completed` mean that the
/// tactic's own data is unusable.
#[derive(Clone, Copy, PartialEq, Eq, Structural, Debug)]
pub enum SessionError {
    /// The starting position is no valid position.
    BadPosition,
    /// The line has fewer than two moves.
    TooFewMoves,
    /// The move of the line at `index` cannot be written or played in the
    /// position in which it is due.
    BadMove { index: usize },
    /// The line is exhausted: the session takes no further command.
    Completed,
}

/// What a command led to.
#[derive(Debug)]
pub enum Outcome {
    /// The board is to be shown; the session stands as it was.
    ShowBoard,
    /// The position is to be printed; the session stands as it was.
    PrintNotation,
    /// The command reference is to be shown; the session stands as it was.
    ShowHelp,
    /// The attempt was not the expected move; the same move is still due.
    Rejected { text: String },
    /// The expected move was played, after a correct attempt or a reveal,
    /// and after it the opponent's reply where the line had one.
    Advanced { correct: bool, expected: String, reply: Option<String>, completed: bool },
}

/// The mathematical value of an `Outcome`.
pub enum OutcomeModel {
    ShowBoard,
    PrintNotation,
    ShowHelp,
    Rejected { text: Seq<char> },
    Advanced { correct: bool, expected: Seq<char>, reply: Option<Seq<char>>, completed: bool },
}

/// The characters of a text that may be missing.
pub open spec fn text_of(text: Option<String>) -> Option<Seq<char>> {
    match text {
        Some(text) => Some(text@),
        None => None,
    }
}

impl View for Outcome {
    type V = OutcomeModel;

    open spec fn view(&self) -> OutcomeModel {
        match self {
            Outcome::ShowBoard => OutcomeModel::ShowBoard,
            Outcome::PrintNotation => OutcomeModel::PrintNotation,
            Outcome::ShowHelp => OutcomeModel::ShowHelp,
            Outcome::Rejected { text } => OutcomeModel::Rejected { text: text@ },
            Outcome::Advanced { correct, expected, reply, completed } => OutcomeModel::Advanced {
                correct: *correct,
                expected: expected@,
                reply: text_of(*reply),
                completed: *completed,
            },
        }
    }
}

/// What moves as a session goes on.
#[derive(Debug)]
pub struct Progress {
    /// The position on the board, as FEN text.
    pub position: String,
    /// How many moves of the line have been played.
    pub consumed: usize,
    /// Whether the move that is due has been attempted wrongly already.
    pub attempted: bool,
}

/// The mathematical value of a `Progress`.
pub struct ProgressModel {
    pub position: Seq<char>,
    pub consumed: nat,
    pub attempted: bool,
}

impl View for Progress {
    type V = ProgressModel;

    open spec fn view(&self) -> ProgressModel {
        ProgressModel {
            position: self.position@,
            consumed: self.consumed as nat,
            attempted: self.attempted,
        }
    }
}

/// What the engine answers about the move that is due and the reply that
/// follows it in the line. An answer is `None` where the engine has none,
/// or where it was not asked.
#[derive(Debug)]
pub struct Answers {
    /// The move that is due, in short algebraic notation.
    pub expected: Option<String>,
    /// The position after the move that is due.
    pub mine: Option<String>,
    /// The reply, in short algebraic notation.
    pub reply: Option<String>,
    /// The position after the reply.
    pub theirs: Option<String>,
}

/// The mathematical value of an `Answers`.
pub struct AnswersModel {
    pub expected: Option<Seq<char>>,
    pub mine: Option<Seq<char>>,
    pub reply: Option<Seq<char>>,
    pub theirs: Option<Seq<char>>,
}

impl View for Answers {
    type V = AnswersModel;

    open spec fn view(&self) -> AnswersModel {
        AnswersModel {
            expected: text_of(self.expected),
            mine: text_of(self.mine),
            reply: text_of(self.reply),
            theirs: text_of(self.theirs),
        }
    }
}

/// How a tactic is begun. `white` says whether White is to move in the
/// starting position, `total` how many moves the line has, and `first`
/// gives the position after the set-up move. The starting position must be
/// valid and the line must have two moves; the set-up move is played at
/// once, and the solver gets the side that did not make it.
pub open spec fn began(white: Option<bool>, total: nat, first: Option<Seq<char>>) -> Result<
    (Color, ProgressModel),
    SessionError,
> {
    match white {
        None => Err(SessionError::BadPosition),
        Some(white) => if total < 2 {
            Err(SessionError::TooFewMoves)
        } else {
            match first {
                None => Err(SessionError::BadMove { index: 0 }),
                Some(position) => Ok(
                    (
                        Color::from_white(!white),
                        ProgressModel { position, consumed: 1, attempted: false },
                    ),
                ),
            }
        },
    }
}

/// Begins a tactic, given what the engine answers about its start.
pub fn begin(white: Option<bool>, total: usize, first: Option<String>) -> (res: Result<
    (Color, Progress),
    SessionError,
>)
    ensures
        match began(white, total as nat, text_of(first)) {
            Ok((solver, progress)) => res matches Ok(found) && found.0 == solver && found.1@
                == progress,
            Err(error) => res matches Err(found) && found == error,
        },
{
    match white {
        None => Err(SessionError::BadPosition),
        Some(white) => {
            if total < 2 {
                Err(SessionError::TooFewMoves)
            } else {
                match first {
                    None => Err(SessionError::BadMove { index: 0 }),
                    Some(position) => Ok(
                        (
                            Color::from_white(!white),
                            Progress { position, consumed: 1, attempted: false },
                        ),
                    ),
                }
            }
        },
    }
}

/// Plays the move that is due, and the opponent's reply where the line has
/// one. `san` is the move that is due in short algebraic notation, and
/// `correct` says whether the solver found it.
pub open spec fn advanced(
    progress: ProgressModel,
    total: nat,
    san: Seq<char>,
    correct: bool,
    mine: Option<Seq<char>>,
    reply: Option<Seq<char>>,
    theirs: Option<Seq<char>>,
) -> Result<(ProgressModel, OutcomeModel), SessionError> {
    let due = progress.consumed;
    match mine {
        None => Err(SessionError::BadMove { index: due as usize }),
        Some(mine) => if due + 1 < total {
            match (reply, theirs) {
                (Some(reply), Some(theirs)) => Ok(
                    (
                        ProgressModel { position: theirs, consumed: due + 2, attempted: false },
                        OutcomeModel::Advanced {
                            correct,
                            expected: san,
                            reply: Some(reply),
                            completed: due + 2 >= total,
                        },
                    ),
                ),
                _ => Err(SessionError::BadMove { index: (due + 1) as usize }),
            }
        } else {
            Ok(
                (
                    ProgressModel { position: mine, consumed: due + 1, attempted: false },
                    OutcomeModel::Advanced { correct, expected: san, reply: None, completed: true },
                ),
            )
        },
    }
}

/// What one command does to a session's progress and what it leads to,
/// given the engine's answers and the number of moves in the line.
///
/// A session whose line is exhausted takes no command. Showing the board,
/// printing the position and showing the help change nothing. An attempt
/// is compared with the expected move character by character: equal, the
/// move is played as found; unequal, the attempt is rejected and the same
/// move stays due. An empty line has the move played as not found.
pub open spec fn decided(
    progress: ProgressModel,
    total: nat,
    command: Command,
    answers: AnswersModel,
) -> Result<(ProgressModel, OutcomeModel), SessionError> {
    if progress.consumed >= total {
        Err(SessionError::Completed)
    } else {
        match command {
            Command::ShowBoard => Ok((progress, OutcomeModel::ShowBoard)),
            Command::PrintNotation => Ok((progress, OutcomeModel::PrintNotation)),
            Command::Help => Ok((progress, OutcomeModel::ShowHelp)),
            Command::NoInput => match answers.expected {
                None => Err(SessionError::BadMove { index: progress.consumed as usize }),
                Some(san) => advanced(
                    progress,
                    total,
                    san,
                    false,
                    answers.mine,
                    answers.reply,
                    answers.theirs,
                ),
            },
            Command::Attempt(text) => match answers.expected {
                None => Err(SessionError::BadMove { index: progress.consumed as usize }),
                Some(san) => if text == san {
                    advanced(
                        progress,
                        total,
                        san,
                        true,
                        answers.mine,
                        answers.reply,
                        answers.theirs,
                    )
                } else {
                    Ok(
                        (
                            ProgressModel { attempted: true, ..progress },
                            OutcomeModel::Rejected { text },
                        ),
                    )
                },
            },
        }
    }
}

fn advance(
    progress: &Progress,
    total: usize,
    san: String,
    correct: bool,
    mine: Option<String>,
    reply: Option<String>,
    theirs: Option<String>,
) -> (res: Result<(Progress, Outcome), SessionError>)
    requires
        progress.consumed < total,
    ensures
        match advanced(
            progress@,
            total as nat,
            san@,
            correct,
            text_of(mine),
            text_of(reply),
            text_of(theirs),
        ) {
            Ok((next, outcome)) => res matches Ok(found) && found.0@ == next && found.1@
                == outcome,
            Err(error) => res matches Err(found) && found == error,
        },
{
    let due = progress.consumed;
    let mine = match mine {
        Some(mine) => mine,
        None => {
            return Err(SessionError::BadMove { index: due });
        },
    };
    if due + 1 < total {
        match (reply, theirs) {
            (Some(reply), Some(theirs)) => Ok(
                (
                    Progress { position: theirs, consumed: due + 2, attempted: false },
                    Outcome::Advanced {
                        correct,
                        expected: san,
                        reply: Some(reply),
                        completed: due + 2 >= total,
                    },
                ),
            ),
            _ => Err(SessionError::BadMove { index: due + 1 }),
        }
    } else {
        Ok(
            (
                Progress { position: mine, consumed: due + 1, attempted: false },
                Outcome::Advanced { correct, expected: san, reply: None, completed: true },
            ),
        )
    }
}

/// Takes one command, given the engine's answers: returns the progress
/// after it and what it led to, as `decided` says.
pub fn decide(progress: &Progress, total: usize, command: &PromptResponse, answers: Answers) -> (res:
    Result<(Progress, Outcome), SessionError>)
    ensures
        match decided(progress@, total as nat, command@, answers@) {
            Ok((next, outcome)) => res matches Ok(found) && found.0@ == next && found.1@
                == outcome,
            Err(error) => res matches Err(found) && found == error,
        },
{
    if progress.consumed >= total {
        return Err(SessionError::Completed);
    }
    let unchanged = Progress {
        position: progress.position.clone(),
        consumed: progress.consumed,
        attempted: progress.attempted,
    };
    match command {
        PromptResponse::ShowBoard => Ok((unchanged, Outcome::ShowBoard)),
        PromptResponse::PrintFen => Ok((unchanged, Outcome::PrintNotation)),
        PromptResponse::Help => Ok((unchanged, Outcome::ShowHelp)),
        PromptResponse::NoResponse => {
            let Answers { expected, mine, reply, theirs } = answers;
            match expected {
                None => Err(SessionError::BadMove { index: progress.consumed }),
                Some(san) => advance(progress, total, san, false, mine, reply, theirs),
            }
        },
        PromptResponse::Move(text) => {
            let Answers { expected, mine, reply, theirs } = answers;
            match expected {
                None => Err(SessionError::BadMove { index: progress.consumed }),
                Some(san) => {
                    if same_text(text.as_str(), san.as_str()) {
                        advance(progress, total, san, true, mine, reply, theirs)
                    } else {
                        Ok(
                            (
                                Progress { attempted: true, ..unchanged },
                                Outcome::Rejected { text: text.clone() },
                            ),
                        )
                    }
                },
            }
        },
    }
}

} // verus!
