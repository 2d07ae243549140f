//! The session: one tactic walked from its set-up move to the end of its
//! line, one command at a time.
//!
//! The session is modelled by `SessionModel`, and what a command does to it
//! by the spec function `transition`. `Session` is the executable session;
//! `Session::step` is proved to do exactly what `transition` says.

use vstd::prelude::*;
use crate::board::Board;
use crate::engine::{
    engine_epd, engine_play, engine_san, engine_turn, notation, piece_on, played, rendered,
    white_to_move,
};
use crate::machine::{
    began, begin, decide, decided, Answers, AnswersModel, Outcome, OutcomeModel, Progress,
    ProgressModel, SessionError,
};
use crate::pieces::Color;
use crate::prompt::{Command, PromptResponse};
use crate::puzzle::ChessTactic;
use crate::text::same_text;

verus! {

/// The position after the first `n` moves of a line, `None` where one of
/// them cannot be played.
pub open spec fn position_after(start: Seq<char>, moves: Seq<Seq<char>>, n: nat) -> Option<
    Seq<char>,
>
    decreases n,
{
    if n == 0 {
        Some(start)
    } else if n > moves.len() {
        None
    } else {
        match position_after(start, moves, (n - 1) as nat) {
            Some(before) => played(before, moves[n - 1]),
            None => None,
        }
    }
}

/// The mathematical value of a session.
pub struct SessionModel {
    /// The tactic's starting position.
    pub start: Seq<char>,
    /// The tactic's whole line.
    pub moves: Seq<Seq<char>>,
    /// The position on the board now.
    pub position: Seq<char>,
    /// How many moves of the line have been played.
    pub consumed: nat,
    /// The side that the solver plays.
    pub solver: Color,
    /// Whether the move that is due has been attempted wrongly already.
    pub attempted: bool,
}

impl SessionModel {
    /// The moves that have not been played yet, in their order.
    pub open spec fn remaining(self) -> Seq<Seq<char>> {
        self.moves.skip(self.consumed as int)
    }

    /// What moves as the session goes on.
    pub open spec fn progress(self) -> ProgressModel {
        ProgressModel {
            position: self.position,
            consumed: self.consumed,
            attempted: self.attempted,
        }
    }

    /// The session with its progress replaced.
    pub open spec fn with(self, progress: ProgressModel) -> SessionModel {
        SessionModel {
            position: progress.position,
            consumed: progress.consumed,
            attempted: progress.attempted,
            ..self
        }
    }

    /// The line is exhausted.
    pub open spec fn completed(self) -> bool {
        self.consumed >= self.moves.len()
    }

    /// The move that the solver is asked for, in short algebraic notation.
    pub open spec fn expected(self) -> Option<Seq<char>> {
        rendered(self.position, self.moves[self.consumed as int])
    }

    /// What holds of every session: the line has its two moves, the set-up
    /// move has been played, the position is the one that the moves played
    /// so far lead to from the start, and the solver's side is the one that
    /// did not move first.
    pub open spec fn wf(self) -> bool {
        &&& self.moves.len() >= 2
        &&& 1 <= self.consumed <= self.moves.len()
        &&& position_after(self.start, self.moves, self.consumed) == Some(self.position)
        &&& white_to_move(self.start) == Some(self.solver == Color::Black)
    }
}

/// The position after the set-up move of a line; `None` where the line is
/// empty or the move cannot be played.
pub open spec fn first_position(start: Seq<char>, moves: Seq<Seq<char>>) -> Option<Seq<char>> {
    if moves.len() > 0 {
        played(start, moves[0])
    } else {
        None
    }
}

/// The session that a tactic starts: the starting position must be valid,
/// the line must have two moves, and the set-up move is played at once.
pub open spec fn init(start: Seq<char>, moves: Seq<Seq<char>>) -> Result<
    SessionModel,
    SessionError,
> {
    match began(white_to_move(start), moves.len(), first_position(start, moves)) {
        Ok((solver, progress)) => Ok(
            SessionModel {
                start,
                moves,
                position: progress.position,
                consumed: progress.consumed,
                solver,
                attempted: progress.attempted,
            },
        ),
        Err(error) => Err(error),
    }
}

/// What the engine answers about the move that is due in a session and
/// the reply that follows it in the line.
pub open spec fn answers_of(s: SessionModel) -> AnswersModel {
    let due = s.consumed as int;
    let mine = played(s.position, s.moves[due]);
    let replied = mine is Some && due + 1 < s.moves.len();
    AnswersModel {
        expected: rendered(s.position, s.moves[due]),
        mine,
        reply: if replied {
            rendered(mine.unwrap(), s.moves[due + 1])
        } else {
            None
        },
        theirs: if replied {
            played(mine.unwrap(), s.moves[due + 1])
        } else {
            None
        },
    }
}

/// What one command does to a session and what it leads to: what
/// `decided` says, on the engine's answers for the session.
pub open spec fn transition(s: SessionModel, command: Command) -> Result<
    (SessionModel, OutcomeModel),
    SessionError,
> {
    match decided(s.progress(), s.moves.len(), command, answers_of(s)) {
        Ok((progress, outcome)) => Ok((s.with(progress), outcome)),
        Err(error) => Err(error),
    }
}

/// A session on one tactic.
#[derive(Debug)]
pub struct Session {
    tactic: ChessTactic,
    solver: Color,
    progress: Progress,
}

impl View for Session {
    type V = SessionModel;

    closed spec fn view(&self) -> SessionModel {
        SessionModel {
            start: self.tactic.fen@,
            moves: self.tactic.line(),
            position: self.progress.position@,
            consumed: self.progress.consumed as nat,
            solver: self.solver,
            attempted: self.progress.attempted,
        }
    }
}

impl Session {
    #[verifier::type_invariant]
    spec fn inv(self) -> bool {
        self@.wf()
    }

    /// Starts a session on a tactic: checks the starting position, and
    /// plays the set-up move.
    pub fn new(tactic: ChessTactic) -> (res: Result<Session, SessionError>)
        ensures
            match init(tactic.fen@, tactic.line()) {
                Ok(model) => res is Ok && res.unwrap()@ == model,
                Err(error) => res is Err && res.unwrap_err() == error,
            },
    {
        let total = tactic.moves.len();
        let white = engine_turn(tactic.fen.as_str());
        let first = if white.is_some() && total >= 2 {
            engine_play(tactic.fen.as_str(), tactic.moves[0].as_str())
        } else {
            None
        };
        match begin(white, total, first) {
            Ok((solver, progress)) => {
                proof {
                    assert(position_after(tactic.fen@, tactic.line(), 0) == Some(tactic.fen@));
                    assert(position_after(tactic.fen@, tactic.line(), 1) == Some(
                        progress.position@,
                    ));
                }
                Ok(Session { tactic, solver, progress })
            },
            Err(error) => Err(error),
        }
    }

    /// Whether the line is exhausted. A session is well formed at all
    /// times.
    pub fn is_completed(&self) -> (res: bool)
        ensures
            res == self@.completed(),
            self@.wf(),
    {
        proof {
            use_type_invariant(self);
        }
        self.progress.consumed >= self.tactic.moves.len()
    }

    /// The tactic that the session is on.
    pub fn tactic(&self) -> (res: &ChessTactic)
        ensures
            res.fen@ == self@.start,
            res.line() == self@.moves,
    {
        &self.tactic
    }

    /// The position on the board, as FEN text.
    pub fn current_position(&self) -> (res: &str)
        ensures
            res@ == self@.position,
            position_after(self@.start, self@.moves, self@.consumed) == Some(res@),
    {
        proof {
            use_type_invariant(self);
        }
        self.progress.position.as_str()
    }

    /// How many moves of the line have been played, the set-up move included.
    pub fn moves_played(&self) -> (res: usize)
        ensures
            res == self@.consumed,
            1 <= res <= self@.moves.len(),
    {
        proof {
            use_type_invariant(self);
        }
        self.progress.consumed
    }

    /// The moves that have not been played yet, in their order.
    pub fn remaining_moves(&self) -> (res: Vec<String>)
        ensures
            res.deep_view() == self@.remaining(),
    {
        proof {
            use_type_invariant(self);
        }
        let total = self.tactic.moves.len();
        let first = self.progress.consumed;
        let mut rest: Vec<String> = Vec::new();
        let mut at = first;
        while at < total
            invariant
                first <= at <= total,
                total == self.tactic.moves.len(),
                rest.len() == at - first,
                forall|i: int|
                    0 <= i < rest.len() ==> (#[trigger] rest[i])@ == self.tactic.moves[first + i]@,
            decreases total - at,
        {
            rest.push(self.tactic.moves[at].clone());
            at += 1;
        }
        assert(rest.deep_view() =~= self@.remaining());
        rest
    }

    /// The side that the solver plays: the side that did not move first.
    pub fn solver_side(&self) -> (res: Color)
        ensures
            res == self@.solver,
    {
        self.solver
    }

    /// Whether the move that is due has been attempted wrongly already.
    pub fn has_attempted(&self) -> (res: bool)
        ensures
            res == self@.attempted,
    {
        self.progress.attempted
    }

    /// The move that the solver is asked for, in short algebraic notation.
    pub fn expected_move(&self) -> (res: Result<String, SessionError>)
        ensures
            match res {
                Ok(san) => !self@.completed() && self@.expected() == Some(san@),
                Err(SessionError::Completed) => self@.completed(),
                Err(SessionError::BadMove { index }) => !self@.completed() && self@.expected()
                    is None && index == self@.consumed,
                Err(_) => false,
            },
    {
        proof {
            use_type_invariant(self);
        }
        let due = self.progress.consumed;
        if due >= self.tactic.moves.len() {
            return Err(SessionError::Completed);
        }
        match engine_san(self.progress.position.as_str(), self.tactic.moves[due].as_str()) {
            Some(san) => Ok(san),
            None => Err(SessionError::BadMove { index: due }),
        }
    }

    /// The position on the board without its move counters, as text.
    /// Fails with `BadPosition`, and only where the engine does not read
    /// the position.
    pub fn print_notation(&self) -> (res: Result<String, SessionError>)
        ensures
            match res {
                Ok(text) => notation(self@.position) == Some(text@),
                Err(error) => notation(self@.position) is None && error
                    == SessionError::BadPosition,
            },
    {
        match engine_epd(self.progress.position.as_str()) {
            Some(text) => Ok(text),
            None => Err(SessionError::BadPosition),
        }
    }

    /// The board of the position, square by square. Fails with
    /// `BadPosition`, and only where the engine does not answer for some
    /// square.
    pub fn board(&self) -> (res: Result<Board, SessionError>)
        ensures
            match res {
                Ok(board) => board@.len() == 64 && forall|sq: int|
                    0 <= sq < 64 ==> piece_on(self@.position, sq) == Some(#[trigger] board@[sq]),
                Err(error) => error == SessionError::BadPosition && exists|sq: int|
                    0 <= sq < 64 && (#[trigger] piece_on(self@.position, sq)) is None,
            },
    {
        match Board::of_position(self.progress.position.as_str()) {
            Some(board) => Ok(board),
            None => Err(SessionError::BadPosition),
        }
    }

    /// Asks the engine what a command needs to know: nothing for a command
    /// that only shows something, the expected move for an attempt, and
    /// for a move that is to be played the positions and the reply too.
    fn ask(&self, command: &PromptResponse) -> (res: Answers)
        requires
            !self@.completed(),
        ensures
            decided(self@.progress(), self@.moves.len(), command@, res@) == decided(
                self@.progress(),
                self@.moves.len(),
                command@,
                answers_of(self@),
            ),
    {
        proof {
            use_type_invariant(self);
        }
        let due = self.progress.consumed;
        let total = self.tactic.moves.len();
        assert(total == self@.moves.len());
        assert(due < total);
        let position = self.progress.position.as_str();
        let mut answers = Answers { expected: None, mine: None, reply: None, theirs: None };
        let play = match command {
            PromptResponse::NoResponse => {
                answers.expected = engine_san(position, self.tactic.moves[due].as_str());
                answers.expected.is_some()
            },
            PromptResponse::Move(text) => {
                answers.expected = engine_san(position, self.tactic.moves[due].as_str());
                match &answers.expected {
                    Some(san) => same_text(text.as_str(), san.as_str()),
                    None => false,
                }
            },
            _ => false,
        };
        if play {
            answers.mine = engine_play(position, self.tactic.moves[due].as_str());
            if due + 1 < total {
                match &answers.mine {
                    Some(mine) => {
                        let answer = self.tactic.moves[due + 1].as_str();
                        answers.reply = engine_san(mine.as_str(), answer);
                        answers.theirs = engine_play(mine.as_str(), answer);
                    },
                    None => {},
                }
            }
        }
        answers
    }

    /// Takes one command: does to the session what `transition` says, and
    /// returns what it led to. Where the tactic's data fails, or the session
    /// is completed, the session stands as it was.
    pub fn step(&mut self, command: &PromptResponse) -> (res: Result<Outcome, SessionError>)
        ensures
            match transition(old(self)@, command@) {
                Ok((next, outcome)) => res is Ok && res.unwrap()@ == outcome && final(self)@
                    == next,
                Err(error) => res is Err && res.unwrap_err() == error && final(self)@ == old(
                    self,
                )@,
            },
            final(self)@.wf(),
    {
        proof {
            use_type_invariant(&*self);
        }
        let total = self.tactic.moves.len();
        if self.progress.consumed >= total {
            return Err(SessionError::Completed);
        }
        let answers = self.ask(command);
        match decide(&self.progress, total, command, answers) {
            Ok((next, outcome)) => {
                proof {
                    let start = self.tactic.fen@;
                    let line = self.tactic.line();
                    let due = self.progress.consumed as nat;
                    assert(position_after(start, line, due + 1) == played(
                        self.progress.position@,
                        line[due as int],
                    ));
                    if due + 1 < line.len() {
                        assert(position_after(start, line, due + 2) == match position_after(
                            start,
                            line,
                            due + 1,
                        ) {
                            Some(before) => played(before, line[due as int + 1]),
                            None => None,
                        });
                    }
                }
                self.progress = next;
                Ok(outcome)
            },
            Err(error) => Err(error),
        }
    }
}

} // verus!
