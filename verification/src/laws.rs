//! What holds of every session, proved of the model that `Session::step`
//! is proved to follow.

use vstd::prelude::*;
use crate::engine::{played, rendered, white_to_move};
use crate::messages::lines_for;
use crate::pieces::Color;
use crate::prompt::Command;
use crate::machine::{OutcomeModel, SessionError};
use crate::session::{init, position_after, transition, SessionModel};

verus! {

/// The session after a command, where a command that fails leaves the
/// session as it was.
pub open spec fn state_after(s: SessionModel, command: Command) -> SessionModel {
    match transition(s, command) {
        Ok((next, _)) => next,
        Err(_) => s,
    }
}

/// The session after a sequence of commands, taken in their order.
pub open spec fn state_after_all(s: SessionModel, commands: Seq<Command>) -> SessionModel
    decreases commands.len(),
{
    if commands.len() == 0 {
        s
    } else {
        state_after(state_after_all(s, commands.drop_last()), commands.last())
    }
}

/// Every move of the line can be played and written in the position in
/// which it is due, and the starting position is valid.
pub open spec fn playable(start: Seq<char>, moves: Seq<Seq<char>>) -> bool {
    &&& white_to_move(start) is Some
    &&& forall|i: nat|
        i < moves.len() ==> match #[trigger] position_after(start, moves, i) {
            Some(position) => played(position, moves[i as int]) is Some && rendered(
                position,
                moves[i as int],
            ) is Some,
            None => false,
        }
}

/// The session after the solver has answered `attempts` times in a row with
/// the move that was expected; `None` where the session could not go on
/// that far.
pub open spec fn after_correct_attempts(s: SessionModel, attempts: nat) -> Option<SessionModel>
    decreases attempts,
{
    if attempts == 0 {
        Some(s)
    } else {
        match after_correct_attempts(s, (attempts - 1) as nat) {
            Some(before) => match before.expected() {
                Some(san) => match transition(before, Command::Attempt(san)) {
                    Ok((next, _)) => Some(next),
                    Err(_) => None,
                },
                None => None,
            },
            None => None,
        }
    }
}

/// Whether a line of text begins with the given words.
pub open spec fn begins_with(line: Seq<char>, words: Seq<char>) -> bool {
    line.len() >= words.len() && line.subrange(0, words.len() as int) == words
}

/// A session that starts is well formed: the set-up move, and no other, has
/// been played, and the position is the one it leads to.
pub proof fn lemma_init_well_formed(start: Seq<char>, moves: Seq<Seq<char>>)
    ensures
        match init(start, moves) {
            Ok(s) => s.wf() && s.start == start && s.moves == moves && s.consumed == 1
                && !s.attempted,
            Err(_) => true,
        },
{
    if init(start, moves) is Ok {
        assert(position_after(start, moves, 0) == Some(start));
        assert(position_after(start, moves, 1) == played(start, moves[0]));
    }
}

/// Every command keeps a session well formed: whatever the command, the
/// position stays the one that the moves played so far lead to from the
/// start, in the order of the line. A command plays at most two moves and
/// takes none back.
pub proof fn lemma_transition_keeps_well_formed(s: SessionModel, command: Command)
    requires
        s.wf(),
    ensures
        state_after(s, command).wf(),
        state_after(s, command).start == s.start,
        state_after(s, command).moves == s.moves,
        state_after(s, command).solver == s.solver,
        s.consumed <= state_after(s, command).consumed <= s.consumed + 2,
{
    let next = state_after(s, command);
    if next.consumed == s.consumed + 1 {
        assert(position_after(s.start, s.moves, (s.consumed + 1) as nat) == Some(next.position));
    } else if next.consumed == s.consumed + 2 {
        let mine = played(s.position, s.moves[s.consumed as int]).unwrap();
        assert(position_after(s.start, s.moves, (s.consumed + 1) as nat) == Some(mine));
        assert(position_after(s.start, s.moves, (s.consumed + 2) as nat) == Some(next.position));
    }
}

/// Showing the board, printing the position and showing the help, any
/// number of times and in any order, leave the session exactly as it was:
/// the position, the moves that remain and all the rest.
pub proof fn lemma_peripheral_commands_change_nothing(s: SessionModel, commands: Seq<Command>)
    requires
        forall|i: int| 0 <= i < commands.len() ==> (#[trigger] commands[i]).is_peripheral(),
    ensures
        state_after_all(s, commands) == s,
        state_after_all(s, commands).position == s.position,
        state_after_all(s, commands).remaining() == s.remaining(),
    decreases commands.len(),
{
    if commands.len() > 0 {
        lemma_peripheral_commands_change_nothing(s, commands.drop_last());
        assert(commands.last().is_peripheral());
    }
}

/// An attempt that is not the expected move plays nothing: the position
/// and the moves that remain stay as they were, and the same move is
/// expected at the next attempt.
pub proof fn lemma_wrong_attempt_plays_nothing(s: SessionModel, text: Seq<char>)
    requires
        s.expected() != Some(text),
    ensures
        state_after(s, Command::Attempt(text)).position == s.position,
        state_after(s, Command::Attempt(text)).consumed == s.consumed,
        state_after(s, Command::Attempt(text)).remaining() == s.remaining(),
        state_after(s, Command::Attempt(text)).expected() == s.expected(),
        !s.completed() && s.expected() is Some ==> transition(s, Command::Attempt(text)) == Ok::<
            (SessionModel, OutcomeModel),
            SessionError,
        >((SessionModel { attempted: true, ..s }, OutcomeModel::Rejected { text })),
{
}

/// An attempt is taken for the expected move where it equals it character
/// by character, and only there: any other text is rejected.
pub proof fn lemma_attempt_matches_exactly(s: SessionModel, text: Seq<char>)
    requires
        !s.completed(),
        s.expected() is Some,
    ensures
        (transition(s, Command::Attempt(text)) matches Ok((_, outcome)) && outcome
            is Rejected) <==> text != s.expected().unwrap(),
{
}

/// An empty line moves the session on exactly as the expected move would:
/// the same session comes out, or the same failure. What it leads to
/// differs in one thing: it is never marked as found.
pub proof fn lemma_reveal_advances_like_correct_attempt(s: SessionModel)
    requires
        s.expected() is Some,
    ensures
        state_after(s, Command::NoInput) == state_after(
            s,
            Command::Attempt(s.expected().unwrap()),
        ),
        match (
            transition(s, Command::NoInput),
            transition(s, Command::Attempt(s.expected().unwrap())),
        ) {
            (Ok((_, revealed)), Ok((_, found))) => {
                &&& revealed matches OutcomeModel::Advanced {
                    correct: false,
                    expected,
                    reply,
                    completed,
                }
                &&& found == (OutcomeModel::Advanced { correct: true, expected, reply, completed })
            },
            (Err(first), Err(second)) => first == second,
            _ => false,
        },
{
}

/// No line that is printed after an empty line begins with "Correct!":
/// each begins by naming the move that was expected.
pub proof fn lemma_reveal_is_never_praised(s: SessionModel, opponent: Color)
    ensures
        match transition(s, Command::NoInput) {
            Ok((_, outcome)) => forall|i: int|
                0 <= i < lines_for(outcome, opponent).len() ==> {
                    &&& begins_with(
                        #[trigger] lines_for(outcome, opponent)[i],
                        "The correct move was "@,
                    )
                    &&& !begins_with(lines_for(outcome, opponent)[i], "Correct!"@)
                },
            Err(_) => true,
        },
{
    reveal_strlit("The correct move was ");
    reveal_strlit("Correct!");
    match transition(s, Command::NoInput) {
        Ok((_, outcome)) => {
            let lines = lines_for(outcome, opponent);
            let words = "The correct move was "@;
            assert forall|i: int| 0 <= i < lines.len() implies {
                &&& begins_with(#[trigger] lines[i], words)
                &&& !begins_with(lines[i], "Correct!"@)
            } by {
                let line = lines[i];
                assert(line.len() >= words.len());
                assert(line.subrange(0, words.len() as int) =~= words);
                assert(line[0] == 'T');
                assert(line.subrange(0, "Correct!"@.len() as int)[0] == line[0]);
                assert("Correct!"@[0] == 'C');
            }
        },
        Err(_) => {},
    }
}

/// The number of moves played after `attempts` correct attempts in a row.
proof fn lemma_correct_attempts_progress(start: Seq<char>, moves: Seq<Seq<char>>, attempts: nat)
    requires
        moves.len() >= 2,
        playable(start, moves),
        attempts <= moves.len() / 2,
    ensures
        init(start, moves) is Ok,
        match after_correct_attempts(init(start, moves).unwrap(), attempts) {
            Some(s) => {
                &&& s.wf()
                &&& s.start == start
                &&& s.moves == moves
                &&& s.consumed == if 1 + 2 * attempts <= moves.len() {
                    1 + 2 * attempts
                } else {
                    moves.len()
                }
            },
            None => false,
        },
    decreases attempts,
{
    lemma_init_well_formed(start, moves);
    assert(position_after(start, moves, 0) == Some(start));
    let first = init(start, moves).unwrap();
    if attempts > 0 {
        lemma_correct_attempts_progress(start, moves, (attempts - 1) as nat);
        let before = after_correct_attempts(first, (attempts - 1) as nat).unwrap();
        let due = before.consumed as int;
        assert(due == 1 + 2 * (attempts - 1));
        assert(due < moves.len());
        assert(position_after(start, moves, due as nat) == Some(before.position));
        let san = before.expected().unwrap();
        let mine = played(before.position, moves[due]).unwrap();
        assert(position_after(start, moves, (due + 1) as nat) == Some(mine));
        lemma_transition_keeps_well_formed(before, Command::Attempt(san));
    }
}

/// A session in which the solver always answers with the expected move
/// plays the whole line, move by move in its order, and is completed after
/// as many attempts as half the moves that follow the set-up move, rounded
/// up: with `n` moves in all, the whole of `n / 2`. It is not completed
/// before.
pub proof fn lemma_correct_play_completes(start: Seq<char>, moves: Seq<Seq<char>>)
    requires
        moves.len() >= 2,
        playable(start, moves),
    ensures
        init(start, moves) is Ok,
        2 * (moves.len() / 2) == moves.len() - 1 || 2 * (moves.len() / 2) == moves.len(),
        forall|fewer: nat|
            fewer < moves.len() / 2 ==> ((#[trigger] after_correct_attempts(
                init(start, moves).unwrap(),
                fewer,
            )) matches Some(s) && !s.completed()),
        after_correct_attempts(init(start, moves).unwrap(), moves.len() / 2) matches Some(s) && {
            &&& s.completed()
            &&& s.consumed == moves.len()
            &&& position_after(start, moves, moves.len()) == Some(s.position)
        },
{
    let first = init(start, moves);
    lemma_correct_attempts_progress(start, moves, moves.len() / 2);
    assert forall|fewer: nat| fewer < moves.len() / 2 implies ((#[trigger] after_correct_attempts(
        init(start, moves).unwrap(),
        fewer,
    )) matches Some(s) && !s.completed()) by {
        lemma_correct_attempts_progress(start, moves, fewer);
    }
}

} // verus!
