use tactics_trainer::machine::{begin, decide, Answers, Outcome, Progress, SessionError};
use tactics_trainer::pieces::Color;
use tactics_trainer::prompt::PromptResponse;

fn progress(consumed: usize, attempted: bool) -> Progress {
    Progress { position: "here".to_string(), consumed, attempted }
}

fn text(value: &str) -> Option<String> {
    Some(value.to_string())
}

fn all_answers() -> Answers {
    Answers { expected: text("Qxd7"), mine: text("mine"), reply: text("Kf8"), theirs: text("theirs") }
}

fn no_answers() -> Answers {
    Answers { expected: None, mine: None, reply: None, theirs: None }
}

#[test]
fn begin_gives_the_solver_the_side_that_waits() {
    let (solver, start) = begin(Some(true), 2, text("after")).unwrap();
    assert_eq!(solver, Color::Black);
    assert_eq!(start.position, "after");
    assert_eq!(start.consumed, 1);
    assert!(!start.attempted);
    let (solver, _) = begin(Some(false), 7, text("after")).unwrap();
    assert_eq!(solver, Color::White);
}

#[test]
fn begin_refuses_unusable_tactics() {
    assert_eq!(begin(None, 4, text("after")).unwrap_err(), SessionError::BadPosition);
    assert_eq!(begin(None, 0, None).unwrap_err(), SessionError::BadPosition);
    assert_eq!(begin(Some(true), 0, None).unwrap_err(), SessionError::TooFewMoves);
    assert_eq!(begin(Some(true), 1, text("after")).unwrap_err(), SessionError::TooFewMoves);
    assert_eq!(begin(Some(false), 2, None).unwrap_err(), SessionError::BadMove { index: 0 });
}

#[test]
fn decide_leaves_progress_for_commands_that_show() {
    for (command, attempted) in [
        (PromptResponse::ShowBoard, false),
        (PromptResponse::PrintFen, true),
        (PromptResponse::Help, false),
    ] {
        let (next, outcome) = decide(&progress(3, attempted), 6, &command, no_answers()).unwrap();
        assert_eq!(next.position, "here");
        assert_eq!(next.consumed, 3);
        assert_eq!(next.attempted, attempted);
        match command {
            PromptResponse::ShowBoard => assert!(matches!(outcome, Outcome::ShowBoard)),
            PromptResponse::PrintFen => assert!(matches!(outcome, Outcome::PrintNotation)),
            _ => assert!(matches!(outcome, Outcome::ShowHelp)),
        }
    }
}

#[test]
fn decide_rejects_any_text_but_the_expected_one() {
    for wrong in ["qxd7", "Qxd7+", "Qxd7#", "Qxd7 ", " Qxd7", "Qd7", "Q×d7", "QXD7"] {
        let command = PromptResponse::Move(wrong.to_string());
        let (next, outcome) = decide(&progress(1, false), 4, &command, all_answers()).unwrap();
        assert_eq!(next.position, "here");
        assert_eq!(next.consumed, 1);
        assert!(next.attempted);
        match outcome {
            Outcome::Rejected { text } => assert_eq!(text, wrong),
            other => panic!("{:?} led to {:?}", wrong, other),
        }
    }
}

#[test]
fn decide_plays_a_found_move_and_the_reply() {
    let command = PromptResponse::Move("Qxd7".to_string());
    let (next, outcome) = decide(&progress(1, true), 4, &command, all_answers()).unwrap();
    assert_eq!(next.position, "theirs");
    assert_eq!(next.consumed, 3);
    assert!(!next.attempted);
    match outcome {
        Outcome::Advanced { correct, expected, reply, completed } => {
            assert!(correct);
            assert_eq!(expected, "Qxd7");
            assert_eq!(reply, text("Kf8"));
            assert!(!completed);
        }
        other => panic!("unexpected outcome {:?}", other),
    }
}

#[test]
fn decide_completes_after_the_last_reply() {
    let (next, outcome) =
        decide(&progress(1, false), 3, &PromptResponse::NoResponse, all_answers()).unwrap();
    assert_eq!(next.position, "theirs");
    assert_eq!(next.consumed, 3);
    match outcome {
        Outcome::Advanced { correct, expected, reply, completed } => {
            assert!(!correct);
            assert_eq!(expected, "Qxd7");
            assert_eq!(reply, text("Kf8"));
            assert!(completed);
        }
        other => panic!("unexpected outcome {:?}", other),
    }
}

#[test]
fn decide_completes_without_reply_at_the_last_move() {
    let answers = Answers { expected: text("Qxd7"), mine: text("mine"), reply: None, theirs: None };
    let (next, outcome) =
        decide(&progress(3, true), 4, &PromptResponse::NoResponse, answers).unwrap();
    assert_eq!(next.position, "mine");
    assert_eq!(next.consumed, 4);
    assert!(!next.attempted);
    match outcome {
        Outcome::Advanced { correct, expected, reply, completed } => {
            assert!(!correct);
            assert_eq!(expected, "Qxd7");
            assert_eq!(reply, None);
            assert!(completed);
        }
        other => panic!("unexpected outcome {:?}", other),
    }
    // Answers about a reply are not looked at where the line has none.
    let (next, _) = decide(&progress(3, true), 4, &PromptResponse::NoResponse, all_answers()).unwrap();
    assert_eq!(next.position, "mine");
}

#[test]
fn decide_reports_the_move_that_fails() {
    let reveal = PromptResponse::NoResponse;
    let attempt = PromptResponse::Move("Qxd7".to_string());
    let unwritten = Answers { expected: None, ..all_answers() };
    assert_eq!(
        decide(&progress(1, false), 4, &reveal, unwritten).unwrap_err(),
        SessionError::BadMove { index: 1 }
    );
    let unplayed = Answers { mine: None, ..all_answers() };
    assert_eq!(
        decide(&progress(1, false), 4, &attempt, unplayed).unwrap_err(),
        SessionError::BadMove { index: 1 }
    );
    let reply_unwritten = Answers { reply: None, ..all_answers() };
    assert_eq!(
        decide(&progress(1, false), 4, &attempt, reply_unwritten).unwrap_err(),
        SessionError::BadMove { index: 2 }
    );
    let reply_unplayed = Answers { theirs: None, ..all_answers() };
    assert_eq!(
        decide(&progress(1, false), 4, &reveal, reply_unplayed).unwrap_err(),
        SessionError::BadMove { index: 2 }
    );
}

#[test]
fn decide_takes_nothing_once_the_line_is_exhausted() {
    for command in [
        PromptResponse::ShowBoard,
        PromptResponse::PrintFen,
        PromptResponse::Help,
        PromptResponse::NoResponse,
        PromptResponse::Move("Qxd7".to_string()),
    ] {
        assert_eq!(
            decide(&progress(4, false), 4, &command, all_answers()).unwrap_err(),
            SessionError::Completed
        );
    }
}
