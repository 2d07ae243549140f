use tactics_trainer::board::{
    board_cells, cell_at, draw, paint, plain_board, print_board, Board, Cell, Tint, DARK_GREY,
    LIGHT_GREY,
};
use tactics_trainer::pieces::{piece_ascii, piece_unicode, print_side, Color, Piece, Role};
use tactics_trainer::prompt::PromptResponse;
use tactics_trainer::puzzle::ChessTactic;
use tactics_trainer::session::Session;

const START: &str = "rnbqkbnr/pppppppp/8/8/8/8/PPPPPPPP/RNBQKBNR w KQkq - 0 1";

fn session_after_e4() -> Session {
    Session::new(ChessTactic {
        id: String::new(),
        moves: vec!["e2e4".to_string(), "e7e5".to_string(), "g1f3".to_string()],
        fen: START.to_string(),
        popularity: 0,
        tags: vec![],
        game_link: String::new(),
        rating: 0,
        rating_deviation: 0,
        number_plays: 0,
    })
    .unwrap()
}

fn piece(color: Color, role: Role) -> Option<Piece> {
    Some(Piece { color, role })
}

fn lone_kings() -> Board {
    let mut squares = vec![None; 64];
    squares[4] = piece(Color::White, Role::King);
    squares[60] = piece(Color::Black, Role::King);
    squares[8] = piece(Color::White, Role::Pawn);
    Board::from_squares(squares).unwrap()
}

#[test]
fn sides_have_names() {
    assert_eq!(print_side(&Color::White), "White");
    assert_eq!(print_side(&Color::Black), "Black");
    assert_eq!(Color::White.other(), Color::Black);
    assert_eq!(Color::Black.other(), Color::White);
    assert_eq!(Color::from_white(true), Color::White);
    assert_eq!(Color::from_white(false), Color::Black);
}

#[test]
fn plain_glyphs_are_letters_and_a_triangle() {
    let roles = [
        (Role::Pawn, "▲"),
        (Role::Knight, "N"),
        (Role::Bishop, "B"),
        (Role::Rook, "R"),
        (Role::Queen, "Q"),
        (Role::King, "K"),
    ];
    for (role, glyph) in roles {
        for color in [Color::White, Color::Black] {
            assert_eq!(piece_ascii(&Piece { color, role }), glyph);
        }
    }
}

#[test]
fn plain_glyphs_agree_with_the_engine_letters() {
    let roles = [
        (Role::Knight, shakmaty::Role::Knight),
        (Role::Bishop, shakmaty::Role::Bishop),
        (Role::Rook, shakmaty::Role::Rook),
        (Role::Queen, shakmaty::Role::Queen),
        (Role::King, shakmaty::Role::King),
    ];
    for (role, theirs) in roles {
        for (color, their_color) in
            [(Color::White, shakmaty::Color::White), (Color::Black, shakmaty::Color::Black)]
        {
            let letter = theirs.of(their_color).char().to_uppercase().to_string();
            assert_eq!(piece_ascii(&Piece { color, role }), letter);
        }
    }
}

#[test]
fn figurines_are_the_filled_ones() {
    let roles = [
        (Role::Pawn, "\u{265F}\u{FE0E}"),
        (Role::Knight, "\u{265E}"),
        (Role::Bishop, "\u{265D}"),
        (Role::Rook, "\u{265C}"),
        (Role::Queen, "\u{265B}"),
        (Role::King, "\u{265A}"),
    ];
    for (role, glyph) in roles {
        for color in [Color::White, Color::Black] {
            assert_eq!(piece_unicode(&Piece { color, role }), glyph);
        }
    }
}

#[test]
fn board_needs_sixty_four_squares() {
    assert!(Board::from_squares(vec![None; 63]).is_none());
    assert!(Board::from_squares(vec![None; 65]).is_none());
    assert!(Board::from_squares(vec![]).is_none());
    let board = lone_kings();
    assert_eq!(board.piece_at(4), piece(Color::White, Role::King));
    assert_eq!(board.piece_at(60), piece(Color::Black, Role::King));
    assert_eq!(board.piece_at(0), None);
    assert_eq!(board.piece_at(63), None);
}

#[test]
fn board_of_a_position_is_read_square_by_square() {
    let board = Board::of_position(START).unwrap();
    let back = [Role::Rook, Role::Knight, Role::Bishop, Role::Queen, Role::King, Role::Bishop,
        Role::Knight, Role::Rook];
    for file in 0..8u8 {
        assert_eq!(board.piece_at(file), piece(Color::White, back[file as usize]));
        assert_eq!(board.piece_at(8 + file), piece(Color::White, Role::Pawn));
        for rank in 2..6u8 {
            assert_eq!(board.piece_at(rank * 8 + file), None);
        }
        assert_eq!(board.piece_at(48 + file), piece(Color::Black, Role::Pawn));
        assert_eq!(board.piece_at(56 + file), piece(Color::Black, back[file as usize]));
    }
    assert!(Board::of_position("no position").is_none());
}

#[test]
fn session_board_follows_the_moves() {
    let mut s = session_after_e4();
    let board = s.board().unwrap();
    assert_eq!(board.piece_at(12), None);
    assert_eq!(board.piece_at(28), piece(Color::White, Role::Pawn));
    s.step(&PromptResponse::NoResponse).unwrap();
    let board = s.board().unwrap();
    assert_eq!(board.piece_at(52), None);
    assert_eq!(board.piece_at(36), piece(Color::Black, Role::Pawn));
    assert_eq!(board.piece_at(6), None);
    assert_eq!(board.piece_at(21), piece(Color::White, Role::Knight));
}

#[test]
fn cells_run_from_rank_eight_and_file_a() {
    let board = lone_kings();
    // Top left is a8, empty and light.
    let a8 = cell_at(&board, 0, 0);
    assert_eq!((a8.glyph.as_str(), a8.tint), ("·", Tint::Grey(LIGHT_GREY)));
    // Next to it b8, empty and dark.
    let b8 = cell_at(&board, 0, 1);
    assert_eq!((b8.glyph.as_str(), b8.tint), ("·", Tint::Grey(DARK_GREY)));
    let e8 = cell_at(&board, 0, 4);
    assert_eq!((e8.glyph.as_str(), e8.tint), ("K", Tint::Red));
    let e1 = cell_at(&board, 7, 4);
    assert_eq!((e1.glyph.as_str(), e1.tint), ("K", Tint::Blue));
    let a2 = cell_at(&board, 6, 0);
    assert_eq!((a2.glyph.as_str(), a2.tint), ("▲", Tint::Blue));
    // Bottom left is a1, shaded dark; bottom right is h1, shaded light.
    assert_eq!(cell_at(&board, 7, 0).tint, Tint::Grey(DARK_GREY));
    assert_eq!(cell_at(&board, 7, 7).tint, Tint::Grey(LIGHT_GREY));
    assert_eq!(LIGHT_GREY, 140);
    assert_eq!(DARK_GREY, 80);
}

#[test]
fn board_cells_are_the_cells_row_by_row() {
    let board = Board::of_position(START).unwrap();
    let cells = board_cells(&board);
    assert_eq!(cells.len(), 64);
    for row in 0..8u8 {
        for col in 0..8u8 {
            let one = cell_at(&board, row, col);
            let listed = &cells[(row * 8 + col) as usize];
            assert_eq!(listed.glyph, one.glyph);
            assert_eq!(listed.tint, one.tint);
        }
    }
    assert_eq!(cells[0].glyph, "R");
    assert_eq!(cells[0].tint, Tint::Red);
    assert_eq!(cells[63].glyph, "R");
    assert_eq!(cells[63].tint, Tint::Blue);
}

#[test]
fn plain_board_shows_the_position() {
    let board = session_after_e4().board().unwrap();
    assert_eq!(
        plain_board(&board),
        vec![
            "  8  R N B Q K B N R ",
            "  7  ▲ ▲ ▲ ▲ ▲ ▲ ▲ ▲ ",
            "  6  · · · · · · · · ",
            "  5  · · · · · · · · ",
            "  4  · · · · ▲ · · · ",
            "  3  · · · · · · · · ",
            "  2  ▲ ▲ ▲ ▲ · ▲ ▲ ▲ ",
            "  1  R N B Q K B N R ",
            "     a b c d e f g h",
        ]
    );
}

#[test]
fn draw_lays_out_any_sixty_four_texts() {
    let texts: Vec<String> = (0..64).map(|k| format!("<{}>", k)).collect();
    let lines = draw(&texts);
    assert_eq!(lines.len(), 9);
    assert_eq!(lines[0], "  8  <0> <1> <2> <3> <4> <5> <6> <7> ");
    assert_eq!(lines[1], "  7  <8> <9> <10> <11> <12> <13> <14> <15> ");
    assert_eq!(lines[7], "  1  <56> <57> <58> <59> <60> <61> <62> <63> ");
    assert_eq!(lines[8], "     a b c d e f g h");
    let empty: Vec<String> = vec![String::new(); 64];
    assert_eq!(draw(&empty)[3], "  5          ");
}

#[test]
fn painted_board_depends_on_the_terminal_only_in_its_colours() {
    let board = session_after_e4().board().unwrap();
    colored::control::set_override(false);
    assert_eq!(print_board(&board), plain_board(&board));
    let pawn = Cell { glyph: "▲".to_string(), tint: Tint::Blue };
    assert_eq!(paint(&pawn), "▲");

    colored::control::set_override(true);
    let blue = paint(&pawn);
    let red = paint(&Cell { glyph: "▲".to_string(), tint: Tint::Red });
    let light = paint(&Cell { glyph: "·".to_string(), tint: Tint::Grey(LIGHT_GREY) });
    let dark = paint(&Cell { glyph: "·".to_string(), tint: Tint::Grey(DARK_GREY) });
    assert_eq!(blue, "\u{1b}[34m▲\u{1b}[0m");
    assert_eq!(red, "\u{1b}[31m▲\u{1b}[0m");
    assert!(light.starts_with("\u{1b}[") && light.ends_with("·\u{1b}[0m"));
    assert!(dark.starts_with("\u{1b}[") && dark.ends_with("·\u{1b}[0m"));
    let lines = print_board(&board);
    assert_eq!(lines.len(), 9);
    assert_eq!(lines[8], "     a b c d e f g h");
    let painted: Vec<String> = board_cells(&board).iter().map(paint).collect();
    assert_eq!(lines, draw(&painted));
    assert!(lines[0].starts_with("  8  \u{1b}[31mR\u{1b}[0m \u{1b}[31mN\u{1b}[0m "));
    assert!(lines[7].starts_with("  1  \u{1b}[34mR\u{1b}[0m "));
    colored::control::unset_override();
}
