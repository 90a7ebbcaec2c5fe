use chessboard::{piece_char, Color, Piece, Position};

const PIECES: [Piece; 6] = [
    Piece::Pawn,
    Piece::Bishop,
    Piece::Knight,
    Piece::Rook,
    Piece::Queen,
    Piece::King,
];

const COLORS: [Color; 3] = [Color::White, Color::Black, Color::All];

fn white(pos: &Position) -> u64 {
    PIECES.iter().fold(0, |acc, p| acc | pos.get(p, &Color::White))
}

fn black(pos: &Position) -> u64 {
    PIECES.iter().fold(0, |acc, p| acc | pos.get(p, &Color::Black))
}

#[test]
fn initial_white_pawns() {
    let pos = Position::new();
    assert_eq!(pos.get(&Piece::Pawn, &Color::White), 0x000000000000ff00);
}

#[test]
fn initial_black_pawns() {
    let pos = Position::new();
    assert_eq!(pos.get(&Piece::Pawn, &Color::Black), 0x00ff000000000000);
}

#[test]
fn initial_white_knights() {
    let pos = Position::new();
    assert_eq!(pos.get(&Piece::Knight, &Color::White), 0x0000000000000042);
}

#[test]
fn initial_all_kings() {
    let pos = Position::new();
    assert_eq!(pos.get(&Piece::King, &Color::All), 0x0800000000000008);
}

#[test]
fn initial_all_queens_bishops_rooks() {
    let pos = Position::new();
    assert_eq!(pos.get(&Piece::Queen, &Color::All), 0x1000000000000010);
    assert_eq!(pos.get(&Piece::Bishop, &Color::All), 0x2400000000000024);
    assert_eq!(pos.get(&Piece::Rook, &Color::All), 0x8100000000000081);
    assert_eq!(pos.get(&Piece::Pawn, &Color::All), 0x00ff00000000ff00);
}

#[test]
fn initial_color_planes() {
    let pos = Position::new();
    assert_eq!(white(&pos), 0x000000000000ffff);
    assert_eq!(black(&pos), 0xffff000000000000);
}

#[test]
fn initial_colors_disjoint() {
    let pos = Position::new();
    assert_eq!(white(&pos) & black(&pos), 0);
}

#[test]
fn initial_piece_types_disjoint() {
    let pos = Position::new();
    for (i, p1) in PIECES.iter().enumerate() {
        for (j, p2) in PIECES.iter().enumerate() {
            if i != j {
                assert_eq!(pos.get(p1, &Color::All) & pos.get(p2, &Color::All), 0);
            }
        }
    }
}

#[test]
fn initial_pieces_cover_colors() {
    let pos = Position::new();
    let union = PIECES.iter().fold(0, |acc, p| acc | pos.get(p, &Color::All));
    assert_eq!(union, white(&pos) | black(&pos));
    assert_eq!(union, 0xffff00000000ffff);
}

#[test]
fn initial_color_counts() {
    let pos = Position::new();
    assert_eq!(white(&pos).count_ones(), 16);
    assert_eq!(black(&pos).count_ones(), 16);
}

#[test]
fn initial_piece_counts() {
    let pos = Position::new();
    assert_eq!(pos.get(&Piece::Pawn, &Color::All).count_ones(), 16);
    assert_eq!(pos.get(&Piece::Knight, &Color::All).count_ones(), 4);
    assert_eq!(pos.get(&Piece::Bishop, &Color::All).count_ones(), 4);
    assert_eq!(pos.get(&Piece::Rook, &Color::All).count_ones(), 4);
    assert_eq!(pos.get(&Piece::Queen, &Color::All).count_ones(), 2);
    assert_eq!(pos.get(&Piece::King, &Color::All).count_ones(), 2);
}

#[test]
fn occupancy_is_all_restricted_to_color() {
    let pos = Position::new();
    for p in PIECES.iter() {
        for c in COLORS.iter() {
            let mask = match c {
                Color::White => white(&pos),
                Color::Black => black(&pos),
                Color::All => white(&pos) | black(&pos),
            };
            assert_eq!(pos.get(p, c), pos.get(p, &Color::All) & mask);
        }
    }
}

#[test]
fn occupancy_splits_by_side() {
    let pos = Position::new();
    for p in PIECES.iter() {
        let w = pos.get(p, &Color::White);
        let b = pos.get(p, &Color::Black);
        assert_eq!(w | b, pos.get(p, &Color::All));
        assert_eq!(w & b, 0);
    }
}

#[test]
fn initial_turn_is_white() {
    let pos = Position::new();
    assert_eq!(pos.turn(), Color::White);
}

#[test]
fn empty_middle() {
    let pos = Position::new();
    let occupied = white(&pos) | black(&pos);
    for i in 16..48 {
        assert_eq!((occupied >> i) & 1, 0, "square {} is occupied", i);
    }
}

#[test]
fn piece_chars_white_lower_black_upper() {
    let expected = [
        (Piece::Pawn, 'p', 'P'),
        (Piece::Bishop, 'b', 'B'),
        (Piece::Knight, 'n', 'N'),
        (Piece::Rook, 'r', 'R'),
        (Piece::Queen, 'q', 'Q'),
        (Piece::King, 'k', 'K'),
    ];
    for (p, w, b) in expected.iter() {
        assert_eq!(piece_char(p, &Color::White), *w);
        assert_eq!(piece_char(p, &Color::Black), *b);
    }
}

#[test]
fn rendered_initial_board() {
    let pos = Position::new();
    let expected = "rnbkqbnr\n\
                    pppppppp\n\
                    ........\n\
                    ........\n\
                    ........\n\
                    ........\n\
                    PPPPPPPP\n\
                    RNBKQBNR\n\
                    \n";
    assert_eq!(pos.to_string(), expected);
}

#[test]
fn rendered_initial_board_shape() {
    let text = Position::new().to_string();
    assert_eq!(text.len(), 73);
    let lines: Vec<&str> = text.split('\n').collect();
    assert_eq!(lines.len(), 10);
    for line in &lines[..8] {
        assert_eq!(line.len(), 8);
    }
    assert_eq!(lines[8], "");
    assert_eq!(lines[9], "");
}
