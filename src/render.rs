//! ASCII rendering of a position: one line of eight squares per rank, in
//! ascending square order.
use crate::bits::{has_bit, lemma_disjoint_bits, lemma_has_bit_and, lemma_test_bit};
use crate::position::{Color, Piece, Position};
use vstd::arithmetic::div_mod::lemma_fundamental_div_mod_converse;
use vstd::prelude::*;

verus! {

/// The character of a piece of type `p` and color `c`: lower case for White,
/// upper case for Black.
pub open spec fn glyph(p: Piece, c: Color) -> char
    recommends
        c != Color::All,
{
    match c {
        Color::White => match p {
            Piece::Pawn => 'p',
            Piece::Bishop => 'b',
            Piece::Knight => 'n',
            Piece::Rook => 'r',
            Piece::Queen => 'q',
            Piece::King => 'k',
        },
        _ => match p {
            Piece::Pawn => 'P',
            Piece::Bishop => 'B',
            Piece::Knight => 'N',
            Piece::Rook => 'R',
            Piece::Queen => 'Q',
            Piece::King => 'K',
        },
    }
}

/// Position of a color in the order in which the board is painted.
spec fn color_rank(c: Color) -> int {
    match c {
        Color::White => 0,
        _ => 1,
    }
}

/// Position of a piece type in the order in which the board is painted.
spec fn piece_rank(p: Piece) -> int {
    match p {
        Piece::Pawn => 0,
        Piece::Bishop => 1,
        Piece::Rook => 2,
        Piece::Knight => 3,
        Piece::King => 4,
        Piece::Queen => 5,
    }
}

impl Position {
    /// The color of the piece on square `i`, if any.
    pub open spec fn square_color(self, i: u64) -> Option<Color> {
        if has_bit(self.color_mask(Color::White), i) {
            Some(Color::White)
        } else if has_bit(self.color_mask(Color::Black), i) {
            Some(Color::Black)
        } else {
            None
        }
    }

    /// The type of the piece on square `i`, if any.
    pub open spec fn square_piece(self, i: u64) -> Option<Piece> {
        if has_bit(self.piece_mask(Piece::Pawn), i) {
            Some(Piece::Pawn)
        } else if has_bit(self.piece_mask(Piece::Bishop), i) {
            Some(Piece::Bishop)
        } else if has_bit(self.piece_mask(Piece::Knight), i) {
            Some(Piece::Knight)
        } else if has_bit(self.piece_mask(Piece::Rook), i) {
            Some(Piece::Rook)
        } else if has_bit(self.piece_mask(Piece::Queen), i) {
            Some(Piece::Queen)
        } else if has_bit(self.piece_mask(Piece::King), i) {
            Some(Piece::King)
        } else {
            None
        }
    }

    /// The character shown for square `i`: the piece's glyph, or `.` for an
    /// empty square.
    pub open spec fn square_char(self, i: u64) -> char {
        match (self.square_piece(i), self.square_color(i)) {
            (Some(p), Some(c)) => glyph(p, c),
            _ => '.',
        }
    }

    /// The rendered board: eight lines of eight squares, squares `8r` to
    /// `8r + 7` on line `r`, each line ended by a newline, then one more
    /// newline.
    pub open spec fn board_text(self) -> Seq<char> {
        Seq::new(
            73,
            |k: int|
                if k == 72 || k % 9 == 8 {
                    '\n'
                } else {
                    self.square_char(((k / 9) * 8 + k % 9) as u64)
                },
        )
    }
}

/// A square set in the plane of one piece type and one side shows that
/// piece's glyph; and a square that shows a glyph is set in the plane of the
/// piece and side it shows.
proof fn lemma_square_char(pos: Position, p: Piece, c: Color, i: u64)
    requires
        pos.wf(),
        c != Color::All,
        i < 64,
    ensures
        has_bit(pos.occupancy(p, c), i) ==> pos.square_char(i) == glyph(p, c),
        pos.square_char(i) != '.' ==> has_bit(
            pos.occupancy(pos.square_piece(i)->0, pos.square_color(i)->0),
            i,
        ),
{
    let w = pos.color_mask(Color::White);
    let b = pos.color_mask(Color::Black);
    lemma_has_bit_and(pos.color_mask(c), pos.piece_mask(p), i);
    lemma_disjoint_bits(w, b, i);
    assert forall|q: Piece| q != p implies !(has_bit(pos.piece_mask(p), i) && has_bit(
        #[trigger] pos.piece_mask(q),
        i,
    )) by {
        lemma_disjoint_bits(pos.piece_mask(p), pos.piece_mask(q), i);
    }
    if pos.square_char(i) != '.' {
        let q = pos.square_piece(i)->0;
        let d = pos.square_color(i)->0;
        lemma_has_bit_and(pos.color_mask(d), pos.piece_mask(q), i);
    }
}

/// The character of a piece of type `p` and color `c`, which must be one of
/// the two sides.
pub fn piece_char(p: &Piece, c: &Color) -> (r: char)
    requires
        *c != Color::All,
    ensures
        r == glyph(*p, *c),
{
    match c {
        Color::White => match p {
            Piece::Pawn => 'p',
            Piece::Bishop => 'b',
            Piece::Knight => 'n',
            Piece::King => 'k',
            Piece::Queen => 'q',
            Piece::Rook => 'r',
        },
        Color::Black => match p {
            Piece::Pawn => 'P',
            Piece::Bishop => 'B',
            Piece::Knight => 'N',
            Piece::King => 'K',
            Piece::Queen => 'Q',
            Piece::Rook => 'R',
        },
        Color::All => vstd::pervasive::unreached(),
    }
}

impl Position {
    /// Renders the board as text: eight lines of eight characters, squares
    /// `8r` to `8r + 7` on line `r`, `.` for an empty square, each line ended
    /// by a newline, and one more newline at the end.
    pub fn to_string(&self) -> (r: String)
        ensures
            r@ == self.board_text(),
    {
        proof {
            use_type_invariant(self);
        }
        let mut output: Vec<char> = Vec::new();
        let mut n: usize = 0;
        while n < 64
            invariant
                n <= 64,
                output@.len() == n,
                forall|i: int| 0 <= i < n ==> output@[i] == '.',
            decreases 64 - n,
        {
            output.push('.');
            n += 1;
        }
        let mut ci: usize = 0;
        while ci < 2
            invariant
                self.wf(),
                ci <= 2,
                output@.len() == 64,
                forall|i: int| 0 <= i < 64 ==> #[trigger] output@[i] == '.' || output@[i] == self.square_char(i as u64),
                forall|i: u64|
                    i < 64 && #[trigger] self.square_char(i) != '.' && color_rank(self.square_color(i)->0) < ci
                        ==> output@[i as int] == self.square_char(i),
            decreases 2 - ci,
        {
            let c = if ci == 0 { Color::White } else { Color::Black };
            let mut pi: usize = 0;
            while pi < 6
                invariant
                    self.wf(),
                    ci < 2,
                    pi <= 6,
                    c != Color::All,
                    color_rank(c) == ci,
                    output@.len() == 64,
                    forall|i: int| 0 <= i < 64 ==> #[trigger] output@[i] == '.' || output@[i] == self.square_char(i as u64),
                    forall|i: u64|
                        i < 64 && #[trigger] self.square_char(i) != '.' && (color_rank(self.square_color(i)->0) < ci
                            || (color_rank(self.square_color(i)->0) == ci && piece_rank(self.square_piece(i)->0) < pi))
                            ==> output@[i as int] == self.square_char(i),
                decreases 6 - pi,
            {
                let p = piece_in_paint_order(pi);
                let board = self.get(&p, &c);
                let chr = piece_char(&p, &c);
                let mut mask: u64 = 0;
                while mask < 64
                    invariant
                        self.wf(),
                        ci < 2,
                        pi < 6,
                        mask <= 64,
                        c != Color::All,
                        color_rank(c) == ci,
                        piece_rank(p) == pi,
                        board == self.occupancy(p, c),
                        chr == glyph(p, c),
                        output@.len() == 64,
                        forall|i: int| 0 <= i < 64 ==> #[trigger] output@[i] == '.' || output@[i] == self.square_char(i as u64),
                        forall|i: u64|
                            i < 64 && #[trigger] self.square_char(i) != '.' && (color_rank(self.square_color(i)->0) < ci
                                || (color_rank(self.square_color(i)->0) == ci && piece_rank(self.square_piece(i)->0) < pi)
                                || (self.square_color(i)->0 == c && self.square_piece(i)->0 == p && i < mask))
                                ==> output@[i as int] == self.square_char(i),
                    decreases 64 - mask,
                {
                    proof {
                        lemma_test_bit(board, mask);
                        lemma_square_char(*self, p, c, mask);
                    }
                    if board & (1u64 << mask) != 0 {
                        output.set(mask as usize, chr);
                    }
                    mask += 1;
                }
                pi += 1;
            }
            ci += 1;
        }
        assert forall|i: int| 0 <= i < 64 implies output@[i] == self.square_char(i as u64) by {
            if self.square_char(i as u64) != '.' {
                assert(color_rank(self.square_color(i as u64)->0) < 2);
            }
        }
        let mut text = String::new();
        let mut row: usize = 0;
        while row < 8
            invariant
                row <= 8,
                output@.len() == 64,
                forall|i: int| 0 <= i < 64 ==> output@[i] == self.square_char(i as u64),
                text@ == self.board_text().take(row * 9),
            decreases 8 - row,
        {
            let mut col: usize = 0;
            while col < 8
                invariant
                    row < 8,
                    col <= 8,
                    output@.len() == 64,
                    forall|i: int| 0 <= i < 64 ==> output@[i] == self.square_char(i as u64),
                    text@ == self.board_text().take(row * 9 + col),
                decreases 8 - col,
            {
                proof {
                    lemma_fundamental_div_mod_converse(row * 9 + col, 9, row as int, col as int);
                }
                push_char(&mut text, output[row * 8 + col]);
                assert(text@ =~= self.board_text().take(row * 9 + col + 1));
                col += 1;
            }
            proof {
                lemma_fundamental_div_mod_converse(row * 9 + 8, 9, row as int, 8);
            }
            push_char(&mut text, '\n');
            assert(text@ =~= self.board_text().take(row * 9 + 9));
            row += 1;
        }
        push_char(&mut text, '\n');
        assert(text@ =~= self.board_text());
        text
    }
}

/// The piece type painted at step `j` of a side.
fn piece_in_paint_order(j: usize) -> (p: Piece)
    requires
        j < 6,
    ensures
        piece_rank(p) == j,
{
    match j {
        0 => Piece::Pawn,
        1 => Piece::Bishop,
        2 => Piece::Rook,
        3 => Piece::Knight,
        4 => Piece::King,
        _ => Piece::Queen,
    }
}

/// Relies on `String::push`: appends one character at the end.
#[verifier::external_body]
fn push_char(s: &mut String, c: char)
    ensures
        final(s)@ == old(s)@.push(c),
{
    s.push(c);
}

} // verus!
