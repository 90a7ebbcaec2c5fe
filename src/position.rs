//! The position model: two color planes, six piece-type planes and the side
//! to move.
use crate::bits::{has_bit, lemma_popcount_pieces, lemma_popcount_pieces_of_start, popcount};
use vstd::prelude::*;

verus! {

/// A 64-bit occupancy mask: bit `i` is set when square `i` is occupied.
pub type Bitboard = u64;

/// Squares of the White pieces in the starting layout.
pub const START_WHITE: Bitboard = 0x0000_0000_0000_ffff;

/// Squares of the Black pieces in the starting layout.
pub const START_BLACK: Bitboard = 0xffff_0000_0000_0000;

/// Squares of the pawns in the starting layout.
pub const START_PAWNS: Bitboard = 0x00ff_0000_0000_ff00;

/// Squares of the bishops in the starting layout.
pub const START_BISHOPS: Bitboard = 0x2400_0000_0000_0024;

/// Squares of the knights in the starting layout.
pub const START_KNIGHTS: Bitboard = 0x4200_0000_0000_0042;

/// Squares of the rooks in the starting layout.
pub const START_ROOKS: Bitboard = 0x8100_0000_0000_0081;

/// Squares of the queens in the starting layout.
pub const START_QUEENS: Bitboard = 0x1000_0000_0000_0010;

/// Squares of the kings in the starting layout.
pub const START_KINGS: Bitboard = 0x0800_0000_0000_0008;

/// A side of the board, or `All` for a query over both sides.
#[derive(Clone, Copy, Debug, PartialEq, Eq, Structural)]
pub enum Color {
    White,
    Black,
    All,
}

/// The six kinds of chess pieces.
#[derive(Clone, Copy, Debug, PartialEq, Eq, Structural)]
pub enum Piece {
    Pawn,
    Bishop,
    Knight,
    Rook,
    Queen,
    King,
}

/// Placement of the pieces on the board, and the side to move.
#[derive(Debug)]
pub struct Position {
    white: Bitboard,
    black: Bitboard,
    pawn: Bitboard,
    bishop: Bitboard,
    knight: Bitboard,
    king: Bitboard,
    queen: Bitboard,
    rook: Bitboard,
    turn: Color,
}

/// Union of the six piece-type planes of `pos`.
pub open spec fn occupied_by_pieces(pos: Position) -> Bitboard {
    pos.piece_mask(Piece::Pawn) | pos.piece_mask(Piece::Bishop) | pos.piece_mask(Piece::Knight)
        | pos.piece_mask(Piece::Rook) | pos.piece_mask(Piece::Queen) | pos.piece_mask(
        Piece::King,
    )
}

impl Position {
    /// The color plane of `c`; for `All`, the squares of either side.
    pub closed spec fn color_mask(self, c: Color) -> Bitboard {
        match c {
            Color::White => self.white,
            Color::Black => self.black,
            Color::All => self.white | self.black,
        }
    }

    /// The piece-type plane of `p`, over both sides.
    pub closed spec fn piece_mask(self, p: Piece) -> Bitboard {
        match p {
            Piece::Pawn => self.pawn,
            Piece::Bishop => self.bishop,
            Piece::Knight => self.knight,
            Piece::Rook => self.rook,
            Piece::Queen => self.queen,
            Piece::King => self.king,
        }
    }

    /// The side whose turn it is.
    pub closed spec fn side_to_move(self) -> Color {
        self.turn
    }

    /// The squares that hold a piece of type `p` of color `c`.
    pub open spec fn occupancy(self, p: Piece, c: Color) -> Bitboard {
        self.color_mask(c) & self.piece_mask(p)
    }

    /// The invariant of every position: no square holds both colors or two
    /// piece types, the color and piece planes cover the same squares, and a
    /// real side is to move.
    pub open spec fn wf(self) -> bool {
        &&& self.color_mask(Color::White) & self.color_mask(Color::Black) == 0
        &&& forall|p1: Piece, p2: Piece|
            p1 != p2 ==> #[trigger] self.piece_mask(p1) & #[trigger] self.piece_mask(p2) == 0
        &&& occupied_by_pieces(self) == self.color_mask(Color::White) | self.color_mask(
            Color::Black,
        )
        &&& self.side_to_move() != Color::All
    }

    /// The standard starting layout, White to move.
    pub open spec fn is_initial(self) -> bool {
        &&& self.color_mask(Color::White) == START_WHITE
        &&& self.color_mask(Color::Black) == START_BLACK
        &&& self.piece_mask(Piece::Pawn) == START_PAWNS
        &&& self.piece_mask(Piece::Bishop) == START_BISHOPS
        &&& self.piece_mask(Piece::Knight) == START_KNIGHTS
        &&& self.piece_mask(Piece::Rook) == START_ROOKS
        &&& self.piece_mask(Piece::Queen) == START_QUEENS
        &&& self.piece_mask(Piece::King) == START_KINGS
        &&& self.side_to_move() == Color::White
    }

    #[verifier::type_invariant]
    pub(crate) open spec fn inv(self) -> bool {
        self.wf()
    }

    /// The standard starting position.
    pub fn new() -> (r: Self)
        ensures
            r.is_initial(),
            r.wf(),
            r.side_to_move() == Color::White,
    {
        proof {
            lemma_start_planes();
        }
        let r = Position {
            white: START_WHITE,
            black: START_BLACK,
            pawn: START_PAWNS,
            bishop: START_BISHOPS,
            knight: START_KNIGHTS,
            queen: START_QUEENS,
            king: START_KINGS,
            rook: START_ROOKS,
            turn: Color::White,
        };
        r
    }

    /// The squares holding a piece of type `piece` and color `color`; with
    /// `Color::All`, of either color.
    pub fn get(&self, piece: &Piece, color: &Color) -> (r: Bitboard)
        ensures
            r == self.occupancy(*piece, *color),
    {
        let color_board = match color {
            Color::Black => self.black,
            Color::White => self.white,
            Color::All => self.white | self.black,
        };
        let piece_board = match piece {
            Piece::Pawn => self.pawn,
            Piece::Bishop => self.bishop,
            Piece::Knight => self.knight,
            Piece::King => self.king,
            Piece::Queen => self.queen,
            Piece::Rook => self.rook,
        };
        color_board & piece_board
    }

    /// The side to move.
    pub fn turn(&self) -> (r: Color)
        ensures
            r == self.side_to_move(),
            r != Color::All,
    {
        proof {
            use_type_invariant(self);
        }
        self.turn
    }
}

/// The starting layout satisfies the position invariant.
pub proof fn lemma_initial_wf(pos: Position)
    requires
        pos.is_initial(),
    ensures
        pos.wf(),
{
    lemma_start_planes();
}

/// Facts about the literal planes of the starting layout: the two colors are
/// disjoint, the six piece types are pairwise disjoint, and the piece planes
/// cover exactly the colored squares.
proof fn lemma_start_planes()
    ensures
        START_WHITE & START_BLACK == 0,
        START_PAWNS & START_BISHOPS == 0,
        START_PAWNS & START_KNIGHTS == 0,
        START_PAWNS & START_ROOKS == 0,
        START_PAWNS & START_QUEENS == 0,
        START_PAWNS & START_KINGS == 0,
        START_BISHOPS & START_KNIGHTS == 0,
        START_BISHOPS & START_ROOKS == 0,
        START_BISHOPS & START_QUEENS == 0,
        START_BISHOPS & START_KINGS == 0,
        START_KNIGHTS & START_ROOKS == 0,
        START_KNIGHTS & START_QUEENS == 0,
        START_KNIGHTS & START_KINGS == 0,
        START_ROOKS & START_QUEENS == 0,
        START_ROOKS & START_KINGS == 0,
        START_QUEENS & START_KINGS == 0,
        START_BISHOPS & START_PAWNS == 0,
        START_KNIGHTS & START_PAWNS == 0,
        START_ROOKS & START_PAWNS == 0,
        START_QUEENS & START_PAWNS == 0,
        START_KINGS & START_PAWNS == 0,
        START_KNIGHTS & START_BISHOPS == 0,
        START_ROOKS & START_BISHOPS == 0,
        START_QUEENS & START_BISHOPS == 0,
        START_KINGS & START_BISHOPS == 0,
        START_ROOKS & START_KNIGHTS == 0,
        START_QUEENS & START_KNIGHTS == 0,
        START_KINGS & START_KNIGHTS == 0,
        START_QUEENS & START_ROOKS == 0,
        START_KINGS & START_ROOKS == 0,
        START_KINGS & START_QUEENS == 0,
        START_PAWNS | START_BISHOPS | START_KNIGHTS | START_ROOKS | START_QUEENS | START_KINGS == START_WHITE | START_BLACK,
{
    assert(START_WHITE & START_BLACK == 0) by (bit_vector);
    assert(START_PAWNS & START_BISHOPS == 0
        && START_PAWNS & START_KNIGHTS == 0
        && START_PAWNS & START_ROOKS == 0
        && START_PAWNS & START_QUEENS == 0
        && START_PAWNS & START_KINGS == 0
        && START_BISHOPS & START_KNIGHTS == 0
        && START_BISHOPS & START_ROOKS == 0
        && START_BISHOPS & START_QUEENS == 0
        && START_BISHOPS & START_KINGS == 0
        && START_KNIGHTS & START_ROOKS == 0
        && START_KNIGHTS & START_QUEENS == 0
        && START_KNIGHTS & START_KINGS == 0
        && START_ROOKS & START_QUEENS == 0
        && START_ROOKS & START_KINGS == 0
        && START_QUEENS & START_KINGS == 0) by (bit_vector);
    assert(START_BISHOPS & START_PAWNS == 0
        && START_KNIGHTS & START_PAWNS == 0
        && START_ROOKS & START_PAWNS == 0
        && START_QUEENS & START_PAWNS == 0
        && START_KINGS & START_PAWNS == 0
        && START_KNIGHTS & START_BISHOPS == 0
        && START_ROOKS & START_BISHOPS == 0
        && START_QUEENS & START_BISHOPS == 0
        && START_KINGS & START_BISHOPS == 0
        && START_ROOKS & START_KNIGHTS == 0
        && START_QUEENS & START_KNIGHTS == 0
        && START_KINGS & START_KNIGHTS == 0
        && START_QUEENS & START_ROOKS == 0
        && START_KINGS & START_ROOKS == 0
        && START_KINGS & START_QUEENS == 0) by (bit_vector);
    assert(START_PAWNS | START_BISHOPS | START_KNIGHTS
        | START_ROOKS | START_QUEENS | START_KINGS
        == START_WHITE | START_BLACK) by (bit_vector);
}

/// Bit counts of the literal planes of the starting layout.
proof fn lemma_start_plane_counts()
    ensures
        popcount(START_WHITE as nat) == 16,
        popcount(START_BLACK as nat) == 16,
        popcount(START_PAWNS as nat) == 16,
        popcount(START_KNIGHTS as nat) == 4,
        popcount(START_BISHOPS as nat) == 4,
        popcount(START_ROOKS as nat) == 4,
        popcount(START_QUEENS as nat) == 2,
        popcount(START_KINGS as nat) == 2,
{
    assert(popcount(START_WHITE as nat) == 16) by {
        lemma_popcount_pieces(START_WHITE as nat);
        lemma_popcount_pieces_of_start();
    }
    assert(popcount(START_BLACK as nat) == 16) by {
        lemma_popcount_pieces(START_BLACK as nat);
        lemma_popcount_pieces_of_start();
    }
    assert(popcount(START_PAWNS as nat) == 16) by {
        lemma_popcount_pieces(START_PAWNS as nat);
        lemma_popcount_pieces_of_start();
    }
    assert(popcount(START_KNIGHTS as nat) == 4) by {
        lemma_popcount_pieces(START_KNIGHTS as nat);
        lemma_popcount_pieces_of_start();
    }
    assert(popcount(START_BISHOPS as nat) == 4) by {
        lemma_popcount_pieces(START_BISHOPS as nat);
        lemma_popcount_pieces_of_start();
    }
    assert(popcount(START_ROOKS as nat) == 4) by {
        lemma_popcount_pieces(START_ROOKS as nat);
        lemma_popcount_pieces_of_start();
    }
    assert(popcount(START_QUEENS as nat) == 2) by {
        lemma_popcount_pieces(START_QUEENS as nat);
        lemma_popcount_pieces_of_start();
    }
    assert(popcount(START_KINGS as nat) == 2) by {
        lemma_popcount_pieces(START_KINGS as nat);
        lemma_popcount_pieces_of_start();
    }
}

/// No square is occupied by both colors.
pub proof fn lemma_colors_disjoint(pos: Position)
    requires
        pos.wf(),
    ensures
        pos.color_mask(Color::White) & pos.color_mask(Color::Black) == 0,
{
}

/// No square holds two different piece types.
pub proof fn lemma_piece_types_disjoint(pos: Position, p1: Piece, p2: Piece)
    requires
        pos.wf(),
        p1 != p2,
    ensures
        pos.piece_mask(p1) & pos.piece_mask(p2) == 0,
{
}

/// The six piece-type planes together cover exactly the squares of either
/// color.
pub proof fn lemma_pieces_cover_colors(pos: Position)
    requires
        pos.wf(),
    ensures
        occupied_by_pieces(pos) == pos.color_mask(Color::White) | pos.color_mask(Color::Black),
        occupied_by_pieces(pos) == pos.color_mask(Color::All),
{
}

/// Each side starts with sixteen pieces.
pub proof fn lemma_initial_color_counts(pos: Position)
    requires
        pos.is_initial(),
    ensures
        popcount(pos.color_mask(Color::White) as nat) == 16,
        popcount(pos.color_mask(Color::Black) as nat) == 16,
{
    lemma_start_plane_counts();
}

/// Over both sides the start has sixteen pawns, four knights, four bishops,
/// four rooks, two queens and two kings.
pub proof fn lemma_initial_piece_counts(pos: Position)
    requires
        pos.is_initial(),
    ensures
        popcount(pos.occupancy(Piece::Pawn, Color::All) as nat) == 16,
        popcount(pos.occupancy(Piece::Knight, Color::All) as nat) == 4,
        popcount(pos.occupancy(Piece::Bishop, Color::All) as nat) == 4,
        popcount(pos.occupancy(Piece::Rook, Color::All) as nat) == 4,
        popcount(pos.occupancy(Piece::Queen, Color::All) as nat) == 2,
        popcount(pos.occupancy(Piece::King, Color::All) as nat) == 2,
{
    assert((START_WHITE | START_BLACK) & START_PAWNS == START_PAWNS
        && (START_WHITE | START_BLACK) & START_KNIGHTS == START_KNIGHTS
        && (START_WHITE | START_BLACK) & START_BISHOPS == START_BISHOPS
        && (START_WHITE | START_BLACK) & START_ROOKS == START_ROOKS
        && (START_WHITE | START_BLACK) & START_QUEENS == START_QUEENS
        && (START_WHITE | START_BLACK) & START_KINGS == START_KINGS) by (bit_vector);
    lemma_start_plane_counts();
}

/// The pieces of one color are those of both colors restricted to that
/// color's squares.
pub proof fn lemma_occupancy_of_color(pos: Position, p: Piece, c: Color)
    ensures
        pos.occupancy(p, c) == pos.occupancy(p, Color::All) & pos.color_mask(c),
{
    let w = pos.white;
    let b = pos.black;
    let m = pos.piece_mask(p);
    assert(w & m == ((w | b) & m) & w && b & m == ((w | b) & m) & b && (w | b) & m == ((w | b)
        & m) & (w | b)) by (bit_vector);
}

/// The White and the Black pieces of a type split the pieces of that type
/// over both sides.
pub proof fn lemma_occupancy_sides(pos: Position, p: Piece)
    requires
        pos.wf(),
    ensures
        pos.occupancy(p, Color::White) | pos.occupancy(p, Color::Black) == pos.occupancy(
            p,
            Color::All,
        ),
        pos.occupancy(p, Color::White) & pos.occupancy(p, Color::Black) == 0,
{
    let w = pos.white;
    let b = pos.black;
    let m = pos.piece_mask(p);
    assert((w & m) | (b & m) == (w | b) & m) by (bit_vector);
    assert(w & b == 0 ==> (w & m) & (b & m) == 0) by (bit_vector);
}

/// In the starting layout the sixteen squares of bits 16 to 47 are empty.
pub proof fn lemma_initial_middle_empty(pos: Position)
    requires
        pos.is_initial(),
    ensures
        forall|i: u64|
            16 <= i < 48 ==> !#[trigger] has_bit(
                pos.color_mask(Color::White) | pos.color_mask(Color::Black),
                i,
            ),
{
    assert forall|i: u64| 16 <= i < 48 implies !#[trigger] has_bit(START_WHITE | START_BLACK, i) by {
        assert(((START_WHITE | START_BLACK) >> i) & 1 != 1) by (bit_vector)
            requires
                16 <= i < 48,
        ;
    }
}

} // verus!
