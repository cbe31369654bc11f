//! The plain values that move scoring reads from a position.
use vstd::prelude::*;
use cozy_chess::{Board, Color, Piece, Square};

verus! {

/// The number of squares on the board; squares are numbered rank-major,
/// `8 * rank + file`, from a1 = 0 to h8 = 63.
pub const NUM_SQUARES: usize = 64;

/// A side of the game.
#[derive(Clone, Copy, Debug, PartialEq, Eq, Structural)]
pub enum Side {
    White,
    Black,
}

/// The kind of a chess piece.
#[derive(Clone, Copy, Debug, PartialEq, Eq, Structural)]
pub enum PieceKind {
    Pawn,
    Knight,
    Bishop,
    Rook,
    Queen,
    King,
}

/// A piece standing on a square, together with the side that owns it.
#[derive(Clone, Copy, Debug, PartialEq, Eq, Structural)]
pub struct Occupant {
    pub piece: PieceKind,
    pub side: Side,
}

/// A candidate move: source square, destination square and an optional
/// promotion piece (which scoring does not look at).
#[derive(Clone, Copy, Debug, PartialEq, Eq, Structural)]
pub struct Move {
    pub from: u8,
    pub to: u8,
    pub promotion: Option<PieceKind>,
}

impl Move {
    /// Both squares lie on the board.
    pub open spec fn wf(&self) -> bool {
        self.from < NUM_SQUARES && self.to < NUM_SQUARES
    }

    /// A move from `from` to `to`.
    pub fn new(from: u8, to: u8, promotion: Option<PieceKind>) -> (r: Move)
        ensures
            r.from == from,
            r.to == to,
            r.promotion == promotion,
    {
        Move { from, to, promotion }
    }
}

/// What move scoring reads from a position: the occupant of every square,
/// the side to move, and the file of a pawn that may be taken en passant
/// this ply.
#[derive(Clone, Debug)]
pub struct Position {
    pub squares: Vec<Option<Occupant>>,
    pub side_to_move: Side,
    pub en_passant: Option<u8>,
}

impl Position {
    /// One entry per square, and an en-passant file, if any, in `0..8`.
    pub open spec fn wf(&self) -> bool {
        &&& self.squares@.len() == NUM_SQUARES
        &&& (self.en_passant matches Some(f) ==> f < 8)
    }

    /// An empty board with `side_to_move` to play and no en-passant file.
    pub fn empty(side_to_move: Side) -> (r: Position)
        ensures
            r.wf(),
            r.side_to_move == side_to_move,
            r.en_passant is None,
            forall|i: int| 0 <= i < NUM_SQUARES ==> (#[trigger] r.squares@[i]) is None,
    {
        let mut squares: Vec<Option<Occupant>> = Vec::new();
        let mut i: usize = 0;
        while i < NUM_SQUARES
            invariant
                i <= NUM_SQUARES,
                squares@.len() == i,
                forall|j: int| 0 <= j < i ==> (#[trigger] squares@[j]) is None,
            decreases NUM_SQUARES - i,
        {
            squares.push(None);
            i = i + 1;
        }
        Position { squares, side_to_move, en_passant: None }
    }
}

/// cozy_chess::Board, carried opaque and read only through the wrappers below.
#[verifier::external_type_specification]
#[verifier::external_body]
pub struct ExBoard(Board);

/// Relies on cozy_chess::Board::piece_on: the kind of piece on a square, if
/// any.
#[verifier::external_body]
fn board_piece_on(board: &Board, square: u8) -> (r: Option<PieceKind>)
    requires
        square < NUM_SQUARES,
{
    match board.piece_on(Square::index(square as usize)) {
        Some(Piece::Pawn) => Some(PieceKind::Pawn),
        Some(Piece::Knight) => Some(PieceKind::Knight),
        Some(Piece::Bishop) => Some(PieceKind::Bishop),
        Some(Piece::Rook) => Some(PieceKind::Rook),
        Some(Piece::Queen) => Some(PieceKind::Queen),
        Some(Piece::King) => Some(PieceKind::King),
        None => None,
    }
}

/// Relies on cozy_chess::Board::color_on: the side owning the piece on a
/// square, if any.
#[verifier::external_body]
fn board_color_on(board: &Board, square: u8) -> (r: Option<Side>)
    requires
        square < NUM_SQUARES,
{
    match board.color_on(Square::index(square as usize)) {
        Some(Color::White) => Some(Side::White),
        Some(Color::Black) => Some(Side::Black),
        None => None,
    }
}

/// Relies on cozy_chess::Board::side_to_move.
#[verifier::external_body]
fn board_side_to_move(board: &Board) -> (r: Side) {
    match board.side_to_move() {
        Color::White => Side::White,
        Color::Black => Side::Black,
    }
}

/// Relies on cozy_chess::Board::en_passant: the file, one of the eight
/// `File` values, of a pawn that may be taken en passant this ply.
#[verifier::external_body]
fn board_en_passant(board: &Board) -> (r: Option<u8>)
    ensures
        r matches Some(f) ==> f < 8,
{
    match board.en_passant() {
        Some(file) => Some(file as u8),
        None => None,
    }
}

impl Position {
    /// Reads the occupant of every square, the side to move and the
    /// en-passant file of `board`. A square whose piece has no side is
    /// read as empty.
    pub fn from_board(board: &Board) -> (r: Position)
        ensures
            r.wf(),
    {
        let mut squares: Vec<Option<Occupant>> = Vec::with_capacity(NUM_SQUARES);
        let mut sq: u8 = 0;
        while (sq as usize) < NUM_SQUARES
            invariant
                sq <= NUM_SQUARES,
                squares@.len() == sq,
            decreases NUM_SQUARES - sq,
        {
            let occupant = match (board_piece_on(board, sq), board_color_on(board, sq)) {
                (Some(piece), Some(side)) => Some(Occupant { piece, side }),
                _ => None,
            };
            squares.push(occupant);
            sq = sq + 1;
        }
        Position {
            squares,
            side_to_move: board_side_to_move(board),
            en_passant: board_en_passant(board),
        }
    }
}

} // verus!
