//! The priority of a single candidate move in a position.
use vstd::prelude::*;
use crate::board::{Move, PieceKind, Position, Side};

verus! {

/// Base priority of any capture, en passant included.
pub const CAPTURE_BASE: i16 = 8192;

/// The rank, counted from the mover's own side, on which an en-passant
/// capture lands (the sixth rank, index 5).
pub const EN_PASSANT_RANK: u8 = 5;

/// Bonus for the kind of piece that a capture takes.
pub open spec fn victim_weight(piece: PieceKind) -> int {
    match piece {
        PieceKind::Queen => 4096,
        PieceKind::Rook => 2048,
        PieceKind::Bishop => 1280,
        PieceKind::Knight => 1024,
        PieceKind::Pawn => 0,
        PieceKind::King => 0,
    }
}

/// The square at `file` and `rank`, numbered rank-major.
pub open spec fn square_at(file: int, rank: int) -> int {
    8 * rank + file
}

/// A rank seen from `side`'s end of the board.
pub open spec fn relative_rank(rank: int, side: Side) -> int {
    match side {
        Side::White => rank,
        Side::Black => 7 - rank,
    }
}

/// The square that a pawn of `side` lands on when it takes en passant on `file`.
pub open spec fn en_passant_square(file: int, side: Side) -> int {
    square_at(file, relative_rank(EN_PASSANT_RANK as int, side))
}

/// Whether `mv` is an en-passant capture in `pos`: the destination is the
/// empty en-passant square of this ply and a pawn stands on the source square.
pub open spec fn is_en_passant(pos: Position, mv: Move) -> bool {
    &&& pos.squares@[mv.to as int] is None
    &&& pos.en_passant matches Some(f)
    &&& mv.to as int == en_passant_square(f as int, pos.side_to_move)
    &&& pos.squares@[mv.from as int] matches Some(o)
    &&& o.piece == PieceKind::Pawn
}

/// The priority of `mv` in `pos`: a capture of an opposing piece scores the
/// capture base plus the victim's weight, an en-passant capture the capture
/// base alone, and every other move zero.
pub open spec fn score_of(pos: Position, mv: Move) -> int {
    match pos.squares@[mv.to as int] {
        Some(victim) => if victim.side != pos.side_to_move {
            CAPTURE_BASE + victim_weight(victim.piece)
        } else {
            0
        },
        None => if is_en_passant(pos, mv) {
            CAPTURE_BASE as int
        } else {
            0
        },
    }
}

/// Whether `mv` takes an opposing `piece` standing on its destination.
pub open spec fn captures(pos: Position, mv: Move, piece: PieceKind) -> bool {
    &&& pos.squares@[mv.to as int] matches Some(victim)
    &&& victim.side != pos.side_to_move
    &&& victim.piece == piece
}

/// Whether `mv` neither lands on an occupied square nor takes en passant.
pub open spec fn is_quiet(pos: Position, mv: Move) -> bool {
    &&& pos.squares@[mv.to as int] is None
    &&& !is_en_passant(pos, mv)
}

/// The priority of each kind of capture: a queen 12288, a rook 10240, a
/// bishop 9472, a knight 9216, a pawn or an en-passant capture 8192; a quiet
/// move scores 0.
pub proof fn lemma_capture_scores(pos: Position, mv: Move)
    requires
        pos.wf(),
        mv.wf(),
    ensures
        captures(pos, mv, PieceKind::Queen) ==> score_of(pos, mv) == 12288,
        captures(pos, mv, PieceKind::Rook) ==> score_of(pos, mv) == 10240,
        captures(pos, mv, PieceKind::Bishop) ==> score_of(pos, mv) == 9472,
        captures(pos, mv, PieceKind::Knight) ==> score_of(pos, mv) == 9216,
        captures(pos, mv, PieceKind::Pawn) ==> score_of(pos, mv) == 8192,
        is_en_passant(pos, mv) ==> score_of(pos, mv) == 8192,
        is_quiet(pos, mv) ==> score_of(pos, mv) == 0,
{
}

/// An en-passant capture scores exactly as a direct capture of a pawn.
pub proof fn lemma_en_passant_scores_as_pawn_capture(
    ep_pos: Position,
    ep_move: Move,
    pos: Position,
    mv: Move,
)
    requires
        ep_pos.wf(),
        ep_move.wf(),
        pos.wf(),
        mv.wf(),
        is_en_passant(ep_pos, ep_move),
        captures(pos, mv, PieceKind::Pawn),
    ensures
        score_of(ep_pos, ep_move) == score_of(pos, mv),
        score_of(pos, mv) == CAPTURE_BASE,
{
}

/// Relies on cozy_chess::Square::new: squares are numbered rank-major,
/// a1, b1, ..., h1, a2, ..., h8.
#[verifier::external_body]
fn square_new(file: u8, rank: u8) -> (r: u8)
    requires
        file < 8,
        rank < 8,
    ensures
        r == square_at(file as int, rank as int),
{
    cozy_chess::Square::new(
        cozy_chess::File::index(file as usize),
        cozy_chess::Rank::index(rank as usize),
    ) as u8
}

/// Relies on cozy_chess::Rank::relative_to: the rank is kept for White and
/// flipped (first to eighth) for Black.
#[verifier::external_body]
fn rank_relative_to(rank: u8, side: Side) -> (r: u8)
    requires
        rank < 8,
    ensures
        r == relative_rank(rank as int, side),
{
    let color = match side {
        Side::White => cozy_chess::Color::White,
        Side::Black => cozy_chess::Color::Black,
    };
    cozy_chess::Rank::index(rank as usize).relative_to(color) as u8
}

/// The weight of the captured piece kind.
fn piece_weight(piece: PieceKind) -> (r: i16)
    ensures
        r == victim_weight(piece),
{
    match piece {
        PieceKind::Queen => 4096,
        PieceKind::Rook => 2048,
        PieceKind::Bishop => 1280,
        PieceKind::Knight => 1024,
        _ => 0,
    }
}

/// The priority of `mv` in `pos`; the move is taken to be legal there.
pub fn move_score(pos: &Position, mv: Move) -> (r: i16)
    requires
        pos.wf(),
        mv.wf(),
    ensures
        r == score_of(*pos, mv),
{
    let mut score: i16 = 0;
    match pos.squares[mv.to as usize] {
        Some(victim) => {
            if victim.side != pos.side_to_move {
                score = CAPTURE_BASE + piece_weight(victim.piece);
            }
        },
        None => {
            if let Some(file) = pos.en_passant {
                let us = pos.side_to_move;
                let ep_square = square_new(file, rank_relative_to(EN_PASSANT_RANK, us));
                let from_is_pawn = match pos.squares[mv.from as usize] {
                    Some(o) => o.piece == PieceKind::Pawn,
                    None => false,
                };
                if mv.to == ep_square && from_is_pawn {
                    score = CAPTURE_BASE;
                }
            }
        },
    }
    score
}

} // verus!
