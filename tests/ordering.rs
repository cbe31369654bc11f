use cozy_chess::{Board, Square};
use move_ordering::{move_score, Move, MoveOrdering, Occupant, PieceKind, Position, ScoredMove, Side};

fn sq(s: Square) -> u8 {
    s as u8
}

fn mv(from: Square, to: Square) -> Move {
    Move::new(sq(from), sq(to), None)
}

fn board(fen: &str) -> Board {
    Board::from_fen(fen, false).expect("valid position")
}

fn put(pos: &mut Position, at: Square, piece: PieceKind, side: Side) {
    pos.squares[sq(at) as usize] = Some(Occupant { piece, side });
}

fn capture_score(victim: PieceKind) -> i16 {
    let mut pos = Position::empty(Side::White);
    put(&mut pos, Square::C3, PieceKind::Knight, Side::White);
    put(&mut pos, Square::D5, victim, Side::Black);
    move_score(&pos, mv(Square::C3, Square::D5))
}

fn pairs(ordering: MoveOrdering) -> Vec<(Move, i16)> {
    ordering.into_vec().iter().map(|s| (s.mv(), s.score())).collect()
}

#[test]
fn capture_scores_by_victim() {
    assert_eq!(capture_score(PieceKind::Queen), 12288);
    assert_eq!(capture_score(PieceKind::Rook), 10240);
    assert_eq!(capture_score(PieceKind::Bishop), 9472);
    assert_eq!(capture_score(PieceKind::Knight), 9216);
    assert_eq!(capture_score(PieceKind::Pawn), 8192);
    assert_eq!(capture_score(PieceKind::King), 8192);
}

#[test]
fn quiet_move_scores_zero() {
    let mut pos = Position::empty(Side::White);
    put(&mut pos, Square::A2, PieceKind::Pawn, Side::White);
    assert_eq!(move_score(&pos, mv(Square::A2, Square::A3)), 0);
}

#[test]
fn own_piece_on_destination_is_no_capture() {
    let mut pos = Position::empty(Side::White);
    put(&mut pos, Square::C3, PieceKind::Knight, Side::White);
    put(&mut pos, Square::D5, PieceKind::Queen, Side::White);
    assert_eq!(move_score(&pos, mv(Square::C3, Square::D5)), 0);
}

#[test]
fn en_passant_white_scores_as_pawn_capture() {
    let pos = Position::from_board(&board("4k3/8/8/3pP3/8/8/8/4K3 w - d6 0 1"));
    let ep = move_score(&pos, mv(Square::E5, Square::D6));
    assert_eq!(ep, 8192);
    let direct = capture_score(PieceKind::Pawn);
    assert_eq!(ep, direct);
    assert_eq!(move_score(&pos, mv(Square::E5, Square::E6)), 0);
}

#[test]
fn en_passant_black_uses_its_own_sixth_rank() {
    let pos = Position::from_board(&board("4k3/8/8/8/3Pp3/8/8/4K3 b - d3 0 1"));
    assert_eq!(move_score(&pos, mv(Square::E4, Square::D3)), 8192);
    assert_eq!(move_score(&pos, mv(Square::E4, Square::E3)), 0);
}

#[test]
fn en_passant_square_needs_a_pawn_on_the_source() {
    let mut pos = Position::empty(Side::White);
    put(&mut pos, Square::E5, PieceKind::Knight, Side::White);
    pos.en_passant = Some(3);
    assert_eq!(move_score(&pos, mv(Square::E5, Square::D6)), 0);
    put(&mut pos, Square::E5, PieceKind::Pawn, Side::White);
    assert_eq!(move_score(&pos, mv(Square::E5, Square::D6)), 8192);
}

#[test]
fn from_board_reads_the_position() {
    let pos = Position::from_board(&board("4k3/8/8/3pP3/8/8/8/4K3 w - d6 0 1"));
    assert_eq!(pos.squares.len(), 64);
    assert_eq!(pos.side_to_move, Side::White);
    assert_eq!(pos.en_passant, Some(3));
    assert_eq!(pos.squares[sq(Square::E8) as usize], Some(Occupant { piece: PieceKind::King, side: Side::Black }));
    assert_eq!(pos.squares[sq(Square::D5) as usize], Some(Occupant { piece: PieceKind::Pawn, side: Side::Black }));
    assert_eq!(pos.squares[sq(Square::E5) as usize], Some(Occupant { piece: PieceKind::Pawn, side: Side::White }));
    assert_eq!(pos.squares[sq(Square::A1) as usize], None);
    let startpos = Position::from_board(&Board::default());
    assert_eq!(startpos.en_passant, None);
    assert_eq!(startpos.squares[sq(Square::D1) as usize], Some(Occupant { piece: PieceKind::Queen, side: Side::White }));
}

#[test]
fn rook_capture_before_quiet_push() {
    let pos = Position::from_board(&board("4k3/8/8/3r4/8/2N5/P7/4K3 w - - 0 1"));
    let quiet = mv(Square::A2, Square::A3);
    let capture = mv(Square::C3, Square::D5);
    let out = pairs(MoveOrdering::new(&pos, &vec![quiet, capture]));
    assert_eq!(out, vec![(capture, 10240), (quiet, 0)]);
}

#[test]
fn queen_capture_before_en_passant() {
    let pos = Position::from_board(&board("4k3/8/8/3pP3/q7/8/8/R3K3 w - d6 0 1"));
    let ep = mv(Square::E5, Square::D6);
    let queen = mv(Square::A1, Square::A4);
    let out = pairs(MoveOrdering::new(&pos, &vec![ep, queen]));
    assert_eq!(out, vec![(queen, 12288), (ep, 8192)]);
}

#[test]
fn equal_captures_each_appear_once() {
    let pos = Position::from_board(&board("4k3/8/8/1r1r4/8/2N5/P7/4K3 w - - 0 1"));
    let left = mv(Square::C3, Square::B5);
    let right = mv(Square::C3, Square::D5);
    let quiet = mv(Square::A2, Square::A4);
    let out = pairs(MoveOrdering::new(&pos, &vec![quiet, left, right]));
    assert_eq!(out.len(), 3);
    assert_eq!(out.iter().filter(|p| **p == (left, 10240)).count(), 1);
    assert_eq!(out.iter().filter(|p| **p == (right, 10240)).count(), 1);
    assert_eq!(out[2], (quiet, 0));
}

#[test]
fn ordering_is_non_increasing_and_keeps_length() {
    let pos = Position::from_board(&board("4k3/8/2b5/1r1q4/8/2N5/P7/4K3 w - - 0 1"));
    let moves = vec![
        mv(Square::A2, Square::A3),
        mv(Square::C3, Square::B5),
        mv(Square::A2, Square::A4),
        mv(Square::C3, Square::D5),
        mv(Square::E1, Square::F1),
        mv(Square::C3, Square::E4),
    ];
    let out = pairs(MoveOrdering::new(&pos, &moves));
    assert_eq!(out.len(), moves.len());
    for w in out.windows(2) {
        assert!(w[0].1 >= w[1].1);
    }
    assert_eq!(out[0], (mv(Square::C3, Square::D5), 12288));
    assert_eq!(out[1], (mv(Square::C3, Square::B5), 10240));
}

#[test]
fn empty_move_list_gives_empty_ordering() {
    let pos = Position::from_board(&Board::default());
    assert!(MoveOrdering::new(&pos, &Vec::new()).into_vec().is_empty());
}

#[test]
fn rebuilding_gives_same_pairs() {
    let pos = Position::from_board(&board("4k3/8/8/1r1r4/8/2N5/P7/4K3 w - - 0 1"));
    let moves = vec![
        mv(Square::A2, Square::A4),
        mv(Square::C3, Square::B5),
        mv(Square::C3, Square::D5),
        mv(Square::A2, Square::A3),
    ];
    let key = |p: &(Move, i16)| (p.0.from, p.0.to, p.1);
    let mut a = pairs(MoveOrdering::new(&pos, &moves));
    let mut b = pairs(MoveOrdering::new(&pos, &moves));
    a.sort_by_key(key);
    b.sort_by_key(key);
    assert_eq!(a, b);
}

#[test]
fn scored_moves_compare_by_score_only() {
    let pos = Position::from_board(&board("4k3/8/8/1r1r4/8/2N5/P7/4K3 w - - 0 1"));
    let left = ScoredMove::new(&pos, mv(Square::C3, Square::B5));
    let right = ScoredMove::new(&pos, mv(Square::C3, Square::D5));
    let quiet = ScoredMove::new(&pos, mv(Square::A2, Square::A3));
    assert!(left == right);
    assert_ne!(left.mv(), right.mv());
    assert!(quiet < left);
    assert!(left > quiet);
    assert_eq!(left.partial_cmp(&right), Some(std::cmp::Ordering::Equal));
}
