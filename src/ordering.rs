//! Scored moves and the best-first ordering of a move list.
use vstd::prelude::*;
use crate::board::{Move, Position};
use crate::scoring::{move_score, score_of};

verus! {

broadcast use vstd::seq_lib::group_to_multiset_ensures, vstd::multiset::group_multiset_axioms;

/// A move paired with its priority. Two scored moves compare by priority
/// alone, whatever their moves.
#[derive(Clone, Copy, Debug)]
pub struct ScoredMove {
    mv: Move,
    score: i16,
}

impl View for ScoredMove {
    type V = (Move, int);

    closed spec fn view(&self) -> (Move, int) {
        (self.mv, self.score as int)
    }
}

impl ScoredMove {
    /// `mv` with its priority in `pos`.
    pub fn new(pos: &Position, mv: Move) -> (r: ScoredMove)
        requires
            pos.wf(),
            mv.wf(),
        ensures
            r@ == (mv, score_of(*pos, mv)),
    {
        ScoredMove { mv, score: move_score(pos, mv) }
    }

    /// The priority.
    pub fn score(&self) -> (r: i16)
        ensures
            r == self@.1,
    {
        self.score
    }

    /// The move.
    pub fn mv(&self) -> (r: Move)
        ensures
            r == self@.0,
    {
        self.mv
    }
}

impl PartialEq for ScoredMove {
    fn eq(&self, other: &ScoredMove) -> (r: bool) {
        self.score == other.score
    }
}

impl vstd::std_specs::cmp::PartialEqSpecImpl for ScoredMove {
    open spec fn obeys_eq_spec() -> bool {
        true
    }

    open spec fn eq_spec(&self, other: &ScoredMove) -> bool {
        self@.1 == other@.1
    }
}

impl Eq for ScoredMove {}

impl PartialOrd for ScoredMove {
    fn partial_cmp(&self, other: &ScoredMove) -> (r: Option<core::cmp::Ordering>) {
        if self.score < other.score {
            Some(core::cmp::Ordering::Less)
        } else if self.score > other.score {
            Some(core::cmp::Ordering::Greater)
        } else {
            Some(core::cmp::Ordering::Equal)
        }
    }
}

impl vstd::std_specs::cmp::PartialOrdSpecImpl for ScoredMove {
    open spec fn obeys_partial_cmp_spec() -> bool {
        true
    }

    open spec fn partial_cmp_spec(&self, other: &ScoredMove) -> Option<core::cmp::Ordering> {
        if self@.1 < other@.1 {
            Some(core::cmp::Ordering::Less)
        } else if self@.1 > other@.1 {
            Some(core::cmp::Ordering::Greater)
        } else {
            Some(core::cmp::Ordering::Equal)
        }
    }
}

/// The (move, priority) pairs of a sequence of scored moves.
pub open spec fn pairs(s: Seq<ScoredMove>) -> Seq<(Move, int)> {
    s.map_values(|e: ScoredMove| e@)
}

/// Each move of `moves` paired with its priority in `pos`, in input order.
pub open spec fn scored(pos: Position, moves: Seq<Move>) -> Seq<(Move, int)> {
    moves.map_values(|m: Move| (m, score_of(pos, m)))
}

/// No priority is greater than one before it.
pub open spec fn non_increasing(s: Seq<(Move, int)>) -> bool {
    forall|i: int, j: int| #![trigger s[i], s[j]] 0 <= i < j < s.len() ==> s[i].1 >= s[j].1
}

/// Exchanging two entries keeps the multiset of a sequence.
proof fn lemma_swap_to_multiset<A>(s: Seq<A>, i: int, j: int)
    requires
        0 <= i < s.len(),
        0 <= j < s.len(),
        i != j,
    ensures
        s.update(i, s[j]).update(j, s[i]).to_multiset() == s.to_multiset(),
{
    let s1 = s.update(i, s[j]);
    assert(s1[j] == s[j]);
    assert(s.to_multiset().count(s[i]) > 0);
    assert(s1.update(j, s[i]).to_multiset() =~= s.to_multiset());
}

/// Sorts `v` in place by descending priority, only ever exchanging two
/// entries, so that the entries themselves are kept.
fn sort_descending(v: &mut Vec<ScoredMove>)
    ensures
        pairs(final(v)@).to_multiset() == pairs(old(v)@).to_multiset(),
        final(v)@.len() == old(v)@.len(),
        non_increasing(pairs(final(v)@)),
{
    let n = v.len();
    if n == 0 {
        return;
    }
    let mut i: usize = 1;
    while i < n
        invariant
            1 <= i <= n,
            n == v@.len(),
            pairs(v@).to_multiset() == pairs(old(v)@).to_multiset(),
            forall|a: int, b: int| #![trigger v@[a], v@[b]] 0 <= a < b < i ==> v@[a].score >= v@[b].score,
        decreases n - i,
    {
        let mut j: usize = i;
        while j > 0 && v[j - 1].score < v[j].score
            invariant
                1 <= i < n,
                j <= i,
                n == v@.len(),
                pairs(v@).to_multiset() == pairs(old(v)@).to_multiset(),
                forall|a: int, b: int|
                    #![trigger v@[a], v@[b]]
                    0 <= a < b <= i && a != j && b != j ==> v@[a].score >= v@[b].score,
                forall|b: int| j < b <= i ==> v@[j as int].score > #[trigger] v@[b].score,
            decreases j,
        {
            let prev = v[j - 1];
            let cur = v[j];
            proof {
                lemma_swap_to_multiset(pairs(v@), j - 1, j as int);
                assert(pairs(v@.update(j - 1, cur).update(j as int, prev)) =~= pairs(v@).update(
                    j - 1,
                    pairs(v@)[j as int],
                ).update(j as int, pairs(v@)[j - 1]));
            }
            v.set(j - 1, cur);
            v.set(j, prev);
            j = j - 1;
        }
        i = i + 1;
    }
}

/// The moves of a search node with their priorities, best first.
pub struct MoveOrdering {
    scored_moves: Vec<ScoredMove>,
}

impl View for MoveOrdering {
    type V = Seq<(Move, int)>;

    closed spec fn view(&self) -> Seq<(Move, int)> {
        pairs(self.scored_moves@)
    }
}

impl MoveOrdering {
    /// Whether this ordering holds exactly the moves of `moves`, each with
    /// its priority in `pos`, by descending priority.
    pub open spec fn built_from(self, pos: Position, moves: Seq<Move>) -> bool {
        &&& self@.to_multiset() == scored(pos, moves).to_multiset()
        &&& non_increasing(self@)
    }

    /// Scores every move of `moves` in `pos` and orders them best first.
    /// Moves of equal priority come in no particular order.
    pub fn new(pos: &Position, moves: &Vec<Move>) -> (r: MoveOrdering)
        requires
            pos.wf(),
            forall|k: int| 0 <= k < moves@.len() ==> (#[trigger] moves@[k]).wf(),
        ensures
            r@.len() == moves@.len(),
            r@.to_multiset() == scored(*pos, moves@).to_multiset(),
            non_increasing(r@),
            r.built_from(*pos, moves@),
    {
        let mut scored_moves: Vec<ScoredMove> = Vec::with_capacity(moves.len());
        let mut k: usize = 0;
        while k < moves.len()
            invariant
                pos.wf(),
                forall|k: int| 0 <= k < moves@.len() ==> (#[trigger] moves@[k]).wf(),
                k <= moves@.len(),
                pairs(scored_moves@) == scored(*pos, moves@.take(k as int)),
            decreases moves@.len() - k,
        {
            let sm = ScoredMove::new(pos, moves[k]);
            let ghost before = scored_moves@;
            scored_moves.push(sm);
            proof {
                assert(pairs(scored_moves@) =~= pairs(before).push(sm@));
                assert(moves@.take(k + 1) =~= moves@.take(k as int).push(moves@[k as int]));
                assert(pairs(scored_moves@) =~= scored(*pos, moves@.take(k + 1)));
            }
            k = k + 1;
        }
        proof {
            assert(moves@.take(k as int) =~= moves@);
        }
        sort_descending(&mut scored_moves);
        MoveOrdering { scored_moves }
    }

    /// Hands out the scored moves, best first; the ordering is used up.
    pub fn into_vec(self) -> (r: Vec<ScoredMove>)
        ensures
            pairs(r@) == self@,
    {
        self.scored_moves
    }
}

/// A move occurs in the scored sequence, with its priority, as often as in
/// the move list.
proof fn lemma_scored_count(pos: Position, moves: Seq<Move>, m: Move)
    ensures
        scored(pos, moves).to_multiset().count((m, score_of(pos, m))) == moves.to_multiset().count(
            m,
        ),
    decreases moves.len(),
{
    if moves.len() > 0 {
        let rest = moves.drop_last();
        let last = moves.last();
        lemma_scored_count(pos, rest, m);
        assert(moves =~= rest.push(last));
        assert(scored(pos, moves) =~= scored(pos, rest).push((last, score_of(pos, last))));
    }
}

/// An ordering holds every move of its list, with the move's priority, as
/// many times as the list does: a move listed once comes out exactly once,
/// whatever other moves share its priority.
pub proof fn lemma_ordering_keeps_each_move(
    pos: Position,
    moves: Seq<Move>,
    r: MoveOrdering,
    m: Move,
)
    requires
        r.built_from(pos, moves),
    ensures
        r@.to_multiset().count((m, score_of(pos, m))) == moves.to_multiset().count(m),
{
    lemma_scored_count(pos, moves, m);
}

/// Two orderings built from the same position and move list hold the same
/// multiset of (move, priority) pairs.
pub proof fn lemma_rebuild_same_pairs(
    pos: Position,
    moves: Seq<Move>,
    a: MoveOrdering,
    b: MoveOrdering,
)
    requires
        a.built_from(pos, moves),
        b.built_from(pos, moves),
    ensures
        a@.to_multiset() == b@.to_multiset(),
{
}

} // verus!
