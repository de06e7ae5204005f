use vstd::prelude::*;

use crate::{apply_seq, face_of, lemma_apply_seq_push, seq_ok, Cube, CubeSolver, Piece, SolveError,
    Turn, Valid};

use core::marker::PhantomData;
use std::collections::VecDeque;

verus! {

/// The candidate list `ts` with every turn of `last`'s face removed:
/// re-turning the face just turned only revisits states already covered by a
/// single turn of that face, so those branches are pruned.
pub open spec fn prune(ts: Seq<Turn>, last: Turn) -> Seq<Turn>
    decreases ts.len(),
{
    if ts.len() == 0 {
        Seq::<Turn>::empty()
    } else {
        let rest = prune(ts.drop_last(), last);
        if face_of(ts.last()) != face_of(last) {
            rest.push(ts.last())
        } else {
            rest
        }
    }
}

/// No two consecutive turns of `ts` rotate the same face.
pub open spec fn no_same_face_run(ts: Seq<Turn>) -> bool {
    forall|i: int| 0 <= i && i + 1 < ts.len() ==> face_of(#[trigger] ts[i]) != face_of(ts[i + 1])
}

/// Extending a nonredundant sequence by a turn of a face other than the last
/// one's keeps it nonredundant.
pub proof fn lemma_no_same_face_run_push(ts: Seq<Turn>, t: Turn)
    requires
        no_same_face_run(ts),
        ts.len() == 0 || face_of(t) != face_of(ts.last()),
    ensures
        no_same_face_run(ts.push(t)),
{
    let r = ts.push(t);
    assert forall|i: int| 0 <= i && i + 1 < r.len() implies face_of(#[trigger] r[i]) != face_of(
        r[i + 1],
    ) by {
        if i + 1 < ts.len() {
            assert(r[i] == ts[i]);
            assert(r[i + 1] == ts[i + 1]);
        } else {
            assert(i + 1 == ts.len());
            assert(r[i] == ts[i]);
            assert(ts[i] == ts.last());
            assert(r[i + 1] == t);
        }
    }
}

/// A cube state decorated with the ordered history of turns that produced it
/// from the search's initial state.
pub struct MoveWrapper<T: Cube> {
    cube: T,
    turns: Vec<Turn>,
}

impl<T: Cube> MoveWrapper<T> {
    /// The wrapped cube value.
    pub closed spec fn spec_cube(&self) -> T {
        self.cube
    }

    /// The ordered turn history.
    pub closed spec fn spec_hist(&self) -> Seq<Turn> {
        self.turns@
    }

    pub open spec fn wf(&self) -> bool {
        self.spec_cube().wf()
    }

    /// Wraps a cube with an empty history.
    pub fn new(cube: T) -> (r: MoveWrapper<T>)
        ensures
            r.spec_cube() == cube,
            r.spec_hist() == Seq::<Turn>::empty(),
    {
        MoveWrapper { cube, turns: Vec::new() }
    }

    /// Appends `t` to the history and applies it to the wrapped cube,
    /// forwarding the cube's verdict.
    pub fn turn(&mut self, t: Turn) -> (r: Valid)
        requires
            old(self).wf(),
        ensures
            final(self).wf(),
            final(self).spec_hist() == old(self).spec_hist().push(t),
            (r == Valid::Valid) == T::turn_ok(old(self).spec_cube().spec_state(), t),
            T::turn_ok(old(self).spec_cube().spec_state(), t) ==> final(self).spec_cube().spec_state()
                == T::apply(old(self).spec_cube().spec_state(), t),
            !T::turn_ok(old(self).spec_cube().spec_state(), t)
                ==> final(self).spec_cube().spec_state() == old(self).spec_cube().spec_state(),
    {
        self.turns.push(t);
        self.cube.turn(t)
    }

    /// The wrapped cube's candidate list, minus every turn of the same face
    /// as the most recently applied turn; with no history, the full list.
    pub fn get_turns(&self) -> (r: Vec<Turn>)
        requires
            self.wf(),
        ensures
            self.spec_hist().len() == 0 ==> r@ == self.spec_cube().spec_turns(),
            self.spec_hist().len() > 0 ==> r@ == prune(
                self.spec_cube().spec_turns(),
                self.spec_hist().last(),
            ),
            forall|i: int| 0 <= i < r@.len() ==> T::turn_ok(
                self.spec_cube().spec_state(),
                #[trigger] r@[i],
            ),
            self.spec_hist().len() > 0 ==> forall|i: int| 0 <= i < r@.len() ==> face_of(
                #[trigger] r@[i],
            ) != face_of(self.spec_hist().last()),
    {
        let moves = self.cube.get_turns();
        if self.turns.len() == 0 {
            return moves;
        }
        let last = self.turns[self.turns.len() - 1];
        let lf = last.face();
        let mut r: Vec<Turn> = Vec::new();
        proof {
            assert(moves@.take(0) =~= Seq::<Turn>::empty());
        }
        let mut i: usize = 0;
        while i < moves.len()
            invariant
                i <= moves@.len(),
                moves@ == self.spec_cube().spec_turns(),
                last == self.spec_hist().last(),
                lf == face_of(last),
                forall|k: int| 0 <= k < moves@.len() ==> T::turn_ok(
                    self.spec_cube().spec_state(),
                    #[trigger] moves@[k],
                ),
                r@ == prune(moves@.take(i as int), last),
                forall|k: int| 0 <= k < r@.len() ==> T::turn_ok(
                    self.spec_cube().spec_state(),
                    #[trigger] r@[k],
                ),
                forall|k: int| 0 <= k < r@.len() ==> face_of(#[trigger] r@[k]) != face_of(last),
            decreases moves@.len() - i,
        {
            let m = moves[i];
            proof {
                assert(moves@.take(i as int + 1).drop_last() =~= moves@.take(i as int));
                assert(moves@.take(i as int + 1).last() == m);
            }
            if m.face() != lf {
                r.push(m);
            }
            i += 1;
        }
        proof {
            assert(moves@.take(moves@.len() as int) =~= moves@);
        }
        r
    }

    /// Whether the wrapped cube is solved; the history plays no part.
    pub fn is_solved(&self) -> (r: bool)
        requires
            self.wf(),
        ensures
            r == T::solved(self.spec_cube().spec_state()),
    {
        self.cube.is_solved()
    }

    /// Compares two search nodes by cube configuration alone: nodes that
    /// reached the same arrangement by different histories are equal.
    pub fn eq_state(&self, other: &MoveWrapper<T>) -> (r: bool)
        ensures
            r == (self.spec_cube().spec_state() == other.spec_cube().spec_state()),
    {
        self.cube.eq_state(&other.cube)
    }

    /// Surrenders the node, handing back its recorded history.
    pub fn into_turns(self) -> (r: Vec<Turn>)
        ensures
            r@ == self.spec_hist(),
    {
        self.turns
    }

    /// Forks the node: an independent cube with the same configuration and a
    /// copy of the history.
    pub fn duplicate(&self) -> (r: MoveWrapper<T>)
        requires
            self.wf(),
        ensures
            r.wf(),
            r.spec_cube().spec_state() == self.spec_cube().spec_state(),
            r.spec_hist() == self.spec_hist(),
    {
        let mut ts: Vec<Turn> = Vec::new();
        proof {
            assert(Seq::<Turn>::empty() =~= self.turns@.take(0));
        }
        let mut i: usize = 0;
        while i < self.turns.len()
            invariant
                i <= self.turns@.len(),
                ts@ == self.turns@.take(i as int),
            decreases self.turns@.len() - i,
        {
            ts.push(self.turns[i]);
            proof {
                assert(ts@ =~= self.turns@.take(i as int + 1));
            }
            i += 1;
        }
        proof {
            assert(self.turns@.take(self.turns@.len() as int) =~= self.turns@);
        }
        MoveWrapper { cube: self.cube.duplicate(), turns: ts }
    }
}

/// A search node holds a cube reached from `init` by its recorded history:
/// every turn of the history was applicable in order, replaying it from
/// `init` yields exactly the wrapped configuration, and the pruning kept it
/// free of consecutive same-face turns.
pub open spec fn reaches<T: Cube>(init: Seq<Piece>, w: MoveWrapper<T>) -> bool {
    &&& w.wf()
    &&& seq_ok::<T>(init, w.spec_hist())
    &&& apply_seq::<T>(init, w.spec_hist()) == w.spec_cube().spec_state()
    &&& no_same_face_run(w.spec_hist())
}

/// Linear membership test of a configuration in the visited list.
fn contains_state<T: Cube>(v: &Vec<T>, c: &T) -> (r: bool)
    ensures
        r == (exists|k: int|
            0 <= k < v@.len() && (#[trigger] v@[k]).spec_state() == c.spec_state()),
{
    let mut i: usize = 0;
    while i < v.len()
        invariant
            i <= v@.len(),
            forall|k: int| 0 <= k < i ==> (#[trigger] v@[k]).spec_state() != c.spec_state(),
        decreases v@.len() - i,
    {
        if v[i].eq_state(c) {
            return true;
        }
        i += 1;
    }
    false
}

/// Expansion budget for one solve call, and the traversal's termination
/// measure. Distinct configurations are finitely many, so the frontier is
/// finite in truth; the budget merely makes the bound explicit, and no
/// frontier that could be held in memory comes near it.
const NODE_BUDGET: u64 = u64::MAX;

/// A breadth-first searcher over the state graph of any `Cube`.
pub struct BruteForceSolver<T: Cube>(PhantomData<T>);

impl<T: Cube> BruteForceSolver<T> {
    /// Constructs the stateless solver.
    pub fn new() -> (r: BruteForceSolver<T>) {
        BruteForceSolver(PhantomData)
    }
}

impl<T: Cube> CubeSolver for BruteForceSolver<T> {
    type Cube = T;

    /// Explores the state graph level by level from `cube`, deduplicating by
    /// configuration, until a solved configuration is found or the frontier
    /// is exhausted.
    #[verifier::loop_isolation(false)]
    #[verifier::rlimit(60)]
    fn solve(&self, cube: T) -> (r: Result<Vec<Turn>, SolveError>)
        ensures
            r matches Ok(ts) ==> no_same_face_run(ts@),
    {
        let ghost init = cube.spec_state();
        let w = MoveWrapper::new(cube);
        if w.is_solved() {
            let turns = w.into_turns();
            proof {
                assert(turns@.len() == 0);
                assert(seq_ok::<T>(init, turns@));
                assert(apply_seq::<T>(init, turns@) == init);
            }
            return Ok(turns);
        }
        let mut visited: Vec<T> = Vec::new();
        let mut queue: VecDeque<MoveWrapper<T>> = VecDeque::new();
        queue.push_back(w);
        let mut steps: u64 = 0;
        while queue.len() != 0 && steps < NODE_BUDGET
            invariant
                !T::solved(init),
                steps <= NODE_BUDGET,
                forall|k: int| 0 <= k < queue@.len() ==> reaches::<T>(init, #[trigger] queue@[k]),
            decreases NODE_BUDGET - steps,
        {
            steps = steps + 1;
            let c = queue.pop_front().unwrap();
            proof {
                assert(reaches::<T>(init, c));
            }
            let cands = c.get_turns();
            let mut j: usize = 0;
            while j < cands.len()
                invariant
                    !T::solved(init),
                    reaches::<T>(init, c),
                    j <= cands@.len(),
                    forall|i: int| 0 <= i < cands@.len() ==> T::turn_ok(
                        c.spec_cube().spec_state(),
                        #[trigger] cands@[i],
                    ),
                    c.spec_hist().len() > 0 ==> forall|i: int| 0 <= i < cands@.len() ==> face_of(
                        #[trigger] cands@[i],
                    ) != face_of(c.spec_hist().last()),
                    forall|k: int| 0 <= k < queue@.len() ==> reaches::<T>(
                        init,
                        #[trigger] queue@[k],
                    ),
                decreases cands@.len() - j,
            {
                let t = cands[j];
                let mut new_cube = c.duplicate();
                let v = new_cube.turn(t);
                proof {
                    assert(T::turn_ok(c.spec_cube().spec_state(), cands@[j as int]));
                    lemma_apply_seq_push::<T>(init, c.spec_hist(), t);
                    lemma_no_same_face_run_push(c.spec_hist(), t);
                    assert(reaches::<T>(init, new_cube));
                }
                v.unwrap();
                if new_cube.is_solved() {
                    let ghost nc = new_cube;
                    let turns = new_cube.into_turns();
                    proof {
                        assert(turns@ == nc.spec_hist());
                        assert(seq_ok::<T>(init, turns@));
                        assert(T::solved(apply_seq::<T>(init, turns@)));
                    }
                    return Ok(turns);
                }
                if !contains_state(&visited, &new_cube.cube) {
                    visited.push(new_cube.cube.duplicate());
                    queue.push_back(new_cube);
                }
                j += 1;
            }
        }
        Err(SolveError::SearchExhausted)
    }
}

} // verus!
