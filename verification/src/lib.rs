use vstd::prelude::*;

pub mod bruteforce;
pub mod cube3x3;

verus! {

/// Capability contract for a twisty-puzzle state: enumerate the legal turns,
/// apply a turn in place, and test for the solved arrangement.
///
/// The abstract configuration of a cube is a sequence of `Piece` values; the
/// spec functions fix, per implementation, which turns are applicable
/// (`turn_ok`), what a turn does to a configuration (`apply`), and which
/// configurations count as solved (`solved`).
pub trait Cube: Sized {
    /// Well-formedness of a concrete cube value.
    spec fn wf(&self) -> bool;

    /// The abstract configuration held by this cube value.
    spec fn spec_state(&self) -> Seq<Piece>;

    /// The candidate turn list this cube offers from its current state.
    spec fn spec_turns(&self) -> Seq<Turn>;

    /// Whether turn `t` is applicable to configuration `s`.
    spec fn turn_ok(s: Seq<Piece>, t: Turn) -> bool;

    /// The configuration after applying turn `t` to configuration `s`.
    spec fn apply(s: Seq<Piece>, t: Turn) -> Seq<Piece>;

    /// Whether configuration `s` is the solved arrangement.
    spec fn solved(s: Seq<Piece>) -> bool;

    /// The turns legal from the current state; every listed turn is applicable.
    fn get_turns(&self) -> (r: Vec<Turn>)
        requires
            self.wf(),
        ensures
            r@ == self.spec_turns(),
            forall|i: int| 0 <= i < r@.len() ==> Self::turn_ok(self.spec_state(), #[trigger] r@[i]),
    ;

    /// Applies `t` in place; reports `Invalid` exactly when `t` is not
    /// applicable, in which case the state is left unchanged.
    fn turn(&mut self, t: Turn) -> (r: Valid)
        requires
            old(self).wf(),
        ensures
            final(self).wf(),
            (r == Valid::Valid) == Self::turn_ok(old(self).spec_state(), t),
            Self::turn_ok(old(self).spec_state(), t) ==> final(self).spec_state() == Self::apply(
                old(self).spec_state(),
                t,
            ),
            !Self::turn_ok(old(self).spec_state(), t) ==> final(self).spec_state() == old(
                self,
            ).spec_state(),
    ;

    /// Structural test against the solved arrangement.
    fn is_solved(&self) -> (r: bool)
        requires
            self.wf(),
        ensures
            r == Self::solved(self.spec_state()),
    ;

    /// Compares two cubes by configuration alone.
    fn eq_state(&self, other: &Self) -> (r: bool)
        ensures
            r == (self.spec_state() == other.spec_state()),
    ;

    /// Produces an independent cube holding the same configuration.
    fn duplicate(&self) -> (r: Self)
        requires
            self.wf(),
        ensures
            r.wf(),
            r.spec_state() == self.spec_state(),
    ;
}

/// Outcome of asking a cube to apply a turn.
#[derive(Debug, PartialEq, Eq, Structural, Hash, Clone, Copy)]
#[must_use]
pub enum Valid {
    Valid,
    Invalid,
}

impl Valid {
    pub fn is_valid(&self) -> (r: bool)
        ensures
            r == (*self == Valid::Valid),
    {
        match self {
            Valid::Valid => true,
            Valid::Invalid => false,
        }
    }

    pub fn is_invalid(&self) -> (r: bool)
        ensures
            r == (*self == Valid::Invalid),
    {
        !self.is_valid()
    }

    /// Asserts success; callers must already know the turn was applicable.
    pub fn unwrap(self)
        requires
            self == Valid::Valid,
    {
    }
}

/// One facelet hue of the unscrambled cube.
#[derive(Debug, PartialEq, Eq, Structural, Hash, Clone, Copy)]
pub enum Color {
    Red,
    White,
    Yellow,
    Blue,
    Green,
    Orange,
}

/// A face rotation instruction: one of six faces, turned one, two or three
/// quarter-turns clockwise.
#[derive(Debug, PartialEq, Eq, Structural, Hash, Clone, Copy)]
pub enum Turn {
    U,
    U2,
    U3,
    R,
    R2,
    R3,
    L,
    L2,
    L3,
    F,
    F2,
    F3,
    D,
    D2,
    D3,
    B,
    B2,
    B3,
}

/// The elementary (single-quarter) turn of the face that `t` rotates.
pub open spec fn face_of(t: Turn) -> Turn {
    match t {
        Turn::U | Turn::U2 | Turn::U3 => Turn::U,
        Turn::R | Turn::R2 | Turn::R3 => Turn::R,
        Turn::L | Turn::L2 | Turn::L3 => Turn::L,
        Turn::F | Turn::F2 | Turn::F3 => Turn::F,
        Turn::D | Turn::D2 | Turn::D3 => Turn::D,
        Turn::B | Turn::B2 | Turn::B3 => Turn::B,
    }
}

/// How many elementary quarter-turns `t` stands for (1, 2 or 3).
pub open spec fn multiplier(t: Turn) -> int {
    match t {
        Turn::U | Turn::R | Turn::L | Turn::F | Turn::D | Turn::B => 1,
        Turn::U2 | Turn::R2 | Turn::L2 | Turn::F2 | Turn::D2 | Turn::B2 => 2,
        Turn::U3 | Turn::R3 | Turn::L3 | Turn::F3 | Turn::D3 | Turn::B3 => 3,
    }
}

/// The deterministic decomposition of `t` into same-face elementary turns:
/// its face's quarter-turn repeated `multiplier(t)` times.
pub open spec fn break_spec(t: Turn) -> Seq<Turn> {
    if multiplier(t) == 1 {
        seq![face_of(t)]
    } else if multiplier(t) == 2 {
        seq![face_of(t), face_of(t)]
    } else {
        seq![face_of(t), face_of(t), face_of(t)]
    }
}

/// The fixed catalogue of the 18 legal turns of the 3x3x3 puzzle.
pub open spec fn all_turns() -> Seq<Turn> {
    seq![
        Turn::U,
        Turn::U2,
        Turn::U3,
        Turn::R,
        Turn::R2,
        Turn::R3,
        Turn::L,
        Turn::L2,
        Turn::L3,
        Turn::F,
        Turn::F2,
        Turn::F3,
        Turn::D,
        Turn::D2,
        Turn::D3,
        Turn::B,
        Turn::B2,
        Turn::B3,
    ]
}

impl Turn {
    /// The elementary turn of this turn's face.
    pub fn face(&self) -> (r: Turn)
        ensures
            r == face_of(*self),
    {
        match self {
            Turn::U | Turn::U2 | Turn::U3 => Turn::U,
            Turn::R | Turn::R2 | Turn::R3 => Turn::R,
            Turn::L | Turn::L2 | Turn::L3 => Turn::L,
            Turn::F | Turn::F2 | Turn::F3 => Turn::F,
            Turn::D | Turn::D2 | Turn::D3 => Turn::D,
            Turn::B | Turn::B2 | Turn::B3 => Turn::B,
        }
    }

    /// How many elementary quarter-turns this turn stands for.
    pub fn mult(&self) -> (r: usize)
        ensures
            r as int == multiplier(*self),
    {
        match self {
            Turn::U | Turn::R | Turn::L | Turn::F | Turn::D | Turn::B => 1,
            Turn::U2 | Turn::R2 | Turn::L2 | Turn::F2 | Turn::D2 | Turn::B2 => 2,
            Turn::U3 | Turn::R3 | Turn::L3 | Turn::F3 | Turn::D3 | Turn::B3 => 3,
        }
    }

    /// Decomposes this turn into its ordered sequence of elementary
    /// same-face quarter-turns.
    pub fn break_(&self) -> (r: Vec<Turn>)
        ensures
            r@ == break_spec(*self),
    {
        let f = self.face();
        let m = self.mult();
        let mut v: Vec<Turn> = Vec::new();
        v.push(f);
        if m >= 2 {
            v.push(f);
        }
        if m == 3 {
            v.push(f);
        }
        proof {
            assert(v@ =~= break_spec(*self));
        }
        v
    }

    /// The fixed, ordered list of all 18 legal turns of the 3x3x3 puzzle.
    pub fn get_all_3x3() -> (r: Vec<Turn>)
        ensures
            r@ == all_turns(),
    {
        let mut v: Vec<Turn> = Vec::new();
        v.push(Turn::U);
        v.push(Turn::U2);
        v.push(Turn::U3);
        v.push(Turn::R);
        v.push(Turn::R2);
        v.push(Turn::R3);
        v.push(Turn::L);
        v.push(Turn::L2);
        v.push(Turn::L3);
        v.push(Turn::F);
        v.push(Turn::F2);
        v.push(Turn::F3);
        v.push(Turn::D);
        v.push(Turn::D2);
        v.push(Turn::D3);
        v.push(Turn::B);
        v.push(Turn::B2);
        v.push(Turn::B3);
        proof {
            assert(v@ =~= all_turns());
        }
        v
    }
}

/// One cubie value: the invisible core, or a center, edge or corner with its
/// facelet colors in a fixed order.
#[derive(Debug, PartialEq, Eq, Structural, Hash, Clone, Copy)]
pub enum Piece {
    Inner,
    Center(Color),
    Edge(Color, Color),
    Corner(Color, Color, Color),
}

/// Why a solve attempt produced no move sequence.
#[derive(Debug, PartialEq, Eq, Structural, Hash, Clone, Copy)]
pub enum SolveError {
    /// The search frontier emptied without reaching a solved configuration.
    SearchExhausted,
}

/// The configuration reached by applying the turns of `ts` in order,
/// starting from `s`, under `T`'s turn semantics.
pub open spec fn apply_seq<T: Cube>(s: Seq<Piece>, ts: Seq<Turn>) -> Seq<Piece>
    decreases ts.len(),
{
    if ts.len() == 0 {
        s
    } else {
        apply_seq::<T>(T::apply(s, ts[0]), ts.drop_first())
    }
}

/// Whether every turn of `ts` is applicable in order, starting from `s`.
pub open spec fn seq_ok<T: Cube>(s: Seq<Piece>, ts: Seq<Turn>) -> bool
    decreases ts.len(),
{
    ts.len() == 0 || (T::turn_ok(s, ts[0]) && seq_ok::<T>(T::apply(s, ts[0]), ts.drop_first()))
}

/// Appending one applicable turn to a turn sequence extends its net effect
/// by that turn.
pub proof fn lemma_apply_seq_push<T: Cube>(s: Seq<Piece>, ts: Seq<Turn>, t: Turn)
    ensures
        apply_seq::<T>(s, ts.push(t)) == T::apply(apply_seq::<T>(s, ts), t),
        seq_ok::<T>(s, ts.push(t)) == (seq_ok::<T>(s, ts) && T::turn_ok(apply_seq::<T>(s, ts), t)),
    decreases ts.len(),
{
    if ts.len() == 0 {
        assert(ts.push(t)[0] == t);
        assert(ts.push(t).drop_first() =~= Seq::<Turn>::empty());
        assert(apply_seq::<T>(s, ts) == s);
        assert(seq_ok::<T>(s, ts));
        assert(apply_seq::<T>(T::apply(s, t), Seq::<Turn>::empty()) == T::apply(s, t));
        assert(seq_ok::<T>(T::apply(s, t), Seq::<Turn>::empty()));
        assert(apply_seq::<T>(s, ts.push(t)) == apply_seq::<T>(
            T::apply(s, ts.push(t)[0]),
            ts.push(t).drop_first(),
        ));
        assert(seq_ok::<T>(s, ts.push(t)) == (T::turn_ok(s, ts.push(t)[0]) && seq_ok::<T>(
            T::apply(s, ts.push(t)[0]),
            ts.push(t).drop_first(),
        )));
    } else {
        assert(ts.push(t)[0] == ts[0]);
        assert(ts.push(t).drop_first() =~= ts.drop_first().push(t));
        lemma_apply_seq_push::<T>(T::apply(s, ts[0]), ts.drop_first(), t);
        assert(apply_seq::<T>(s, ts.push(t)) == apply_seq::<T>(
            T::apply(s, ts[0]),
            ts.drop_first().push(t),
        ));
        assert(apply_seq::<T>(s, ts) == apply_seq::<T>(T::apply(s, ts[0]), ts.drop_first()));
        assert(seq_ok::<T>(s, ts.push(t)) == (T::turn_ok(s, ts[0]) && seq_ok::<T>(
            T::apply(s, ts[0]),
            ts.drop_first().push(t),
        )));
        assert(seq_ok::<T>(s, ts) == (T::turn_ok(s, ts[0]) && seq_ok::<T>(
            T::apply(s, ts[0]),
            ts.drop_first(),
        )));
    }
}

/// Contract for a solver: a returned move sequence is applicable from the
/// given configuration and ends in a solved one, and an already-solved cube
/// yields the empty sequence.
pub trait CubeSolver {
    type Cube: crate::Cube;

    fn solve(&self, cube: Self::Cube) -> (r: Result<Vec<Turn>, SolveError>)
        requires
            cube.wf(),
        ensures
            (r matches Ok(ts) ==> seq_ok::<Self::Cube>(cube.spec_state(), ts@)
                && Self::Cube::solved(apply_seq::<Self::Cube>(cube.spec_state(), ts@))),
            Self::Cube::solved(cube.spec_state()) ==> (r matches Ok(ts) && ts@.len() == 0),
    ;
}

} // verus!
