use vstd::prelude::*;

use crate::{all_turns, apply_seq, break_spec, face_of, multiplier, Color, Cube, Piece, Turn,
    Valid};

verus! {

/// The canonical solved arrangement: 27 positions, indexed as
/// `9 * layer + 3 * row + column`, layer 0 being the Up (Yellow) layer,
/// layer 2 the Down (White) layer, row 0 the Back (Blue) side and
/// column 0 the Left (Red) side. Position 13 is the invisible core.
pub open spec fn solved_state() -> Seq<Piece> {
    seq![
        Piece::Corner(Color::Red, Color::Yellow, Color::Blue),
        Piece::Edge(Color::Yellow, Color::Blue),
        Piece::Corner(Color::Blue, Color::Yellow, Color::Orange),
        Piece::Edge(Color::Yellow, Color::Red),
        Piece::Center(Color::Yellow),
        Piece::Edge(Color::Yellow, Color::Orange),
        Piece::Corner(Color::Green, Color::Yellow, Color::Red),
        Piece::Edge(Color::Yellow, Color::Green),
        Piece::Corner(Color::Orange, Color::Yellow, Color::Green),
        Piece::Edge(Color::Red, Color::Blue),
        Piece::Center(Color::Blue),
        Piece::Edge(Color::Blue, Color::Orange),
        Piece::Center(Color::Red),
        Piece::Inner,
        Piece::Center(Color::Orange),
        Piece::Edge(Color::Green, Color::Red),
        Piece::Center(Color::Green),
        Piece::Edge(Color::Orange, Color::Green),
        Piece::Corner(Color::Red, Color::White, Color::Blue),
        Piece::Edge(Color::White, Color::Blue),
        Piece::Corner(Color::Blue, Color::White, Color::Orange),
        Piece::Edge(Color::White, Color::Red),
        Piece::Center(Color::White),
        Piece::Edge(Color::White, Color::Orange),
        Piece::Corner(Color::Green, Color::White, Color::Red),
        Piece::Edge(Color::White, Color::Green),
        Piece::Corner(Color::Orange, Color::White, Color::Green),
    ]
}

/// Source position feeding position `i` under a quarter turn of the Up face:
/// the Up layer's ring rotates, its center and the other layers stay.
pub open spec fn u_src(i: int) -> int {
    if i == 0 {
        6
    } else if i == 1 {
        3
    } else if i == 2 {
        0
    } else if i == 3 {
        7
    } else if i == 5 {
        1
    } else if i == 6 {
        8
    } else if i == 7 {
        5
    } else if i == 8 {
        2
    } else {
        i
    }
}

/// Source position feeding position `i` under a quarter turn of the Down face.
pub open spec fn d_src(i: int) -> int {
    if i == 18 {
        24
    } else if i == 19 {
        21
    } else if i == 20 {
        18
    } else if i == 21 {
        25
    } else if i == 23 {
        19
    } else if i == 24 {
        26
    } else if i == 25 {
        23
    } else if i == 26 {
        20
    } else {
        i
    }
}

/// Source position feeding position `i` under a quarter turn of the Right
/// face: the column-2 slab rotates through all three layers.
pub open spec fn r_src(i: int) -> int {
    if i == 2 {
        8
    } else if i == 5 {
        17
    } else if i == 8 {
        26
    } else if i == 11 {
        5
    } else if i == 17 {
        23
    } else if i == 20 {
        2
    } else if i == 23 {
        11
    } else if i == 26 {
        20
    } else {
        i
    }
}

/// Source position feeding position `i` under a quarter turn of the Left
/// face: the column-0 slab rotates through all three layers.
pub open spec fn l_src(i: int) -> int {
    if i == 0 {
        18
    } else if i == 3 {
        9
    } else if i == 6 {
        0
    } else if i == 9 {
        21
    } else if i == 15 {
        3
    } else if i == 18 {
        24
    } else if i == 21 {
        15
    } else if i == 24 {
        6
    } else {
        i
    }
}

/// Source position feeding position `i` under a quarter turn of the Front
/// face: the row-2 slab rotates through all three layers.
pub open spec fn f_src(i: int) -> int {
    if i == 6 {
        24
    } else if i == 7 {
        15
    } else if i == 8 {
        6
    } else if i == 15 {
        25
    } else if i == 17 {
        7
    } else if i == 24 {
        26
    } else if i == 25 {
        17
    } else if i == 26 {
        8
    } else {
        i
    }
}

/// Source position feeding position `i` under a quarter turn of the Back
/// face: the row-0 slab rotates through all three layers.
pub open spec fn b_src(i: int) -> int {
    if i == 0 {
        2
    } else if i == 1 {
        11
    } else if i == 2 {
        20
    } else if i == 9 {
        1
    } else if i == 11 {
        19
    } else if i == 18 {
        0
    } else if i == 19 {
        9
    } else if i == 20 {
        18
    } else {
        i
    }
}

/// Source position feeding position `i` under an elementary quarter turn of
/// `t`'s face.
pub open spec fn turn_src(t: Turn, i: int) -> int {
    match face_of(t) {
        Turn::U => u_src(i),
        Turn::R => r_src(i),
        Turn::L => l_src(i),
        Turn::F => f_src(i),
        Turn::D => d_src(i),
        Turn::B => b_src(i),
        _ => i,
    }
}

/// One elementary quarter turn of `t`'s face as a permutation of the
/// 27-position configuration.
pub open spec fn apply_elem(s: Seq<Piece>, t: Turn) -> Seq<Piece> {
    Seq::new(27, |i: int| s[turn_src(t, i)])
}

/// The net effect of `t`: its face's quarter-turn permutation repeated
/// `multiplier(t)` times.
pub open spec fn apply_turn(s: Seq<Piece>, t: Turn) -> Seq<Piece> {
    if multiplier(t) == 1 {
        apply_elem(s, t)
    } else if multiplier(t) == 2 {
        apply_elem(apply_elem(s, t), t)
    } else {
        apply_elem(apply_elem(apply_elem(s, t), t), t)
    }
}

/// A 3x3x3 cube as a fixed-length sequence of 27 pieces, one per position.
#[derive(Debug, Clone)]
pub struct Cube3x3 {
    state: Vec<Piece>,
}

impl Cube3x3 {
    /// Constructs the cube in its canonical solved arrangement.
    pub fn new() -> (r: Cube3x3)
        ensures
            r.wf(),
            r.spec_state() == solved_state(),
    {
        Cube3x3 { state: Self::get_solved_state() }
    }

    /// The canonical solved arrangement as a vector of 27 pieces.
    pub fn get_solved_state() -> (r: Vec<Piece>)
        ensures
            r@ == solved_state(),
    {
        let mut v: Vec<Piece> = Vec::new();
        v.push(Piece::Corner(Color::Red, Color::Yellow, Color::Blue));
        v.push(Piece::Edge(Color::Yellow, Color::Blue));
        v.push(Piece::Corner(Color::Blue, Color::Yellow, Color::Orange));
        v.push(Piece::Edge(Color::Yellow, Color::Red));
        v.push(Piece::Center(Color::Yellow));
        v.push(Piece::Edge(Color::Yellow, Color::Orange));
        v.push(Piece::Corner(Color::Green, Color::Yellow, Color::Red));
        v.push(Piece::Edge(Color::Yellow, Color::Green));
        v.push(Piece::Corner(Color::Orange, Color::Yellow, Color::Green));
        v.push(Piece::Edge(Color::Red, Color::Blue));
        v.push(Piece::Center(Color::Blue));
        v.push(Piece::Edge(Color::Blue, Color::Orange));
        v.push(Piece::Center(Color::Red));
        v.push(Piece::Inner);
        v.push(Piece::Center(Color::Orange));
        v.push(Piece::Edge(Color::Green, Color::Red));
        v.push(Piece::Center(Color::Green));
        v.push(Piece::Edge(Color::Orange, Color::Green));
        v.push(Piece::Corner(Color::Red, Color::White, Color::Blue));
        v.push(Piece::Edge(Color::White, Color::Blue));
        v.push(Piece::Corner(Color::Blue, Color::White, Color::Orange));
        v.push(Piece::Edge(Color::White, Color::Red));
        v.push(Piece::Center(Color::White));
        v.push(Piece::Edge(Color::White, Color::Orange));
        v.push(Piece::Corner(Color::Green, Color::White, Color::Red));
        v.push(Piece::Edge(Color::White, Color::Green));
        v.push(Piece::Corner(Color::Orange, Color::White, Color::Green));
        proof {
            assert(v@ =~= solved_state());
        }
        v
    }

    /// Rotates the Up layer one quarter turn.
    fn rot_u(&mut self)
        requires
            old(self).state@.len() == 27,
        ensures
            final(self).state@ == apply_elem(old(self).state@, Turn::U),
    {
        let t0 = self.state[0];
        let t1 = self.state[1];
        let t2 = self.state[2];
        let t3 = self.state[3];
        let t5 = self.state[5];
        let t6 = self.state[6];
        let t7 = self.state[7];
        let t8 = self.state[8];
        self.state[2] = t0;
        self.state[5] = t1;
        self.state[8] = t2;
        self.state[1] = t3;
        self.state[7] = t5;
        self.state[0] = t6;
        self.state[3] = t7;
        self.state[6] = t8;
        proof {
            assert(self.state@ =~= apply_elem(old(self).state@, Turn::U));
        }
    }

    /// Rotates the Down layer one quarter turn.
    fn rot_d(&mut self)
        requires
            old(self).state@.len() == 27,
        ensures
            final(self).state@ == apply_elem(old(self).state@, Turn::D),
    {
        let t18 = self.state[18];
        let t19 = self.state[19];
        let t20 = self.state[20];
        let t21 = self.state[21];
        let t23 = self.state[23];
        let t24 = self.state[24];
        let t25 = self.state[25];
        let t26 = self.state[26];
        self.state[20] = t18;
        self.state[23] = t19;
        self.state[26] = t20;
        self.state[19] = t21;
        self.state[25] = t23;
        self.state[18] = t24;
        self.state[21] = t25;
        self.state[24] = t26;
        proof {
            assert(self.state@ =~= apply_elem(old(self).state@, Turn::D));
        }
    }

    /// Rotates the Right slab one quarter turn.
    fn rot_r(&mut self)
        requires
            old(self).state@.len() == 27,
        ensures
            final(self).state@ == apply_elem(old(self).state@, Turn::R),
    {
        let t2 = self.state[2];
        let t5 = self.state[5];
        let t8 = self.state[8];
        let t11 = self.state[11];
        let t17 = self.state[17];
        let t20 = self.state[20];
        let t23 = self.state[23];
        let t26 = self.state[26];
        self.state[20] = t2;
        self.state[11] = t5;
        self.state[2] = t8;
        self.state[23] = t11;
        self.state[5] = t17;
        self.state[26] = t20;
        self.state[17] = t23;
        self.state[8] = t26;
        proof {
            assert(self.state@ =~= apply_elem(old(self).state@, Turn::R));
        }
    }

    /// Rotates the Left slab one quarter turn.
    fn rot_l(&mut self)
        requires
            old(self).state@.len() == 27,
        ensures
            final(self).state@ == apply_elem(old(self).state@, Turn::L),
    {
        let t0 = self.state[0];
        let t3 = self.state[3];
        let t6 = self.state[6];
        let t9 = self.state[9];
        let t15 = self.state[15];
        let t18 = self.state[18];
        let t21 = self.state[21];
        let t24 = self.state[24];
        self.state[6] = t0;
        self.state[15] = t3;
        self.state[24] = t6;
        self.state[3] = t9;
        self.state[21] = t15;
        self.state[0] = t18;
        self.state[9] = t21;
        self.state[18] = t24;
        proof {
            assert(self.state@ =~= apply_elem(old(self).state@, Turn::L));
        }
    }

    /// Rotates the Front slab one quarter turn.
    fn rot_f(&mut self)
        requires
            old(self).state@.len() == 27,
        ensures
            final(self).state@ == apply_elem(old(self).state@, Turn::F),
    {
        let t6 = self.state[6];
        let t7 = self.state[7];
        let t8 = self.state[8];
        let t15 = self.state[15];
        let t17 = self.state[17];
        let t24 = self.state[24];
        let t25 = self.state[25];
        let t26 = self.state[26];
        self.state[8] = t6;
        self.state[17] = t7;
        self.state[26] = t8;
        self.state[7] = t15;
        self.state[25] = t17;
        self.state[6] = t24;
        self.state[15] = t25;
        self.state[24] = t26;
        proof {
            assert(self.state@ =~= apply_elem(old(self).state@, Turn::F));
        }
    }

    /// Rotates the Back slab one quarter turn.
    fn rot_b(&mut self)
        requires
            old(self).state@.len() == 27,
        ensures
            final(self).state@ == apply_elem(old(self).state@, Turn::B),
    {
        let t0 = self.state[0];
        let t1 = self.state[1];
        let t2 = self.state[2];
        let t9 = self.state[9];
        let t11 = self.state[11];
        let t18 = self.state[18];
        let t19 = self.state[19];
        let t20 = self.state[20];
        self.state[18] = t0;
        self.state[9] = t1;
        self.state[0] = t2;
        self.state[19] = t9;
        self.state[1] = t11;
        self.state[20] = t18;
        self.state[11] = t19;
        self.state[2] = t20;
        proof {
            assert(self.state@ =~= apply_elem(old(self).state@, Turn::B));
        }
    }

    /// Applies one elementary quarter turn of `f`'s face.
    fn rot(&mut self, f: Turn)
        requires
            old(self).state@.len() == 27,
            multiplier(f) == 1,
        ensures
            final(self).state@ == apply_elem(old(self).state@, f),
    {
        match f {
            Turn::U => self.rot_u(),
            Turn::R => self.rot_r(),
            Turn::L => self.rot_l(),
            Turn::F => self.rot_f(),
            Turn::D => self.rot_d(),
            Turn::B => self.rot_b(),
            _ => {
                proof {
                    assert(false);
                }
            },
        }
    }
}

/// An elementary application only looks at the turn's face, so any turn of
/// the same face permutes a configuration the same way.
pub proof fn lemma_apply_elem_face(s: Seq<Piece>, t: Turn)
    ensures
        apply_elem(s, face_of(t)) == apply_elem(s, t),
{
    assert(apply_elem(s, face_of(t)) =~= apply_elem(s, t));
}

/// Two turns of the same face induce the same elementary permutation.
pub proof fn lemma_same_face_elem(s: Seq<Piece>, a: Turn, b: Turn)
    requires
        face_of(a) == face_of(b),
    ensures
        apply_elem(s, a) == apply_elem(s, b),
{
    lemma_apply_elem_face(s, a);
    lemma_apply_elem_face(s, b);
}

/// Decomposing a turn by the turn algebra and replaying the elementary
/// quarter-turns one by one yields exactly the turn's net permutation.
pub proof fn lemma_break_replay(s: Seq<Piece>, t: Turn)
    ensures
        apply_seq::<Cube3x3>(s, break_spec(t)) == apply_turn(s, t),
{
    let f = face_of(t);
    let ts = break_spec(t);
    let e = Seq::<Turn>::empty();
    lemma_apply_elem_face(s, t);
    let s1 = apply_turn(s, f);
    assert(s1 == apply_elem(s, t));
    if multiplier(t) == 1 {
        assert(ts.drop_first() =~= e);
        assert(apply_seq::<Cube3x3>(s1, e) == s1);
        assert(apply_seq::<Cube3x3>(s, ts) == s1);
    } else if multiplier(t) == 2 {
        lemma_apply_elem_face(apply_elem(s, t), t);
        let s2 = apply_turn(s1, f);
        assert(s2 == apply_elem(apply_elem(s, t), t));
        assert(ts.drop_first() =~= seq![f]);
        assert(ts.drop_first().drop_first() =~= e);
        assert(apply_seq::<Cube3x3>(s2, e) == s2);
        assert(apply_seq::<Cube3x3>(s1, ts.drop_first()) == s2);
        assert(apply_seq::<Cube3x3>(s, ts) == apply_seq::<Cube3x3>(s1, ts.drop_first()));
    } else {
        lemma_apply_elem_face(apply_elem(s, t), t);
        lemma_apply_elem_face(apply_elem(apply_elem(s, t), t), t);
        let s2 = apply_turn(s1, f);
        let s3 = apply_turn(s2, f);
        assert(s3 == apply_elem(apply_elem(apply_elem(s, t), t), t));
        assert(ts.drop_first() =~= seq![f, f]);
        assert(ts.drop_first().drop_first() =~= seq![f]);
        assert(ts.drop_first().drop_first().drop_first() =~= e);
        assert(apply_seq::<Cube3x3>(s3, e) == s3);
        assert(apply_seq::<Cube3x3>(s2, ts.drop_first().drop_first()) == s3);
        assert(apply_seq::<Cube3x3>(s1, ts.drop_first()) == apply_seq::<Cube3x3>(
            s2,
            ts.drop_first().drop_first(),
        ));
        assert(apply_seq::<Cube3x3>(s, ts) == apply_seq::<Cube3x3>(s1, ts.drop_first()));
    }
}

/// Each position's source index stays within the 27 positions, and chasing
/// it four times returns to the start: a face's quarter-turn permutation has
/// order four.
proof fn lemma_src_props(t: Turn, i: int)
    requires
        0 <= i < 27,
    ensures
        0 <= turn_src(t, i) < 27,
        turn_src(t, turn_src(t, turn_src(t, turn_src(t, i)))) == i,
{
}

/// Four elementary quarter turns of one face restore the configuration.
pub proof fn lemma_four_quarter_turns(s: Seq<Piece>, t: Turn)
    requires
        s.len() == 27,
    ensures
        apply_elem(apply_elem(apply_elem(apply_elem(s, t), t), t), t) == s,
{
    let s1 = apply_elem(s, t);
    let s2 = apply_elem(s1, t);
    let s3 = apply_elem(s2, t);
    let s4 = apply_elem(s3, t);
    assert forall|i: int| 0 <= i < 27 implies s4[i] == s[i] by {
        lemma_src_props(t, i);
        let i1 = turn_src(t, i);
        lemma_src_props(t, i1);
        let i2 = turn_src(t, i1);
        lemma_src_props(t, i2);
        let i3 = turn_src(t, i2);
        lemma_src_props(t, i3);
        assert(s4[i] == s3[i1]);
        assert(s3[i1] == s2[i2]);
        assert(s2[i2] == s1[i3]);
        assert(s1[i3] == s[turn_src(t, i3)]);
    }
    assert(s4 =~= s);
}

/// A double turn is its own inverse.
pub proof fn lemma_double_turn_involution(s: Seq<Piece>, t: Turn)
    requires
        s.len() == 27,
        multiplier(t) == 2,
    ensures
        apply_turn(apply_turn(s, t), t) == s,
{
    lemma_four_quarter_turns(s, t);
}

/// Two same-face turns whose quarter-turn counts sum to four cancel out:
/// a single turn is undone by the triple, a double by another double.
pub proof fn lemma_same_face_cancel(s: Seq<Piece>, a: Turn, b: Turn)
    requires
        s.len() == 27,
        face_of(a) == face_of(b),
        multiplier(a) + multiplier(b) == 4,
    ensures
        apply_turn(apply_turn(s, a), b) == s,
{
    let s1 = apply_elem(s, a);
    let s2 = apply_elem(s1, a);
    let s3 = apply_elem(s2, a);
    lemma_same_face_elem(s1, a, b);
    lemma_same_face_elem(s2, a, b);
    lemma_same_face_elem(s3, a, b);
    lemma_four_quarter_turns(s, a);
}

/// No single turn leaves the solved arrangement solved: each face's turn
/// displaces a corner of that face, whichever multiplier it carries.
pub proof fn lemma_turn_unsolves(t: Turn)
    ensures
        apply_turn(solved_state(), t) != solved_state(),
{
    let s = solved_state();
    let r = apply_turn(s, t);
    match face_of(t) {
        Turn::U => {
            assert(r[2] != s[2]);
        },
        Turn::R => {
            assert(r[2] != s[2]);
        },
        Turn::L => {
            assert(r[0] != s[0]);
        },
        Turn::F => {
            assert(r[6] != s[6]);
        },
        Turn::D => {
            assert(r[18] != s[18]);
        },
        Turn::B => {
            assert(r[0] != s[0]);
        },
        _ => {
            assert(false);
        },
    }
}

impl Cube for Cube3x3 {
    open spec fn wf(&self) -> bool {
        self.spec_state().len() == 27
    }

    closed spec fn spec_state(&self) -> Seq<Piece> {
        self.state@
    }

    open spec fn spec_turns(&self) -> Seq<Turn> {
        all_turns()
    }

    /// Every turn of the catalogue is realized for every 27-piece state.
    open spec fn turn_ok(s: Seq<Piece>, t: Turn) -> bool {
        true
    }

    open spec fn apply(s: Seq<Piece>, t: Turn) -> Seq<Piece> {
        apply_turn(s, t)
    }

    open spec fn solved(s: Seq<Piece>) -> bool {
        s == solved_state()
    }

    fn get_turns(&self) -> (r: Vec<Turn>) {
        Turn::get_all_3x3()
    }

    fn turn(&mut self, t: Turn) -> (r: Valid) {
        let f = t.face();
        let m = t.mult();
        self.rot(f);
        if m >= 2 {
            self.rot(f);
        }
        if m == 3 {
            self.rot(f);
        }
        proof {
            lemma_apply_elem_face(old(self).state@, t);
            lemma_apply_elem_face(apply_elem(old(self).state@, t), t);
            lemma_apply_elem_face(apply_elem(apply_elem(old(self).state@, t), t), t);
        }
        Valid::Valid
    }

    fn is_solved(&self) -> (r: bool) {
        let reference = Cube3x3::new();
        self.eq_state(&reference)
    }

    fn eq_state(&self, other: &Self) -> (r: bool) {
        if self.state.len() != other.state.len() {
            return false;
        }
        let mut i: usize = 0;
        while i < self.state.len()
            invariant
                i <= self.state@.len(),
                self.state@.len() == other.state@.len(),
                forall|j: int| 0 <= j < i ==> self.state@[j] == other.state@[j],
            decreases self.state@.len() - i,
        {
            if self.state[i] != other.state[i] {
                return false;
            }
            i += 1;
        }
        proof {
            assert(self.state@ =~= other.state@);
        }
        true
    }

    fn duplicate(&self) -> (r: Self) {
        let mut v: Vec<Piece> = Vec::new();
        proof {
            assert(Seq::<Piece>::empty() =~= self.state@.take(0));
        }
        let mut i: usize = 0;
        while i < self.state.len()
            invariant
                i <= self.state@.len(),
                v@ == self.state@.take(i as int),
            decreases self.state@.len() - i,
        {
            v.push(self.state[i]);
            proof {
                assert(v@ =~= self.state@.take(i as int + 1));
            }
            i += 1;
        }
        proof {
            assert(self.state@.take(self.state@.len() as int) =~= self.state@);
        }
        Cube3x3 { state: v }
    }
}

} // verus!
