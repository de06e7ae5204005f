use rubiks::cube3x3::Cube3x3;
use rubiks::{Cube, Turn};

#[test]
fn fresh_cube_is_solved() {
    let cube = Cube3x3::new();
    assert!(cube.is_solved());
}

#[test]
fn solved_layout_has_27_pieces() {
    assert_eq!(Cube3x3::get_solved_state().len(), 27);
}

#[test]
fn cube_offers_all_eighteen_turns() {
    let cube = Cube3x3::new();
    assert_eq!(cube.get_turns(), Turn::get_all_3x3());
}

#[test]
fn every_single_turn_unsolves() {
    for t in Turn::get_all_3x3() {
        let mut cube = Cube3x3::new();
        let v = cube.turn(t);
        assert!(v.is_valid());
        assert!(!cube.is_solved());
    }
}

#[test]
fn four_quarter_turns_restore_each_face() {
    for f in [Turn::U, Turn::R, Turn::L, Turn::F, Turn::D, Turn::B] {
        let mut cube = Cube3x3::new();
        for _ in 0..4 {
            let v = cube.turn(f);
            assert!(v.is_valid());
        }
        assert!(cube.is_solved());
    }
}

#[test]
fn four_quarter_turns_restore_scrambled_state() {
    let mut reference = Cube3x3::new();
    let v = reference.turn(Turn::U2);
    assert!(v.is_valid());
    let mut cube = reference.duplicate();
    for _ in 0..4 {
        let v = cube.turn(Turn::R);
        assert!(v.is_valid());
    }
    assert!(cube.eq_state(&reference));
}

#[test]
fn two_double_turns_cancel() {
    for f2 in [Turn::U2, Turn::R2, Turn::L2, Turn::F2, Turn::D2, Turn::B2] {
        let mut cube = Cube3x3::new();
        let v = cube.turn(f2);
        assert!(v.is_valid());
        let v = cube.turn(f2);
        assert!(v.is_valid());
        assert!(cube.is_solved());
    }
}

#[test]
fn single_and_triple_turns_cancel() {
    let mut cube = Cube3x3::new();
    let v = cube.turn(Turn::U);
    assert!(v.is_valid());
    let v = cube.turn(Turn::U3);
    assert!(v.is_valid());
    assert!(cube.is_solved());

    let mut cube = Cube3x3::new();
    let v = cube.turn(Turn::F3);
    assert!(v.is_valid());
    let v = cube.turn(Turn::F);
    assert!(v.is_valid());
    assert!(cube.is_solved());
}

#[test]
fn replaying_decomposition_matches_direct_turn() {
    for t in Turn::get_all_3x3() {
        let mut direct = Cube3x3::new();
        let v = direct.turn(t);
        assert!(v.is_valid());
        let mut replayed = Cube3x3::new();
        for e in t.break_() {
            let v = replayed.turn(e);
            assert!(v.is_valid());
        }
        assert!(direct.eq_state(&replayed));
    }
}

#[test]
fn eq_state_distinguishes_configurations() {
    let solved = Cube3x3::new();
    let mut turned = Cube3x3::new();
    let v = turned.turn(Turn::B);
    assert!(v.is_valid());
    assert!(!turned.eq_state(&solved));
    assert!(solved.eq_state(&Cube3x3::new()));
}

#[test]
fn duplicate_preserves_configuration() {
    let mut cube = Cube3x3::new();
    let v = cube.turn(Turn::L2);
    assert!(v.is_valid());
    let copy = cube.duplicate();
    assert!(copy.eq_state(&cube));
    assert!(!copy.is_solved());
}
