use rubiks::bruteforce::{BruteForceSolver, MoveWrapper};
use rubiks::cube3x3::Cube3x3;
use rubiks::{Cube, CubeSolver, Turn};

#[test]
fn wrapper_offers_full_list_before_any_turn() {
    let wrapper = MoveWrapper::new(Cube3x3::new());
    assert_eq!(wrapper.get_turns(), Turn::get_all_3x3());
}

#[test]
fn wrapper_prunes_the_face_just_turned() {
    let mut wrapper = MoveWrapper::new(Cube3x3::new());
    let v = wrapper.turn(Turn::U);
    assert!(v.is_valid());
    let candidates = wrapper.get_turns();
    assert_eq!(candidates.len(), 15);
    assert!(!candidates.contains(&Turn::U));
    assert!(!candidates.contains(&Turn::U2));
    assert!(!candidates.contains(&Turn::U3));
    assert!(candidates.contains(&Turn::R));
    assert!(candidates.contains(&Turn::B3));
}

#[test]
fn wrapper_equality_ignores_history() {
    let mut roundabout = MoveWrapper::new(Cube3x3::new());
    let v = roundabout.turn(Turn::U);
    assert!(v.is_valid());
    let v = roundabout.turn(Turn::U3);
    assert!(v.is_valid());
    let fresh = MoveWrapper::new(Cube3x3::new());
    assert!(roundabout.eq_state(&fresh));
    assert!(roundabout.is_solved());
    assert_eq!(roundabout.into_turns(), vec![Turn::U, Turn::U3]);
}

#[test]
fn wrapper_records_history_in_order() {
    let mut wrapper = MoveWrapper::new(Cube3x3::new());
    let v = wrapper.turn(Turn::F2);
    assert!(v.is_valid());
    let v = wrapper.turn(Turn::D);
    assert!(v.is_valid());
    assert_eq!(wrapper.into_turns(), vec![Turn::F2, Turn::D]);
}

#[test]
fn solve_on_solved_cube_returns_empty_sequence() {
    let solver = BruteForceSolver::new();
    let solution = solver.solve(Cube3x3::new()).unwrap();
    assert!(solution.is_empty());
}

#[test]
fn solve_undoes_a_double_turn_in_one_move() {
    let mut cube = Cube3x3::new();
    let v = cube.turn(Turn::U2);
    assert!(v.is_valid());
    let scrambled = cube.duplicate();
    let solver = BruteForceSolver::new();
    let solution = solver.solve(cube).unwrap();
    assert_eq!(solution, vec![Turn::U2]);
    let mut replay = scrambled;
    for t in solution {
        let v = replay.turn(t);
        assert!(v.is_valid());
    }
    assert!(replay.is_solved());
}

#[test]
fn solve_undoes_one_elementary_turn_in_one_move() {
    for (scramble, fix) in [(Turn::U, Turn::U3), (Turn::R, Turn::R3), (Turn::B, Turn::B3)] {
        let mut cube = Cube3x3::new();
        let v = cube.turn(scramble);
        assert!(v.is_valid());
        let scrambled = cube.duplicate();
        let solver = BruteForceSolver::new();
        let solution = solver.solve(cube).unwrap();
        assert_eq!(solution, vec![fix]);
        let mut replay = scrambled;
        for t in solution {
            let v = replay.turn(t);
            assert!(v.is_valid());
        }
        assert!(replay.is_solved());
    }
}

#[test]
fn solve_finds_a_two_move_solution() {
    let mut cube = Cube3x3::new();
    let v = cube.turn(Turn::U);
    assert!(v.is_valid());
    let v = cube.turn(Turn::R2);
    assert!(v.is_valid());
    let scrambled = cube.duplicate();
    let solver = BruteForceSolver::new();
    let solution = solver.solve(cube).unwrap();
    assert_eq!(solution.len(), 2);
    let mut replay = scrambled;
    for t in solution {
        let v = replay.turn(t);
        assert!(v.is_valid());
    }
    assert!(replay.is_solved());
}
