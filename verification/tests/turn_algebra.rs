use rubiks::{Turn, Valid};

#[test]
fn break_single_is_one_quarter() {
    assert_eq!(Turn::U.break_(), vec![Turn::U]);
    assert_eq!(Turn::R.break_(), vec![Turn::R]);
    assert_eq!(Turn::B.break_(), vec![Turn::B]);
}

#[test]
fn break_double_is_two_quarters() {
    assert_eq!(Turn::U2.break_(), vec![Turn::U, Turn::U]);
    assert_eq!(Turn::F2.break_(), vec![Turn::F, Turn::F]);
}

#[test]
fn break_triple_is_three_quarters() {
    assert_eq!(Turn::U3.break_(), vec![Turn::U, Turn::U, Turn::U]);
    assert_eq!(Turn::L3.break_(), vec![Turn::L, Turn::L, Turn::L]);
}

#[test]
fn catalogue_lists_all_eighteen_turns() {
    let all = Turn::get_all_3x3();
    assert_eq!(
        all,
        vec![
            Turn::U,
            Turn::U2,
            Turn::U3,
            Turn::R,
            Turn::R2,
            Turn::R3,
            Turn::L,
            Turn::L2,
            Turn::L3,
            Turn::F,
            Turn::F2,
            Turn::F3,
            Turn::D,
            Turn::D2,
            Turn::D3,
            Turn::B,
            Turn::B2,
            Turn::B3,
        ]
    );
}

#[test]
fn face_normalizes_multiplier() {
    assert_eq!(Turn::U2.face(), Turn::U);
    assert_eq!(Turn::D3.face(), Turn::D);
    assert_eq!(Turn::F.face(), Turn::F);
    assert_eq!(Turn::B2.mult(), 2);
    assert_eq!(Turn::R.mult(), 1);
    assert_eq!(Turn::L3.mult(), 3);
}

#[test]
fn valid_flags() {
    assert!(Valid::Valid.is_valid());
    assert!(!Valid::Valid.is_invalid());
    assert!(!Valid::Invalid.is_valid());
    assert!(Valid::Invalid.is_invalid());
    Valid::Valid.unwrap();
}
