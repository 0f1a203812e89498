use drunkards_walk::Actions;

#[test]
fn from_u8_decodes_the_three_codes() {
    assert_eq!(Actions::from_u8(0), Some(Actions::Increment));
    assert_eq!(Actions::from_u8(1), Some(Actions::Decrement));
    assert_eq!(Actions::from_u8(2), Some(Actions::Idle));
}

#[test]
fn from_u8_rejects_every_other_code() {
    for code in 3..=u8::MAX {
        assert_eq!(Actions::from_u8(code), None);
    }
}

#[test]
fn to_u8_gives_the_stored_codes() {
    assert_eq!(Actions::Increment.to_u8(), 0);
    assert_eq!(Actions::Decrement.to_u8(), 1);
    assert_eq!(Actions::Idle.to_u8(), 2);
}

#[test]
fn codes_round_trip() {
    for action in [Actions::Increment, Actions::Decrement, Actions::Idle] {
        assert_eq!(Actions::from_u8(action.to_u8()), Some(action));
    }
    for code in 0..=2u8 {
        assert_eq!(Actions::from_u8(code).map(|a| a.to_u8()), Some(code));
    }
}

#[test]
fn actions_are_ordered_as_declared() {
    assert!(Actions::Increment < Actions::Decrement);
    assert!(Actions::Decrement < Actions::Idle);
}
