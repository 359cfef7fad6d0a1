use compass_lsm303agr::claim::{Board, PeripheralSet};

#[test]
fn a_free_set_is_not_claimed() {
    let set = PeripheralSet::free();
    assert!(!set.claimed());
}

#[test]
fn the_first_claim_is_granted() {
    let mut set = PeripheralSet::free();
    assert!(set.claim());
    assert!(set.claimed());
}

#[test]
fn the_second_claim_is_refused() {
    let mut set = PeripheralSet::free();
    assert!(set.claim());
    assert!(!set.claim());
    assert!(set.claimed());
}

#[test]
fn of_many_claims_one_is_granted() {
    let mut set = PeripheralSet::free();
    let mut granted = 0;
    for _ in 0..100 {
        if set.claim() {
            granted += 1;
        }
    }
    assert_eq!(granted, 1);
    assert!(set.claimed());
}

#[test]
fn a_board_powers_on_with_both_sets_free() {
    let board = Board::power_on();
    assert!(!board.core.claimed());
    assert!(!board.device.claimed());
}

#[test]
fn the_two_sets_are_claimed_apart() {
    let mut board = Board::power_on();
    assert!(board.core.claim());
    assert!(board.core.claimed());
    assert!(!board.device.claimed());
    assert!(board.device.claim());
    assert!(!board.core.claim());
    assert!(!board.device.claim());
}
