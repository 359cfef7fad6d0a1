use compass_lsm303agr::direction::{Direction, LED_COUNT};

const CLOCKWISE: [Direction; 8] = [
    Direction::North,
    Direction::Northeast,
    Direction::East,
    Direction::Southeast,
    Direction::South,
    Direction::Southwest,
    Direction::West,
    Direction::Northwest,
];

#[test]
fn the_ring_has_eight_leds() {
    assert_eq!(LED_COUNT, 8);
}

#[test]
fn positions_run_clockwise_from_north() {
    assert_eq!(Direction::North.position(), 0);
    assert_eq!(Direction::Northeast.position(), 1);
    assert_eq!(Direction::East.position(), 2);
    assert_eq!(Direction::Southeast.position(), 3);
    assert_eq!(Direction::South.position(), 4);
    assert_eq!(Direction::Southwest.position(), 5);
    assert_eq!(Direction::West.position(), 6);
    assert_eq!(Direction::Northwest.position(), 7);
}

#[test]
fn from_position_undoes_position() {
    for (i, direction) in CLOCKWISE.iter().enumerate() {
        assert_eq!(direction.position(), i);
        assert_eq!(Direction::from_position(i), Some(*direction));
    }
}

#[test]
fn from_position_has_nothing_past_the_ring() {
    assert_eq!(Direction::from_position(7), Some(Direction::Northwest));
    assert_eq!(Direction::from_position(8), None);
    assert_eq!(Direction::from_position(9), None);
    assert_eq!(Direction::from_position(usize::MAX), None);
}

#[test]
fn led_numbers_are_those_printed_on_the_board() {
    assert_eq!(Direction::North.led(), 3);
    assert_eq!(Direction::Northeast.led(), 5);
    assert_eq!(Direction::East.led(), 7);
    assert_eq!(Direction::Southeast.led(), 9);
    assert_eq!(Direction::South.led(), 10);
    assert_eq!(Direction::Southwest.led(), 8);
    assert_eq!(Direction::West.led(), 6);
    assert_eq!(Direction::Northwest.led(), 4);
}

#[test]
fn every_led_from_3_to_10_has_one_direction() {
    for led in 3u8..=10 {
        let owners = CLOCKWISE.iter().filter(|d| d.led() == led).count();
        assert_eq!(owners, 1, "LD{}", led);
    }
    for direction in CLOCKWISE.iter() {
        assert!((3..=10).contains(&direction.led()));
    }
}

#[test]
fn every_position_has_one_direction() {
    for position in 0..LED_COUNT {
        let owners = CLOCKWISE.iter().filter(|d| d.position() == position).count();
        assert_eq!(owners, 1, "position {}", position);
    }
}
