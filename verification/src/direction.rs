//! The eight compass points and the LED that stands at each of them.

use vstd::prelude::*;

verus! {

/// Number of LEDs in the ring.
pub const LED_COUNT: usize = 8;

/// A compass point. The board has one LED at each.
#[derive(Clone, Copy, Debug, PartialEq, Eq, Structural)]
pub enum Direction {
    /// North, at LD3.
    North,
    /// Northeast, at LD5.
    Northeast,
    /// East, at LD7.
    East,
    /// Southeast, at LD9.
    Southeast,
    /// South, at LD10.
    South,
    /// Southwest, at LD8.
    Southwest,
    /// West, at LD6.
    West,
    /// Northwest, at LD4.
    Northwest,
}

impl Direction {
    /// Place in the ring, counted clockwise from north.
    pub open spec fn ring_position(self) -> int {
        match self {
            Direction::North => 0,
            Direction::Northeast => 1,
            Direction::East => 2,
            Direction::Southeast => 3,
            Direction::South => 4,
            Direction::Southwest => 5,
            Direction::West => 6,
            Direction::Northwest => 7,
        }
    }

    /// The compass point at a place in the ring.
    pub open spec fn at_position(i: int) -> Option<Direction> {
        if i == 0 {
            Some(Direction::North)
        } else if i == 1 {
            Some(Direction::Northeast)
        } else if i == 2 {
            Some(Direction::East)
        } else if i == 3 {
            Some(Direction::Southeast)
        } else if i == 4 {
            Some(Direction::South)
        } else if i == 5 {
            Some(Direction::Southwest)
        } else if i == 6 {
            Some(Direction::West)
        } else if i == 7 {
            Some(Direction::Northwest)
        } else {
            None
        }
    }

    /// The number printed beside the LED of this compass point: 3 for LD3.
    pub open spec fn led_number(self) -> int {
        match self {
            Direction::North => 3,
            Direction::Northeast => 5,
            Direction::East => 7,
            Direction::Southeast => 9,
            Direction::South => 10,
            Direction::Southwest => 8,
            Direction::West => 6,
            Direction::Northwest => 4,
        }
    }

    /// The compass point at the LED with the number `n`.
    pub open spec fn at_led(n: int) -> Option<Direction> {
        if n == 3 {
            Some(Direction::North)
        } else if n == 4 {
            Some(Direction::Northwest)
        } else if n == 5 {
            Some(Direction::Northeast)
        } else if n == 6 {
            Some(Direction::West)
        } else if n == 7 {
            Some(Direction::East)
        } else if n == 8 {
            Some(Direction::Southwest)
        } else if n == 9 {
            Some(Direction::Southeast)
        } else if n == 10 {
            Some(Direction::South)
        } else {
            None
        }
    }

    /// Place of this compass point's LED in the ring, clockwise from north.
    pub fn position(&self) -> (i: usize)
        ensures
            i == self.ring_position(),
            i < LED_COUNT,
    {
        match self {
            Direction::North => 0,
            Direction::Northeast => 1,
            Direction::East => 2,
            Direction::Southeast => 3,
            Direction::South => 4,
            Direction::Southwest => 5,
            Direction::West => 6,
            Direction::Northwest => 7,
        }
    }

    /// The compass point whose LED stands at place `i` of the ring; none
    /// from `LED_COUNT` on.
    pub fn from_position(i: usize) -> (d: Option<Direction>)
        ensures
            d == Direction::at_position(i as int),
            d.is_some() <==> i < LED_COUNT,
            d matches Some(p) ==> p.ring_position() == i,
    {
        match i {
            0 => Some(Direction::North),
            1 => Some(Direction::Northeast),
            2 => Some(Direction::East),
            3 => Some(Direction::Southeast),
            4 => Some(Direction::South),
            5 => Some(Direction::Southwest),
            6 => Some(Direction::West),
            7 => Some(Direction::Northwest),
            _ => None,
        }
    }

    /// The number of this compass point's LED, as printed on the board.
    pub fn led(&self) -> (n: u8)
        ensures
            n == self.led_number(),
    {
        match self {
            Direction::North => 3,
            Direction::Northeast => 5,
            Direction::East => 7,
            Direction::Southeast => 9,
            Direction::South => 10,
            Direction::Southwest => 8,
            Direction::West => 6,
            Direction::Northwest => 4,
        }
    }
}

/// Compass points and places in the ring match one to one: no two compass
/// points share a place, and no place from 0 up to `LED_COUNT` is left
/// without one.
pub proof fn lemma_direction_matches_ring()
    ensures
        forall|d: Direction| 0 <= #[trigger] d.ring_position() < LED_COUNT,
        forall|d: Direction| Direction::at_position(#[trigger] d.ring_position()) == Some(d),
        forall|a: Direction, b: Direction|
            #[trigger] a.ring_position() == #[trigger] b.ring_position() ==> a == b,
        forall|i: int|
            0 <= i < LED_COUNT ==> ((#[trigger] Direction::at_position(i)) matches Some(d)
                && d.ring_position() == i),
        forall|i: int| !(0 <= i < LED_COUNT) ==> #[trigger] Direction::at_position(i) is None,
{
}

/// Compass points and LEDs match one to one: no two compass points share an
/// LED, and each of LD3 to LD10 stands at some compass point.
pub proof fn lemma_direction_matches_led()
    ensures
        forall|d: Direction| 3 <= #[trigger] d.led_number() <= 10,
        forall|d: Direction| Direction::at_led(#[trigger] d.led_number()) == Some(d),
        forall|a: Direction, b: Direction|
            #[trigger] a.led_number() == #[trigger] b.led_number() ==> a == b,
        forall|n: int|
            3 <= n <= 10 ==> ((#[trigger] Direction::at_led(n)) matches Some(d) && d.led_number()
                == n),
        forall|n: int| !(3 <= n <= 10) ==> #[trigger] Direction::at_led(n) is None,
{
}

} // verus!
