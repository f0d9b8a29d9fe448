//! Directions of travel and the turn rule: a request for the exact opposite
//! of the current direction is ignored; any other request is accepted.

use vstd::prelude::*;

verus! {

/// One of the four cardinal directions of travel.
#[derive(Clone, Copy, PartialEq, Eq, Structural, Debug)]
pub enum Direction {
    Up,
    Down,
    Left,
    Right,
}

/// The exact opposite of a direction.
pub open spec fn opposite(d: Direction) -> Direction {
    match d {
        Direction::Up => Direction::Down,
        Direction::Down => Direction::Up,
        Direction::Left => Direction::Right,
        Direction::Right => Direction::Left,
    }
}

/// What one direction request does to the current direction: it is accepted
/// unless it is the exact opposite of the current direction.
pub open spec fn turned(current: Direction, requested: Direction) -> Direction {
    if requested == opposite(current) {
        current
    } else {
        requested
    }
}

/// The direction after a whole queue of requests, applied oldest first; the
/// last accepted request wins.
pub open spec fn turned_all(current: Direction, requests: Seq<Direction>) -> Direction
    decreases requests.len(),
{
    if requests.len() == 0 {
        current
    } else {
        turned_all(turned(current, requests[0]), requests.subrange(1, requests.len() as int))
    }
}

/// Apply one direction request to the current direction.
pub fn request_turn(current: Direction, requested: Direction) -> (r: Direction)
    ensures
        r == turned(current, requested),
{
    let rejected = match (current, requested) {
        (Direction::Up, Direction::Down) => true,
        (Direction::Down, Direction::Up) => true,
        (Direction::Left, Direction::Right) => true,
        (Direction::Right, Direction::Left) => true,
        _ => false,
    };
    if rejected {
        current
    } else {
        requested
    }
}

/// Apply a whole queue of direction requests, oldest first.
pub fn request_turns(current: Direction, requests: &Vec<Direction>) -> (r: Direction)
    ensures
        r == turned_all(current, requests@),
{
    let mut d = current;
    let mut i: usize = 0;
    proof {
        assert(requests@.subrange(0, requests@.len() as int) =~= requests@);
    }
    while i < requests.len()
        invariant
            0 <= i <= requests.len(),
            turned_all(current, requests@) == turned_all(d, requests@.subrange(i as int, requests@.len() as int)),
        decreases requests.len() - i,
    {
        let ghost before = requests@.subrange(i as int, requests@.len() as int);
        d = request_turn(d, requests[i]);
        i = i + 1;
        proof {
            assert(before.subrange(1, before.len() as int)
                =~= requests@.subrange(i as int, requests@.len() as int));
        }
    }
    proof {
        assert(requests@.subrange(requests@.len() as int, requests@.len() as int) =~= Seq::<Direction>::empty());
    }
    d
}

/// Law: requesting the exact opposite of the current direction leaves it
/// unchanged; requesting any other direction updates it to that direction.
pub proof fn lemma_turn_rule(current: Direction, requested: Direction)
    ensures
        requested == opposite(current) ==> turned(current, requested) == current,
        requested != opposite(current) ==> turned(current, requested) == requested,
{
}

} // verus!
