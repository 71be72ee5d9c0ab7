//! From held keys to the heading of the next step.

use crate::grid::Direction;
use crate::model::resolve;
use vstd::prelude::*;

verus! {

/// The direction asked for by the four direction keys. When several are
/// held, the first of up, down, left, right wins.
pub open spec fn keys_direction(up: bool, down: bool, left: bool, right: bool) -> Option<
    Direction,
> {
    if up {
        Some(Direction::Up)
    } else if down {
        Some(Direction::Down)
    } else if left {
        Some(Direction::Left)
    } else if right {
        Some(Direction::Right)
    } else {
        None
    }
}

/// The one direction, if any, that the held direction keys ask for.
pub fn direction_from_keys(up: bool, down: bool, left: bool, right: bool) -> (asked: Option<
    Direction,
>)
    ensures
        asked == keys_direction(up, down, left, right),
{
    if up {
        Some(Direction::Up)
    } else if down {
        Some(Direction::Down)
    } else if left {
        Some(Direction::Left)
    } else if right {
        Some(Direction::Right)
    } else {
        None
    }
}

/// The heading that the next step follows. A request to turn straight back
/// is not followed: the snake keeps its heading, as it does when nothing is
/// requested.
pub fn effective_direction(heading: Direction, requested: Option<Direction>) -> (followed:
    Direction)
    ensures
        followed == resolve(heading, requested),
{
    match requested {
        Some(d) => {
            if d == heading.opposite() {
                heading
            } else {
                d
            }
        },
        None => heading,
    }
}

} // verus!
