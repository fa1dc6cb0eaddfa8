use vstd::prelude::*;
use crate::snake::Direction;

verus! {

/// The direction that an arrow key names, given the last byte of the key's
/// escape sequence (`ESC [ A` and so on); `None` for any other byte.
pub fn direction_of_key(code: u8) -> (r: Option<Direction>)
    ensures
        code == 65 ==> r == Some(Direction::Up),
        code == 66 ==> r == Some(Direction::Down),
        code == 67 ==> r == Some(Direction::Right),
        code == 68 ==> r == Some(Direction::Left),
        !(65 <= code <= 68) ==> r is None,
{
    match code {
        65 => Some(Direction::Up),
        66 => Some(Direction::Down),
        68 => Some(Direction::Left),
        67 => Some(Direction::Right),
        _ => None,
    }
}

} // verus!
