use vstd::prelude::*;
use crate::snake::is_interior;

verus! {

/// Relies on rand's `thread_rng` and `Rng::gen_range`: a value drawn from
/// `low..high`. `gen_range` panics on an empty range.
#[verifier::external_body]
pub(crate) fn random_between(low: usize, high: usize) -> (r: usize)
    requires
        low < high,
    ensures
        low <= r < high,
{
    rand::Rng::gen_range(&mut rand::thread_rng(), low..high)
}

/// The fruit: where it lies, the size of the field and its glyph.
pub struct Fruit {
    pub x: usize,
    pub y: usize,
    pub field_width: usize,
    pub field_height: usize,
    pub skin: char,
}

impl Fruit {
    /// The fruit lies inside the wall border.
    pub open spec fn wf(&self) -> bool {
        is_interior(self.x as int, self.y as int, self.field_width as int, self.field_height as int)
    }

    /// A fruit at a random cell inside the wall border of a field of the
    /// given size.
    pub fn new(field_width: usize, field_height: usize, skin: char) -> (r: Fruit)
        requires
            field_width >= 3,
            field_height >= 3,
        ensures
            r.wf(),
            r.field_width == field_width,
            r.field_height == field_height,
            r.skin == skin,
    {
        let x: usize = random_between(1, field_width - 1);
        let y: usize = random_between(1, field_height - 1);
        Fruit { x, y, field_width, field_height, skin }
    }

    /// Puts the fruit at (`x`, `y`), a cell inside the wall border.
    pub fn move_to(&mut self, x: usize, y: usize)
        requires
            is_interior(x as int, y as int, old(self).field_width as int, old(self).field_height as int),
        ensures
            final(self).wf(),
            final(self).x == x,
            final(self).y == y,
            final(self).field_width == old(self).field_width,
            final(self).field_height == old(self).field_height,
            final(self).skin == old(self).skin,
    {
        self.x = x;
        self.y = y;
    }

    /// Moves the fruit to a new random cell inside the wall border; it may be
    /// the cell it had, or one the snake covers.
    pub fn move_random(&mut self)
        requires
            old(self).wf(),
        ensures
            final(self).wf(),
            final(self).field_width == old(self).field_width,
            final(self).field_height == old(self).field_height,
            final(self).skin == old(self).skin,
    {
        let x: usize = random_between(1, self.field_width - 1);
        let y: usize = random_between(1, self.field_height - 1);
        self.move_to(x, y);
    }
}

} // verus!
