use vstd::prelude::*;

verus! {

/// One cell that the snake occupies. Two segments are equal when they stand on
/// the same cell.
#[derive(Clone, Copy, Debug, PartialEq, Eq, Structural)]
pub struct SnakeBody {
    pub x: usize,
    pub y: usize,
}

/// The way the snake faces.
#[derive(Clone, Copy, Debug, PartialEq, Eq, Structural)]
pub enum Direction {
    Up,
    Down,
    Left,
    Right,
}

/// Why a move ended the game.
#[derive(Clone, Copy, Debug, PartialEq, Eq, Structural)]
pub enum CollisionKind {
    /// The head would reach the wall border.
    OutOfBounds,
    /// Two segments would share a cell.
    SelfCollision,
}

/// The way the snake faces after a request to turn towards `requested`, when
/// it faced `current`: a request for the exact reverse is ignored.
pub open spec fn turned(current: Direction, requested: Direction) -> Direction {
    if requested == opposite(current) {
        current
    } else {
        requested
    }
}

/// The direction that points the other way.
pub open spec fn opposite(d: Direction) -> Direction {
    match d {
        Direction::Up => Direction::Down,
        Direction::Down => Direction::Up,
        Direction::Left => Direction::Right,
        Direction::Right => Direction::Left,
    }
}

/// Whether the cell (x, y) lies inside the wall border of a width x height grid.
pub open spec fn is_interior(x: int, y: int, width: int, height: int) -> bool {
    1 <= x && x < width - 1 && 1 <= y && y < height - 1
}

/// Whether a segment lies on the grid at all, wall included.
pub open spec fn in_grid(p: SnakeBody, width: int, height: int) -> bool {
    p.x < width && p.y < height
}

/// Whether two segments are neighbours, one step apart along a row or a column.
pub open spec fn adjacent(a: SnakeBody, b: SnakeBody) -> bool {
    ||| a.x == b.x && (a.y + 1 == b.y || b.y + 1 == a.y)
    ||| a.y == b.y && (a.x + 1 == b.x || b.x + 1 == a.x)
}

/// Column of the cell one step from `p` towards `d`.
pub open spec fn step_x(p: SnakeBody, d: Direction) -> int {
    match d {
        Direction::Left => p.x - 1,
        Direction::Right => p.x + 1,
        _ => p.x as int,
    }
}

/// Row of the cell one step from `p` towards `d`.
pub open spec fn step_y(p: SnakeBody, d: Direction) -> int {
    match d {
        Direction::Up => p.y - 1,
        Direction::Down => p.y + 1,
        _ => p.y as int,
    }
}

/// No two segments of `s` share a cell.
pub open spec fn no_overlap(s: Seq<SnakeBody>) -> bool {
    forall|i: int, j: int| 0 <= i < j < s.len() ==> s[i] != s[j]
}

/// The segment added past the tail `a`, whose neighbour towards the head is `b`:
/// the line through `b` and `a` continued one more step.
pub open spec fn grown_tail(a: SnakeBody, b: SnakeBody) -> SnakeBody {
    if a.x == b.x {
        SnakeBody { x: a.x, y: (2 * a.y - b.y) as usize }
    } else if a.y == b.y {
        SnakeBody { x: (2 * a.x - b.x) as usize, y: a.y }
    } else {
        a
    }
}

/// The snake: its segments from the head (index 0) to the tail, the way it
/// faces, its target length and the size of the field it moves in.
pub struct Snake {
    pub skin: char,
    pub length: usize,
    pub body: Vec<SnakeBody>,
    pub direction: Direction,
    pub field_width: usize,
    pub field_height: usize,
}

impl Snake {
    /// A snake in play: as many segments as its length, at least two, all on
    /// the grid, each next to the one before, and all but the tail inside the
    /// wall border.
    pub open spec fn wf(&self) -> bool {
        &&& self.body@.len() == self.length
        &&& self.length >= 2
        &&& forall|i: int|
            0 <= i < self.body@.len() ==> #[trigger] in_grid(
                self.body@[i],
                self.field_width as int,
                self.field_height as int,
            )
        &&& forall|i: int|
            0 <= i < self.body@.len() - 1 ==> is_interior(
                #[trigger] self.body@[i].x as int,
                self.body@[i].y as int,
                self.field_width as int,
                self.field_height as int,
            )
        &&& forall|i: int|
            0 <= i < self.body@.len() - 1 ==> adjacent(#[trigger] self.body@[i], self.body@[i + 1])
    }

    /// Every segment, the tail too, lies inside the wall border.
    pub open spec fn all_interior(&self) -> bool {
        forall|i: int|
            0 <= i < self.body@.len() ==> is_interior(
                #[trigger] self.body@[i].x as int,
                self.body@[i].y as int,
                self.field_width as int,
                self.field_height as int,
            )
    }

    pub open spec fn head(&self) -> SnakeBody {
        self.body@[0]
    }

    /// Whether the cell one step from the head towards `d` is inside the wall
    /// border.
    pub open spec fn ahead_is_interior_towards(&self, d: Direction) -> bool {
        is_interior(
            step_x(self.head(), d),
            step_y(self.head(), d),
            self.field_width as int,
            self.field_height as int,
        )
    }

    /// The cell one step from the head towards `d`.
    pub open spec fn next_head_towards(&self, d: Direction) -> SnakeBody {
        SnakeBody { x: step_x(self.head(), d) as usize, y: step_y(self.head(), d) as usize }
    }

    /// The segments after a move towards `d`: the new head, then all the old
    /// ones but the tail.
    pub open spec fn moved_body_towards(&self, d: Direction) -> Seq<SnakeBody> {
        seq![self.next_head_towards(d)] + self.body@.drop_last()
    }

    /// Whether the cell ahead of the head is inside the wall border.
    pub open spec fn ahead_is_interior(&self) -> bool {
        self.ahead_is_interior_towards(self.direction)
    }

    /// The segment that becomes the head on the next move.
    pub open spec fn next_head(&self) -> SnakeBody {
        self.next_head_towards(self.direction)
    }

    /// The segments after the next move.
    pub open spec fn moved_body(&self) -> Seq<SnakeBody> {
        self.moved_body_towards(self.direction)
    }

    /// The segment that growing appends.
    pub open spec fn next_tail(&self) -> SnakeBody {
        grown_tail(self.body@[self.body@.len() - 1], self.body@[self.body@.len() - 2])
    }

    /// A snake of target length `length`, facing up, with no segments yet.
    pub fn new(skin: char, length: usize, field_width: usize, field_height: usize) -> (r: Snake)
        ensures
            r.skin == skin,
            r.length == length,
            r.body@.len() == 0,
            r.direction == Direction::Up,
            r.field_width == field_width,
            r.field_height == field_height,
    {
        Snake {
            skin,
            length,
            body: Vec::new(),
            direction: Direction::Up,
            field_width,
            field_height,
        }
    }

    /// Moves the snake one cell the way it faces. The tail leaves first; then
    /// the new head, one cell ahead of the old one, is checked. The move fails
    /// with `OutOfBounds` when the new head would reach the wall border, and
    /// otherwise with `SelfCollision` when two of the resulting segments would
    /// share a cell; either way the tail stays removed and no head is added.
    /// Otherwise the new head enters at the front.
    pub fn move_body(&mut self) -> (r: Result<(), CollisionKind>)
        requires
            old(self).wf(),
        ensures
            final(self).length == old(self).length,
            final(self).direction == old(self).direction,
            final(self).skin == old(self).skin,
            final(self).field_width == old(self).field_width,
            final(self).field_height == old(self).field_height,
            !old(self).ahead_is_interior() ==> r == Err::<(), CollisionKind>(
                CollisionKind::OutOfBounds,
            ),
            old(self).ahead_is_interior() && !no_overlap(old(self).moved_body()) ==> r == Err::<
                (),
                CollisionKind,
            >(CollisionKind::SelfCollision),
            old(self).ahead_is_interior() && no_overlap(old(self).moved_body()) ==> r == Ok::<
                (),
                CollisionKind,
            >(()),
            r is Err ==> final(self).body@ == old(self).body@.drop_last(),
            r is Ok ==> final(self).wf(),
            r is Ok ==> final(self).body@.len() == old(self).length,
            r is Ok ==> final(self).body@ == old(self).moved_body(),
            r is Ok ==> final(self).all_interior(),
            r is Ok ==> no_overlap(final(self).body@),
    {
        let ghost w = self.field_width as int;
        let ghost h = self.field_height as int;
        let ghost moved = self.moved_body();
        assert(is_interior(self.body@[0].x as int, self.body@[0].y as int, w, h));
        assert(adjacent(self.body@[0], self.body@[1]));
        self.body.pop();
        let ghost rest = self.body@;
        assert(rest == old(self).body@.drop_last());
        let keep: usize = self.length - 1;
        let head = self.body[0];
        assert(head == old(self).head());
        let (nx, ny): (usize, usize) = match self.direction {
            Direction::Up => (head.x, head.y - 1),
            Direction::Down => (head.x, head.y + 1),
            Direction::Left => (head.x - 1, head.y),
            Direction::Right => (head.x + 1, head.y),
        };
        assert(nx == step_x(head, self.direction) && ny == step_y(head, self.direction));
        if nx == 0 || nx == self.field_width - 1 || ny == 0 || ny == self.field_height - 1 {
            return Err(CollisionKind::OutOfBounds);
        }
        let new_head = SnakeBody { x: nx, y: ny };
        assert(new_head == old(self).next_head());
        assert(moved[0] == new_head);
        assert(moved.len() == keep + 1);
        assert(forall|k: int| 0 <= k < keep ==> moved[k + 1] == #[trigger] rest[k]);
        let mut i: usize = 0;
        while i < keep
            invariant
                0 <= i <= keep,
                keep == rest.len(),
                self.body@ == rest,
                self.length == old(self).length,
                self.direction == old(self).direction,
                self.skin == old(self).skin,
                self.field_width == old(self).field_width,
                self.field_height == old(self).field_height,
                old(self).ahead_is_interior(),
                moved == old(self).moved_body(),
                moved.len() == keep + 1,
                moved[0] == new_head,
                forall|k: int| 0 <= k < keep ==> moved[k + 1] == #[trigger] rest[k],
                forall|k: int| 0 <= k < i ==> #[trigger] rest[k] != new_head,
            decreases keep - i,
        {
            if self.body[i] == new_head {
                proof {
                    assert(moved[0] == moved[i + 1]);
                }
                return Err(CollisionKind::SelfCollision);
            }
            i = i + 1;
        }
        let mut a: usize = 0;
        while a < keep
            invariant
                0 <= a <= keep,
                keep == rest.len(),
                self.body@ == rest,
                self.length == old(self).length,
                self.direction == old(self).direction,
                self.skin == old(self).skin,
                self.field_width == old(self).field_width,
                self.field_height == old(self).field_height,
                old(self).ahead_is_interior(),
                moved == old(self).moved_body(),
                moved.len() == keep + 1,
                forall|k: int| 0 <= k < keep ==> moved[k + 1] == #[trigger] rest[k],
                forall|p: int, q: int| 0 <= p < a && p < q < keep ==> rest[p] != rest[q],
            decreases keep - a,
        {
            let mut b: usize = a + 1;
            while b < keep
                invariant
                    0 <= a < b <= keep,
                    keep == rest.len(),
                    self.body@ == rest,
                    self.length == old(self).length,
                    self.direction == old(self).direction,
                    self.skin == old(self).skin,
                    self.field_width == old(self).field_width,
                    self.field_height == old(self).field_height,
                    old(self).ahead_is_interior(),
                    moved == old(self).moved_body(),
                    moved.len() == keep + 1,
                    forall|k: int| 0 <= k < keep ==> moved[k + 1] == #[trigger] rest[k],
                    forall|p: int, q: int| 0 <= p < a && p < q < keep ==> rest[p] != rest[q],
                    forall|q: int| a < q < b ==> rest[a as int] != #[trigger] rest[q],
                decreases keep - b,
            {
                if self.body[a] == self.body[b] {
                    proof {
                        assert(moved[a + 1] == moved[b + 1]);
                    }
                    return Err(CollisionKind::SelfCollision);
                }
                b = b + 1;
            }
            a = a + 1;
        }
        assert(no_overlap(moved)) by {
            assert forall|p: int, q: int| 0 <= p < q < moved.len() implies moved[p] != moved[q] by {
                if p == 0 {
                    assert(moved[q] == rest[q - 1]);
                } else {
                    assert(moved[p] == rest[p - 1] && moved[q] == rest[q - 1]);
                }
            }
        }
        self.body.insert(0, new_head);
        assert(self.body@ =~= moved);
        assert(adjacent(new_head, head));
        Ok(())
    }

    /// Lays out the segments in one row, the head at (`default_x`, `default_y`)
    /// and each next segment one column to the right. The whole row lies inside
    /// the wall border.
    pub fn init(&mut self, default_x: usize, default_y: usize)
        requires
            old(self).body@.len() == 0,
            old(self).length >= 2,
            1 <= default_x,
            default_x + old(self).length < old(self).field_width,
            1 <= default_y,
            default_y + 1 < old(self).field_height,
        ensures
            final(self).wf(),
            final(self).all_interior(),
            final(self).body@.len() == old(self).length,
            forall|i: int|
                0 <= i < final(self).body@.len() ==> #[trigger] final(self).body@[i] == (SnakeBody {
                    x: (default_x + i) as usize,
                    y: default_y,
                }),
            final(self).length == old(self).length,
            final(self).direction == old(self).direction,
            final(self).skin == old(self).skin,
            final(self).field_width == old(self).field_width,
            final(self).field_height == old(self).field_height,
    {
        let n: usize = self.length;
        let mut i: usize = 0;
        while i < n
            invariant
                0 <= i <= n,
                n == self.length,
                self.length == old(self).length,
                self.direction == old(self).direction,
                self.skin == old(self).skin,
                self.field_width == old(self).field_width,
                self.field_height == old(self).field_height,
                default_x + n < self.field_width,
                self.body@.len() == i,
                forall|k: int|
                    0 <= k < i ==> #[trigger] self.body@[k] == (SnakeBody {
                        x: (default_x + k) as usize,
                        y: default_y,
                    }),
            decreases n - i,
        {
            self.body.push(SnakeBody { x: default_x + i, y: default_y });
            i = i + 1;
        }
        assert forall|k: int| 0 <= k < self.body@.len() - 1 implies adjacent(
            #[trigger] self.body@[k],
            self.body@[k + 1],
        ) by {
            assert(self.body@[k + 1].x == self.body@[k].x + 1);
        }
    }

    /// The segment at `index`, counted from the head.
    pub fn get_body(&self, index: usize) -> (r: Option<&SnakeBody>)
        ensures
            index < self.body@.len() ==> r == Some(&self.body@[index as int]),
            index >= self.body@.len() ==> r is None,
    {
        if index < self.body.len() {
            Some(&self.body[index])
        } else {
            None
        }
    }

    /// The target length.
    pub fn get_lengh(&self) -> (r: usize)
        ensures
            r == self.length,
    {
        self.length
    }

    /// Turns the snake towards `direction`, unless that is the exact opposite
    /// of the way it faces now: then nothing changes.
    pub fn set_direction(&mut self, direction: Direction)
        ensures
            final(self).direction == turned(old(self).direction, direction),
            final(self).body@ == old(self).body@,
            final(self).length == old(self).length,
            final(self).skin == old(self).skin,
            final(self).field_width == old(self).field_width,
            final(self).field_height == old(self).field_height,
    {
        let reversed = match self.direction {
            Direction::Up => direction == Direction::Down,
            Direction::Down => direction == Direction::Up,
            Direction::Left => direction == Direction::Right,
            Direction::Right => direction == Direction::Left,
        };
        if !reversed {
            self.direction = direction;
        }
    }

    /// Grows the snake by one segment past its tail, on the line through its
    /// last two segments, and raises the target length by one.
    pub fn eat_fruit(&mut self)
        requires
            old(self).wf(),
            old(self).all_interior(),
            old(self).length < usize::MAX,
        ensures
            final(self).wf(),
            final(self).body@ == old(self).body@.push(old(self).next_tail()),
            final(self).length == old(self).length + 1,
            final(self).direction == old(self).direction,
            final(self).skin == old(self).skin,
            final(self).field_width == old(self).field_width,
            final(self).field_height == old(self).field_height,
    {
        let n: usize = self.length;
        let a = self.body[n - 1];
        let b = self.body[n - 2];
        assert(is_interior(a.x as int, a.y as int, self.field_width as int, self.field_height as int));
        assert(adjacent(b, a));
        let mut x: usize = a.x;
        let mut y: usize = a.y;
        if a.x == b.x {
            y = if a.y >= b.y { a.y + (a.y - b.y) } else { a.y - (b.y - a.y) };
        } else if a.y == b.y {
            x = if a.x >= b.x { a.x + (a.x - b.x) } else { a.x - (b.x - a.x) };
        }
        let tail = SnakeBody { x, y };
        assert(tail == self.next_tail());
        self.body.push(tail);
        self.length = n + 1;
        assert(adjacent(self.body@[n - 1], self.body@[n as int]));
    }
}

/// A move whose new head would land on a segment that stays, anything but the
/// tail, ends in a self-collision: the moved segments overlap.
pub proof fn lemma_head_on_body_collides(s: Snake, k: int)
    requires
        s.wf(),
        0 <= k < s.length - 1,
        s.body@[k] == s.next_head(),
    ensures
        !no_overlap(s.moved_body()),
{
    let m = s.moved_body();
    assert(m[0] == s.next_head());
    assert(m[k + 1] == s.body@[k]);
}

} // verus!
