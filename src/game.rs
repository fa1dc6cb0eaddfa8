use vstd::prelude::*;
use crate::field::{base_tile, GameField};
use crate::fruit::{random_between, Fruit};
use crate::snake::{
    grown_tail, is_interior, no_overlap, turned, CollisionKind, Direction, Snake, SnakeBody,
};

verus! {

/// Whether the head of `body` stands on the fruit's cell.
pub open spec fn eats(body: Seq<SnakeBody>, fruit: Fruit) -> bool {
    body[0].x == fruit.x && body[0].y == fruit.y
}

/// Whether one of the segments of `body` stands on the cell (x, y).
pub open spec fn covers(body: Seq<SnakeBody>, x: int, y: int) -> bool {
    exists|k: int| 0 <= k < body.len() && #[trigger] body[k].x == x && body[k].y == y
}

/// The way the snake faces after the input of a tick, when it faced
/// `current`: no input leaves it as it was.
pub open spec fn after_input(current: Direction, input: Option<Direction>) -> Direction {
    match input {
        Some(d) => turned(current, d),
        None => current,
    }
}

/// Whether the head touches the fruit.
pub fn is_touch_fruit(snake_head: &SnakeBody, fruit: &Fruit) -> (r: bool)
    ensures
        r == (snake_head.x == fruit.x && snake_head.y == fruit.y),
{
    snake_head.x == fruit.x && snake_head.y == fruit.y
}

/// The whole game: the field, the snake and the fruit.
pub struct Game {
    pub field: GameField,
    pub snake: Snake,
    pub fruit: Fruit,
}

impl Game {
    /// The parts are each well formed and agree on the size of the field.
    pub open spec fn wf(&self) -> bool {
        &&& self.field.wf()
        &&& self.snake.wf()
        &&& self.fruit.wf()
        &&& self.snake.field_width == self.field.width
        &&& self.snake.field_height == self.field.height
        &&& self.fruit.field_width == self.field.width
        &&& self.fruit.field_height == self.field.height
    }

    /// The field shows the frame drawn from the segments `body`: the fruit's
    /// glyph on the fruit, the snake's glyph on each segment elsewhere, and the
    /// reset grid everywhere else.
    pub open spec fn shows(&self, body: Seq<SnakeBody>) -> bool {
        forall|x: int, y: int|
            0 <= x < self.field.width && 0 <= y < self.field.height ==> #[trigger] self.field.cell(
                x,
                y,
            ) == (if x == self.fruit.x && y == self.fruit.y {
                self.fruit.skin
            } else if covers(body, x, y) {
                self.snake.skin
            } else {
                base_tile(
                    x,
                    y,
                    self.field.width as int,
                    self.field.height as int,
                    self.field.wall_tile,
                    self.field.float_tile,
                )
            })
    }

    /// `post` is what composing a frame makes of a snake with the segments
    /// `body` and of `fruit`: when the head is on the fruit the snake grows
    /// and the fruit moves, otherwise both stay; the field shows the segments
    /// as they were before growing, and the fruit where it is now.
    pub open spec fn composed(body: Seq<SnakeBody>, fruit: Fruit, post: Game) -> bool {
        &&& eats(body, fruit) && body.len() < usize::MAX ==> post.snake.body@ == body.push(
            grown_tail(body[body.len() - 1], body[body.len() - 2]),
        )
        &&& !(eats(body, fruit) && body.len() < usize::MAX) ==> post.snake.body@ == body
            && post.fruit == fruit
        &&& post.shows(body)
    }

    /// Composes the frame of a tick. The grid is reset and each segment is
    /// drawn. When the head is on the fruit the snake grows and the fruit moves
    /// to (`fruit_x`, `fruit_y`). Then the fruit is drawn. A snake of
    /// `usize::MAX` segments cannot grow: its length could not be counted.
    pub fn compose_with(&mut self, fruit_x: usize, fruit_y: usize)
        requires
            old(self).wf(),
            old(self).snake.all_interior(),
            is_interior(
                fruit_x as int,
                fruit_y as int,
                old(self).field.width as int,
                old(self).field.height as int,
            ),
        ensures
            final(self).wf(),
            Game::composed(old(self).snake.body@, old(self).fruit, *final(self)),
            eats(old(self).snake.body@, old(self).fruit) && old(self).snake.length < usize::MAX
                ==> final(self).fruit.x == fruit_x && final(self).fruit.y == fruit_y,
            final(self).snake.direction == old(self).snake.direction,
            final(self).snake.skin == old(self).snake.skin,
            final(self).fruit.skin == old(self).fruit.skin,
            final(self).field.width == old(self).field.width,
            final(self).field.height == old(self).field.height,
            final(self).field.wall_tile == old(self).field.wall_tile,
            final(self).field.float_tile == old(self).field.float_tile,
    {
        self.field.tile_reset();
        let ghost body = self.snake.body@;
        let n: usize = self.snake.length;
        let mut i: usize = 0;
        while i < n
            invariant
                0 <= i <= n,
                n == self.snake.length,
                body == self.snake.body@,
                self.snake == old(self).snake,
                self.fruit == old(self).fruit,
                self.wf(),
                self.field.width == old(self).field.width,
                self.field.height == old(self).field.height,
                self.field.wall_tile == old(self).field.wall_tile,
                self.field.float_tile == old(self).field.float_tile,
                forall|x: int, y: int|
                    0 <= x < self.field.width && 0 <= y < self.field.height ==> #[trigger] self.field.cell(
                        x,
                        y,
                    ) == (if covers(body.take(i as int), x, y) {
                        self.snake.skin
                    } else {
                        base_tile(
                            x,
                            y,
                            self.field.width as int,
                            self.field.height as int,
                            self.field.wall_tile,
                            self.field.float_tile,
                        )
                    }),
            decreases n - i,
        {
            let seg = self.snake.body[i];
            assert(crate::snake::in_grid(seg, self.field.width as int, self.field.height as int));
            self.field.tile_update(seg.x, seg.y, self.snake.skin);
            proof {
                let pre = body.take(i as int);
                let cur = body.take(i + 1);
                assert forall|x: int, y: int|
                    0 <= x < self.field.width && 0 <= y < self.field.height implies covers(cur, x, y)
                    == (covers(pre, x, y) || (x == seg.x && y == seg.y)) by {
                    if covers(cur, x, y) {
                        let k = choose|k: int| 0 <= k < cur.len() && #[trigger] cur[k].x == x && cur[k].y == y;
                        if k < i {
                            assert(pre[k] == cur[k]);
                        }
                    }
                    if covers(pre, x, y) {
                        let k = choose|k: int| 0 <= k < pre.len() && #[trigger] pre[k].x == x && pre[k].y == y;
                        assert(pre[k] == cur[k]);
                    }
                    if x == seg.x && y == seg.y {
                        assert(cur[i as int] == seg);
                    }
                }
            }
            i = i + 1;
        }
        assert(body.take(n as int) =~= body);
        let head = self.snake.body[0];
        if is_touch_fruit(&head, &self.fruit) && self.snake.length < usize::MAX {
            self.snake.eat_fruit();
            self.fruit.move_to(fruit_x, fruit_y);
        }
        self.field.tile_update(self.fruit.x, self.fruit.y, self.fruit.skin);
    }

    /// Composes a frame as `compose_with` does; a fruit that is eaten moves to
    /// a random cell inside the wall border.
    pub fn compose(&mut self)
        requires
            old(self).wf(),
            old(self).snake.all_interior(),
        ensures
            final(self).wf(),
            Game::composed(old(self).snake.body@, old(self).fruit, *final(self)),
            final(self).snake.direction == old(self).snake.direction,
            final(self).snake.skin == old(self).snake.skin,
            final(self).fruit.skin == old(self).fruit.skin,
            final(self).field.width == old(self).field.width,
            final(self).field.height == old(self).field.height,
            final(self).field.wall_tile == old(self).field.wall_tile,
            final(self).field.float_tile == old(self).field.float_tile,
    {
        let head = self.snake.body[0];
        if is_touch_fruit(&head, &self.fruit) {
            let x: usize = random_between(1, self.field.width - 1);
            let y: usize = random_between(1, self.field.height - 1);
            self.compose_with(x, y);
        } else {
            let x: usize = self.fruit.x;
            let y: usize = self.fruit.y;
            self.compose_with(x, y);
        }
    }

    /// Starts a game from its parts and composes its first frame.
    pub fn new(field: GameField, snake: Snake, fruit: Fruit) -> (r: Game)
        requires
            field.wf(),
            snake.wf(),
            snake.all_interior(),
            fruit.wf(),
            snake.field_width == field.width,
            snake.field_height == field.height,
            fruit.field_width == field.width,
            fruit.field_height == field.height,
        ensures
            r.wf(),
            Game::composed(snake.body@, fruit, r),
            r.snake.direction == snake.direction,
            r.snake.skin == snake.skin,
            r.fruit.skin == fruit.skin,
            r.field.width == field.width,
            r.field.height == field.height,
            r.field.wall_tile == field.wall_tile,
            r.field.float_tile == field.float_tile,
    {
        let mut game = Game { field, snake, fruit };
        game.compose();
        game
    }

    /// One tick after the frame was shown: the input, if any, turns the snake,
    /// the snake moves, and when the move succeeds the next frame is composed.
    /// A failed move ends the game: the snake has lost its tail and gained no
    /// head, and the field and the fruit stay as they were.
    pub fn tick(&mut self, input: Option<Direction>) -> (r: Result<(), CollisionKind>)
        requires
            old(self).wf(),
        ensures
            r is Ok ==> final(self).wf(),
            final(self).snake.direction == after_input(old(self).snake.direction, input),
            !old(self).snake.ahead_is_interior_towards(final(self).snake.direction) ==> r == Err::<
                (),
                CollisionKind,
            >(CollisionKind::OutOfBounds),
            old(self).snake.ahead_is_interior_towards(final(self).snake.direction) && !no_overlap(
                old(self).snake.moved_body_towards(final(self).snake.direction),
            ) ==> r == Err::<(), CollisionKind>(CollisionKind::SelfCollision),
            old(self).snake.ahead_is_interior_towards(final(self).snake.direction) && no_overlap(
                old(self).snake.moved_body_towards(final(self).snake.direction),
            ) ==> r == Ok::<(), CollisionKind>(()),
            r is Err ==> final(self).snake.body@ == old(self).snake.body@.drop_last(),
            r is Err ==> final(self).fruit == old(self).fruit,
            r is Err ==> final(self).field == old(self).field,
            r is Ok ==> Game::composed(
                old(self).snake.moved_body_towards(final(self).snake.direction),
                old(self).fruit,
                *final(self),
            ),
            final(self).snake.skin == old(self).snake.skin,
            final(self).fruit.skin == old(self).fruit.skin,
            final(self).field.width == old(self).field.width,
            final(self).field.height == old(self).field.height,
            final(self).field.wall_tile == old(self).field.wall_tile,
            final(self).field.float_tile == old(self).field.float_tile,
    {
        match input {
            Some(d) => self.snake.set_direction(d),
            None => {},
        }
        let r = self.snake.move_body();
        match r {
            Ok(()) => self.compose(),
            Err(_) => {},
        }
        r
    }
}

/// Eating a fruit: when the head stands on the fruit, the frame composed from
/// that snake holds a snake one segment longer and a fruit inside the wall
/// border.
pub proof fn lemma_fruit_eaten_grows_by_one(body: Seq<SnakeBody>, fruit: Fruit, post: Game)
    requires
        post.wf(),
        Game::composed(body, fruit, post),
        eats(body, fruit),
        2 <= body.len() < usize::MAX,
    ensures
        post.snake.length == body.len() + 1,
        post.snake.body@.len() == body.len() + 1,
        is_interior(
            post.fruit.x as int,
            post.fruit.y as int,
            post.field.width as int,
            post.field.height as int,
        ),
{
}

} // verus!
