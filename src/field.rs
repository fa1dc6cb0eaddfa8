use vstd::prelude::*;

verus! {

/// What a cell of a width x height grid holds right after a reset: the wall
/// glyph on the border, the floor glyph inside it.
pub open spec fn base_tile(x: int, y: int, width: int, height: int, wall: char, floor: char) -> char {
    if x == 0 || y == 0 || x == width - 1 || y == height - 1 {
        wall
    } else {
        floor
    }
}

/// The control sequence that clears the screen and moves the cursor home.
pub open spec fn clear_screen() -> Seq<char> {
    seq!['\x1B', '[', '2', 'J', '\x1B', '[', 'H']
}

/// The rows, in order, each followed by a carriage return and a line feed.
pub open spec fn rows_text(rows: Seq<Seq<char>>) -> Seq<char>
    decreases rows.len(),
{
    if rows.len() == 0 {
        Seq::empty()
    } else {
        rows_text(rows.drop_last()) + rows.last() + seq!['\r', '\n']
    }
}

/// The rectangular playing field: a buffer of glyphs, one row per line.
pub struct GameField {
    pub width: usize,
    pub height: usize,
    pub tiles: Vec<Vec<char>>,
    pub wall_tile: char,
    pub float_tile: char,
}

impl GameField {
    /// The buffer has `height` rows of `width` glyphs each.
    pub open spec fn wf(&self) -> bool {
        &&& self.tiles@.len() == self.height
        &&& forall|y: int| 0 <= y < self.height ==> (#[trigger] self.tiles@[y])@.len() == self.width
    }

    /// The glyph at column `x` of row `y`.
    pub open spec fn cell(&self, x: int, y: int) -> char {
        self.tiles@[y]@[x]
    }

    /// Every cell holds what a reset puts there: the wall glyph on the border,
    /// the floor glyph inside it.
    pub open spec fn is_reset(&self) -> bool {
        forall|x: int, y: int|
            0 <= x < self.width && 0 <= y < self.height ==> #[trigger] self.cell(x, y) == base_tile(
                x,
                y,
                self.width as int,
                self.height as int,
                self.wall_tile,
                self.float_tile,
            )
    }

    /// The buffer as rows of glyphs.
    pub open spec fn rows(&self) -> Seq<Seq<char>> {
        self.tiles@.map_values(|r: Vec<char>| r@)
    }

    /// A field of the given size and glyphs whose buffer is still empty.
    pub fn new(width: usize, height: usize, wall_tile: char, float_tile: char) -> (r: GameField)
        ensures
            r.width == width,
            r.height == height,
            r.wall_tile == wall_tile,
            r.float_tile == float_tile,
            r.tiles@.len() == 0,
    {
        GameField { width, height, tiles: Vec::new(), wall_tile, float_tile }
    }

    /// Allocates the buffer, `height` rows of `width` blanks.
    pub fn init(&mut self)
        requires
            old(self).tiles@.len() == 0,
        ensures
            final(self).wf(),
            forall|x: int, y: int|
                0 <= x < final(self).width && 0 <= y < final(self).height ==> #[trigger] final(self).cell(x, y) == ' ',
            final(self).width == old(self).width,
            final(self).height == old(self).height,
            final(self).wall_tile == old(self).wall_tile,
            final(self).float_tile == old(self).float_tile,
    {
        let mut y: usize = 0;
        while y < self.height
            invariant
                0 <= y <= self.height,
                self.width == old(self).width,
                self.height == old(self).height,
                self.wall_tile == old(self).wall_tile,
                self.float_tile == old(self).float_tile,
                self.tiles@.len() == y,
                forall|r: int| 0 <= r < y ==> (#[trigger] self.tiles@[r])@.len() == self.width,
                forall|x: int, r: int|
                    0 <= x < self.width && 0 <= r < y ==> #[trigger] self.tiles@[r]@[x] == ' ',
            decreases self.height - y,
        {
            let mut line: Vec<char> = Vec::new();
            let mut x: usize = 0;
            while x < self.width
                invariant
                    0 <= x <= self.width,
                    line@.len() == x,
                    forall|k: int| 0 <= k < x ==> #[trigger] line@[k] == ' ',
                decreases self.width - x,
            {
                line.push(' ');
                x = x + 1;
            }
            self.tiles.push(line);
            y = y + 1;
        }
    }

    /// Writes `tile` into the cell at column `x` of row `y`.
    pub fn tile_update(&mut self, x: usize, y: usize, tile: char)
        requires
            old(self).wf(),
            x < old(self).width,
            y < old(self).height,
        ensures
            final(self).wf(),
            final(self).tiles@ == old(self).tiles@.update(y as int, final(self).tiles@[y as int]),
            final(self).tiles@[y as int]@ == old(self).tiles@[y as int]@.update(x as int, tile),
            forall|i: int, j: int|
                0 <= i < final(self).width && 0 <= j < final(self).height ==> #[trigger] final(self).cell(i, j) == (if i == x && j == y {
                    tile
                } else {
                    old(self).cell(i, j)
                }),
            final(self).width == old(self).width,
            final(self).height == old(self).height,
            final(self).wall_tile == old(self).wall_tile,
            final(self).float_tile == old(self).float_tile,
    {
        self.tiles[y][x] = tile;
    }

    /// Fills every cell with the floor glyph, then the border with the wall
    /// glyph.
    pub fn tile_reset(&mut self)
        requires
            old(self).wf(),
        ensures
            final(self).wf(),
            final(self).is_reset(),
            final(self).width == old(self).width,
            final(self).height == old(self).height,
            final(self).wall_tile == old(self).wall_tile,
            final(self).float_tile == old(self).float_tile,
    {
        let w: usize = self.width;
        let h: usize = self.height;
        let mut y: usize = 0;
        while y < h
            invariant
                0 <= y <= h,
                self.wf(),
                w == self.width,
                h == self.height,
                self.width == old(self).width,
                self.height == old(self).height,
                self.wall_tile == old(self).wall_tile,
                self.float_tile == old(self).float_tile,
                forall|i: int, j: int|
                    0 <= i < w && 0 <= j < y ==> #[trigger] self.cell(i, j) == base_tile(
                        i,
                        j,
                        w as int,
                        h as int,
                        self.wall_tile,
                        self.float_tile,
                    ),
            decreases h - y,
        {
            let mut x: usize = 0;
            while x < w
                invariant
                    0 <= x <= w,
                    0 <= y < h,
                    self.wf(),
                    w == self.width,
                    h == self.height,
                    self.width == old(self).width,
                    self.height == old(self).height,
                    self.wall_tile == old(self).wall_tile,
                    self.float_tile == old(self).float_tile,
                    forall|i: int, j: int|
                        0 <= i < w && 0 <= j < y ==> #[trigger] self.cell(i, j) == base_tile(
                            i,
                            j,
                            w as int,
                            h as int,
                            self.wall_tile,
                            self.float_tile,
                        ),
                    forall|i: int|
                        0 <= i < x ==> #[trigger] self.cell(i, y as int) == base_tile(
                            i,
                            y as int,
                            w as int,
                            h as int,
                            self.wall_tile,
                            self.float_tile,
                        ),
                decreases w - x,
            {
                let tile = if y == 0 || y == h - 1 || x == 0 || x == w - 1 {
                    self.wall_tile
                } else {
                    self.float_tile
                };
                self.tile_update(x, y, tile);
                x = x + 1;
            }
            y = y + 1;
        }
    }

    /// The text of one frame: the clear-screen sequence, then each row of the
    /// buffer followed by a carriage return and a line feed.
    pub fn frame(&self) -> (r: Vec<char>)
        requires
            self.wf(),
        ensures
            r@ == clear_screen() + rows_text(self.rows()),
    {
        let mut out: Vec<char> = Vec::new();
        out.push('\x1B');
        out.push('[');
        out.push('2');
        out.push('J');
        out.push('\x1B');
        out.push('[');
        out.push('H');
        let ghost rows = self.rows();
        assert(out@ =~= clear_screen() + rows_text(rows.take(0)));
        let mut y: usize = 0;
        while y < self.height
            invariant
                0 <= y <= self.height,
                self.wf(),
                rows == self.rows(),
                out@ == clear_screen() + rows_text(rows.take(y as int)),
            decreases self.height - y,
        {
            let line = &self.tiles[y];
            assert(rows[y as int] == line@);
            let mut x: usize = 0;
            while x < self.width
                invariant
                    0 <= x <= self.width,
                    0 <= y < self.height,
                    self.wf(),
                    rows == self.rows(),
                    line@ == rows[y as int],
                    line@.len() == self.width,
                    out@ == clear_screen() + rows_text(rows.take(y as int)) + line@.take(x as int),
                decreases self.width - x,
            {
                out.push(line[x]);
                assert(line@.take(x + 1) =~= line@.take(x as int).push(line@[x as int]));
                x = x + 1;
            }
            out.push('\r');
            out.push('\n');
            assert(line@.take(x as int) =~= line@);
            assert(rows.take(y + 1).drop_last() =~= rows.take(y as int));
            assert(out@ =~= clear_screen() + rows_text(rows.take(y + 1)));
            y = y + 1;
        }
        assert(rows.take(y as int) =~= rows);
        out
    }
}

/// Resetting is idempotent: two reset buffers of the same size and glyphs are
/// identical, so a second reset gives the buffer the first one gave, and
/// nothing drawn between them remains.
pub proof fn lemma_reset_idempotent(a: GameField, b: GameField)
    requires
        a.wf(),
        b.wf(),
        a.is_reset(),
        b.is_reset(),
        a.width == b.width,
        a.height == b.height,
        a.wall_tile == b.wall_tile,
        a.float_tile == b.float_tile,
    ensures
        a.rows() == b.rows(),
{
    assert forall|y: int| 0 <= y < a.height implies #[trigger] a.rows()[y] == b.rows()[y] by {
        assert forall|x: int| 0 <= x < a.width implies a.rows()[y][x] == b.rows()[y][x] by {
            assert(a.cell(x, y) == b.cell(x, y));
        }
        assert(a.rows()[y] =~= b.rows()[y]);
    }
    assert(a.rows() =~= b.rows());
}

} // verus!
