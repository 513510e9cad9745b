//! The snake: an ordered body of grid cells (head first), a heading, and the
//! most recently dropped tail cell, kept so that eating can regrow the tail.

use vstd::prelude::*;

verus! {

/// The four axis-aligned headings of the snake.
#[derive(Copy, Clone, PartialEq, Eq, Structural, Debug)]
pub enum Direction {
    Up,
    Down,
    Left,
    Right,
}

impl Direction {
    /// The reverse of a heading, used to forbid 180-degree turns.
    pub open spec fn opposite_spec(self) -> Direction {
        match self {
            Direction::Up => Direction::Down,
            Direction::Down => Direction::Up,
            Direction::Left => Direction::Right,
            Direction::Right => Direction::Left,
        }
    }

    /// Returns the opposite direction.
    pub fn opposite(&self) -> (r: Direction)
        ensures
            r == self.opposite_spec(),
    {
        match *self {
            Direction::Up => Direction::Down,
            Direction::Down => Direction::Up,
            Direction::Left => Direction::Right,
            Direction::Right => Direction::Left,
        }
    }
}

/// One grid cell of the arena, identified by its (x, y) position.
#[derive(Copy, Clone, PartialEq, Eq, Structural, Debug)]
pub struct Block {
    pub x: i32,
    pub y: i32,
}

/// The coordinates one step from `h` in direction `d`.
pub open spec fn next_cell(h: Block, d: Direction) -> (int, int) {
    match d {
        Direction::Up => (h.x as int, h.y - 1),
        Direction::Down => (h.x as int, h.y + 1),
        Direction::Left => (h.x - 1, h.y as int),
        Direction::Right => (h.x + 1, h.y as int),
    }
}

/// The cell at integer coordinates `p` (meaningful when they fit in `i32`).
pub open spec fn cell_at(p: (int, int)) -> Block {
    Block { x: p.0 as i32, y: p.1 as i32 }
}

/// Whether (x, y) matches an occupied body cell other than the current tail
/// cell (the last element). The tail cell is about to be vacated on the next
/// move, so a candidate position landing exactly on it is not a collision.
pub open spec fn overlaps_except_tail(body: Seq<Block>, x: int, y: int) -> bool {
    exists|i: int| 0 <= i < body.len() - 1 && body[i].x == x && body[i].y == y
}

/// Law: every occupied cell except the current tail registers as an overlap.
pub proof fn lemma_overlap_hits_non_tail(body: Seq<Block>, i: int)
    requires
        0 <= i < body.len() - 1,
    ensures
        overlaps_except_tail(body, body[i].x as int, body[i].y as int),
{
    assert(0 <= i < body.len() - 1 && body[i].x == body[i].x as int && body[i].y == body[i].y
        as int);
}

/// Law: the current tail cell itself is not an overlap, as long as no earlier
/// body cell occupies the same position.
pub proof fn lemma_tail_cell_not_overlap(body: Seq<Block>)
    requires
        body.len() >= 1,
        forall|i: int| 0 <= i < body.len() - 1 ==> body[i] != body.last(),
    ensures
        !overlaps_except_tail(body, body.last().x as int, body.last().y as int),
{
    if overlaps_except_tail(body, body.last().x as int, body.last().y as int) {
        let i = choose|i: int|
            0 <= i < body.len() - 1 && body[i].x == body.last().x as int && body[i].y
                == body.last().y as int;
        assert(body[i] == body.last());
    }
}

/// A snake: the body cells in order, head at index 0, tail last.
pub struct Snake {
    direction: Direction,
    body: Vec<Block>,
    tail: Option<Block>,
}

impl View for Snake {
    type V = Seq<Block>;

    closed spec fn view(&self) -> Seq<Block> {
        self.body@
    }
}

impl Snake {
    /// The current heading; it changes only on a successful move.
    pub closed spec fn direction_spec(&self) -> Direction {
        self.direction
    }

    /// The cell most recently dropped from the tail end, `None` before the
    /// first move. Growth re-appends it.
    pub closed spec fn last_removed(&self) -> Option<Block> {
        self.tail
    }

    /// A snake always has at least one body cell.
    pub open spec fn wf(&self) -> bool {
        self@.len() >= 1
    }

    /// The coordinates the head would move to if the heading became `dir`
    /// (or stayed as it is, if `dir` is `None`).
    pub open spec fn next_head_spec(&self, dir: Option<Direction>) -> (int, int) {
        next_cell(
            self@[0],
            match dir {
                Some(d) => d,
                None => self.direction_spec(),
            },
        )
    }

    /// Builds the initial three-cell horizontal body with the head at
    /// (x + 2, y) and the tail at (x, y), heading Right.
    pub fn new(x: i32, y: i32) -> (s: Snake)
        requires
            x + 2 <= i32::MAX,
        ensures
            s.wf(),
            s@.len() == 3,
            s@[0].x == x + 2 && s@[0].y == y,
            s@[1].x == x + 1 && s@[1].y == y,
            s@[2].x == x && s@[2].y == y,
            s.direction_spec() == Direction::Right,
            s.last_removed() is None,
    {
        let mut body: Vec<Block> = Vec::new();
        body.push(Block { x: x + 2, y });
        body.push(Block { x: x + 1, y });
        body.push(Block { x, y });
        Snake { direction: Direction::Right, body, tail: None }
    }

    /// Returns the (x, y) position of the head cell.
    pub fn head_position(&self) -> (r: (i32, i32))
        requires
            self.wf(),
        ensures
            r.0 == self@[0].x && r.1 == self@[0].y,
    {
        let head_block = &self.body[0];
        (head_block.x, head_block.y)
    }

    /// Returns the current heading.
    pub fn head_direction(&self) -> (r: Direction)
        ensures
            r == self.direction_spec(),
    {
        self.direction
    }

    /// The cell the head would move to under `dir` (or the current heading
    /// when `dir` is `None`), computed without changing the snake: the result
    /// is the function `next_head_spec` of the state and argument alone, so
    /// two calls from the same state with the same argument agree.
    pub fn next_head(&self, dir: Option<Direction>) -> (r: (i32, i32))
        requires
            self.wf(),
            i32::MIN <= self.next_head_spec(dir).0 <= i32::MAX,
            i32::MIN <= self.next_head_spec(dir).1 <= i32::MAX,
        ensures
            r.0 == self.next_head_spec(dir).0,
            r.1 == self.next_head_spec(dir).1,
    {
        let (head_x, head_y) = self.head_position();
        let moving_dir = match dir {
            Some(d) => d,
            None => self.direction,
        };
        match moving_dir {
            Direction::Up => (head_x, head_y - 1),
            Direction::Down => (head_x, head_y + 1),
            Direction::Left => (head_x - 1, head_y),
            Direction::Right => (head_x + 1, head_y),
        }
    }

    /// Advances the snake one cell: sets the heading to `dir` if one is given
    /// (the caller rejects illegal reversals), pushes the new head cell, and
    /// drops the tail cell, remembering it in `last_removed`. The body length
    /// is unchanged.
    pub fn move_forward(&mut self, dir: Option<Direction>)
        requires
            old(self).wf(),
            i32::MIN <= old(self).next_head_spec(dir).0 <= i32::MAX,
            i32::MIN <= old(self).next_head_spec(dir).1 <= i32::MAX,
        ensures
            final(self).wf(),
            final(self)@.len() == old(self)@.len(),
            final(self)@ == seq![cell_at(old(self).next_head_spec(dir))] + old(
                self,
            )@.drop_last(),
            final(self).direction_spec() == (match dir {
                Some(d) => d,
                None => old(self).direction_spec(),
            }),
            final(self).last_removed() == Some(old(self)@.last()),
    {
        match dir {
            Some(d) => self.direction = d,
            None => (),
        }
        let (last_x, last_y) = self.head_position();
        let new_block = match self.direction {
            Direction::Up => Block { x: last_x, y: last_y - 1 },
            Direction::Down => Block { x: last_x, y: last_y + 1 },
            Direction::Left => Block { x: last_x - 1, y: last_y },
            Direction::Right => Block { x: last_x + 1, y: last_y },
        };
        self.body.insert(0, new_block);
        let removed_block = self.body.pop().unwrap();
        self.tail = Some(removed_block);
        proof {
            assert(self@ =~= seq![cell_at(old(self).next_head_spec(dir))] + old(
                self,
            )@.drop_last());
        }
    }

    /// Re-appends the most recently removed tail cell, growing the body by
    /// exactly one cell. May only be called after a move has recorded one.
    pub fn restore_tail(&mut self)
        requires
            old(self).last_removed() is Some,
        ensures
            final(self)@ == old(self)@.push(old(self).last_removed()->0),
            final(self)@.len() == old(self)@.len() + 1,
            final(self).direction_spec() == old(self).direction_spec(),
            final(self).last_removed() == old(self).last_removed(),
    {
        let blk = self.tail.unwrap();
        self.body.push(blk);
    }

    /// Whether (x, y) overlaps an occupied cell other than the current tail
    /// cell (see `overlaps_except_tail`).
    pub fn overlap_tail(&self, x: i32, y: i32) -> (r: bool)
        ensures
            r == overlaps_except_tail(self@, x as int, y as int),
    {
        let n = self.body.len();
        let m = if n == 0 {
            0
        } else {
            n - 1
        };
        let mut i: usize = 0;
        while i < m
            invariant
                m == (if self@.len() == 0 {
                    0int
                } else {
                    self@.len() - 1
                }),
                i <= m,
                n == self@.len(),
                forall|j: int| 0 <= j < i ==> !(self@[j].x == x && self@[j].y == y),
            decreases m - i,
        {
            let block = &self.body[i];
            if x == block.x && y == block.y {
                return true;
            }
            i = i + 1;
        }
        false
    }

    /// The body cells in order, head first: the read-only view that a
    /// renderer polls once per frame.
    pub fn body_cells(&self) -> (r: Vec<Block>)
        ensures
            r@ == self@,
    {
        let mut cells: Vec<Block> = Vec::new();
        let mut i: usize = 0;
        while i < self.body.len()
            invariant
                i <= self@.len(),
                cells@ == self@.take(i as int),
            decreases self@.len() - i,
        {
            cells.push(self.body[i]);
            proof {
                assert(self@.take(i + 1 as int) =~= self@.take(i as int).push(self@[i as int]));
            }
            i = i + 1;
        }
        proof {
            assert(self@.take(self@.len() as int) =~= self@);
        }
        cells
    }
}

} // verus!
