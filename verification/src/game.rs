//! The game: a snake on a bordered arena, a food cell, and the timed
//! update/restart state machine. An external driver feeds key events and
//! time deltas (in milliseconds) and polls the read-only accessors to render.

use vstd::prelude::*;

use crate::snake::{cell_at, next_cell, overlaps_except_tail, Block, Direction, Snake};
use rand::Rng;

verus! {

/// Milliseconds between automatic movement ticks.
pub const MOVING_PERIOD_MS: u64 = 100;

/// Milliseconds the game waits in the game-over state before restarting.
pub const RESTART_TIME_MS: u64 = 1000;

/// How many random candidates one food spawn examines before giving up until
/// the next tick (rejection sampling over an almost-empty arena all but
/// always succeeds on the first few draws).
pub const FOOD_RETRY_LIMIT: usize = 1000;

/// A logical key event: one of the four direction keys, or any other key
/// (other keys are ignored by the game).
#[derive(Copy, Clone, PartialEq, Eq, Structural, Debug)]
pub enum Key {
    Up,
    Down,
    Left,
    Right,
    Other,
}

/// The direction a key maps to, if any.
pub open spec fn key_dir(key: Key) -> Option<Direction> {
    match key {
        Key::Up => Some(Direction::Up),
        Key::Down => Some(Direction::Down),
        Key::Left => Some(Direction::Left),
        Key::Right => Some(Direction::Right),
        Key::Other => None,
    }
}

/// The mathematical state of a game: the snake's cells (head first), its
/// heading, the cell its last move dropped, the food, the arena, the
/// game-over flag, and the elapsed-time accumulator in milliseconds.
#[verifier::ext_equal]
pub ghost struct GameView {
    pub body: Seq<Block>,
    pub dir: Direction,
    pub last_removed: Option<Block>,
    pub food_exists: bool,
    pub food_x: int,
    pub food_y: int,
    pub width: int,
    pub height: int,
    pub game_over: bool,
    pub waiting_time: int,
}

/// A cell the game can hold: nonnegative coordinates with headroom below
/// `i32::MAX`, so a prospective next head always fits in an `i32`.
pub open spec fn cell_ok(b: Block) -> bool {
    &&& 0 <= b.x < i32::MAX
    &&& 0 <= b.y < i32::MAX
}

/// What every reachable game state satisfies: a non-empty body of in-range
/// cells, arena dimensions that fit their machine integers, and — whenever
/// the food is away — an arena big enough that a spawn can draw from a
/// non-empty range.
pub open spec fn view_wf(g: GameView) -> bool {
    &&& g.body.len() >= 1
    &&& (forall|i: int| 0 <= i < g.body.len() ==> cell_ok(#[trigger] g.body[i]))
    &&& i32::MIN < g.width <= i32::MAX
    &&& i32::MIN < g.height <= i32::MAX
    &&& (!g.food_exists ==> g.width >= 3 && g.height >= 3)
}

/// The fixed state the game starts in and restarts to: a fresh three-cell
/// snake with its head at (4, 2) and tail at (2, 2) heading Right, food at
/// (6, 4), running, accumulator at zero.
pub open spec fn initial_view(width: int, height: int) -> GameView {
    GameView {
        body: seq![Block { x: 4, y: 2 }, Block { x: 3, y: 2 }, Block { x: 2, y: 2 }],
        dir: Direction::Right,
        last_removed: None,
        food_exists: true,
        food_x: 6,
        food_y: 4,
        width,
        height,
        game_over: false,
        waiting_time: 0,
    }
}

/// The heading a movement tick uses: the forced direction if one is given,
/// the current heading otherwise.
pub open spec fn tick_dir(g: GameView, dir: Option<Direction>) -> Direction {
    match dir {
        Some(d) => d,
        None => g.dir,
    }
}

/// The coordinates the snake's head would move to on a movement tick.
pub open spec fn tick_next_cell(g: GameView, dir: Option<Direction>) -> (int, int) {
    next_cell(g.body[0], tick_dir(g, dir))
}

/// Whether the prospective next head position keeps the snake alive: it must
/// not overlap the body (tail cell excluded, since the tail vacates on the
/// same move) and must lie strictly inside the border.
pub open spec fn alive_after(g: GameView, dir: Option<Direction>) -> bool {
    let nc = tick_next_cell(g, dir);
    &&& !overlaps_except_tail(g.body, nc.0, nc.1)
    &&& 0 < nc.0 < g.width - 1
    &&& 0 < nc.1 < g.height - 1
}

/// The state right after the snake advances one cell (before the eating
/// check): new head pushed, tail cell dropped and remembered.
pub open spec fn move_spec(g: GameView, dir: Option<Direction>) -> GameView {
    GameView {
        body: seq![cell_at(tick_next_cell(g, dir))] + g.body.drop_last(),
        dir: tick_dir(g, dir),
        last_removed: Some(g.body.last()),
        ..g
    }
}

/// The state after the eating check that follows a move: when the food sits
/// under the new head, the food is cleared and the dropped tail cell is
/// re-appended, growing the body by one.
pub open spec fn eat_spec(g: GameView) -> GameView {
    if g.food_exists && g.food_x == g.body[0].x && g.food_y == g.body[0].y {
        GameView { body: g.body.push(g.last_removed->0), food_exists: false, ..g }
    } else {
        g
    }
}

/// The state after one movement tick with direction choice `dir`: if the
/// prospective head cell is safe the snake advances (growing and clearing the
/// food when the new head lands on it); otherwise the game is over and
/// nothing else changes. Either way the accumulator restarts.
pub open spec fn step_spec(g: GameView, dir: Option<Direction>) -> GameView {
    if alive_after(g, dir) {
        with_waiting(eat_spec(move_spec(g, dir)), 0)
    } else {
        GameView { game_over: true, waiting_time: 0, ..g }
    }
}

/// The state after a key press: ignored while the game is over, when the key
/// maps to no direction, and when the candidate direction is the exact
/// reverse of the current heading; otherwise one movement tick with the
/// candidate forced.
pub open spec fn key_step_spec(g: GameView, key: Key) -> GameView {
    if g.game_over {
        g
    } else {
        match key_dir(key) {
            Option::None => g,
            Option::Some(d) => if d == g.dir.opposite_spec() {
                g
            } else {
                step_spec(g, Some(d))
            },
        }
    }
}

/// `g` with its accumulator set to `w`.
pub open spec fn with_waiting(g: GameView, w: int) -> GameView {
    GameView { waiting_time: w, ..g }
}

/// `g` with its food fields set.
pub open spec fn with_food(g: GameView, fe: bool, x: int, y: int) -> GameView {
    GameView { food_exists: fe, food_x: x, food_y: y, ..g }
}

/// The accumulator after `delta` more milliseconds, saturating at `u64::MAX`.
pub open spec fn accum(w: int, delta: int) -> int {
    if w + delta > u64::MAX {
        u64::MAX as int
    } else {
        w + delta
    }
}

/// How one food spawn may change the state: only the food fields move. When
/// the spawn succeeds, the food lies in the drawn range `[1, width] x
/// [1, height]` and off the snake's body (tail cell excluded); when no free
/// cell was drawn — or no spawn was due — nothing changes.
pub open spec fn spawned_from(g: GameView, g2: GameView) -> bool {
    &&& g2 == with_food(g, g2.food_exists, g2.food_x, g2.food_y)
    &&& (g.food_exists ==> g2 == g)
    &&& (!g.food_exists && g2.food_exists ==> 1 <= g2.food_x <= g.width && 1 <= g2.food_y
        <= g.height && !overlaps_except_tail(g.body, g2.food_x, g2.food_y))
    &&& (!g2.food_exists ==> g2 == g)
}

/// Law (directional reversal rejection): while the game runs, a key whose
/// direction is the exact reverse of the current heading changes nothing —
/// neither the heading nor the body nor anything else.
pub proof fn lemma_reversal_rejected(g: GameView, key: Key)
    requires
        !g.game_over,
        key_dir(key) == Some(g.dir.opposite_spec()),
    ensures
        key_step_spec(g, key) == g,
{
}

/// Law (collision ends the game): when the prospective head cell is unsafe,
/// the movement tick sets the game-over flag and restarts the accumulator,
/// and touches nothing else — the body, heading, dropped cell, and food stay
/// exactly as they were.
pub proof fn lemma_collision_game_over(g: GameView, dir: Option<Direction>)
    requires
        !alive_after(g, dir),
    ensures
        step_spec(g, dir).game_over,
        step_spec(g, dir).body == g.body,
        step_spec(g, dir).dir == g.dir,
        step_spec(g, dir).last_removed == g.last_removed,
        step_spec(g, dir).food_exists == g.food_exists,
        step_spec(g, dir).food_x == g.food_x,
        step_spec(g, dir).food_y == g.food_y,
{
}

/// Law (eating grows): when the tick is safe and the food sits exactly on the
/// prospective head cell, that one tick moves the head onto the food cell,
/// clears the food, and grows the body by exactly one cell.
pub proof fn lemma_food_eat_growth(g: GameView, dir: Option<Direction>)
    requires
        view_wf(g),
        alive_after(g, dir),
        g.food_exists,
        g.food_x == tick_next_cell(g, dir).0,
        g.food_y == tick_next_cell(g, dir).1,
    ensures
        step_spec(g, dir).body.len() == g.body.len() + 1,
        !step_spec(g, dir).food_exists,
        step_spec(g, dir).body[0].x == g.food_x,
        step_spec(g, dir).body[0].y == g.food_y,
        step_spec(g, dir).game_over == g.game_over,
{
    let nc = tick_next_cell(g, dir);
    assert(0 < nc.0 < g.width - 1);
    assert(cell_at(nc).x == g.food_x);
    assert(cell_at(nc).y == g.food_y);
}

/// The running game. Mutated only through `key_pressed` and `update`; read
/// back through the accessors a renderer polls once per frame.
pub struct Game {
    snake: Snake,
    food_exists: bool,
    food_x: i32,
    food_y: i32,
    width: i32,
    height: i32,
    game_over: bool,
    waiting_time: u64,
}

impl View for Game {
    type V = GameView;

    closed spec fn view(&self) -> GameView {
        GameView {
            body: self.snake@,
            dir: self.snake.direction_spec(),
            last_removed: self.snake.last_removed(),
            food_exists: self.food_exists,
            food_x: self.food_x as int,
            food_y: self.food_y as int,
            width: self.width as int,
            height: self.height as int,
            game_over: self.game_over,
            waiting_time: self.waiting_time as int,
        }
    }
}

/// Relies on `rand::thread_rng` and `rand::Rng::gen_range`: a draw over a
/// non-empty inclusive range returns a value inside it; which value comes
/// back depends on chance, so nothing more is promised.
#[verifier::external_body]
fn random_coord(low: i32, high: i32) -> (r: i32)
    requires
        low <= high,
    ensures
        low <= r <= high,
{
    rand::thread_rng().gen_range(low..=high)
}

impl Game {
    /// Every reachable game state is well formed: see `view_wf`.
    pub open spec fn wf(&self) -> bool {
        view_wf(self@)
    }

    /// A fresh game on a `width` by `height` arena.
    pub fn new(width: i32, height: i32) -> (g: Game)
        requires
            width > i32::MIN,
            height > i32::MIN,
        ensures
            g.wf(),
            g@ == initial_view(width as int, height as int),
    {
        let game = Game {
            snake: Snake::new(2, 2),
            waiting_time: 0,
            food_exists: true,
            food_x: 6,
            food_y: 4,
            width,
            height,
            game_over: false,
        };
        proof {
            assert(game@.body =~= initial_view(width as int, height as int).body);
            assert(game@ =~= initial_view(width as int, height as int));
            assert forall|i: int| 0 <= i < game@.body.len() implies cell_ok(
                #[trigger] game@.body[i],
            ) by {
                assert(game@.body[0].x == 4);
                assert(game@.body[1].x == 3);
                assert(game@.body[2].x == 2);
            }
        }
        game
    }

    /// Applies one key press: see `key_step_spec`. In particular, while the
    /// game runs, a key opposite to the current heading is rejected and
    /// changes nothing.
    pub fn key_pressed(&mut self, key: Key)
        requires
            old(self).wf(),
        ensures
            final(self).wf(),
            final(self)@ == key_step_spec(old(self)@, key),
    {
        if self.game_over {
            return;
        }
        let dir: Option<Direction> = match key {
            Key::Up => Some(Direction::Up),
            Key::Down => Some(Direction::Down),
            Key::Left => Some(Direction::Left),
            Key::Right => Some(Direction::Right),
            Key::Other => None,
        };
        let d: Direction = match dir {
            Some(d) => d,
            None => { return; },
        };
        if d == self.snake.head_direction().opposite() {
            return;
        }
        self.update_snake(Some(d));
    }

    /// Advances time by `delta_ms` milliseconds: the accumulator grows
    /// (saturating); a game that is over restarts to the fixed initial state
    /// once the accumulator passes `RESTART_TIME_MS`; a running game spawns
    /// food if the food is away, and performs one automatic movement tick
    /// once the accumulator passes `MOVING_PERIOD_MS`.
    pub fn update(&mut self, delta_ms: u64)
        requires
            old(self).wf(),
        ensures
            final(self).wf(),
            final(self)@.width == old(self)@.width,
            final(self)@.height == old(self)@.height,
            old(self)@.game_over && accum(old(self)@.waiting_time, delta_ms as int)
                > RESTART_TIME_MS ==> final(self)@ == initial_view(
                old(self)@.width,
                old(self)@.height,
            ),
            old(self)@.game_over && accum(old(self)@.waiting_time, delta_ms as int)
                <= RESTART_TIME_MS ==> final(self)@ == with_waiting(
                old(self)@,
                accum(old(self)@.waiting_time, delta_ms as int),
            ),
            !old(self)@.game_over && old(self)@.food_exists && accum(
                old(self)@.waiting_time,
                delta_ms as int,
            ) <= MOVING_PERIOD_MS ==> final(self)@ == with_waiting(
                old(self)@,
                accum(old(self)@.waiting_time, delta_ms as int),
            ),
            !old(self)@.game_over && old(self)@.food_exists && accum(
                old(self)@.waiting_time,
                delta_ms as int,
            ) > MOVING_PERIOD_MS ==> final(self)@ == step_spec(
                with_waiting(old(self)@, accum(old(self)@.waiting_time, delta_ms as int)),
                None,
            ),
            !old(self)@.game_over ==> exists|mid: GameView|
                #[trigger] spawned_from(
                    with_waiting(old(self)@, accum(old(self)@.waiting_time, delta_ms as int)),
                    mid,
                ) && final(self)@ == (if accum(old(self)@.waiting_time, delta_ms as int)
                    > MOVING_PERIOD_MS {
                    step_spec(mid, None)
                } else {
                    mid
                }),
    {
        let wt: u64 = if delta_ms > u64::MAX - self.waiting_time {
            u64::MAX
        } else {
            self.waiting_time + delta_ms
        };
        self.waiting_time = wt;
        proof {
            assert(wt as int == accum(old(self)@.waiting_time, delta_ms as int));
            assert(self@ =~= with_waiting(
                old(self)@,
                accum(old(self)@.waiting_time, delta_ms as int),
            ));
        }
        if self.game_over {
            if wt > RESTART_TIME_MS {
                self.restart();
            }
            return;
        }
        if !self.food_exists {
            self.add_food();
        }
        let ghost mid = self@;
        if wt > MOVING_PERIOD_MS {
            self.update_snake(None);
        }
        proof {
            assert(spawned_from(
                with_waiting(old(self)@, accum(old(self)@.waiting_time, delta_ms as int)),
                mid,
            ));
        }
    }

    /// The snake's body cells, head first (renderer view).
    pub fn snake_body(&self) -> (r: Vec<Block>)
        ensures
            r@ == self@.body,
    {
        self.snake.body_cells()
    }

    /// Whether the food is currently on the arena.
    pub fn food_exists(&self) -> (r: bool)
        ensures
            r == self@.food_exists,
    {
        self.food_exists
    }

    /// The food cell's position (meaningful while the food exists).
    pub fn food_position(&self) -> (r: (i32, i32))
        ensures
            r.0 == self@.food_x && r.1 == self@.food_y,
    {
        (self.food_x, self.food_y)
    }

    /// The arena's (width, height).
    pub fn size(&self) -> (r: (i32, i32))
        ensures
            r.0 == self@.width && r.1 == self@.height,
    {
        (self.width, self.height)
    }

    /// Whether play has ended (the game restarts by itself after
    /// `RESTART_TIME_MS`).
    pub fn is_game_over(&self) -> (r: bool)
        ensures
            r == self@.game_over,
    {
        self.game_over
    }

    /// After a move, eats any food under the new head: see `eat_spec`.
    fn check_eating(&mut self)
        requires
            old(self)@.body.len() >= 1,
            old(self)@.last_removed is Some,
        ensures
            final(self)@ == eat_spec(old(self)@),
    {
        let (head_x, head_y): (i32, i32) = self.snake.head_position();
        if self.food_exists && self.food_x == head_x && self.food_y == head_y {
            self.food_exists = false;
            self.snake.restore_tail();
            proof {
                assert(self@ =~= eat_spec(old(self)@));
            }
        }
    }

    /// Whether the snake survives a movement tick toward `dir`: the
    /// prospective head cell must not overlap the body (tail excluded) and
    /// must lie strictly inside the border.
    fn check_if_snake_alive(&self, dir: Option<Direction>) -> (r: bool)
        requires
            self.wf(),
        ensures
            r == alive_after(self@, dir),
    {
        proof {
            assert(cell_ok(self@.body[0]));
        }
        let (next_x, next_y): (i32, i32) = self.snake.next_head(dir);
        if self.snake.overlap_tail(next_x, next_y) {
            return false;
        }
        next_x > 0 && next_y > 0 && next_x < self.width - 1 && next_y < self.height - 1
    }

    /// Spawns the food at a random free cell: draws candidates from
    /// `[1, width] x [1, height]` until one does not overlap the snake (tail
    /// cell excluded). The draws per call are bounded by `FOOD_RETRY_LIMIT`;
    /// if every draw collides, the food stays away until the next tick tries
    /// again.
    #[verifier::loop_isolation(false)]
    fn add_food(&mut self)
        requires
            old(self).wf(),
            !old(self)@.food_exists,
        ensures
            final(self).wf(),
            spawned_from(old(self)@, final(self)@),
    {
        let mut tries: usize = 0;
        while tries < FOOD_RETRY_LIMIT
            invariant
                *self == *old(self),
            decreases FOOD_RETRY_LIMIT - tries,
        {
            let new_x: i32 = random_coord(1, self.width);
            let new_y: i32 = random_coord(1, self.height);
            if !self.snake.overlap_tail(new_x, new_y) {
                self.food_x = new_x;
                self.food_y = new_y;
                self.food_exists = true;
                proof {
                    assert(self@ =~= with_food(old(self)@, true, new_x as int, new_y as int));
                }
                return;
            }
            tries = tries + 1;
        }
    }

    /// One movement tick: advance or die, then restart the accumulator. See
    /// `step_spec`.
    fn update_snake(&mut self, dir: Option<Direction>)
        requires
            old(self).wf(),
            !old(self)@.game_over,
        ensures
            final(self).wf(),
            final(self)@ == step_spec(old(self)@, dir),
    {
        if self.check_if_snake_alive(dir) {
            self.snake.move_forward(dir);
            proof {
                assert(self@ =~= move_spec(old(self)@, dir));
            }
            self.check_eating();
        } else {
            self.game_over = true;
        }
        self.waiting_time = 0;
        proof {
            let g = old(self)@;
            if alive_after(g, dir) {
                assert(self@ =~= with_waiting(eat_spec(move_spec(g, dir)), 0));
                let nc = tick_next_cell(g, dir);
                assert(cell_ok(cell_at(nc)));
                assert forall|i: int| 0 <= i < self@.body.len() implies cell_ok(
                    #[trigger] self@.body[i],
                ) by {
                    if i >= 1 {
                        if i <= g.body.len() - 1 {
                            assert(self@.body[i] == g.body[i - 1]);
                        } else {
                            assert(self@.body[i] == g.body[g.body.len() - 1]);
                        }
                    }
                }
            } else {
                assert(self@ =~= step_spec(g, dir));
            }
        }
    }

    /// Resets to the fixed initial state on the same arena.
    fn restart(&mut self)
        requires
            old(self).wf(),
        ensures
            final(self).wf(),
            final(self)@ == initial_view(old(self)@.width, old(self)@.height),
    {
        self.snake = Snake::new(2, 2);
        self.waiting_time = 0;
        self.food_exists = true;
        self.food_x = 6;
        self.food_y = 4;
        self.game_over = false;
        proof {
            assert(self@.body =~= initial_view(old(self)@.width, old(self)@.height).body);
            assert(self@ =~= initial_view(old(self)@.width, old(self)@.height));
            assert forall|i: int| 0 <= i < self@.body.len() implies cell_ok(
                #[trigger] self@.body[i],
            ) by {
                assert(self@.body[0].x == 4);
                assert(self@.body[1].x == 3);
                assert(self@.body[2].x == 2);
            }
        }
    }
}

} // verus!
