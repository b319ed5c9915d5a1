//! The game state machine: owns the snake, the food, the window
//! bounds, the game-over flag and the restart timer, and orchestrates
//! tick-driven movement, collision checks, eating and restart.
//!
//! Elapsed time is counted in whole milliseconds.

use vstd::prelude::*;

use rand::Rng;

use crate::snake::{
    MovementDirection, Snake, body_occupies, chosen_direction, initial_body, next_cell,
    opposite_of, tail_exclusive_overlap,
};

verus! {

/// The fixed interval between automatic forward steps.
pub const MOVING_PERIOD_MS: u64 = 100;

/// The fixed idle time after game-over before the automatic restart.
pub const RESTART_TIME_MS: u64 = 1000;

/// A cell strictly inside the playable area: the outermost ring of
/// cells is the border and touching it counts as a collision.
pub open spec fn cell_in_interior(c: (i32, i32), width: i32, height: i32) -> bool {
    0 < c.0 && c.0 < width && 0 < c.1 && c.1 < height
}

/// Everything except the waiting-time accumulator is the same in `pre`
/// and `post`.
pub open spec fn same_core(pre: Game, post: Game) -> bool {
    &&& post.body() == pre.body()
    &&& post.dir() == pre.dir()
    &&& post.saved_tail() == pre.saved_tail()
    &&& post.has_food() == pre.has_food()
    &&& post.food() == pre.food()
    &&& post.over() == pre.over()
    &&& post.width() == pre.width()
    &&& post.height() == pre.height()
}

/// A freshly placed food cell: drawn from `[1, width-1) x [1, height-1)`
/// and on no cell the snake body occupies, the tail included. The tail
/// exception belongs to head movement, not to food placement.
pub open spec fn placed_food(pre: Game, f: (i32, i32)) -> bool {
    &&& 1 <= f.0 && f.0 < pre.width() - 1
    &&& 1 <= f.1 && f.1 < pre.height() - 1
    &&& !body_occupies(pre.body(), f.0, f.1)
}

/// The state right after a restart: the initial snake and fresh food at
/// `(5, 5)`, running, timer cleared; the window keeps its bounds.
pub open spec fn restarted(post: Game, width: i32, height: i32) -> bool {
    &&& post.body() == initial_body(2, 2)
    &&& post.dir() == MovementDirection::Right
    &&& post.saved_tail() is None
    &&& post.has_food()
    &&& post.food() == (5i32, 5i32)
    &&& !post.over()
    &&& post.wait() == 0
    &&& post.width() == width
    &&& post.height() == height
}

/// The movement step relation: `post` is the state one movement step
/// after `pre` in direction `d`, taken while the recorded food cell is
/// `(fx, fy)` and the food-exists flag is `fe`. A blocked step only
/// flips the game-over flag; an unblocked one translates the body, and
/// grows it when the new head lands on the recorded food cell.
pub open spec fn step_from(
    pre: Game,
    fx: i32,
    fy: i32,
    fe: bool,
    post: Game,
    d: MovementDirection,
) -> bool {
    let nc = next_cell(pre.body()[0], d);
    &&& post.width() == pre.width()
    &&& post.height() == pre.height()
    &&& post.wait() == 0
    &&& if pre.blocked(d) {
        &&& post.over()
        &&& post.body() == pre.body()
        &&& post.dir() == pre.dir()
        &&& post.saved_tail() == pre.saved_tail()
        &&& post.has_food() == fe
        &&& post.food() == (fx, fy)
    } else {
        &&& post.over() == pre.over()
        &&& post.dir() == d
        &&& post.food() == (fx, fy)
        &&& post.saved_tail() == Some(pre.body().last())
        &&& if nc == (fx, fy) {
            &&& !post.has_food()
            &&& post.body() == seq![nc] + pre.body().drop_last() + seq![pre.body().last()]
        } else {
            &&& post.has_food() == fe
            &&& post.body() == seq![nc] + pre.body().drop_last()
        }
    }
}

/// Law: a movement step whose target head cell lies outside the open
/// interior (it touches or passes the border) transitions the game to
/// game-over and does not move the snake.
pub proof fn lemma_border_step_ends_game(
    pre: Game,
    fx: i32,
    fy: i32,
    fe: bool,
    post: Game,
    d: MovementDirection,
)
    requires
        step_from(pre, fx, fy, fe, post, d),
        !cell_in_interior(next_cell(pre.body()[0], d), pre.width(), pre.height()),
    ensures
        post.over(),
        post.body() == pre.body(),
{
}

/// Law: an unblocked movement step whose target head cell is the
/// recorded food cell clears the food-exists flag and grows the body
/// by exactly one cell.
pub proof fn lemma_eating_grows_by_one(
    pre: Game,
    fx: i32,
    fy: i32,
    fe: bool,
    post: Game,
    d: MovementDirection,
)
    requires
        pre.body().len() >= 1,
        step_from(pre, fx, fy, fe, post, d),
        !pre.blocked(d),
        next_cell(pre.body()[0], d) == (fx, fy),
    ensures
        !post.has_food(),
        post.body().len() == pre.body().len() + 1,
{
}

/// Relies on rand::Rng::gen_range (reached through rand::thread_rng):
/// it returns a value of the given half-open range, and panics only on
/// an empty range, which the precondition rules out.
#[verifier::external_body]
fn random_in_range(low: i32, high: i32) -> (r: i32)
    requires
        low < high,
    ensures
        low <= r < high,
{
    rand::thread_rng().gen_range(low..high)
}

/// How many uniform draws food placement makes before it falls back to
/// a scan of the interior.
pub const MAX_RANDOM_TRIES: u32 = 4096;

/// Every cell of the open interior is occupied by the snake body, so
/// no food can be placed.
pub open spec fn interior_full(g: Game) -> bool {
    forall|cx: i32, cy: i32|
        1 <= cx < g.width() - 1 && 1 <= cy < g.height() - 1 ==> body_occupies(g.body(), cx, cy)
}

/// Scans the open interior in column order and returns the first cell
/// the snake body does not occupy; `None` exactly when
/// every interior cell is occupied.
pub fn first_free_cell(snake: &Snake, width: i32, height: i32) -> (r: Option<(i32, i32)>)
    requires
        snake.wf(),
        2 < width,
        2 < height,
    ensures
        (match r {
            Some(c) => 1 <= c.0 < width - 1 && 1 <= c.1 < height - 1
                && !body_occupies(snake.body(), c.0, c.1) && (forall|cx: i32, cy: i32|
                1 <= cx < c.0 && 1 <= cy < height - 1 ==> body_occupies(
                    snake.body(),
                    cx,
                    cy,
                )) && (forall|cy: i32|
                1 <= cy < c.1 ==> body_occupies(snake.body(), c.0, cy)),
            None => forall|cx: i32, cy: i32|
                1 <= cx < width - 1 && 1 <= cy < height - 1 ==> body_occupies(
                    snake.body(),
                    cx,
                    cy,
                ),
        }),
{
    let mut x: i32 = 1;
    while x < width - 1
        invariant
            snake.wf(),
            2 < width,
            2 < height,
            1 <= x <= width - 1,
            forall|cx: i32, cy: i32|
                1 <= cx < x && 1 <= cy < height - 1 ==> body_occupies(
                    snake.body(),
                    cx,
                    cy,
                ),
        decreases width - 1 - x,
    {
        let mut y: i32 = 1;
        while y < height - 1
            invariant
                snake.wf(),
                2 < width,
                2 < height,
                1 <= x < width - 1,
                1 <= y <= height - 1,
                forall|cx: i32, cy: i32|
                    1 <= cx < x && 1 <= cy < height - 1 ==> body_occupies(
                        snake.body(),
                        cx,
                        cy,
                    ),
                forall|cy: i32|
                    1 <= cy < y ==> body_occupies(snake.body(), x, cy),
            decreases height - 1 - y,
        {
            if !snake.occupies(x, y) {
                return Some((x, y));
            }
            y = y + 1;
        }
        x = x + 1;
    }
    None
}

/// Picks a random cell of the open interior that the snake body does
/// not occupy, resampling on collision. The board is far
/// larger than the snake in normal play, so a draw almost always
/// lands; after a bounded number of draws the function falls back to
/// `first_free_cell`, so `None` comes exactly when no interior cell is
/// free.
pub fn random_free_cell(snake: &Snake, width: i32, height: i32) -> (r: Option<(i32, i32)>)
    requires
        snake.wf(),
        2 < width,
        2 < height,
    ensures
        (match r {
            Some(c) => 1 <= c.0 < width - 1 && 1 <= c.1 < height - 1
                && !body_occupies(snake.body(), c.0, c.1),
            None => forall|cx: i32, cy: i32|
                1 <= cx < width - 1 && 1 <= cy < height - 1 ==> body_occupies(
                    snake.body(),
                    cx,
                    cy,
                ),
        }),
{
    let mut x_food = random_in_range(1, width - 1);
    let mut y_food = random_in_range(1, height - 1);
    let mut occupied = snake.occupies(x_food, y_food);
    let mut tries: u32 = 0;
    while occupied && tries < MAX_RANDOM_TRIES
        invariant
            snake.wf(),
            2 < width,
            2 < height,
            1 <= x_food < width - 1,
            1 <= y_food < height - 1,
            occupied == body_occupies(snake.body(), x_food, y_food),
            tries <= MAX_RANDOM_TRIES,
        decreases MAX_RANDOM_TRIES - tries,
    {
        x_food = random_in_range(1, width - 1);
        y_food = random_in_range(1, height - 1);
        occupied = snake.occupies(x_food, y_food);
        tries = tries + 1;
    }
    if !occupied {
        Some((x_food, y_food))
    } else {
        first_free_cell(snake, width, height)
    }
}

pub struct Game {
    snake: Snake,
    is_food_exists: bool,
    x_food_coordinate: i32,
    y_food_coordinate: i32,
    window_width: i32,
    window_height: i32,
    is_game_over: bool,
    waiting_time: u64,
}

impl Game {
    /// The snake's body cells, head first.
    pub closed spec fn body(&self) -> Seq<(i32, i32)> {
        self.snake.body()
    }

    /// The snake's current heading.
    pub closed spec fn dir(&self) -> MovementDirection {
        self.snake.dir()
    }

    /// The cell the snake most recently vacated, if any.
    pub closed spec fn saved_tail(&self) -> Option<(i32, i32)> {
        self.snake.saved_tail()
    }

    /// Whether food is currently on the board.
    pub closed spec fn has_food(&self) -> bool {
        self.is_food_exists
    }

    /// The recorded food cell (meaningful while `has_food()`).
    pub closed spec fn food(&self) -> (i32, i32) {
        (self.x_food_coordinate, self.y_food_coordinate)
    }

    pub closed spec fn width(&self) -> i32 {
        self.window_width
    }

    pub closed spec fn height(&self) -> i32 {
        self.window_height
    }

    /// Whether the game is in the `GameOver` state.
    pub closed spec fn over(&self) -> bool {
        self.is_game_over
    }

    /// Milliseconds accumulated since the last movement step (or since
    /// game-over).
    pub closed spec fn wait(&self) -> u64 {
        self.waiting_time
    }

    /// The game's invariant: a non-empty snake whose cells all lie in
    /// the interior of the window, and food (when present) in the
    /// interior too. The window floor is exactly what the fixed
    /// starting configuration needs: width past the initial food at
    /// `x = 6`, height past the restart food at `y = 5`.
    pub open spec fn wf(&self) -> bool {
        &&& self.body().len() >= 1
        &&& 7 <= self.width()
        &&& 6 <= self.height()
        &&& forall|i: int|
            0 <= i < self.body().len() ==> cell_in_interior(
                #[trigger] self.body()[i],
                self.width(),
                self.height(),
            )
        &&& self.has_food() ==> cell_in_interior(self.food(), self.width(), self.height())
    }

    /// Whether a step from the current head in direction `d` would
    /// collide: with the body (tail excepted) or with the border.
    pub open spec fn blocked(&self, d: MovementDirection) -> bool {
        let nc = next_cell(self.body()[0], d);
        tail_exclusive_overlap(self.body(), nc.0, nc.1) || !cell_in_interior(
            nc,
            self.width(),
            self.height(),
        )
    }

    /// A fresh game: the initial three-cell snake heading Right, food
    /// at `(6, 4)`, running, timer cleared.
    pub fn new(width: i32, height: i32) -> (g: Game)
        requires
            7 <= width,
            6 <= height,
        ensures
            g.wf(),
            g.body() == initial_body(2, 2),
            g.dir() == MovementDirection::Right,
            g.saved_tail() is None,
            g.has_food(),
            g.food() == (6i32, 4i32),
            !g.over(),
            g.wait() == 0,
            g.width() == width,
            g.height() == height,
    {
        let g = Game {
            snake: Snake::new(2, 2),
            waiting_time: 0,
            is_food_exists: true,
            x_food_coordinate: 6,
            y_food_coordinate: 4,
            window_width: width,
            window_height: height,
            is_game_over: false,
        };
        proof {
            assert forall|i: int| 0 <= i < g.body().len() implies cell_in_interior(
                #[trigger] g.body()[i],
                g.width(),
                g.height(),
            ) by {
                assert(g.body() == initial_body(2, 2));
                if i == 0 {
                    assert(g.body()[0] == (4i32, 2i32));
                } else if i == 1 {
                    assert(g.body()[1] == (3i32, 2i32));
                } else {
                    assert(g.body()[2] == (2i32, 2i32));
                }
            }
        }
        g
    }

    /// True exactly when a step in the given direction (or the current
    /// heading) would not collide with the body or the border.
    pub fn check_if_snake_alive(&self, direction: Option<MovementDirection>) -> (r: bool)
        requires
            self.wf(),
        ensures
            r == !self.blocked(chosen_direction(self.dir(), direction)),
    {
        proof {
            assert(cell_in_interior(self.body()[0], self.width(), self.height()));
        }
        let (x_next, y_next) = self.snake.next_head_position(direction);

        if self.snake.overlap_tail(x_next, y_next) {
            return false;
        }

        x_next > 0 && y_next > 0 && x_next < self.window_width && y_next < self.window_height
    }

    /// If the head now sits on the recorded food cell, clears the
    /// food-exists flag and restores the vacated tail cell (growth).
    /// The head landing on the recorded cell counts even when the flag
    /// is already clear; the next tick then places fresh food anyway.
    fn check_eating(&mut self)
        requires
            old(self).wf(),
            old(self).saved_tail() is Some,
            cell_in_interior(
                old(self).saved_tail().unwrap(),
                old(self).width(),
                old(self).height(),
            ),
        ensures
            final(self).wf(),
            final(self).width() == old(self).width(),
            final(self).height() == old(self).height(),
            final(self).wait() == old(self).wait(),
            final(self).dir() == old(self).dir(),
            final(self).saved_tail() == old(self).saved_tail(),
            final(self).over() == old(self).over(),
            final(self).food() == old(self).food(),
            if old(self).body()[0] == old(self).food() {
                &&& !final(self).has_food()
                &&& final(self).body() == old(self).body().push(old(self).saved_tail().unwrap())
            } else {
                &&& final(self).has_food() == old(self).has_food()
                &&& final(self).body() == old(self).body()
            },
    {
        let (x_head, y_head) = self.snake.head_position();
        if self.x_food_coordinate == x_head && self.y_food_coordinate == y_head {
            self.is_food_exists = false;
            self.snake.restore_tail();
        }
    }

    /// One movement step with an optional direction override: a blocked
    /// step transitions to game-over without moving; otherwise the
    /// snake advances and eats when it reaches the food cell. The
    /// waiting time is cleared either way.
    pub fn update_snake(&mut self, direction: Option<MovementDirection>)
        requires
            old(self).wf(),
        ensures
            final(self).wf(),
            step_from(
                *old(self),
                old(self).food().0,
                old(self).food().1,
                old(self).has_food(),
                *final(self),
                chosen_direction(old(self).dir(), direction),
            ),
    {
        proof {
            assert(cell_in_interior(self.body()[0], self.width(), self.height()));
            assert(cell_in_interior(
                self.body()[self.body().len() - 1],
                self.width(),
                self.height(),
            ));
        }
        if self.check_if_snake_alive(direction) {
            self.snake.move_forward(direction);
            proof {
                let pre = *old(self);
                let d = chosen_direction(pre.dir(), direction);
                let nc = next_cell(pre.body()[0], d);
                assert(cell_in_interior(nc, pre.width(), pre.height()));
                assert forall|i: int| 0 <= i < self.body().len() implies cell_in_interior(
                    #[trigger] self.body()[i],
                    self.width(),
                    self.height(),
                ) by {
                    if i > 0 {
                        assert(self.body()[i] == pre.body()[i - 1]);
                        assert(cell_in_interior(pre.body()[i - 1], pre.width(), pre.height()));
                    }
                }
            }
            self.check_eating();
            proof {
                let pre = *old(self);
                let d = chosen_direction(pre.dir(), direction);
                let nc = next_cell(pre.body()[0], d);
                if nc == pre.food() {
                    assert(self.body() =~= seq![nc] + pre.body().drop_last() + seq![
                        pre.body().last(),
                    ]);
                }
            }
        } else {
            self.is_game_over = true;
        }
        self.waiting_time = 0;
    }

    /// Places new food on a random unoccupied interior cell; nothing
    /// else changes. On a board whose whole interior is occupied no
    /// cell is free, and the food state is left as it was.
    pub fn add_food(&mut self)
        requires
            old(self).wf(),
        ensures
            final(self).wf(),
            final(self).body() == old(self).body(),
            final(self).dir() == old(self).dir(),
            final(self).saved_tail() == old(self).saved_tail(),
            final(self).over() == old(self).over(),
            final(self).wait() == old(self).wait(),
            final(self).width() == old(self).width(),
            final(self).height() == old(self).height(),
            !interior_full(*old(self)) ==> final(self).has_food() && placed_food(
                *old(self),
                final(self).food(),
            ),
            interior_full(*old(self)) ==> final(self).has_food() == old(self).has_food()
                && final(self).food() == old(self).food(),
    {
        let cell = random_free_cell(&self.snake, self.window_width, self.window_height);
        match cell {
            Some((x_food, y_food)) => {
                self.is_food_exists = true;
                self.x_food_coordinate = x_food;
                self.y_food_coordinate = y_food;
            },
            None => {},
        }
    }

    /// The per-tick update, given `delta_time` elapsed milliseconds.
    /// While in game-over it only accumulates idle time and restarts
    /// once that exceeds the restart delay. While running it places
    /// food if none exists, and performs a movement step along the
    /// current heading once the accumulated time exceeds the moving
    /// period.
    pub fn update(&mut self, delta_time: u64)
        requires
            old(self).wf(),
            old(self).wait() + delta_time <= u64::MAX,
        ensures
            final(self).wf(),
            final(self).width() == old(self).width(),
            final(self).height() == old(self).height(),
            (old(self).over() && old(self).wait() + delta_time > RESTART_TIME_MS) ==> restarted(
                *final(self),
                old(self).width(),
                old(self).height(),
            ),
            (old(self).over() && old(self).wait() + delta_time <= RESTART_TIME_MS) ==> (same_core(
                *old(self),
                *final(self),
            ) && final(self).wait() == old(self).wait() + delta_time),
            (!old(self).over() && old(self).has_food() && old(self).wait() + delta_time
                <= MOVING_PERIOD_MS) ==> (same_core(*old(self), *final(self)) && final(self).wait()
                == old(self).wait() + delta_time),
            (!old(self).over() && old(self).has_food() && old(self).wait() + delta_time
                > MOVING_PERIOD_MS) ==> step_from(
                *old(self),
                old(self).food().0,
                old(self).food().1,
                true,
                *final(self),
                old(self).dir(),
            ),
            (!old(self).over() && !old(self).has_food() && !interior_full(*old(self))) ==>
                placed_food(*old(self), final(self).food()),
            (!old(self).over() && !old(self).has_food() && !interior_full(*old(self)) && old(self).wait() + delta_time <= MOVING_PERIOD_MS) ==> (final(self).has_food() && final(self).body() == old(self).body() && final(self).dir() == old(self).dir() && final(self).saved_tail() == old(self).saved_tail() && !final(self).over() && final(self).wait()
                == old(self).wait() + delta_time),
            (!old(self).over() && !old(self).has_food() && !interior_full(*old(self)) && old(self).wait() + delta_time > MOVING_PERIOD_MS) ==> step_from(
                *old(self),
                final(self).food().0,
                final(self).food().1,
                true,
                *final(self),
                old(self).dir(),
            ),
            (!old(self).over() && !old(self).has_food() && interior_full(*old(self)) && old(self).wait() + delta_time <= MOVING_PERIOD_MS) ==> (same_core(*old(self), *final(self))
                && final(self).wait() == old(self).wait() + delta_time),
            (!old(self).over() && !old(self).has_food() && interior_full(*old(self)) && old(self).wait() + delta_time > MOVING_PERIOD_MS) ==> step_from(
                *old(self),
                old(self).food().0,
                old(self).food().1,
                false,
                *final(self),
                old(self).dir(),
            ),
    {
        self.waiting_time = self.waiting_time + delta_time;

        if self.is_game_over {
            if self.waiting_time > RESTART_TIME_MS {
                self.restart();
            }
            return;
        }

        if !self.is_food_exists {
            self.add_food();
        }

        if self.waiting_time > MOVING_PERIOD_MS {
            self.update_snake(None);
        }
    }

    /// Maps a directional key press, while running, to a movement step
    /// with that direction as override, ignoring a press that reverses
    /// the current heading. A press carrying no direction keeps the
    /// current heading and still forces a step. While in game-over
    /// every press is ignored.
    pub fn key_pressed(&mut self, key: Option<MovementDirection>)
        requires
            old(self).wf(),
        ensures
            final(self).wf(),
            old(self).over() ==> *final(self) == *old(self),
            (!old(self).over() && chosen_direction(old(self).dir(), key) == opposite_of(
                old(self).dir(),
            )) ==> *final(self) == *old(self),
            (!old(self).over() && chosen_direction(old(self).dir(), key) != opposite_of(
                old(self).dir(),
            )) ==> step_from(
                *old(self),
                old(self).food().0,
                old(self).food().1,
                old(self).has_food(),
                *final(self),
                chosen_direction(old(self).dir(), key),
            ),
    {
        if self.is_game_over {
            return;
        }

        let direction = match key {
            Some(d) => d,
            None => self.snake.head_direction(),
        };

        if direction == self.snake.head_direction().opposite_direction() {
            return;
        }

        self.update_snake(Some(direction));
    }

    /// Replaces the snake and the food wholesale and returns to the
    /// running state with a cleared timer.
    pub fn restart(&mut self)
        requires
            7 <= old(self).width(),
            6 <= old(self).height(),
        ensures
            final(self).wf(),
            restarted(*final(self), old(self).width(), old(self).height()),
    {
        self.snake = Snake::new(2, 2);
        self.is_game_over = false;
        self.is_food_exists = true;
        self.x_food_coordinate = 5;
        self.y_food_coordinate = 5;
        self.waiting_time = 0;
        proof {
            assert forall|i: int| 0 <= i < self.body().len() implies cell_in_interior(
                #[trigger] self.body()[i],
                self.width(),
                self.height(),
            ) by {
                assert(self.body() == initial_body(2, 2));
                if i == 0 {
                    assert(self.body()[0] == (4i32, 2i32));
                } else if i == 1 {
                    assert(self.body()[1] == (3i32, 2i32));
                } else {
                    assert(self.body()[2] == (2i32, 2i32));
                }
            }
        }
    }

    /// Number of snake body cells.
    pub fn snake_body_len(&self) -> (r: usize)
        ensures
            r == self.body().len(),
    {
        self.snake.body_len()
    }

    /// The snake body cell at index `i`; index 0 is the head.
    pub fn snake_body_cell(&self, i: usize) -> (r: (i32, i32))
        requires
            i < self.body().len(),
        ensures
            r == self.body()[i as int],
    {
        self.snake.body_cell(i)
    }

    /// The snake's current heading.
    pub fn snake_direction(&self) -> (r: MovementDirection)
        ensures
            r == self.dir(),
    {
        self.snake.head_direction()
    }

    /// The food cell, when food is on the board.
    pub fn food_position(&self) -> (r: Option<(i32, i32)>)
        ensures
            r == if self.has_food() {
                Some(self.food())
            } else {
                None::<(i32, i32)>
            },
    {
        if self.is_food_exists {
            Some((self.x_food_coordinate, self.y_food_coordinate))
        } else {
            None
        }
    }

    pub fn window_width(&self) -> (r: i32)
        ensures
            r == self.width(),
    {
        self.window_width
    }

    pub fn window_height(&self) -> (r: i32)
        ensures
            r == self.height(),
    {
        self.window_height
    }

    /// Whether the game is in the `GameOver` state.
    pub fn game_over(&self) -> (r: bool)
        ensures
            r == self.over(),
    {
        self.is_game_over
    }

    /// Milliseconds accumulated since the last movement step (or since
    /// game-over).
    pub fn waiting_time_ms(&self) -> (r: u64)
        ensures
            r == self.wait(),
    {
        self.waiting_time
    }
}

} // verus!
