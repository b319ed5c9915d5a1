//! The snake itself: an ordered body of grid cells (head first), a
//! current heading, and the most recently dropped tail cell, kept so
//! that eating can restore it.

use vstd::prelude::*;

verus! {

/// One of the four headings the snake can take.
#[derive(Debug, Copy, Clone, PartialEq, Eq, Structural)]
pub enum MovementDirection {
    Up,
    Down,
    Left,
    Right,
}

/// The heading opposite to `d`.
pub open spec fn opposite_of(d: MovementDirection) -> MovementDirection {
    match d {
        MovementDirection::Up => MovementDirection::Down,
        MovementDirection::Down => MovementDirection::Up,
        MovementDirection::Left => MovementDirection::Right,
        MovementDirection::Right => MovementDirection::Left,
    }
}

impl MovementDirection {
    pub fn opposite_direction(&self) -> (r: MovementDirection)
        ensures
            r == opposite_of(*self),
    {
        match self {
            MovementDirection::Up => MovementDirection::Down,
            MovementDirection::Down => MovementDirection::Up,
            MovementDirection::Left => MovementDirection::Right,
            MovementDirection::Right => MovementDirection::Left,
        }
    }
}

/// Law: taking the opposite of a heading twice gives the heading back.
pub proof fn lemma_opposite_involution(d: MovementDirection)
    ensures
        opposite_of(opposite_of(d)) == d,
{
}

/// The heading a movement step actually uses: the override when one is
/// given, the current heading otherwise.
pub open spec fn chosen_direction(
    current: MovementDirection,
    override_direction: Option<MovementDirection>,
) -> MovementDirection {
    match override_direction {
        Some(d) => d,
        None => current,
    }
}

/// The cell one step from `c` in direction `d`; exact whenever the step
/// stays within `i32` (see `can_step`).
pub open spec fn next_cell(c: (i32, i32), d: MovementDirection) -> (i32, i32) {
    match d {
        MovementDirection::Up => (c.0, (c.1 - 1) as i32),
        MovementDirection::Down => (c.0, (c.1 + 1) as i32),
        MovementDirection::Left => ((c.0 - 1) as i32, c.1),
        MovementDirection::Right => ((c.0 + 1) as i32, c.1),
    }
}

/// A step from `c` in direction `d` stays within `i32`.
pub open spec fn can_step(c: (i32, i32), d: MovementDirection) -> bool {
    match d {
        MovementDirection::Up => c.1 > i32::MIN,
        MovementDirection::Down => c.1 < i32::MAX,
        MovementDirection::Left => c.0 > i32::MIN,
        MovementDirection::Right => c.0 < i32::MAX,
    }
}

/// The three starting cells of a snake built at `(x, y)`: a horizontal
/// line with the head at `(x + 2, y)`.
pub open spec fn initial_body(x: i32, y: i32) -> Seq<(i32, i32)> {
    seq![(((x + 2) as i32), y), (((x + 1) as i32), y), (x, y)]
}

/// Whether `(x, y)` lies on `body`, the tail cell (the last element)
/// excepted: the tail is about to vacate its cell as the snake
/// advances, so stepping onto it is not a collision.
pub open spec fn tail_exclusive_overlap(body: Seq<(i32, i32)>, x: i32, y: i32) -> bool {
    exists|i: int| 0 <= i < body.len() - 1 && body[i] == (x, y)
}

/// Whether `(x, y)` lies on `body`, the tail cell included. Head
/// movement excludes the tail (see `tail_exclusive_overlap`); food
/// placement must not, since fresh food has to avoid every cell the
/// body occupies.
pub open spec fn body_occupies(body: Seq<(i32, i32)>, x: i32, y: i32) -> bool {
    exists|i: int| 0 <= i < body.len() && body[i] == (x, y)
}

/// Law: stepping onto the cell the tail currently occupies is never a
/// self-collision, as long as that cell appears nowhere else in the
/// body; the same step that reaches it also vacates it.
pub proof fn lemma_tail_cell_is_not_a_collision(body: Seq<(i32, i32)>)
    requires
        body.len() >= 1,
        forall|i: int| 0 <= i < body.len() - 1 ==> body[i] != body.last(),
    ensures
        !tail_exclusive_overlap(body, body.last().0, body.last().1),
{
}

pub struct Snake {
    direction: MovementDirection,
    body: Vec<(i32, i32)>,
    tail: Option<(i32, i32)>,
}

impl Snake {
    /// The body cells, head first.
    pub closed spec fn body(&self) -> Seq<(i32, i32)> {
        self.body@
    }

    /// The current heading.
    pub closed spec fn dir(&self) -> MovementDirection {
        self.direction
    }

    /// The cell most recently dropped from the tail, if any.
    pub closed spec fn saved_tail(&self) -> Option<(i32, i32)> {
        self.tail
    }

    /// The body is never empty.
    pub open spec fn wf(&self) -> bool {
        self.body().len() >= 1
    }

    /// A snake of three cells in a horizontal line, head at
    /// `(x + 2, y)`, heading Right.
    pub fn new(x: i32, y: i32) -> (s: Snake)
        requires
            x + 2 <= i32::MAX,
        ensures
            s.wf(),
            s.body() == initial_body(x, y),
            s.dir() == MovementDirection::Right,
            s.saved_tail() is None,
    {
        let mut snake_body: Vec<(i32, i32)> = Vec::new();
        snake_body.insert(0, (x, y));
        snake_body.insert(0, (x + 1, y));
        snake_body.insert(0, (x + 2, y));

        let s = Snake { direction: MovementDirection::Right, body: snake_body, tail: None };
        proof {
            assert(s.body() =~= initial_body(x, y));
        }
        s
    }

    /// The coordinate of the foremost cell.
    pub fn head_position(&self) -> (r: (i32, i32))
        requires
            self.wf(),
        ensures
            r == self.body()[0],
    {
        self.body[0]
    }

    pub fn head_direction(&self) -> (r: MovementDirection)
        ensures
            r == self.dir(),
    {
        self.direction
    }

    /// Where the head would move under the given override (or the
    /// current heading, if none), without mutating anything.
    pub fn next_head_position(&self, direction: Option<MovementDirection>) -> (r: (i32, i32))
        requires
            self.wf(),
            can_step(self.body()[0], chosen_direction(self.dir(), direction)),
        ensures
            r == next_cell(self.body()[0], chosen_direction(self.dir(), direction)),
    {
        let (x_head, y_head) = self.head_position();
        let moving_direction = match direction {
            None => self.direction,
            Some(d) => d,
        };
        match moving_direction {
            MovementDirection::Up => (x_head, y_head - 1),
            MovementDirection::Down => (x_head, y_head + 1),
            MovementDirection::Left => (x_head - 1, y_head),
            MovementDirection::Right => (x_head + 1, y_head),
        }
    }

    /// Sets the heading to the override when one is given (reversal
    /// validation is the caller's business), pushes the next head cell
    /// to the front and drops the rearmost cell, remembering it: the
    /// body translates one cell, its length unchanged.
    pub fn move_forward(&mut self, direction: Option<MovementDirection>)
        requires
            old(self).wf(),
            can_step(old(self).body()[0], chosen_direction(old(self).dir(), direction)),
        ensures
            final(self).wf(),
            final(self).dir() == chosen_direction(old(self).dir(), direction),
            final(self).body() == seq![
                next_cell(old(self).body()[0], chosen_direction(old(self).dir(), direction)),
            ] + old(self).body().drop_last(),
            final(self).body().len() == old(self).body().len(),
            final(self).saved_tail() == Some(old(self).body().last()),
    {
        match direction {
            None => (),
            Some(d) => {
                self.direction = d;
            },
        }

        let (x_head, y_head) = self.head_position();

        let new_block = match self.direction {
            MovementDirection::Up => (x_head, y_head - 1),
            MovementDirection::Down => (x_head, y_head + 1),
            MovementDirection::Left => (x_head - 1, y_head),
            MovementDirection::Right => (x_head + 1, y_head),
        };

        self.body.insert(0, new_block);
        let removed = self.body.remove(self.body.len() - 1);
        self.tail = Some(removed);
        proof {
            assert(self.body() =~= seq![
                next_cell(old(self).body()[0], chosen_direction(old(self).dir(), direction)),
            ] + old(self).body().drop_last());
        }
    }

    /// Appends the most recently dropped tail cell back to the rear,
    /// growing the body by one: undoes the pop that `move_forward`
    /// performed. Used after eating.
    pub fn restore_tail(&mut self)
        requires
            old(self).wf(),
            old(self).saved_tail() is Some,
        ensures
            final(self).wf(),
            final(self).body() == old(self).body().push(old(self).saved_tail().unwrap()),
            final(self).body().len() == old(self).body().len() + 1,
            final(self).dir() == old(self).dir(),
            final(self).saved_tail() == old(self).saved_tail(),
    {
        let block = self.tail.unwrap();
        self.body.push(block);
    }

    /// True when `(x, y)` lies on the body, the current tail cell
    /// excepted.
    pub fn overlap_tail(&self, x: i32, y: i32) -> (r: bool)
        requires
            self.wf(),
        ensures
            r == tail_exclusive_overlap(self.body(), x, y),
    {
        let end = self.body.len() - 1;
        let mut i: usize = 0;
        while i < end
            invariant
                end == self.body().len() - 1,
                0 <= i <= end,
                forall|j: int| 0 <= j < i ==> self.body()[j] != (x, y),
            decreases end - i,
        {
            let block = self.body[i];
            if x == block.0 && y == block.1 {
                return true;
            }
            i = i + 1;
        }
        false
    }

    /// True when `(x, y)` lies on any body cell, the tail included.
    pub fn occupies(&self, x: i32, y: i32) -> (r: bool)
        ensures
            r == body_occupies(self.body(), x, y),
    {
        let mut i: usize = 0;
        while i < self.body.len()
            invariant
                0 <= i <= self.body().len(),
                forall|j: int| 0 <= j < i ==> self.body()[j] != (x, y),
            decreases self.body().len() - i,
        {
            let block = self.body[i];
            if x == block.0 && y == block.1 {
                return true;
            }
            i = i + 1;
        }
        false
    }

    /// Number of body cells.
    pub fn body_len(&self) -> (r: usize)
        ensures
            r == self.body().len(),
    {
        self.body.len()
    }

    /// The body cell at index `i`; index 0 is the head.
    pub fn body_cell(&self, i: usize) -> (r: (i32, i32))
        requires
            i < self.body().len(),
        ensures
            r == self.body()[i as int],
    {
        self.body[i]
    }
}

/// Law: a forward move keeps the body length, and restoring the tail
/// right after it grows the body by exactly one cell over what it was
/// before the move. The premises restate what `move_forward` and
/// `restore_tail` ensure of `pre` -> `mid` -> `post`.
pub proof fn lemma_move_then_restore_grows_by_one(
    pre: Snake,
    mid: Snake,
    post: Snake,
    direction: Option<MovementDirection>,
)
    requires
        pre.wf(),
        mid.body() == seq![
            next_cell(pre.body()[0], chosen_direction(pre.dir(), direction)),
        ] + pre.body().drop_last(),
        mid.saved_tail() == Some(pre.body().last()),
        post.body() == mid.body().push(mid.saved_tail().unwrap()),
    ensures
        mid.body().len() == pre.body().len(),
        post.body().len() == pre.body().len() + 1,
{
}

} // verus!
