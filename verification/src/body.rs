//! The snake: an ordered chain of cells, head first, and its heading, with
//! the per-tick rules for turning, moving, colliding and eating.

use vstd::prelude::*;
use crate::grid::{Direction, Pos, valid_size};

verus! {

/// Whether `p` is a cell of `body` other than its head.
pub open spec fn hits_body(body: Seq<Pos>, p: Pos) -> bool {
    exists|i: int| 1 <= i < body.len() && body[i] == p
}

/// The body after a plain move of the head to `head`: every other segment
/// takes the cell of the one before it, and the last cell is given up.
pub open spec fn advanced(body: Seq<Pos>, head: Pos) -> Seq<Pos> {
    seq![head] + body.drop_last()
}

/// The body after the head moved to `head` and ate there: every cell stays
/// occupied and `head` is put in front.
pub open spec fn grown(body: Seq<Pos>, head: Pos) -> Seq<Pos> {
    seq![head] + body
}

/// What a tick reports when the head of `body` moves to `head` and the food
/// lies at `food`: a collision, or whether the food was eaten.
pub open spec fn outcome(body: Seq<Pos>, head: Pos, food: Pos) -> Result<bool, ()> {
    if hits_body(body, head) {
        Err(())
    } else {
        Ok(head == food)
    }
}

/// The body a tick leaves when the head of `body` moves to `head` and the
/// food lies at `food`. On a collision only the head has moved; on food the
/// body has grown; otherwise it has advanced.
pub open spec fn body_after(body: Seq<Pos>, head: Pos, food: Pos) -> Seq<Pos> {
    if hits_body(body, head) {
        body.update(0, head)
    } else if head == food {
        grown(body, head)
    } else {
        advanced(body, head)
    }
}

/// Whether no cell occurs twice in `body`.
pub open spec fn distinct(body: Seq<Pos>) -> bool {
    forall|i: int, j: int| 0 <= i < j < body.len() ==> body[i] != body[j]
}

/// The snake's body, head first, and the direction it is heading in.
pub struct Snake {
    body: Vec<Pos>,
    dir: Direction,
}

impl Snake {
    /// A snake always has a head: its body is never empty. Every function
    /// that makes or changes a snake keeps this.
    pub open spec fn wf(&self) -> bool {
        self@.len() >= 1
    }

    /// The cells the snake occupies, head first.
    pub closed spec fn view(&self) -> Seq<Pos> {
        self.body@
    }

    /// The direction the next tick moves the head in.
    pub closed spec fn heading(&self) -> Direction {
        self.dir
    }

    /// The cell the head enters on the next tick.
    pub open spec fn next_head(&self, size: (u16, u16)) -> Pos {
        self@[0].step(self.heading(), size)
    }

    /// Whether a request to turn to `dir` is turned down: the snake has a
    /// second segment and either already heads that way, or one step that
    /// way from the head (wrapping at the edges) is the second segment.
    pub open spec fn refuses(&self, dir: Direction, size: (u16, u16)) -> bool {
        self@.len() >= 2 && (dir == self.heading() || self@[0].step(dir, size) == self@[1])
    }

    /// A snake of one cell at column `x`, row `y`, heading right.
    pub fn new(x: u16, y: u16) -> (s: Snake)
        ensures
            s.wf(),
            s@ == seq![Pos(x, y)],
            s.heading() == Direction::Right,
    {
        let mut body: Vec<Pos> = Vec::new();
        body.push(Pos(x, y));
        Snake { body, dir: Direction::Right }
    }

    /// A snake with the given cells, head first, and heading; `None` exactly
    /// when `body` is empty.
    pub fn from_parts(body: Vec<Pos>, dir: Direction) -> (r: Option<Snake>)
        ensures
            r is None <==> body@.len() == 0,
            r is Some ==> r.unwrap().wf() && r.unwrap()@ == body@ && r.unwrap().heading() == dir,
    {
        if body.len() == 0 {
            None
        } else {
            Some(Snake { body, dir })
        }
    }

    /// The number of cells the snake occupies, at least one.
    pub fn len(&self) -> (n: usize)
        requires
            self.wf(),
        ensures
            n == self@.len(),
            n >= 1,
    {
        self.body.len()
    }

    /// The cell of the head.
    pub fn head(&self) -> (p: Pos)
        requires
            self.wf(),
        ensures
            p == self@[0],
    {
        self.body[0]
    }

    /// The cell of the segment at `index`, counted from the head; `None`
    /// exactly when the snake is not that long.
    pub fn segment(&self, index: usize) -> (r: Option<Pos>)
        ensures
            r == (if index < self@.len() { Some(self@[index as int]) } else { None }),
    {
        if index < self.body.len() {
            Some(self.body[index])
        } else {
            None
        }
    }

    /// The cells the snake occupies, head first, as a vector of their own.
    pub fn cells(&self) -> (v: Vec<Pos>)
        ensures
            v@ == self@,
    {
        let n = self.body.len();
        let mut v: Vec<Pos> = Vec::new();
        let mut i: usize = 0;
        while i < n
            invariant
                i <= n,
                n == self.body@.len(),
                v@ == self.body@.take(i as int),
            decreases n - i,
        {
            v.push(self.body[i]);
            assert(self.body@.take(i + 1) =~= self.body@.take(i as int).push(self.body@[i as int]));
            i += 1;
        }
        assert(self.body@.take(n as int) =~= self.body@);
        v
    }

    /// The direction the snake is heading in.
    pub fn direction(&self) -> (d: Direction)
        ensures
            d == self.heading(),
    {
        self.dir
    }

    /// Whether the head shares its cell with another segment.
    fn check_collisions(&self) -> (hit: bool)
        requires
            self.wf(),
        ensures
            hit == hits_body(self@, self@[0]),
    {
        let head = self.body[0];
        let n = self.body.len();
        let mut i: usize = 1;
        while i < n
            invariant
                1 <= i <= n,
                n == self.body@.len(),
                head == self.body@[0],
                forall|j: int| 1 <= j < i ==> self.body@[j] != head,
            decreases n - i,
        {
            if self.body[i] == head {
                return true;
            }
            i += 1;
        }
        false
    }

    /// Asks the snake to head in direction `dir` on a board of `size`.
    ///
    /// The request is turned down, and the heading kept, when the snake has
    /// a second segment and either heads that way already or would step
    /// straight onto that segment. Otherwise the heading becomes `dir`. The
    /// body is never touched.
    pub fn change_direction(&mut self, dir: Direction, size: (u16, u16))
        requires
            old(self).wf(),
            valid_size(size),
        ensures
            final(self).wf(),
            final(self)@ == old(self)@,
            final(self).heading() == (if old(self).refuses(dir, size) {
                old(self).heading()
            } else {
                dir
            }),
            dir == old(self).heading() ==> final(self).heading() == old(self).heading(),
            old(self)@.len() >= 2 && old(self)@[0].step(dir, size) == old(self)@[1]
                ==> final(self).heading() == old(self).heading(),
            old(self)@.len() == 1 ==> final(self).heading() == dir,
    {
        if self.body.len() >= 2 {
            let head = self.body[0];
            let second = self.body[1];
            if self.dir == dir || head.neighbour(dir, size) == second {
                return ;
            }
        }
        self.dir = dir;
    }

    /// Lets the snake eat `food` if its head lies on it: the food's cell is
    /// put in front of the body as the new head, and `true` is returned.
    /// Otherwise nothing changes and `false` is returned.
    pub fn check_eat(&mut self, food: &Pos) -> (ate: bool)
        requires
            old(self).wf(),
        ensures
            final(self).wf(),
            ate == (old(self)@[0] == *food),
            final(self)@ == (if ate {
                seq![*food] + old(self)@
            } else {
                old(self)@
            }),
            final(self).heading() == old(self).heading(),
    {
        if self.body[0] == *food {
            self.body.insert(0, *food);
            assert(self.body@ =~= seq![*food] + old(self).body@);
            return true;
        }
        false
    }

    /// One tick on a board of `size`: the head moves one cell in the current
    /// heading, wrapping at the edges.
    ///
    /// * If the head's new cell is that of another segment, as they lay
    ///   before the tick, the result is `Err`; of the body only the head has
    ///   then changed.
    /// * Otherwise, if the head's new cell is `food`, the snake eats and grows
    ///   by one: behind the new head the body lies as it did before the tick,
    ///   and the result is `Ok(true)`.
    /// * Otherwise every segment takes the cell of the segment before it, and
    ///   the result is `Ok(false)`.
    ///
    /// The heading never changes.
    pub fn update(&mut self, food: &Pos, size: (u16, u16)) -> (r: Result<bool, ()>)
        requires
            old(self).wf(),
            valid_size(size),
        ensures
            final(self).wf(),
            final(self).heading() == old(self).heading(),
            r == outcome(old(self)@, old(self).next_head(size), *food),
            final(self)@ == body_after(old(self)@, old(self).next_head(size), *food),
    {
        let ghost before = self.body@;
        let ghost heading = self.dir;
        let mut last = self.body[0];
        let head = last.neighbour(self.dir, size);
        self.body.set(0, head);
        assert(hits_body(self.body@, head) == hits_body(before, head)) by {
            if hits_body(before, head) {
                let i = choose|i: int| 1 <= i < before.len() && before[i] == head;
                assert(self.body@[i] == head);
            }
            if hits_body(self.body@, head) {
                let i = choose|i: int| 1 <= i < self.body@.len() && self.body@[i] == head;
                assert(before[i] == head);
            }
        }
        if self.check_collisions() {
            return Err(());
        }
        if self.check_eat(food) {
            // The food's cell is now in front; behind it comes the cell the
            // head set out from, so that no cell of the body is given up.
            self.body.set(1, last);
            assert(self.body@ =~= grown(before, head));
            return Ok(true);
        }
        let n = self.body.len();
        let mut i: usize = 1;
        while i < n
            invariant
                1 <= i <= n,
                n == self.body@.len(),
                n == before.len(),
                self.dir == heading,
                self.body@[0] == head,
                last == before[i - 1],
                forall|j: int| 1 <= j < i ==> self.body@[j] == before[j - 1],
                forall|j: int| i <= j < n ==> self.body@[j] == before[j],
            decreases n - i,
        {
            let here = self.body[i];
            self.body.set(i, last);
            last = here;
            i += 1;
        }
        assert(self.body@ =~= advanced(before, head));
        Ok(false)
    }
}

/// A tick whose new head cell `head` is free of the other segments succeeds,
/// and leaves the body's length as it was unless the food was eaten.
pub proof fn lemma_free_cell_moves(body: Seq<Pos>, head: Pos, food: Pos)
    requires
        body.len() >= 1,
        !hits_body(body, head),
    ensures
        outcome(body, head, food) is Ok,
        head != food ==> outcome(body, head, food) == Ok::<bool, ()>(false) && body_after(
            body,
            head,
            food,
        ).len() == body.len(),
        body_after(body, head, food)[0] == head,
{
}

/// A tick whose new head cell `head` is the food's, and free of the other
/// segments, reports that the food was eaten and leaves the body longer by
/// exactly one, with the cells it had before behind the new head.
pub proof fn lemma_food_grows(body: Seq<Pos>, head: Pos, food: Pos)
    requires
        body.len() >= 1,
        !hits_body(body, head),
        head == food,
    ensures
        outcome(body, head, food) == Ok::<bool, ()>(true),
        body_after(body, head, food).len() == body.len() + 1,
        body_after(body, head, food)[0] == food,
        body_after(body, head, food).skip(1) == body,
{
    assert(body_after(body, head, food).skip(1) =~= body);
}

/// A tick whose new head cell `head` is that of another segment fails,
/// wherever the food lies; the segments behind the head stay where they
/// were, in their order, and the body's length is unchanged.
pub proof fn lemma_collision_fails(body: Seq<Pos>, head: Pos, food: Pos)
    requires
        body.len() >= 1,
        hits_body(body, head),
    ensures
        outcome(body, head, food) is Err,
        body_after(body, head, food).len() == body.len(),
        body_after(body, head, food)[0] == head,
        forall|i: int| 1 <= i < body.len() ==> body_after(body, head, food)[i] == body[i],
{
}

/// A body of a single cell never collides with itself.
pub proof fn lemma_single_cell_never_collides(body: Seq<Pos>, head: Pos, food: Pos)
    requires
        body.len() == 1,
    ensures
        !hits_body(body, head),
        outcome(body, head, food) is Ok,
{
}

/// A successful tick keeps the cells of the body distinct, provided the
/// head really left its cell (which it does on any board with more than one
/// cell along the heading).
pub proof fn lemma_tick_keeps_distinct(body: Seq<Pos>, head: Pos, food: Pos)
    requires
        body.len() >= 1,
        distinct(body),
        head != body[0],
        outcome(body, head, food) is Ok,
    ensures
        distinct(body_after(body, head, food)),
{
    let after = body_after(body, head, food);
    assert forall|i: int, j: int| 0 <= i < j < after.len() implies after[i] != after[j] by {
        if i == 0 {
            if j >= 2 {
                assert(body[j - 1] != head);
            }
        } else {
            assert(after[i] == body[i - 1]);
            assert(after[j] == body[j - 1]);
        }
    }
}

/// A tick on a board of `size` keeps every cell of the body on the board if
/// they all were.
pub proof fn lemma_tick_stays_on_board(
    body: Seq<Pos>,
    dir: Direction,
    food: Pos,
    size: (u16, u16),
)
    requires
        body.len() >= 1,
        valid_size(size),
        forall|i: int| 0 <= i < body.len() ==> (#[trigger] body[i]).within(size),
    ensures
        forall|i: int|
            0 <= i < body_after(body, body[0].step(dir, size), food).len() ==> (
            #[trigger] body_after(body, body[0].step(dir, size), food)[i]).within(size),
{
    let head = body[0].step(dir, size);
    let after = body_after(body, head, food);
    assert(body[0].within(size));
    assert(head.within(size));
    assert forall|i: int| 0 <= i < after.len() implies (#[trigger] after[i]).within(size) by {
        if i >= 1 {
            if hits_body(body, head) {
                assert(after[i] == body[i]);
            } else {
                assert(after[i] == body[i - 1]);
            }
        }
    }
}

} // verus!
