//! One running game: the snake, the food, the score and the board's size,
//! driven by inputs and ticks. Drawing and reading keys are left to the
//! caller; everything that is decided is decided here.

use rand::rngs::ThreadRng;
use rand::Rng;
use vstd::prelude::*;
use crate::body::{body_after, outcome, Snake};
use crate::grid::{valid_size, Direction, Pos};

verus! {

/// The thread-local generator of the `rand` crate, carried through as an
/// opaque value.
#[verifier::external_type_specification]
#[verifier::external_body]
pub struct ExThreadRng(ThreadRng);

/// Draws one `u16` with `rand::Rng::gen` on the thread-local generator.
/// Nothing is claimed of the value drawn.
#[verifier::external_body]
fn draw_u16(rng: &mut ThreadRng) -> (r: u16) {
    rng.gen::<u16>()
}

/// Folds two arbitrary numbers onto a board of `max_w` columns and `max_h`
/// rows by taking each modulo the board's extent.
pub fn fold_pos(rx: u16, ry: u16, max_w: u16, max_h: u16) -> (p: Pos)
    requires
        max_w > 0,
        max_h > 0,
    ensures
        p == Pos(rx % max_w, ry % max_h),
        p.within((max_w, max_h)),
{
    Pos(rx % max_w, ry % max_h)
}

/// A random cell of a board of `max_w` columns and `max_h` rows. Which cell
/// is up to the generator; it always lies on the board.
pub fn rand_pos(rng: &mut ThreadRng, max_w: u16, max_h: u16) -> (p: Pos)
    requires
        max_w > 0,
        max_h > 0,
    ensures
        p.within((max_w, max_h)),
{
    let rx = draw_u16(rng);
    let ry = draw_u16(rng);
    fold_pos(rx, ry, max_w, max_h)
}

/// Ticks per second.
pub const FPS: u64 = 15;

/// The time from one tick to the next, in whole milliseconds.
pub fn tick_millis() -> (ms: u64)
    ensures
        ms == 1000u64 / FPS,
        ms == 66,
{
    1000 / FPS
}

/// What the player or the terminal did since the last tick.
#[derive(Debug, Clone, Copy, PartialEq, Eq, Structural)]
pub enum Input {
    /// The player asked to leave the game.
    Quit,
    /// The player asked to head in a direction.
    Turn(Direction),
    /// The board now has this many columns and rows.
    Resize(u16, u16),
    /// Anything else; it is ignored.
    Other,
}

/// The smaller of the board's two extents.
pub open spec fn shorter_side(max_w: u16, max_h: u16) -> u16 {
    if max_w <= max_h {
        max_w
    } else {
        max_h
    }
}

/// The state of one game.
pub struct Game {
    player: Snake,
    food: Pos,
    score: usize,
    size: (u16, u16),
    side: u16,
    over: bool,
}

impl Game {
    /// The snake.
    pub closed spec fn spec_snake(&self) -> Snake {
        self.player
    }

    /// The cell the food lies on.
    pub closed spec fn spec_food(&self) -> Pos {
        self.food
    }

    /// How often the snake has eaten.
    pub closed spec fn spec_score(&self) -> usize {
        self.score
    }

    /// The board's columns and rows, as last reported.
    pub closed spec fn spec_size(&self) -> (u16, u16) {
        self.size
    }

    /// The extent of the square that food is placed in: the shorter side of
    /// the board the game started on.
    pub closed spec fn spec_side(&self) -> u16 {
        self.side
    }

    /// Whether the snake has run into itself. A game that is over stays
    /// over: it takes no more inputs or ticks, and is only read.
    pub closed spec fn spec_is_over(&self) -> bool {
        self.over
    }

    /// What holds of every game: the snake has a head, the board and the
    /// food square are not empty, and the snake is one cell longer than the
    /// score.
    pub open spec fn wf(&self) -> bool {
        &&& self.spec_snake().wf()
        &&& valid_size(self.spec_size())
        &&& self.spec_side() > 0
        &&& self.spec_snake()@.len() == self.spec_score() + 1
    }

    /// What the next tick reports: a collision, or whether the food is eaten.
    pub open spec fn next_outcome(&self) -> Result<bool, ()> {
        outcome(
            self.spec_snake()@,
            self.spec_snake().next_head(self.spec_size()),
            self.spec_food(),
        )
    }

    /// The snake's body after the next tick.
    pub open spec fn next_body(&self) -> Seq<Pos> {
        body_after(
            self.spec_snake()@,
            self.spec_snake().next_head(self.spec_size()),
            self.spec_food(),
        )
    }

    /// A game on a board of `max_w` columns and `max_h` rows with the food at
    /// `food`. With `side` the shorter of the two extents, the snake is one
    /// cell at column `side / 4`, row `side / 2`, heading right; the score
    /// is 0.
    pub fn start(max_w: u16, max_h: u16, food: Pos) -> (g: Game)
        requires
            max_w > 0,
            max_h > 0,
        ensures
            g.wf(),
            g.spec_size() == (max_w, max_h),
            g.spec_side() == shorter_side(max_w, max_h),
            g.spec_food() == food,
            g.spec_score() == 0,
            !g.spec_is_over(),
            g.spec_snake()@ == seq![Pos(g.spec_side() / 4, g.spec_side() / 2)],
            g.spec_snake().heading() == Direction::Right,
    {
        let side = if max_w <= max_h {
            max_w
        } else {
            max_h
        };
        Game {
            player: Snake::new(side / 4, side / 2),
            food,
            score: 0,
            size: (max_w, max_h),
            side,
            over: false,
        }
    }

    /// A game as `start` makes it, with the food on a random cell of the
    /// square of `side` by `side` cells in the board's top left corner.
    pub fn new(max_w: u16, max_h: u16, rng: &mut ThreadRng) -> (g: Game)
        requires
            max_w > 0,
            max_h > 0,
        ensures
            g.wf(),
            g.spec_size() == (max_w, max_h),
            g.spec_side() == shorter_side(max_w, max_h),
            g.spec_food().within((g.spec_side(), g.spec_side())),
            g.spec_score() == 0,
            !g.spec_is_over(),
            g.spec_snake()@ == seq![Pos(g.spec_side() / 4, g.spec_side() / 2)],
            g.spec_snake().heading() == Direction::Right,
    {
        let side = if max_w <= max_h {
            max_w
        } else {
            max_h
        };
        let food = rand_pos(rng, side, side);
        Game::start(max_w, max_h, food)
    }

    /// The snake.
    pub fn snake(&self) -> (s: &Snake)
        ensures
            *s == self.spec_snake(),
    {
        &self.player
    }

    /// The cell the food lies on.
    #[verifier::when_used_as_spec(spec_food)]
    pub fn food(&self) -> (p: Pos)
        ensures
            p == self.spec_food(),
    {
        self.food
    }

    /// How often the snake has eaten.
    #[verifier::when_used_as_spec(spec_score)]
    pub fn score(&self) -> (n: usize)
        ensures
            n == self.spec_score(),
    {
        self.score
    }

    /// The board's columns and rows, as last reported.
    #[verifier::when_used_as_spec(spec_size)]
    pub fn size(&self) -> (s: (u16, u16))
        ensures
            s == self.spec_size(),
    {
        self.size
    }

    /// Whether the snake has run into itself, which ends the game.
    #[verifier::when_used_as_spec(spec_is_over)]
    pub fn is_over(&self) -> (b: bool)
        ensures
            b == self.spec_is_over(),
    {
        self.over
    }

    /// Takes in one input and says whether the player asked to quit.
    ///
    /// A turn is passed to the snake, which may turn it down; a resize
    /// replaces the board's size; quitting and anything else leave the game
    /// as it is.
    pub fn handle(&mut self, input: Input) -> (quit: bool)
        requires
            old(self).wf(),
            !old(self).spec_is_over(),
            input matches Input::Resize(w, h) ==> w > 0 && h > 0,
        ensures
            final(self).wf(),
            !final(self).spec_is_over(),
            quit == (input == Input::Quit),
            final(self).spec_food() == old(self).spec_food(),
            final(self).spec_score() == old(self).spec_score(),
            final(self).spec_side() == old(self).spec_side(),
            final(self).spec_snake()@ == old(self).spec_snake()@,
            final(self).spec_size() == (match input {
                Input::Resize(w, h) => (w, h),
                _ => old(self).spec_size(),
            }),
            final(self).spec_snake().heading() == (match input {
                Input::Turn(dir) => if old(self).spec_snake().refuses(dir, old(self).spec_size()) {
                    old(self).spec_snake().heading()
                } else {
                    dir
                },
                _ => old(self).spec_snake().heading(),
            }),
    {
        match input {
            Input::Quit => true,
            Input::Turn(dir) => {
                self.player.change_direction(dir, self.size);
                false
            },
            Input::Resize(w, h) => {
                self.size = (w, h);
                false
            },
            Input::Other => false,
        }
    }

    /// Counts one meal and puts the food on `fresh`.
    fn feed(&mut self, fresh: Pos)
        requires
            old(self).spec_snake().wf(),
            valid_size(old(self).spec_size()),
            old(self).spec_side() > 0,
            old(self).spec_snake()@.len() == old(self).spec_score() + 2,
        ensures
            final(self).wf(),
            final(self).spec_snake() == old(self).spec_snake(),
            final(self).spec_size() == old(self).spec_size(),
            final(self).spec_side() == old(self).spec_side(),
            final(self).spec_is_over() == old(self).spec_is_over(),
            final(self).spec_score() == old(self).spec_score() + 1,
            final(self).spec_food() == fresh,
    {
        self.score = self.player.len() - 1;
        self.food = fresh;
    }

    /// One tick with the next food cell chosen by the caller: the snake
    /// moves on the board as it is now.
    ///
    /// The result and the snake's new body are those of the snake's own
    /// tick with the food where it lies. When the snake ate, the score goes
    /// up by one and the food is put on `fresh`; otherwise score and food
    /// stay. `Err` means the snake ran into itself: the game is over from
    /// then on.
    pub fn advance(&mut self, fresh: Pos) -> (r: Result<bool, ()>)
        requires
            old(self).wf(),
            !old(self).spec_is_over(),
        ensures
            final(self).wf(),
            final(self).spec_is_over() == (r is Err),
            final(self).spec_size() == old(self).spec_size(),
            final(self).spec_side() == old(self).spec_side(),
            final(self).spec_snake().heading() == old(self).spec_snake().heading(),
            r == old(self).next_outcome(),
            final(self).spec_snake()@ == old(self).next_body(),
            final(self).spec_score() == old(self).spec_score() + (if r == Ok::<bool, ()>(true) {
                1int
            } else {
                0int
            }),
            final(self).spec_food() == (if r == Ok::<bool, ()>(true) {
                fresh
            } else {
                old(self).spec_food()
            }),
    {
        let r = self.player.update(&self.food, self.size);
        match r {
            Ok(true) => self.feed(fresh),
            Ok(false) => {},
            Err(_) => self.over = true,
        }
        r
    }

    /// One tick: as `advance`, with the next food cell drawn at random from
    /// the food square when the snake ate. Nothing is drawn otherwise.
    pub fn tick(&mut self, rng: &mut ThreadRng) -> (r: Result<bool, ()>)
        requires
            old(self).wf(),
            !old(self).spec_is_over(),
        ensures
            final(self).wf(),
            final(self).spec_is_over() == (r is Err),
            final(self).spec_size() == old(self).spec_size(),
            final(self).spec_side() == old(self).spec_side(),
            final(self).spec_snake().heading() == old(self).spec_snake().heading(),
            r == old(self).next_outcome(),
            final(self).spec_snake()@ == old(self).next_body(),
            final(self).spec_score() == old(self).spec_score() + (if r == Ok::<bool, ()>(true) {
                1int
            } else {
                0int
            }),
            r == Ok::<bool, ()>(true) ==> final(self).spec_food().within(
                (old(self).spec_side(), old(self).spec_side()),
            ),
            r != Ok::<bool, ()>(true) ==> final(self).spec_food() == old(self).spec_food(),
    {
        let r = self.player.update(&self.food, self.size);
        match r {
            Ok(true) => {
                let fresh = rand_pos(rng, self.side, self.side);
                self.feed(fresh);
            },
            Ok(false) => {},
            Err(_) => self.over = true,
        }
        r
    }
}

/// While a game goes on, the snake is one cell longer than the score, and a
/// tick that eats raises both by one.
pub proof fn lemma_length_follows_score(g: Game)
    requires
        g.wf(),
    ensures
        g.spec_snake()@.len() == 1 + g.spec_score(),
        g.next_outcome() == Ok::<bool, ()>(true) ==> g.next_body().len() == 2 + g.spec_score(),
        g.next_outcome() == Ok::<bool, ()>(false) ==> g.next_body().len() == 1 + g.spec_score(),
{
}

} // verus!
