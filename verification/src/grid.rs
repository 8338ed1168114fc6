//! Cells of the board, the four headings, and one-cell movement that wraps
//! around the board's edges.

use vstd::prelude::*;

verus! {

/// One of the four headings the snake can take.
#[derive(Debug, Clone, Copy, PartialEq, Eq, Structural)]
pub enum Direction {
    Up,
    Down,
    Left,
    Right,
}

/// A cell of the grid: column `0`, then row `1`. Row 0 is the top row.
#[derive(Debug, Clone, Copy, PartialEq, Eq, Structural)]
pub struct Pos(pub u16, pub u16);

/// The coordinate one cell further along an axis of `n` cells: the last
/// coordinate of the axis (and anything beyond it) is followed by 0.
pub open spec fn wrap_next(c: u16, n: u16) -> u16 {
    if c >= n - 1 {
        0
    } else {
        (c + 1) as u16
    }
}

/// The coordinate one cell back along an axis of `n` cells: 0 is preceded
/// by the last coordinate of the axis.
pub open spec fn wrap_prev(c: u16, n: u16) -> u16 {
    if c == 0 {
        (n - 1) as u16
    } else {
        (c - 1) as u16
    }
}

/// A board has at least one column and one row.
pub open spec fn valid_size(size: (u16, u16)) -> bool {
    size.0 > 0 && size.1 > 0
}

impl Pos {
    /// The neighbouring cell in direction `dir` on a board of `size.0`
    /// columns and `size.1` rows, wrapping at the edges.
    pub open spec fn step(self, dir: Direction, size: (u16, u16)) -> Pos {
        match dir {
            Direction::Up => Pos(self.0, wrap_prev(self.1, size.1)),
            Direction::Down => Pos(self.0, wrap_next(self.1, size.1)),
            Direction::Left => Pos(wrap_prev(self.0, size.0), self.1),
            Direction::Right => Pos(wrap_next(self.0, size.0), self.1),
        }
    }

    /// Whether the cell lies on a board of the given size.
    pub open spec fn within(self, size: (u16, u16)) -> bool {
        self.0 < size.0 && self.1 < size.1
    }

    /// Moves one cell in direction `dir`, wrapping at the board's edges.
    pub fn neighbour(&self, dir: Direction, size: (u16, u16)) -> (r: Pos)
        requires
            valid_size(size),
        ensures
            r == self.step(dir, size),
            self.within(size) ==> r.within(size),
    {
        match dir {
            Direction::Up => Pos(self.0, dec_wrapping(self.1, size.1)),
            Direction::Down => Pos(self.0, inc_wrapping(self.1, size.1)),
            Direction::Left => Pos(dec_wrapping(self.0, size.0), self.1),
            Direction::Right => Pos(inc_wrapping(self.0, size.0), self.1),
        }
    }
}

fn inc_wrapping(c: u16, n: u16) -> (r: u16)
    requires
        n > 0,
    ensures
        r == wrap_next(c, n),
{
    if c >= n - 1 {
        0
    } else {
        c + 1
    }
}

fn dec_wrapping(c: u16, n: u16) -> (r: u16)
    requires
        n > 0,
    ensures
        r == wrap_prev(c, n),
{
    if c == 0 {
        n - 1
    } else {
        c - 1
    }
}

/// On a board of `n` cells along an axis, stepping forward from a coordinate
/// on the board is adding one modulo `n`, and stepping back is subtracting
/// one modulo `n`. In particular the last coordinate is followed by 0 and 0
/// is preceded by the last coordinate.
pub proof fn lemma_wrap_is_modular(c: u16, n: u16)
    requires
        c < n,
    ensures
        wrap_next(c, n) == (c + 1) % (n as int),
        wrap_prev(c, n) == (c + n - 1) % (n as int),
        wrap_next((n - 1) as u16, n) == 0,
        wrap_prev(0, n) == n - 1,
        wrap_next(c, n) < n,
        wrap_prev(c, n) < n,
{
    if c == n - 1 {
        assert((c + 1) % (n as int) == 0) by (nonlinear_arith)
            requires
                c + 1 == n,
                n > 0,
        ;
    } else {
        assert((c + 1) % (n as int) == c + 1) by (nonlinear_arith)
            requires
                0 <= c + 1 < n,
        ;
    }
    if c == 0 {
        assert((c + n - 1) % (n as int) == n - 1) by (nonlinear_arith)
            requires
                c == 0,
                n > 0,
        ;
    } else {
        assert((c + n - 1) % (n as int) == c - 1) by (nonlinear_arith)
            requires
                0 < c < n,
        ;
    }
}

/// Moving right from the last column leads to column 0, moving left from
/// column 0 to the last column, moving down from the last row to row 0 and
/// moving up from row 0 to the last row; the other coordinate stays.
pub proof fn lemma_step_wraps_at_edges(p: Pos, size: (u16, u16))
    requires
        valid_size(size),
    ensures
        p.0 == size.0 - 1 ==> p.step(Direction::Right, size) == Pos(0, p.1),
        p.0 == 0 ==> p.step(Direction::Left, size) == Pos((size.0 - 1) as u16, p.1),
        p.1 == size.1 - 1 ==> p.step(Direction::Down, size) == Pos(p.0, 0),
        p.1 == 0 ==> p.step(Direction::Up, size) == Pos(p.0, (size.1 - 1) as u16),
{
}

/// Away from the edges a step changes one coordinate by exactly one.
pub proof fn lemma_step_inside(p: Pos, size: (u16, u16))
    requires
        valid_size(size),
    ensures
        p.0 < size.0 - 1 ==> p.step(Direction::Right, size) == Pos((p.0 + 1) as u16, p.1),
        p.0 > 0 ==> p.step(Direction::Left, size) == Pos((p.0 - 1) as u16, p.1),
        p.1 < size.1 - 1 ==> p.step(Direction::Down, size) == Pos(p.0, (p.1 + 1) as u16),
        p.1 > 0 ==> p.step(Direction::Up, size) == Pos(p.0, (p.1 - 1) as u16),
{
}

} // verus!
