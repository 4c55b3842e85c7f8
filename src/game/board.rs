use vstd::prelude::*;

use super::piece::{Block, Mino};
use super::point::{IPoint, Point};

verus! {

pub const BOARD_HEIGHT: u8 = 24;

pub const BOARD_WIDTH: u8 = 10;

/// The first visible row; the rows above it are the spawn buffer.
pub const VISIBLE_START: u8 = 4;

pub const BOARD_VISIBLE_HEIGHT: u8 = BOARD_HEIGHT - VISIBLE_START;

pub const TOTAL_BLOCKS: u8 = BOARD_HEIGHT * BOARD_WIDTH;

/// A single line
#[derive(Debug, Clone, Copy)]
pub struct Line(pub [Option<Block>; 10]);

/// The main board
///
/// Higher `y` is lower on the board
#[derive(Debug, Clone, Copy)]
pub struct Board(pub [Line; 24]);

pub open spec fn in_bounds_at(x: int, y: int) -> bool {
    0 <= x < 10 && 0 <= y < 24
}

/// `p` is one of the four cells `ps`.
pub open spec fn among(ps: [Point; 4], x: int, y: int) -> bool {
    exists|i: int| 0 <= i < 4 && ps[i].x == x && ps[i].y == y
}

/// The rows that are not full, from top to bottom.
pub open spec fn kept_rows(rows: Seq<Line>) -> Seq<Line>
    decreases rows.len(),
{
    if rows.len() == 0 {
        Seq::empty()
    } else {
        let k = kept_rows(rows.drop_last());
        if rows.last().is_full() {
            k
        } else {
            k.push(rows.last())
        }
    }
}

proof fn lemma_kept_rows_len(rows: Seq<Line>)
    ensures
        kept_rows(rows).len() <= rows.len(),
    decreases rows.len(),
{
    if rows.len() > 0 {
        lemma_kept_rows_len(rows.drop_last());
    }
}

impl Line {
    pub open spec fn is_full(self) -> bool {
        forall|x: int| 0 <= x < 10 ==> #[trigger] self.0[x].is_some()
    }

    pub open spec fn is_clear(self) -> bool {
        forall|x: int| 0 <= x < 10 ==> #[trigger] self.0[x].is_none()
    }

    pub fn empty() -> (r: Line)
        ensures
            r.is_clear(),
    {
        Line([None, None, None, None, None, None, None, None, None, None])
    }

    pub fn blocks(&self) -> (r: &[Option<Block>])
        ensures
            r@ == self.0@,
    {
        self.0.as_slice()
    }

    pub fn block(&self, x: usize) -> (r: Option<Block>)
        requires
            x < 10,
        ensures
            r == self.0[x as int],
    {
        self.0[x]
    }

    /// Every cell of the line is filled.
    pub fn full(&self) -> (r: bool)
        ensures
            r == self.is_full(),
    {
        let mut x: usize = 0;
        while x < 10
            invariant
                x <= 10,
                forall|i: int| 0 <= i < x ==> #[trigger] self.0[i].is_some(),
            decreases 10 - x,
        {
            if self.0[x].is_none() {
                assert(!self.0[x as int].is_some());
                return false;
            }
            x += 1;
        }
        true
    }
}

impl Board {
    pub open spec fn cell(self, x: int, y: int) -> Option<Block> {
        self.0[y].0[x]
    }

    /// In bounds and filled.
    pub open spec fn occupied_at(self, x: int, y: int) -> bool {
        in_bounds_at(x, y) && self.cell(x, y).is_some()
    }

    /// In bounds and empty.
    pub open spec fn free_at(self, x: int, y: int) -> bool {
        in_bounds_at(x, y) && self.cell(x, y).is_none()
    }

    /// Every cell of the piece is in bounds and empty.
    pub open spec fn fits(self, m: Mino) -> bool {
        forall|i: int|
            #![trigger m.cell_ok(i)]
            0 <= i < 4 ==> m.cell_ok(i) && self.free_at(m.cell_x(i), m.cell_y(i))
    }

    /// An empty board.
    pub fn new() -> (r: Board)
        ensures
            forall|y: int| 0 <= y < 24 ==> #[trigger] r.0[y].is_clear(),
    {
        Board([Line::empty();24])
    }

    pub fn lines(&self) -> (r: &[Line])
        ensures
            r@ == self.0@,
    {
        self.0.as_slice()
    }

    /// Returns the visible lines
    pub fn visible(&self) -> (r: Vec<Line>)
        ensures
            r@ == self.0@.subrange(VISIBLE_START as int, BOARD_HEIGHT as int),
    {
        let mut r: Vec<Line> = Vec::new();
        let mut y: usize = VISIBLE_START as usize;
        while y < BOARD_HEIGHT as usize
            invariant
                VISIBLE_START <= y <= BOARD_HEIGHT,
                r@ == self.0@.subrange(VISIBLE_START as int, y as int),
            decreases BOARD_HEIGHT - y,
        {
            r.push(self.0[y]);
            y += 1;
            assert(r@ =~= self.0@.subrange(VISIBLE_START as int, y as int));
        }
        r
    }

    /// The bottom-left cell.
    pub fn origin(&self) -> (r: Point)
        ensures
            r.x == 0 && r.y == BOARD_HEIGHT - 1,
    {
        Point::new(0, BOARD_HEIGHT - 1)
    }

    pub fn line(&self, y: usize) -> (r: Line)
        requires
            y < 24,
        ensures
            r == self.0[y as int],
    {
        self.0[y]
    }

    pub fn block(&self, point: Point) -> (r: Option<Block>)
        requires
            in_bounds_at(point.x as int, point.y as int),
        ensures
            r == self.cell(point.x as int, point.y as int),
    {
        self.line(point.y as usize).block(point.x as usize)
    }

    /// Writes one cell.
    pub fn set_block(&mut self, point: Point, b: Option<Block>)
        requires
            in_bounds_at(point.x as int, point.y as int),
        ensures
            forall|x: int, y: int|
                in_bounds_at(x, y) ==> #[trigger] final(self).cell(x, y) == if x == point.x
                    && y == point.y {
                    b
                } else {
                    old(self).cell(x, y)
                },
    {
        let mut line = self.0[point.y as usize];
        line.0[point.x as usize] = b;
        self.0[point.y as usize] = line;
    }

    /// The point is on the board.
    pub fn in_bounds(&self, p: Point) -> (r: bool)
        ensures
            r == in_bounds_at(p.x as int, p.y as int),
    {
        p.y < BOARD_HEIGHT && p.x < BOARD_WIDTH
    }

    /// The point is on the board and its cell is filled.
    pub fn occupied(&self, p: Point) -> (r: bool)
        ensures
            r == self.occupied_at(p.x as int, p.y as int),
    {
        self.in_bounds(p) && self.block(p).is_some()
    }

    /// The point is on the board and its cell is empty.
    pub fn check_block(&self, p: Point) -> (r: bool)
        ensures
            r == self.free_at(p.x as int, p.y as int),
    {
        self.in_bounds(p) && self.block(p).is_none()
    }

    /// As `check_block`, for a signed point.
    pub fn icheck_block(&self, p: IPoint) -> (r: bool)
        ensures
            r == self.free_at(p.x as int, p.y as int),
    {
        p.x >= 0 && p.y >= 0 && self.check_block(Point::new(p.x as u8, p.y as u8))
    }

    /// `self` is `before` with `block` written into those of the cells `ps`
    /// that lie on the board.
    pub open spec fn merged(self, before: Board, ps: [Point; 4], block: Block) -> bool {
        forall|x: int, y: int|
            in_bounds_at(x, y) ==> #[trigger] self.cell(x, y) == if among(ps, x, y) {
                Some(block)
            } else {
                before.cell(x, y)
            }
    }

    /// `self` is `before` with its full rows removed: empty rows on top, then
    /// the remaining rows of `before` in their order.
    pub open spec fn cleared(self, before: Board) -> bool {
        let k = kept_rows(before.0@);
        let n = 24 - k.len();
        &&& forall|y: int| 0 <= y < n ==> #[trigger] self.0[y].is_clear()
        &&& forall|y: int| n <= y < 24 ==> #[trigger] self.0[y] == k[y - n]
    }

    /// Writes `block` into each of the four cells that lies on the board; the
    /// cells are not checked for being empty.
    pub fn merge(&mut self, points: [Point; 4], block: Block)
        ensures
            final(self).merged(*old(self), points, block),
    {
        let mut i: usize = 0;
        while i < 4
            invariant
                i <= 4,
                forall|x: int, y: int|
                    in_bounds_at(x, y) ==> #[trigger] self.cell(x, y) == if exists|k: int|
                        0 <= k < i && points[k].x == x && points[k].y == y {
                        Some(block)
                    } else {
                        old(self).cell(x, y)
                    },
            decreases 4 - i,
        {
            if self.in_bounds(points[i]) {
                self.set_block(points[i], Some(block));
            }
            i += 1;
        }
    }

    /// Removes every full row; the rows above each removed row move down and
    /// empty rows come in at the top. Returns how many rows were removed.
    pub fn clear_full_rows(&mut self) -> (r: u8)
        ensures
            r as int == 24 - kept_rows(old(self).0@).len(),
            final(self).cleared(*old(self)),
    {
        let ghost rows = self.0@;
        let mut kept: Vec<Line> = Vec::new();
        let mut y: usize = 0;
        while y < 24
            invariant
                y <= 24,
                self.0@ == rows,
                kept@ == kept_rows(rows.subrange(0, y as int)),
            decreases 24 - y,
        {
            let line = self.0[y];
            assert(rows.subrange(0, y + 1).drop_last() =~= rows.subrange(0, y as int));
            if !line.full() {
                kept.push(line);
            }
            y += 1;
        }
        assert(rows.subrange(0, 24) =~= rows);
        proof {
            lemma_kept_rows_len(rows);
        }
        let n: usize = 24 - kept.len();
        let mut y: usize = 0;
        while y < 24
            invariant
                y <= 24,
                n + kept@.len() == 24,
                kept@ == kept_rows(rows),
                forall|i: int| 0 <= i < y && i < n ==> #[trigger] self.0[i].is_clear(),
                forall|i: int| n <= i < y ==> #[trigger] self.0[i] == kept@[i - n],
            decreases 24 - y,
        {
            if y < n {
                self.0[y] = Line::empty();
            } else {
                self.0[y] = kept[y - n];
            }
            y += 1;
        }
        n as u8
    }
}

impl Default for Board {
    /// An empty board.
    fn default() -> (r: Board)
        ensures
            forall|y: int| 0 <= y < 24 ==> #[trigger] r.0[y].is_clear(),
    {
        Board::new()
    }
}

impl Default for Line {
    /// An empty line.
    fn default() -> (r: Line)
        ensures
            r.is_clear(),
    {
        Line::empty()
    }
}

impl Mino {
    /// Every cell of the piece is on the board and empty.
    pub fn check_points(&self, board: &Board) -> (r: bool)
        requires
            self.wf(),
        ensures
            r == board.fits(*self),
    {
        match self.real_points() {
            None => false,
            Some(ps) => {
                let mut i: usize = 0;
                while i < 4
                    invariant
                        i <= 4,
                        forall|k: int|
                            0 <= k < 4 ==> ps[k].x == #[trigger] self.cell_x(k) && ps[k].y
                                == self.cell_y(k),
                        forall|k: int| 0 <= k < 4 ==> #[trigger] self.cell_ok(k),
                        forall|k: int|
                            0 <= k < i ==> #[trigger] board.free_at(self.cell_x(k), self.cell_y(k)),
                    decreases 4 - i,
                {
                    if !board.check_block(ps[i]) {
                        let ghost k = i as int;
                        assert(board.fits(*self) ==> self.cell_ok(k));
                        assert(board.fits(*self) ==> board.free_at(self.cell_x(k), self.cell_y(k)));
                        assert(!board.fits(*self));
                        return false;
                    }
                    i += 1;
                }
                true
            },
        }
    }
}

} // verus!
