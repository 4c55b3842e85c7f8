use vstd::prelude::*;

use super::point::{non_negative, to_cell, IPoint, Point};

verus! {

/// The orientation of a piece. `Up` is the spawn orientation; one clockwise
/// quarter turn leads from `Up` to `Left`, one counter-clockwise turn to `Right`.
#[derive(Debug, Clone, Copy, Default, PartialEq, Eq, Structural)]
pub enum Ori {
    #[default]
    Up,
    Right,
    Down,
    Left,
}

/// A single block
#[derive(Debug, Clone, Copy, PartialEq, Eq, Structural)]
pub enum Block {
    /// cyan
    I,
    /// blue
    J,
    /// orange
    L,
    /// yellow
    O,
    /// green
    S,
    /// magenta
    T,
    /// red
    Z,
}

pub open spec fn pt(x: int, y: int) -> Point {
    Point { x: x as u8, y: y as u8 }
}

pub open spec fn ip(x: int, y: int) -> IPoint {
    IPoint { x: x as i8, y: y as i8 }
}

/// The four cells of a block in an orientation, relative to the piece's anchor.
pub open spec fn shape(b: Block, o: Ori) -> Seq<Point> {
    match (b, o) {
        (Block::I, Ori::Up) => seq![pt(0, 1), pt(1, 1), pt(2, 1), pt(3, 1)],
        (Block::I, Ori::Right) => seq![pt(1, 0), pt(1, 1), pt(1, 2), pt(1, 3)],
        (Block::I, Ori::Down) => seq![pt(0, 2), pt(1, 2), pt(2, 2), pt(3, 2)],
        (Block::I, Ori::Left) => seq![pt(2, 0), pt(2, 1), pt(2, 2), pt(2, 3)],
        (Block::J, Ori::Up) => seq![pt(0, 1), pt(1, 1), pt(2, 1), pt(0, 0)],
        (Block::J, Ori::Right) => seq![pt(1, 0), pt(1, 1), pt(1, 2), pt(0, 2)],
        (Block::J, Ori::Down) => seq![pt(0, 1), pt(1, 1), pt(2, 1), pt(2, 2)],
        (Block::J, Ori::Left) => seq![pt(1, 0), pt(1, 1), pt(1, 2), pt(2, 0)],
        (Block::L, Ori::Up) => seq![pt(0, 1), pt(1, 1), pt(2, 1), pt(2, 0)],
        (Block::L, Ori::Right) => seq![pt(1, 0), pt(1, 1), pt(1, 2), pt(0, 0)],
        (Block::L, Ori::Down) => seq![pt(0, 1), pt(1, 1), pt(2, 1), pt(0, 2)],
        (Block::L, Ori::Left) => seq![pt(1, 0), pt(1, 1), pt(1, 2), pt(2, 2)],
        (Block::O, Ori::Up) => seq![pt(1, 0), pt(1, 1), pt(2, 0), pt(2, 1)],
        (Block::O, Ori::Right) => seq![pt(1, 0), pt(1, 1), pt(2, 0), pt(2, 1)],
        (Block::O, Ori::Down) => seq![pt(1, 0), pt(1, 1), pt(2, 0), pt(2, 1)],
        (Block::O, Ori::Left) => seq![pt(1, 0), pt(1, 1), pt(2, 0), pt(2, 1)],
        (Block::S, Ori::Up) => seq![pt(1, 0), pt(2, 0), pt(0, 1), pt(1, 1)],
        (Block::S, Ori::Right) => seq![pt(0, 0), pt(0, 1), pt(1, 1), pt(1, 2)],
        (Block::S, Ori::Down) => seq![pt(1, 1), pt(2, 1), pt(0, 2), pt(1, 2)],
        (Block::S, Ori::Left) => seq![pt(1, 0), pt(1, 1), pt(2, 1), pt(2, 2)],
        (Block::T, Ori::Up) => seq![pt(1, 0), pt(0, 1), pt(1, 1), pt(2, 1)],
        (Block::T, Ori::Right) => seq![pt(1, 0), pt(0, 1), pt(1, 1), pt(1, 2)],
        (Block::T, Ori::Down) => seq![pt(0, 1), pt(1, 1), pt(2, 1), pt(1, 2)],
        (Block::T, Ori::Left) => seq![pt(1, 0), pt(1, 1), pt(2, 1), pt(1, 2)],
        (Block::Z, Ori::Up) => seq![pt(0, 0), pt(1, 0), pt(1, 1), pt(2, 1)],
        (Block::Z, Ori::Right) => seq![pt(1, 0), pt(0, 1), pt(1, 1), pt(0, 2)],
        (Block::Z, Ori::Down) => seq![pt(0, 1), pt(1, 1), pt(1, 2), pt(2, 2)],
        (Block::Z, Ori::Left) => seq![pt(2, 0), pt(1, 1), pt(2, 1), pt(1, 2)],
    }
}

/// Two cells share an edge.
pub open spec fn adjacent(p: Point, q: Point) -> bool {
    (p.x == q.x && (p.y + 1 == q.y || q.y + 1 == p.y)) || (p.y == q.y && (p.x + 1 == q.x || q.x
        + 1 == p.x))
}

/// Cell `j` of the four cells `s` is reached from cell 0 in at most `n` steps
/// between adjacent cells of `s`.
pub open spec fn reached(s: Seq<Point>, n: nat, j: int) -> bool
    decreases n,
{
    if n == 0 {
        j == 0
    } else {
        reached(s, (n - 1) as nat, j) || (reached(s, (n - 1) as nat, 0) && adjacent(s[0], s[j]))
            || (reached(s, (n - 1) as nat, 1) && adjacent(s[1], s[j])) || (reached(
            s,
            (n - 1) as nat,
            2,
        ) && adjacent(s[2], s[j])) || (reached(s, (n - 1) as nat, 3) && adjacent(s[3], s[j]))
    }
}

/// Four pairwise distinct cells that form one edge-connected shape.
pub open spec fn is_tetromino(s: Seq<Point>) -> bool {
    &&& s.len() == 4
    &&& forall|i: int, j: int| 0 <= i < 4 && 0 <= j < 4 && i != j ==> s[i] != s[j]
    &&& forall|j: int| 0 <= j < 4 ==> #[trigger] reached(s, 3, j)
}

/// Every block has, in every orientation, four distinct cells that form a
/// connected tetromino.
pub proof fn lemma_shape_is_tetromino(b: Block, o: Ori)
    ensures
        is_tetromino(shape(b, o)),
{
    reveal_with_fuel(reached, 4);
    let s = shape(b, o);
    assert(s.len() == 4);
    assert(reached(s, 3, 0));
    assert(reached(s, 3, 1));
    assert(reached(s, 3, 2));
    assert(reached(s, 3, 3));
}

/// Every offset lies in the 4 by 4 box at the anchor.
pub proof fn lemma_shape_small(b: Block, o: Ori)
    ensures
        forall|i: int| 0 <= i < 4 ==> #[trigger] shape(b, o)[i].x <= 3 && shape(b, o)[i].y <= 3,
{
}

impl Block {
    /// The cells of this block in orientation `ori`, relative to the anchor.
    pub fn points(self, ori: Ori) -> (r: [Point; 4])
        ensures
            r@ == shape(self, ori),
    {
        let r = match (self, ori) {
            (Block::I, Ori::Up) => [Point::new(0, 1), Point::new(1, 1), Point::new(2, 1), Point::new(3, 1)],
            (Block::I, Ori::Right) => [Point::new(1, 0), Point::new(1, 1), Point::new(1, 2), Point::new(1, 3)],
            (Block::I, Ori::Down) => [Point::new(0, 2), Point::new(1, 2), Point::new(2, 2), Point::new(3, 2)],
            (Block::I, Ori::Left) => [Point::new(2, 0), Point::new(2, 1), Point::new(2, 2), Point::new(2, 3)],
            (Block::J, Ori::Up) => [Point::new(0, 1), Point::new(1, 1), Point::new(2, 1), Point::new(0, 0)],
            (Block::J, Ori::Right) => [Point::new(1, 0), Point::new(1, 1), Point::new(1, 2), Point::new(0, 2)],
            (Block::J, Ori::Down) => [Point::new(0, 1), Point::new(1, 1), Point::new(2, 1), Point::new(2, 2)],
            (Block::J, Ori::Left) => [Point::new(1, 0), Point::new(1, 1), Point::new(1, 2), Point::new(2, 0)],
            (Block::L, Ori::Up) => [Point::new(0, 1), Point::new(1, 1), Point::new(2, 1), Point::new(2, 0)],
            (Block::L, Ori::Right) => [Point::new(1, 0), Point::new(1, 1), Point::new(1, 2), Point::new(0, 0)],
            (Block::L, Ori::Down) => [Point::new(0, 1), Point::new(1, 1), Point::new(2, 1), Point::new(0, 2)],
            (Block::L, Ori::Left) => [Point::new(1, 0), Point::new(1, 1), Point::new(1, 2), Point::new(2, 2)],
            (Block::O, Ori::Up) => [Point::new(1, 0), Point::new(1, 1), Point::new(2, 0), Point::new(2, 1)],
            (Block::O, Ori::Right) => [Point::new(1, 0), Point::new(1, 1), Point::new(2, 0), Point::new(2, 1)],
            (Block::O, Ori::Down) => [Point::new(1, 0), Point::new(1, 1), Point::new(2, 0), Point::new(2, 1)],
            (Block::O, Ori::Left) => [Point::new(1, 0), Point::new(1, 1), Point::new(2, 0), Point::new(2, 1)],
            (Block::S, Ori::Up) => [Point::new(1, 0), Point::new(2, 0), Point::new(0, 1), Point::new(1, 1)],
            (Block::S, Ori::Right) => [Point::new(0, 0), Point::new(0, 1), Point::new(1, 1), Point::new(1, 2)],
            (Block::S, Ori::Down) => [Point::new(1, 1), Point::new(2, 1), Point::new(0, 2), Point::new(1, 2)],
            (Block::S, Ori::Left) => [Point::new(1, 0), Point::new(1, 1), Point::new(2, 1), Point::new(2, 2)],
            (Block::T, Ori::Up) => [Point::new(1, 0), Point::new(0, 1), Point::new(1, 1), Point::new(2, 1)],
            (Block::T, Ori::Right) => [Point::new(1, 0), Point::new(0, 1), Point::new(1, 1), Point::new(1, 2)],
            (Block::T, Ori::Down) => [Point::new(0, 1), Point::new(1, 1), Point::new(2, 1), Point::new(1, 2)],
            (Block::T, Ori::Left) => [Point::new(1, 0), Point::new(1, 1), Point::new(2, 1), Point::new(1, 2)],
            (Block::Z, Ori::Up) => [Point::new(0, 0), Point::new(1, 0), Point::new(1, 1), Point::new(2, 1)],
            (Block::Z, Ori::Right) => [Point::new(1, 0), Point::new(0, 1), Point::new(1, 1), Point::new(0, 2)],
            (Block::Z, Ori::Down) => [Point::new(0, 1), Point::new(1, 1), Point::new(1, 2), Point::new(2, 2)],
            (Block::Z, Ori::Left) => [Point::new(2, 0), Point::new(1, 1), Point::new(2, 1), Point::new(1, 2)],
        };
        assert(r@ =~= shape(self, ori));
        r
    }
}

/// The orientation after a turn: counter-clockwise for `Some(true)`,
/// clockwise for `Some(false)`, a half turn for `None`.
pub open spec fn turned(o: Ori, left: Option<bool>) -> Ori {
    match left {
        Some(true) => match o {
            Ori::Up => Ori::Right,
            Ori::Right => Ori::Down,
            Ori::Down => Ori::Left,
            Ori::Left => Ori::Up,
        },
        Some(false) => match o {
            Ori::Up => Ori::Left,
            Ori::Right => Ori::Up,
            Ori::Down => Ori::Right,
            Ori::Left => Ori::Down,
        },
        None => match o {
            Ori::Up => Ori::Down,
            Ori::Right => Ori::Left,
            Ori::Down => Ori::Up,
            Ori::Left => Ori::Right,
        },
    }
}

pub fn turn(o: Ori, left: Option<bool>) -> (r: Ori)
    ensures
        r == turned(o, left),
{
    match left {
        Some(true) => match o {
            Ori::Up => Ori::Right,
            Ori::Right => Ori::Down,
            Ori::Down => Ori::Left,
            Ori::Left => Ori::Up,
        },
        Some(false) => match o {
            Ori::Up => Ori::Left,
            Ori::Right => Ori::Up,
            Ori::Down => Ori::Right,
            Ori::Left => Ori::Down,
        },
        None => match o {
            Ori::Up => Ori::Down,
            Ori::Right => Ori::Left,
            Ori::Down => Ori::Up,
            Ori::Left => Ori::Right,
        },
    }
}

/// Index of a quarter-turn transition in the quarter-turn kick tables.
pub open spec fn quarter_code(from: Ori, to: Ori) -> Option<usize> {
    match (from, to) {
        (Ori::Up, Ori::Right) => Some(0),
        (Ori::Right, Ori::Up) => Some(1),
        (Ori::Right, Ori::Down) => Some(2),
        (Ori::Down, Ori::Right) => Some(3),
        (Ori::Down, Ori::Left) => Some(4),
        (Ori::Left, Ori::Down) => Some(5),
        (Ori::Left, Ori::Up) => Some(6),
        (Ori::Up, Ori::Left) => Some(7),
        _ => None,
    }
}

/// Index of a half-turn transition in the half-turn kick table.
pub open spec fn half_code(from: Ori, to: Ori) -> Option<usize> {
    match (from, to) {
        (Ori::Up, Ori::Down) => Some(0),
        (Ori::Down, Ori::Up) => Some(1),
        (Ori::Right, Ori::Left) => Some(2),
        (Ori::Left, Ori::Right) => Some(3),
        _ => None,
    }
}

pub fn ori_code(from: Ori, to: Ori) -> (r: Option<usize>)
    ensures
        r == quarter_code(from, to),
{
    match (from, to) {
        (Ori::Up, Ori::Right) => Some(0),
        (Ori::Right, Ori::Up) => Some(1),
        (Ori::Right, Ori::Down) => Some(2),
        (Ori::Down, Ori::Right) => Some(3),
        (Ori::Down, Ori::Left) => Some(4),
        (Ori::Left, Ori::Down) => Some(5),
        (Ori::Left, Ori::Up) => Some(6),
        (Ori::Up, Ori::Left) => Some(7),
        _ => None,
    }
}

pub fn ori_code_180(from: Ori, to: Ori) -> (r: Option<usize>)
    ensures
        r == half_code(from, to),
{
    match (from, to) {
        (Ori::Up, Ori::Down) => Some(0),
        (Ori::Down, Ori::Up) => Some(1),
        (Ori::Right, Ori::Left) => Some(2),
        (Ori::Left, Ori::Right) => Some(3),
        _ => None,
    }
}

/// Kick offsets of the J, L, S, T, Z and O pieces for quarter turns.
pub open spec fn wallkicks(code: usize) -> Seq<IPoint> {
    match code {
        0 => seq![ip(0, 0), ip(1, 0), ip(1, -1), ip(0, 2), ip(1, 2)],
        1 => seq![ip(0, 0), ip(-1, 0), ip(-1, 1), ip(0, -2), ip(-1, -2)],
        2 => seq![ip(0, 0), ip(-1, 0), ip(-1, 1), ip(0, -2), ip(-1, -2)],
        3 => seq![ip(0, 0), ip(1, 0), ip(1, -1), ip(0, 2), ip(1, 2)],
        4 => seq![ip(0, 0), ip(-1, 0), ip(-1, -1), ip(0, 2), ip(-1, 2)],
        5 => seq![ip(0, 0), ip(1, 0), ip(1, 1), ip(0, -2), ip(1, -2)],
        6 => seq![ip(0, 0), ip(1, 0), ip(1, 1), ip(0, -2), ip(1, -2)],
        7 => seq![ip(0, 0), ip(-1, 0), ip(-1, -1), ip(0, 2), ip(-1, 2)],
        _ => seq![],
    }
}

/// Kick offsets of the I piece for quarter turns.
pub open spec fn wallkicks_i(code: usize) -> Seq<IPoint> {
    match code {
        0 => seq![ip(0, 0), ip(2, 0), ip(-1, 0), ip(2, -1), ip(-1, 2)],
        1 => seq![ip(0, 0), ip(-2, 0), ip(1, 0), ip(-2, 1), ip(1, -2)],
        2 => seq![ip(0, 0), ip(1, 0), ip(-2, 0), ip(1, 2), ip(-2, -1)],
        3 => seq![ip(0, 0), ip(-1, 0), ip(2, 0), ip(-1, -2), ip(2, 1)],
        4 => seq![ip(0, 0), ip(-2, 0), ip(1, 0), ip(-2, 1), ip(1, -2)],
        5 => seq![ip(0, 0), ip(2, 0), ip(-1, 0), ip(2, -1), ip(-1, 2)],
        6 => seq![ip(0, 0), ip(-1, 0), ip(2, 0), ip(-1, -2), ip(2, 1)],
        7 => seq![ip(0, 0), ip(1, 0), ip(-2, 0), ip(1, 2), ip(-2, -1)],
        _ => seq![],
    }
}

/// Kick offsets of every piece for half turns.
pub open spec fn wallkicks_180(code: usize) -> Seq<IPoint> {
    match code {
        0 => seq![ip(0, 0), ip(0, -1), ip(-1, -1), ip(1, -1), ip(-1, 0), ip(1, 0)],
        1 => seq![ip(0, 0), ip(0, 1), ip(1, 1), ip(-1, 1), ip(1, 0), ip(-1, 0)],
        2 => seq![ip(0, 0), ip(-1, 0), ip(-1, -2), ip(-1, -1), ip(0, -2), ip(0, -1)],
        3 => seq![ip(0, 0), ip(1, 0), ip(1, -2), ip(1, -1), ip(0, -2), ip(0, -1)],
        _ => seq![],
    }
}

/// The offsets to try, in order, when turning `block` from `from` to `to`;
/// empty when the two orientations are equal.
pub open spec fn kick_table(block: Block, from: Ori, to: Ori) -> Seq<IPoint> {
    match half_code(from, to) {
        Some(c) => wallkicks_180(c),
        None => match quarter_code(from, to) {
            Some(c) => if block == Block::I {
                wallkicks_i(c)
            } else {
                wallkicks(c)
            },
            None => seq![],
        },
    }
}

/// The kick offsets to try, in table order, for turning `block` from `from` to `to`.
pub fn kick_tests(block: Block, from: Ori, to: Ori) -> (r: Vec<IPoint>)
    ensures
        r@ == kick_table(block, from, to),
{
    if let Some(code) = ori_code_180(from, to) {
        let r = match code {
            0 => vec![IPoint::new(0, 0), IPoint::new(0, -1), IPoint::new(-1, -1), IPoint::new(1, -1), IPoint::new(-1, 0), IPoint::new(1, 0)],
            1 => vec![IPoint::new(0, 0), IPoint::new(0, 1), IPoint::new(1, 1), IPoint::new(-1, 1), IPoint::new(1, 0), IPoint::new(-1, 0)],
            2 => vec![IPoint::new(0, 0), IPoint::new(-1, 0), IPoint::new(-1, -2), IPoint::new(-1, -1), IPoint::new(0, -2), IPoint::new(0, -1)],
            3 => vec![IPoint::new(0, 0), IPoint::new(1, 0), IPoint::new(1, -2), IPoint::new(1, -1), IPoint::new(0, -2), IPoint::new(0, -1)],
            _ => vec![],
        };
        assert(r@ =~= kick_table(block, from, to));
        r
    } else if let Some(code) = ori_code(from, to) {
        if block == Block::I {
            let r = match code {
                0 => vec![IPoint::new(0, 0), IPoint::new(2, 0), IPoint::new(-1, 0), IPoint::new(2, -1), IPoint::new(-1, 2)],
                1 => vec![IPoint::new(0, 0), IPoint::new(-2, 0), IPoint::new(1, 0), IPoint::new(-2, 1), IPoint::new(1, -2)],
                2 => vec![IPoint::new(0, 0), IPoint::new(1, 0), IPoint::new(-2, 0), IPoint::new(1, 2), IPoint::new(-2, -1)],
                3 => vec![IPoint::new(0, 0), IPoint::new(-1, 0), IPoint::new(2, 0), IPoint::new(-1, -2), IPoint::new(2, 1)],
                4 => vec![IPoint::new(0, 0), IPoint::new(-2, 0), IPoint::new(1, 0), IPoint::new(-2, 1), IPoint::new(1, -2)],
                5 => vec![IPoint::new(0, 0), IPoint::new(2, 0), IPoint::new(-1, 0), IPoint::new(2, -1), IPoint::new(-1, 2)],
                6 => vec![IPoint::new(0, 0), IPoint::new(-1, 0), IPoint::new(2, 0), IPoint::new(-1, -2), IPoint::new(2, 1)],
                7 => vec![IPoint::new(0, 0), IPoint::new(1, 0), IPoint::new(-2, 0), IPoint::new(1, 2), IPoint::new(-2, -1)],
                _ => vec![],
            };
            assert(r@ =~= kick_table(block, from, to));
            r
        } else {
            let r = match code {
                0 => vec![IPoint::new(0, 0), IPoint::new(1, 0), IPoint::new(1, -1), IPoint::new(0, 2), IPoint::new(1, 2)],
                1 => vec![IPoint::new(0, 0), IPoint::new(-1, 0), IPoint::new(-1, 1), IPoint::new(0, -2), IPoint::new(-1, -2)],
                2 => vec![IPoint::new(0, 0), IPoint::new(-1, 0), IPoint::new(-1, 1), IPoint::new(0, -2), IPoint::new(-1, -2)],
                3 => vec![IPoint::new(0, 0), IPoint::new(1, 0), IPoint::new(1, -1), IPoint::new(0, 2), IPoint::new(1, 2)],
                4 => vec![IPoint::new(0, 0), IPoint::new(-1, 0), IPoint::new(-1, -1), IPoint::new(0, 2), IPoint::new(-1, 2)],
                5 => vec![IPoint::new(0, 0), IPoint::new(1, 0), IPoint::new(1, 1), IPoint::new(0, -2), IPoint::new(1, -2)],
                6 => vec![IPoint::new(0, 0), IPoint::new(1, 0), IPoint::new(1, 1), IPoint::new(0, -2), IPoint::new(1, -2)],
                7 => vec![IPoint::new(0, 0), IPoint::new(-1, 0), IPoint::new(-1, -1), IPoint::new(0, 2), IPoint::new(-1, 2)],
                _ => vec![],
            };
            assert(r@ =~= kick_table(block, from, to));
            r
        }
    } else {
        Vec::new()
    }
}

/// The controlled piece: its block, orientation, anchor and cell offsets.
#[derive(Debug, Clone, Copy, PartialEq, Eq)]
pub struct Mino {
    pub ori: Ori,
    pub pos: IPoint,
    pub block: Block,
    pub points: [Point; 4],
}

impl Mino {
    /// The offsets are those of the block in its orientation.
    pub open spec fn wf(self) -> bool {
        self.points@ == shape(self.block, self.ori)
    }

    /// Column of cell `i`: the anchor plus the block's offset in this orientation.
    pub open spec fn cell_x(self, i: int) -> int {
        self.pos.x + shape(self.block, self.ori)[i].x
    }

    /// Row of cell `i`.
    pub open spec fn cell_y(self, i: int) -> int {
        self.pos.y + shape(self.block, self.ori)[i].y
    }

    /// Cell `i` is non-negative and fits in `i8`.
    pub open spec fn cell_ok(self, i: int) -> bool {
        &&& 0 <= self.cell_x(i) <= 127
        &&& 0 <= self.cell_y(i) <= 127
    }

    /// Block, orientation and anchor: what places the piece.
    pub open spec fn pose(self) -> (Block, Ori, IPoint) {
        (self.block, self.ori, self.pos)
    }

    /// The piece moved to `pos`, all else kept.
    pub open spec fn at(self, pos: IPoint) -> Mino {
        Mino { pos, ..self }
    }

    /// A fresh piece of `block` in spawn orientation at the spawn position.
    pub fn new(block: Block) -> (r: Self)
        ensures
            r.ori == Ori::Up,
            r.block == block,
            r.pos == ip(3, 3),
            r.wf(),
    {
        Mino { ori: Ori::Up, block, pos: IPoint::new(3, 3), points: block.points(Ori::Up) }
    }

    /// The absolute cells of the piece, if each of them can be named.
    pub fn real_points(self) -> (r: Option<[Point; 4]>)
        requires
            self.wf(),
        ensures
            r.is_some() <==> forall|i: int| 0 <= i < 4 ==> #[trigger] self.cell_ok(i),
            r matches Some(ps) ==> forall|i: int|
                #![trigger ps[i]]
                #![trigger self.cell_x(i)]
                0 <= i < 4 ==> ps[i].x == self.cell_x(i) && ps[i].y == self.cell_y(i),
    {
        let a = self.points[0].checked_offset(self.pos);
        let b = self.points[1].checked_offset(self.pos);
        let c = self.points[2].checked_offset(self.pos);
        let d = self.points[3].checked_offset(self.pos);
        proof {
            lemma_shape_small(self.block, self.ori);
        }
        let v = [a, b, c, d];
        assert(v[0] == a && v[1] == b && v[2] == c && v[3] == d);
        assert forall|i: int|
            #![trigger v[i]]
            #![trigger self.cell_ok(i)]
            0 <= i < 4 implies (v[i].is_some() && non_negative(
            v[i].unwrap())) == self.cell_ok(i) && (self.cell_ok(i) ==> to_cell(v[i].unwrap()).x
            == self.cell_x(i) && to_cell(v[i].unwrap()).y == self.cell_y(i)) by {
            if i == 0 {
            } else if i == 1 {
            } else if i == 2 {
            } else {
            }
        }
        let r = super::point::maybe_cast_points(v);
        r
    }
}

} // verus!
