use vstd::prelude::*;

use crate::game::piece::shape;
use crate::game::{Block, Game, Mino, Ori, BOARD_VISIBLE_HEIGHT, BOARD_WIDTH, VISIBLE_START};
use crate::styling::{sat_sub, Sizing};

verus! {

/// What colours a quad; the host's palette turns it into a colour.
#[derive(Debug, Clone, Copy, PartialEq, Eq, Structural)]
pub enum Shade {
    /// A board cell, empty or holding a block.
    Cell(Option<Block>),
    /// The ghost of a block.
    Faded(Block),
    /// The dark border of a cell.
    Tint,
    /// The area behind the board.
    Background,
}

/// An axis-aligned rectangle in pixels.
#[derive(Debug, Clone, Copy, PartialEq, Eq, Structural)]
pub struct Quad {
    pub shade: Shade,
    pub x: u32,
    pub y: u32,
    pub width: u32,
    pub height: u32,
}

pub open spec fn q(shade: Shade, x: int, y: int, width: int, height: int) -> Quad {
    Quad { shade, x: x as u32, y: y as u32, width: width as u32, height: height as u32 }
}

/// The quads of one cell of size `s` at `(x, y)`: the cell, then, where `s`
/// is not zero, its top, left, bottom and right borders.
pub open spec fn square(shade: Shade, x: int, y: int, s: int) -> Seq<Quad> {
    let body = seq![q(shade, x, y, s, s)];
    if s != 0 {
        body + seq![
            q(Shade::Tint, x, y, s, 1),
            q(Shade::Tint, x, y, 1, s),
            q(Shade::Tint, x, y + s - 1, s, 1),
            q(Shade::Tint, x + s - 1, y, 1, s),
        ]
    } else {
        body
    }
}

/// The squares of the first `k` cells of a piece shape drawn with its
/// anchor at `(x, y)`.
pub open spec fn shape_quads(shade: Shade, x: int, y: int, ps: Seq<(int, int)>, s: int, k: nat) -> Seq<
    Quad,
>
    decreases k,
{
    if k == 0 {
        seq![]
    } else {
        let p = ps[k - 1];
        shape_quads(shade, x, y, ps, s, (k - 1) as nat) + square(shade, x + p.0 * s, y + p.1 * s, s)
    }
}

/// The offsets of a block's spawn shape.
pub open spec fn spawn_offsets(b: Block) -> Seq<(int, int)> {
    shape(b, Ori::Up).map_values(|p: crate::game::Point| (p.x as int, p.y as int))
}

/// The squares of the first `k` cells of the visible board, row by row.
pub open spec fn board_quads(z: Sizing, g: Game, k: nat) -> Seq<Quad>
    decreases k,
{
    if k == 0 {
        seq![]
    } else {
        let i = k - 1;
        let (col, row) = (i % 10, i / 10);
        board_quads(z, g, (k - 1) as nat) + square(
            Shade::Cell(g.board.cell(col, row + 4)),
            z.game_x + col * z.block_size,
            z.game_y + row * z.block_size,
            z.block_size as int,
        )
    }
}

/// The preview of the first `k` queued blocks, stacked downwards.
pub open spec fn next_quads(z: Sizing, minos: Seq<Block>, k: nat) -> Seq<Quad>
    decreases k,
{
    if k == 0 {
        seq![]
    } else {
        let s = z.block_size as int;
        let b = minos[k - 1];
        next_quads(z, minos, (k - 1) as nat) + shape_quads(
            Shade::Cell(Some(b)),
            z.game_x + s * 10 + s / 2,
            z.game_y + (k - 1) * (s * 2 + s / 2),
            spawn_offsets(b),
            s,
            4,
        )
    }
}

/// The held block, left of the board, where there is room for it.
pub open spec fn held_quads(z: Sizing, held: Option<Block>) -> Seq<Quad> {
    let s = z.block_size as int;
    match held {
        Some(b) => if z.game_x >= s * 4 + s / 2 {
            shape_quads(
                Shade::Cell(Some(b)),
                z.game_x - (s * 4 + s / 2),
                z.game_y as int,
                spawn_offsets(b),
                s,
                4,
            )
        } else {
            seq![]
        },
        None => seq![],
    }
}

/// A piece on the board; rows above the visible field are drawn on its top row.
pub open spec fn mino_quads(z: Sizing, m: Mino, shade: Shade) -> Seq<Quad> {
    let s = z.block_size as int;
    if forall|i: int| 0 <= i < 4 ==> #[trigger] m.cell_ok(i) {
        shape_quads(
            shade,
            z.game_x as int,
            z.game_y as int,
            Seq::new(4, |i: int| (m.cell_x(i), sat_sub(m.cell_y(i), 4))),
            s,
            4,
        )
    } else {
        seq![]
    }
}

impl Sizing {
    /// Every quad of a frame lies within `u32`.
    pub open spec fn drawable(self) -> bool {
        &&& self.game_x + 130 * self.block_size <= u32::MAX
        &&& self.game_y + 130 * self.block_size <= u32::MAX
    }
}

fn quad(shade: Shade, x: u32, y: u32, width: u32, height: u32) -> (r: Quad)
    ensures
        r == (Quad { shade, x, y, width, height }),
{
    Quad { shade, x, y, width, height }
}

/// The background behind the visible board.
pub fn base_quads(sizing: &Sizing) -> (r: Vec<Quad>)
    requires
        sizing.drawable(),
    ensures
        r@ == seq![
            q(
                Shade::Background,
                sizing.game_x as int,
                sizing.game_y as int,
                sizing.block_size * 10,
                sizing.block_size * 20,
            ),
        ],
{
    let bq = quad(
        Shade::Background,
        sizing.game_x,
        sizing.game_y,
        sizing.block_size * BOARD_WIDTH as u32,
        sizing.block_size * BOARD_VISIBLE_HEIGHT as u32,
    );
    let r = vec![bq];
    assert(r@ =~= seq![bq]);
    r
}

/// Everything drawn of a game in one frame: board, preview, held block,
/// ghost and piece.
pub fn game_quads(sizing: &Sizing, game: &Game) -> (r: Vec<Quad>)
    requires
        sizing.drawable(),
        game.wf(),
    ensures
        r@ == game_frame(*sizing, *game),
{
    QDraw { sizing, game, quads: Vec::new() }.draw_game()
}

/// The quads of a frame, in drawing order.
pub open spec fn game_frame(z: Sizing, g: Game) -> Seq<Quad> {
    board_quads(z, g, 200) + next_quads(z, g.bag.minos@, 5) + held_quads(z, g.bag.held)
        + mino_quads(z, g.ghost_piece, Shade::Faded(g.ghost_piece.block)) + mino_quads(
        z,
        g.mino,
        Shade::Cell(Some(g.mino.block)),
    )
}

/// Collects the quads of one frame.
pub struct QDraw<'a> {
    pub sizing: &'a Sizing,
    pub game: &'a Game,
    pub quads: Vec<Quad>,
}

impl<'a> QDraw<'a> {
    pub open spec fn same_source(self, o: QDraw) -> bool {
        *self.sizing == *o.sizing && *self.game == *o.game
    }

    pub fn draw_game(self) -> (r: Vec<Quad>)
        requires
            self.sizing.drawable(),
            self.game.wf(),
        ensures
            r@ == self.quads@ + game_frame(*self.sizing, *self.game),
    {
        let mut d = self;
        let ghost start = d.quads@;
        d.draw_board();
        d.draw_next();
        d.draw_held();
        proof {
            crate::game::lemma_ghost_settled(d.game.board, d.game.mino);
        }
        d.draw_mino(d.game.ghost_piece(), true);
        d.draw_mino(d.game.mino(), false);
        assert(d.quads@ =~= start + game_frame(*d.sizing, *d.game));
        d.quads
    }

    /// Pushes one square: the cell and, for a non-zero size, its borders.
    pub fn push_square(&mut self, shade: Shade, x: u32, y: u32)
        requires
            x + old(self).sizing.block_size <= u32::MAX,
            y + old(self).sizing.block_size <= u32::MAX,
        ensures
            final(self).same_source(*old(self)),
            final(self).quads@ == old(self).quads@ + square(
                shade,
                x as int,
                y as int,
                old(self).sizing.block_size as int,
            ),
    {
        let s = self.sizing.block_size;
        let ghost start = self.quads@;
        self.quads.push(quad(shade, x, y, s, s));
        if s != 0 {
            self.quads.push(quad(Shade::Tint, x, y, s, 1));
            self.quads.push(quad(Shade::Tint, x, y, 1, s));
            self.quads.push(quad(Shade::Tint, x, y + s - 1, s, 1));
            self.quads.push(quad(Shade::Tint, x + s - 1, y, 1, s));
        }
        assert(self.quads@ =~= start + square(shade, x as int, y as int, s as int));
    }

    /// The visible rows of the board, one square per cell.
    pub fn draw_board(&mut self)
        requires
            old(self).sizing.drawable(),
        ensures
            final(self).same_source(*old(self)),
            final(self).quads@ == old(self).quads@ + board_quads(
                *old(self).sizing,
                *old(self).game,
                200,
            ),
    {
        let ghost start = self.quads@;
        let s = self.sizing.block_size;
        let mut row: u32 = 0;
        while row < BOARD_VISIBLE_HEIGHT as u32
            invariant
                self.same_source(*old(self)),
                self.sizing.drawable(),
                s == self.sizing.block_size,
                row <= 20,
                self.quads@ == start + board_quads(*self.sizing, *self.game, (row * 10) as nat),
            decreases 20 - row,
        {
            let mut col: u32 = 0;
            while col < BOARD_WIDTH as u32
                invariant
                    self.same_source(*old(self)),
                    self.sizing.drawable(),
                    s == self.sizing.block_size,
                    row < 20,
                    col <= 10,
                    self.quads@ == start + board_quads(
                        *self.sizing,
                        *self.game,
                        (row * 10 + col) as nat,
                    ),
                decreases 10 - col,
            {
                assert(col * s <= 9 * s && row * s <= 19 * s && ((row * 10 + col) / 10 == row) && ((
                row * 10 + col) % 10 == col)) by (nonlinear_arith)
                    requires
                        col < 10,
                        row < 20,
                ;
                let b = self.game.blocks((row + VISIBLE_START as u32) as u8).0[col as usize];
                self.push_square(
                    Shade::Cell(b),
                    self.sizing.game_x + col * s,
                    self.sizing.game_y + row * s,
                );
                col += 1;
            }
            row += 1;
        }
    }

    /// The first five queued blocks, right of the board.
    pub fn draw_next(&mut self)
        requires
            old(self).sizing.drawable(),
            old(self).game.bag.minos@.len() >= 5,
        ensures
            final(self).same_source(*old(self)),
            final(self).quads@ == old(self).quads@ + next_quads(
                *old(self).sizing,
                old(self).game.bag.minos@,
                5,
            ),
    {
        let ghost start = self.quads@;
        let s = self.sizing.block_size;
        let next_x = self.sizing.game_x + s * BOARD_WIDTH as u32 + s / 2;
        let mut i: usize = 0;
        while i < 5
            invariant
                self.same_source(*old(self)),
                self.sizing.drawable(),
                self.game.bag.minos@.len() >= 5,
                s == self.sizing.block_size,
                next_x == self.sizing.game_x + s * 10 + s / 2,
                i <= 5,
                self.quads@ == start + next_quads(*self.sizing, self.game.bag.minos@, i as nat),
            decreases 5 - i,
        {
            let b = self.game.bag().minos[i];
            assert(i * (s * 2 + s / 2) + 3 * s <= 14 * s) by (nonlinear_arith)
                requires
                    i < 5,
            ;
            let next_y = self.sizing.game_y + (i as u32) * (s * 2 + s / 2);
            self.draw_shape(Shade::Cell(Some(b)), b, next_x, next_y);
            i += 1;
        }
    }

    /// A block's spawn shape with its anchor at `(x, y)`.
    fn draw_shape(&mut self, shade: Shade, b: Block, x: u32, y: u32)
        requires
            x + 4 * old(self).sizing.block_size <= u32::MAX,
            y + 4 * old(self).sizing.block_size <= u32::MAX,
        ensures
            final(self).same_source(*old(self)),
            final(self).quads@ == old(self).quads@ + shape_quads(
                shade,
                x as int,
                y as int,
                spawn_offsets(b),
                old(self).sizing.block_size as int,
                4,
            ),
    {
        let ghost start = self.quads@;
        let s = self.sizing.block_size;
        let ps = b.points(Ori::Up);
        proof {
            crate::game::piece::lemma_shape_small(b, Ori::Up);
        }
        let mut k: usize = 0;
        while k < 4
            invariant
                self.same_source(*old(self)),
                s == self.sizing.block_size,
                x + 4 * s <= u32::MAX,
                y + 4 * s <= u32::MAX,
                ps@ == shape(b, Ori::Up),
                forall|j: int| 0 <= j < 4 ==> #[trigger] ps[j].x <= 3 && ps[j].y <= 3,
                k <= 4,
                self.quads@ == start + shape_quads(
                    shade,
                    x as int,
                    y as int,
                    spawn_offsets(b),
                    s as int,
                    k as nat,
                ),
            decreases 4 - k,
        {
            let p = ps[k];
            assert(p.x * s <= 3 * s && p.y * s <= 3 * s) by (nonlinear_arith)
                requires
                    p.x <= 3,
                    p.y <= 3,
            ;
            self.push_square(shade, x + p.x as u32 * s, y + p.y as u32 * s);
            k += 1;
        }
    }

    /// The held block, left of the board, where there is room for it.
    pub fn draw_held(&mut self)
        requires
            old(self).sizing.drawable(),
        ensures
            final(self).same_source(*old(self)),
            final(self).quads@ == old(self).quads@ + held_quads(
                *old(self).sizing,
                old(self).game.bag.held,
            ),
    {
        let s = self.sizing.block_size;
        let held_x = match self.sizing.game_x.checked_sub(s * 4 + s / 2) {
            Some(x) => x,
            None => {
                assert(self.quads@ =~= self.quads@ + held_quads(*self.sizing, self.game.bag.held));
                return ;
            },
        };
        match self.game.bag().held {
            Some(held) => self.draw_shape(Shade::Cell(Some(held)), held, held_x, self.sizing.game_y),
            None => {
                assert(self.quads@ =~= self.quads@ + held_quads(*self.sizing, self.game.bag.held));
            },
        }
    }

    /// A piece, faded for the ghost.
    pub fn draw_mino(&mut self, mino: Mino, faded: bool)
        requires
            old(self).sizing.drawable(),
            mino.wf(),
        ensures
            final(self).same_source(*old(self)),
            final(self).quads@ == old(self).quads@ + mino_quads(
                *old(self).sizing,
                mino,
                if faded {
                    Shade::Faded(mino.block)
                } else {
                    Shade::Cell(Some(mino.block))
                },
            ),
    {
        let shade = if faded {
            Shade::Faded(mino.block)
        } else {
            Shade::Cell(Some(mino.block))
        };
        let ghost start = self.quads@;
        let ghost cells = Seq::new(4, |i: int| (mino.cell_x(i), sat_sub(mino.cell_y(i), 4)));
        let points = match mino.real_points() {
            Some(ps) => ps,
            None => {
                assert(self.quads@ =~= start + mino_quads(*self.sizing, mino, shade));
                return ;
            },
        };
        let s = self.sizing.block_size;
        let gx = self.sizing.game_x;
        let gy = self.sizing.game_y;
        let mut k: usize = 0;
        while k < 4
            invariant
                self.same_source(*old(self)),
                self.sizing.drawable(),
                s == self.sizing.block_size,
                gx == self.sizing.game_x,
                gy == self.sizing.game_y,
                forall|j: int| 0 <= j < 4 ==> #[trigger] mino.cell_ok(j),
                forall|j: int|
                    #![trigger points[j]]
                    0 <= j < 4 ==> points[j].x == mino.cell_x(j) && points[j].y == mino.cell_y(j),
                cells == Seq::new(4, |i: int| (mino.cell_x(i), sat_sub(mino.cell_y(i), 4))),
                k <= 4,
                self.quads@ == start + shape_quads(shade, gx as int, gy as int, cells, s as int, k as nat),
            decreases 4 - k,
        {
            let p = points[k];
            assert(mino.cell_ok(k as int));
            let row = p.y.saturating_sub(VISIBLE_START);
            assert(p.x * s <= 127 * s && row * s <= 127 * s) by (nonlinear_arith)
                requires
                    p.x <= 127,
                    row <= 127,
            ;
            self.push_square(shade, gx + p.x as u32 * s, gy + row as u32 * s);
            k += 1;
        }
    }
}

} // verus!
