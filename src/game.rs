use vstd::prelude::*;

use rand::SeedableRng;
use rand_xoshiro::Xoshiro256Plus;
use std::time::Instant;

pub mod bag;
pub mod board;
pub mod piece;
pub mod point;
pub mod timing;

pub use bag::MinoBag;
pub use board::{Board, Line, BOARD_HEIGHT, BOARD_VISIBLE_HEIGHT, BOARD_WIDTH, TOTAL_BLOCKS, VISIBLE_START};
pub use piece::{Block, Mino, Ori};
pub use point::IPoint;
pub use point::Point;

use crate::Action;
use bag::is_full_set;
use board::{among, in_bounds_at};
use piece::{ip, kick_table, turn, turned, kick_tests};
use point::clamp_i8;
use timing::{instant_now, lock_budget, GameTime, HardDrop, TimeAction};

verus! {

/// Relies on rand's `random`: a `u64` drawn from the thread-local generator,
/// of which nothing is known.
#[verifier::external_body]
fn fresh_seed() -> u64 {
    rand::random::<u64>()
}

/// Relies on rand_xoshiro's `SeedableRng::seed_from_u64` for
/// `Xoshiro256Plus`: a generator whose stream the seed fixes.
#[verifier::external_body]
fn seeded_rng(seed: u64) -> Xoshiro256Plus {
    Xoshiro256Plus::seed_from_u64(seed)
}

/// A session: the board, the falling piece and its ghost, the bag, the
/// timers, and the generator that the bag draws from.
#[derive(Debug)]
pub struct Game {
    pub seed: u64,
    pub rng: Xoshiro256Plus,
    pub bag: MinoBag,
    pub mino: Mino,
    pub ghost_piece: Mino,
    pub time: GameTime,
    pub board: Board,
}

/// `p` moved by `(dx, dy)`, saturating at the range of `i8`.
pub open spec fn sat_add(p: IPoint, dx: int, dy: int) -> IPoint {
    IPoint { x: clamp_i8(p.x + dx) as i8, y: clamp_i8(p.y + dy) as i8 }
}

/// The piece shifted by `(dx, dy)`.
pub open spec fn shifted(m: Mino, dx: int, dy: int) -> Mino {
    m.at(sat_add(m.pos, dx, dy))
}

/// The anchor after a move attempt: the shifted anchor where every cell
/// of the shifted piece is on the board and empty, else the old anchor.
pub open spec fn moved(board: Board, m: Mino, dx: int, dy: int) -> IPoint {
    if board.fits(shifted(m, dx, dy)) {
        shifted(m, dx, dy).pos
    } else {
        m.pos
    }
}

/// The piece moved down one row at a time for as long as it fits.
pub open spec fn ghost_of(board: Board, m: Mino) -> Mino
    decreases 127 - m.pos.y,
{
    if m.pos.y < 127 && board.fits(shifted(m, 0, 1)) {
        ghost_of(board, shifted(m, 0, 1))
    } else {
        m
    }
}

/// The first kick, from index `i` on, whose position fits the turned piece `t`.
pub open spec fn first_fit(board: Board, t: Mino, tests: Seq<IPoint>, i: int) -> Option<IPoint>
    decreases tests.len() - i,
{
    if i < 0 || i >= tests.len() {
        None
    } else {
        let c = sat_add(t.pos, tests[i].x as int, tests[i].y as int);
        if board.fits(t.at(c)) {
            Some(c)
        } else {
            first_fit(board, t, tests, i + 1)
        }
    }
}

/// Orientation and anchor after a rotation request: the new orientation at
/// the first kick that fits, or the piece unchanged where none does.
pub open spec fn rotation_of(board: Board, m: Mino, left: Option<bool>) -> (Ori, IPoint) {
    let ori = turned(m.ori, left);
    match first_fit(board, Mino { ori, ..m }, kick_table(m.block, m.ori, ori), 0) {
        Some(p) => (ori, p),
        None => (m.ori, m.pos),
    }
}

/// The step of one move in direction `left`: left, right or down.
pub open spec fn dir_delta(left: Option<bool>) -> (int, int) {
    match left {
        Some(true) => (-1, 0),
        Some(false) => (1, 0),
        None => (0, 1),
    }
}

/// The piece after `n` single moves in direction `left`.
pub open spec fn slide(board: Board, m: Mino, left: Option<bool>, n: nat) -> Mino
    decreases n,
{
    if n == 0 {
        m
    } else {
        let p = slide(board, m, left, (n - 1) as nat);
        p.at(moved(board, p, dir_delta(left).0, dir_delta(left).1))
    }
}

/// `after` is `before` with the cells of `m` written, where all of them can
/// be named; else `before` unchanged.
pub open spec fn piece_merged(after: Board, before: Board, m: Mino) -> bool {
    if forall|i: int| 0 <= i < 4 ==> #[trigger] m.cell_ok(i) {
        forall|x: int, y: int|
            in_bounds_at(x, y) ==> #[trigger] after.cell(x, y) == if exists|i: int|
                0 <= i < 4 && m.cell_x(i) == x && m.cell_y(i) == y {
                Some(m.block)
            } else {
                before.cell(x, y)
            }
    } else {
        forall|x: int, y: int| in_bounds_at(x, y) ==> #[trigger] after.cell(x, y) == before.cell(x, y)
    }
}

/// The ghost keeps block, orientation, offsets and column, lies no higher
/// than the piece, cannot fall further, and is its own ghost: computing it
/// twice without a change in between gives the same piece.
pub proof fn lemma_ghost_settled(board: Board, m: Mino)
    ensures
        ghost_of(board, m).block == m.block,
        ghost_of(board, m).ori == m.ori,
        ghost_of(board, m).points == m.points,
        ghost_of(board, m).pos.x == m.pos.x,
        ghost_of(board, m).pos.y >= m.pos.y,
        !(ghost_of(board, m).pos.y < 127 && board.fits(shifted(ghost_of(board, m), 0, 1))),
        ghost_of(board, ghost_of(board, m)) == ghost_of(board, m),
    decreases 127 - m.pos.y,
{
    if m.pos.y < 127 && board.fits(shifted(m, 0, 1)) {
        lemma_ghost_settled(board, shifted(m, 0, 1));
    }
}

/// Each of the four cells of the piece is on the board and not occupied.
pub open spec fn cells_free(board: Board, m: Mino) -> bool {
    forall|i: int|
        #![trigger m.cell_x(i)]
        0 <= i < 4 ==> in_bounds_at(m.cell_x(i), m.cell_y(i)) && !board.occupied_at(
            m.cell_x(i),
            m.cell_y(i),
        )
}

/// A move is accepted exactly when each of the four cells of the shifted
/// piece is on the board and not occupied; otherwise the piece stays put.
pub proof fn lemma_move_legality(board: Board, m: Mino, dx: int, dy: int)
    ensures
        board.fits(shifted(m, dx, dy)) <==> cells_free(board, shifted(m, dx, dy)),
        moved(board, m, dx, dy) == if cells_free(board, shifted(m, dx, dy)) {
            shifted(m, dx, dy).pos
        } else {
            m.pos
        },
{
    let s = shifted(m, dx, dy);
    if board.fits(s) {
        assert forall|i: int| 0 <= i < 4 implies in_bounds_at(s.cell_x(i), s.cell_y(i))
            && !board.occupied_at(#[trigger] s.cell_x(i), s.cell_y(i)) by {
            assert(s.cell_ok(i));
        }
    }
    if cells_free(board, s) {
        assert forall|i: int| 0 <= i < 4 implies #[trigger] s.cell_ok(i) && board.free_at(
            s.cell_x(i),
            s.cell_y(i),
        ) by {
            assert(in_bounds_at(s.cell_x(i), s.cell_y(i)));
        }
    }
}

/// Which kick fits depends on the piece's pose alone.
proof fn lemma_first_fit_pose(board: Board, t1: Mino, t2: Mino, tests: Seq<IPoint>, i: int)
    requires
        t1.pose() == t2.pose(),
    ensures
        first_fit(board, t1, tests, i) == first_fit(board, t2, tests, i),
    decreases tests.len() - i,
{
    if 0 <= i < tests.len() {
        let c = sat_add(t1.pos, tests[i].x as int, tests[i].y as int);
        let (a, b) = (t1.at(c), t2.at(c));
        if board.fits(a) {
            assert forall|k: int| 0 <= k < 4 implies #[trigger] b.cell_ok(k) && board.free_at(
                b.cell_x(k),
                b.cell_y(k),
            ) by {
                assert(a.cell_ok(k));
            }
        }
        if board.fits(b) {
            assert forall|k: int| 0 <= k < 4 implies #[trigger] a.cell_ok(k) && board.free_at(
                a.cell_x(k),
                a.cell_y(k),
            ) by {
                assert(b.cell_ok(k));
            }
        }
        lemma_first_fit_pose(board, t1, t2, tests, i + 1);
    }
}

/// The anchor after trying to move `mino` by `(dx, dy)`.
pub fn try_move(board: &Board, mino: Mino, dx: i8, dy: i8) -> (r: IPoint)
    requires
        mino.wf(),
    ensures
        r == moved(*board, mino, dx as int, dy as int),
{
    let cand = Mino { pos: mino.pos.saturating_add(IPoint::new(dx, dy)), ..mino };
    if cand.check_points(board) {
        cand.pos
    } else {
        mino.pos
    }
}

/// The ghost of `mino`: where it comes to rest when dropped straight down.
pub fn drop_ghost(board: &Board, mino: Mino) -> (r: Mino)
    requires
        mino.wf(),
    ensures
        r == ghost_of(*board, mino),
{
    let mut cur = mino;
    loop
        invariant
            cur.wf(),
            ghost_of(*board, cur) == ghost_of(*board, mino),
        decreases 127 - cur.pos.y,
    {
        let p = try_move(board, cur, 0, 1);
        if p == cur.pos {
            return cur;
        }
        cur = Mino { pos: p, ..cur };
    }
}

/// The first kick position at which `target`, the piece turned in place from
/// orientation `from`, fits; `None` where none does.
pub fn first_kick(board: &Board, from: Ori, target: Mino) -> (r: Option<IPoint>)
    requires
        target.wf(),
    ensures
        r == first_fit(*board, target, kick_table(target.block, from, target.ori), 0),
{
    let tests = kick_tests(target.block, from, target.ori);
    let ghost t = tests@;
    let mut i: usize = 0;
    while i < tests.len()
        invariant
            target.wf(),
            tests@ == t,
            t == kick_table(target.block, from, target.ori),
            i <= tests.len(),
            first_fit(*board, target, t, 0) == first_fit(*board, target, t, i as int),
        decreases tests.len() - i,
    {
        let cand = Mino { pos: target.pos.saturating_add(tests[i]), ..target };
        assert(cand == target.at(sat_add(target.pos, t[i as int].x as int, t[i as int].y as int)));
        if cand.check_points(board) {
            assert(first_fit(*board, target, t, i as int) == Some(cand.pos));
            return Some(cand.pos);
        }
        i += 1;
    }
    None
}

/// `mino` after a rotation request: counter-clockwise for `Some(true)`,
/// clockwise for `Some(false)`, a half turn for `None`.
pub fn rotate_mino(board: &Board, mino: Mino, left: Option<bool>) -> (r: Mino)
    requires
        mino.wf(),
    ensures
        r.wf(),
        r.block == mino.block,
        (r.ori, r.pos) == rotation_of(*board, mino, left),
{
    let ori = turn(mino.ori, left);
    let new = Mino { ori, points: mino.block.points(ori), ..mino };
    proof {
        lemma_first_fit_pose(*board, new, Mino { ori, ..mino }, kick_table(mino.block, mino.ori, ori), 0);
    }
    match first_kick(board, mino.ori, new) {
        Some(pos) => Mino { pos, ..new },
        None => mino,
    }
}

impl Default for Game {
    /// A new session with a fresh seed.
    fn default() -> (r: Self)
        ensures
            r.is_fresh(),
    {
        Game::new(None)
    }
}

impl Mino {
    /// Same block, orientation, anchor and offsets.
    pub fn same_as(&self, o: &Mino) -> (r: bool)
        ensures
            r == (*self == *o),
    {
        let r = self.block == o.block && self.ori == o.ori && self.pos == o.pos && self.points[0]
            == o.points[0] && self.points[1] == o.points[1] && self.points[2] == o.points[2]
            && self.points[3] == o.points[3];
        if r {
            assert(self.points =~= o.points);
        }
        r
    }
}

impl Game {
    /// The bag, timers and piece are well formed and the ghost is that of
    /// the piece.
    pub open spec fn wf(self) -> bool {
        &&& self.bag.wf()
        &&& self.time.wf()
        &&& self.mino.wf()
        &&& self.ghost_piece == ghost_of(self.board, self.mino)
    }

    /// A piece fresh from spawn: spawn orientation at the spawn anchor.
    pub open spec fn spawned(m: Mino, b: Block) -> bool {
        m.pose() == (b, Ori::Up, ip(3, 3))
    }

    /// `self` is `old` after a lock: the piece dropped and merged, full rows
    /// cleared, the hold slot freed and the next piece drawn from the bag.
    pub open spec fn locked_from(self, old: Game) -> bool {
        let landed = ghost_of(old.board, old.mino);
        &&& exists|b: Board| piece_merged(b, old.board, landed) && #[trigger] self.board.cleared(b)
        &&& self.bag.drawn_from(MinoBag { is_held: false, ..old.bag })
        &&& Game::spawned(self.mino, old.bag.minos@[0])
        &&& self.time == old.time
        &&& self.seed == old.seed
    }

    /// `self` is `old` after a hold request.
    pub open spec fn held_from(self, old: Game) -> bool {
        if old.bag.is_held {
            self == old
        } else {
            &&& self.bag.is_held
            &&& self.bag.held == Some(old.mino.block)
            &&& match old.bag.held {
                Some(b) => {
                    &&& Game::spawned(self.mino, b)
                    &&& self.bag.minos == old.bag.minos
                    &&& self.rng == old.rng
                },
                None => {
                    &&& Game::spawned(self.mino, old.bag.minos@[0])
                    &&& self.bag.drawn_from(
                        MinoBag { is_held: true, held: Some(old.mino.block), ..old.bag },
                    )
                },
            }
            &&& self.board == old.board
            &&& self.time == old.time
            &&& self.seed == old.seed
        }
    }

    /// `self` is `old` with the piece changed to `m` and nothing else.
    pub open spec fn piece_from(self, old: Game, m: Mino) -> bool {
        &&& self.mino == m
        &&& self.seed == old.seed
        &&& self.rng == old.rng
        &&& self.bag == old.bag
        &&& self.time == old.time
        &&& self.board == old.board
    }

    /// A session as it begins: an empty board, a bag of two full sets that
    /// one piece was drawn from, that piece at spawn, nothing held, the
    /// ghost of the piece, and the timers at their initial values.
    pub open spec fn is_fresh(self) -> bool {
        &&& self.wf()
        &&& !self.bag.is_held
        &&& self.bag.held is None
        &&& exists|b0: MinoBag|
            {
                &&& b0.minos@.len() == 14
                &&& is_full_set(b0.minos@.subrange(0, 7))
                &&& is_full_set(b0.minos@.subrange(7, 14))
                &&& !b0.is_held
                &&& b0.held is None
                &&& #[trigger] self.bag.drawn_from(b0)
                &&& Game::spawned(self.mino, b0.minos@[0])
            }
        &&& forall|y: int| 0 <= y < 24 ==> #[trigger] self.board.0[y].is_clear()
        &&& self.time.is_initial()
    }

    /// A new session. Without a seed, one is drawn from the thread-local
    /// generator.
    pub fn new(seed: Option<u64>) -> (r: Self)
        ensures
            r.is_fresh(),
            seed matches Some(s) ==> r.seed == s,
    {
        let seed = match seed {
            Some(s) => s,
            None => fresh_seed(),
        };
        let mut rng = seeded_rng(seed);
        let mut bag = MinoBag::new(&mut rng);
        let ghost b0 = bag;
        let mino = bag.gen_mino(&mut rng);
        let board = Board::new();
        let ghost_piece = drop_ghost(&board, mino);
        Game { seed, rng, bag, mino, ghost_piece, time: GameTime::new(instant_now()), board }
    }

    /// Swaps the piece with the hold slot, once per piece.
    pub fn hold(&mut self)
        requires
            old(self).wf(),
        ensures
            final(self).wf(),
            final(self).held_from(*old(self)),
    {
        if self.bag.is_held {
            return;
        }
        self.bag.is_held = true;
        let held = self.bag.held;
        self.bag.held = Some(self.mino.block);
        self.mino = match held {
            Some(b) => Mino::new(b),
            None => self.bag.gen_mino(&mut self.rng),
        };
        self.ghost_piece = drop_ghost(&self.board, self.mino);
    }

    /// Drops the piece as far as it goes and locks it: merges it, clears
    /// full rows, frees the hold slot and spawns the next piece.
    pub fn hard_drop(&mut self)
        requires
            old(self).wf(),
        ensures
            final(self).wf(),
            final(self).locked_from(*old(self)),
    {
        self.bag.is_held = false;
        let landed = self.ghost_piece;
        proof {
            lemma_ghost_settled(old(self).board, old(self).mino);
        }
        self.mino = self.bag.gen_mino(&mut self.rng);
        if let Some(ps) = landed.real_points() {
            self.board.merge(ps, landed.block);
            assert forall|x: int, y: int| among(ps, x, y) <==> exists|i: int|
                0 <= i < 4 && landed.cell_x(i) == x && landed.cell_y(i) == y by {
                if among(ps, x, y) {
                    let i = choose|i: int| 0 <= i < 4 && ps[i].x == x && ps[i].y == y;
                    assert(landed.cell_x(i) == x && landed.cell_y(i) == y);
                }
                if exists|i: int| 0 <= i < 4 && landed.cell_x(i) == x && landed.cell_y(i) == y {
                    let i = choose|i: int|
                        0 <= i < 4 && landed.cell_x(i) == x && landed.cell_y(i) == y;
                    assert(ps[i].x == x && ps[i].y == y);
                }
            }
        }
        let ghost mid = self.board;
        self.board.clear_full_rows();
        assert(self.board.cleared(mid));
        self.ghost_piece = drop_ghost(&self.board, self.mino);
    }

    /// The rotation outcome of `mino` from the current piece's orientation,
    /// or `None` where no kick fits.
    pub fn try_rotate(&self, mino: Mino) -> (r: Option<IPoint>)
        requires
            mino.wf(),
        ensures
            r == first_fit(self.board, mino, kick_table(mino.block, self.mino.ori, mino.ori), 0),
    {
        first_kick(&self.board, self.mino.ori, mino)
    }

    /// `self` is `old` after a rotation request: the piece turned at the
    /// first kick that fits, or unchanged.
    pub open spec fn rotated_from(self, old: Game, left: Option<bool>) -> bool {
        &&& self.mino.block == old.mino.block
        &&& (self.mino.ori, self.mino.pos) == rotation_of(old.board, old.mino, left)
        &&& self.board == old.board
        &&& self.bag == old.bag
        &&& self.time == old.time
        &&& self.rng == old.rng
        &&& self.seed == old.seed
    }

    /// Turns the piece: counter-clockwise for `Some(true)`, clockwise for
    /// `Some(false)`, a half turn for `None`.
    pub fn rotate(&mut self, left: Option<bool>)
        requires
            old(self).wf(),
        ensures
            final(self).wf(),
            final(self).rotated_from(*old(self), left),
    {
        self.mino = rotate_mino(&self.board, self.mino, left);
        self.ghost_piece = drop_ghost(&self.board, self.mino);
    }

    /// The anchor after trying to move `mino` by `(dx, dy)` on this board.
    pub fn try_move_mino(&self, mino: Mino, dx: i8, dy: i8) -> (r: IPoint)
        requires
            mino.wf(),
        ensures
            r == moved(self.board, mino, dx as int, dy as int),
    {
        try_move(&self.board, mino, dx, dy)
    }

    /// Recomputes the ghost; true when it changed.
    pub fn calc_ghost(&mut self) -> (r: bool)
        requires
            old(self).mino.wf(),
        ensures
            *final(self) == (Game { ghost_piece: ghost_of(old(self).board, old(self).mino), ..*old(self) }),
            r == (old(self).ghost_piece != ghost_of(old(self).board, old(self).mino)),
    {
        let new = drop_ghost(&self.board, self.mino);
        if self.ghost_piece.same_as(&new) {
            false
        } else {
            self.ghost_piece = new;
            true
        }
    }

    /// Moves the piece by `amount` rows (`vert`) or columns where it fits;
    /// true when the piece or its ghost changed.
    pub fn move_mino(&mut self, amount: i8, vert: bool) -> (r: bool)
        requires
            old(self).wf(),
        ensures
            final(self).wf(),
            ({
                let (dx, dy) = if vert {
                    (0, amount as int)
                } else {
                    (amount as int, 0)
                };
                let m = old(self).mino.at(moved(old(self).board, old(self).mino, dx, dy));
                &&& final(self).piece_from(*old(self), m)
                &&& r == (m.pos != old(self).mino.pos || ghost_of(old(self).board, m)
                    != old(self).ghost_piece)
            }),
    {
        let prev = self.mino;
        self.mino.pos = if vert {
            try_move(&self.board, self.mino, 0, amount)
        } else {
            try_move(&self.board, self.mino, amount, 0)
        };
        let g = self.calc_ghost();
        prev.pos != self.mino.pos || g
    }

    /// One move in direction `left`: left, right or down.
    pub fn move_dir(&mut self, left: Option<bool>)
        requires
            old(self).wf(),
        ensures
            final(self).wf(),
            final(self).piece_from(
                *old(self),
                slide(old(self).board, old(self).mino, left, 1),
            ),
    {
        proof {
            reveal_with_fuel(slide, 2);
        }
        if let Some(left) = left {
            self.move_mino(if left { -1 } else { 1 }, false);
        } else {
            self.move_mino(1, true);
        }
    }

    /// `self` is `old` after one auto-repeat step of direction `left`: the
    /// timers stepped and the piece moved as many times as they ask.
    pub open spec fn repeated_from(self, old: Game, left: Option<bool>) -> bool {
        let (t, n) = old.time.counted(left);
        &&& self.time == t
        &&& self.mino == slide(old.board, old.mino, left, n as nat)
        &&& self.board == old.board
        &&& self.bag == old.bag
        &&& self.rng == old.rng
        &&& self.seed == old.seed
    }

    /// Steps the auto-repeat of direction `left` and makes the moves it asks for.
    pub fn multi_move(&mut self, left: Option<bool>)
        requires
            old(self).wf(),
        ensures
            final(self).wf(),
            final(self).repeated_from(*old(self), left),
    {
        let amount = self.time.count_move(left);
        let ghost start = self.mino;
        let mut i: u8 = 0;
        while i < amount
            invariant
                self.wf(),
                i <= amount,
                self.mino == slide(self.board, start, left, i as nat),
                self.board == old(self).board,
                self.bag == old(self).bag,
                self.rng == old(self).rng,
                self.seed == old(self).seed,
                (self.time, amount as int) == old(self).time.counted(left),
            decreases amount - i,
        {
            self.move_dir(left);
            proof {
                reveal_with_fuel(slide, 2);
                assert(slide(self.board, start, left, (i + 1) as nat) == slide(
                    self.board,
                    slide(self.board, start, left, i as nat),
                    left,
                    1,
                ));
            }
            i += 1;
        }
    }

    /// Applies one press or release edge of an action.
    pub fn apply_action(&mut self, action: Action, pressed: bool)
        requires
            old(self).wf(),
        ensures
            final(self).wf(),
            pressed ==> match action {
                Action::Hold => final(self).held_from(*old(self)),
                Action::Place => final(self).locked_from(*old(self)),
                Action::Rotate180 => final(self).rotated_from(*old(self), None),
                Action::RotateLeft => final(self).rotated_from(*old(self), Some(true)),
                Action::RotateRight => final(self).rotated_from(*old(self), Some(false)),
                Action::MoveRight => final(self).repeated_from(*old(self), Some(false)),
                Action::MoveLeft => final(self).repeated_from(*old(self), Some(true)),
                Action::MoveDown => final(self).repeated_from(*old(self), None),
                Action::Exit => *final(self) == *old(self),
            },
            !pressed ==> match action {
                Action::MoveRight => *final(self) == (Game {
                    time: old(self).time.with_timings(Some(false), old(self).time.right.reset_spec()),
                    ..*old(self)
                }),
                Action::MoveLeft => *final(self) == (Game {
                    time: old(self).time.with_timings(Some(true), old(self).time.left.reset_spec()),
                    ..*old(self)
                }),
                Action::MoveDown => *final(self) == (Game {
                    time: old(self).time.with_timings(None, old(self).time.down.reset_spec()),
                    ..*old(self)
                }),
                _ => *final(self) == *old(self),
            },
    {
        if pressed {
            match action {
                Action::Hold => self.hold(),
                Action::Place => self.hard_drop(),
                Action::Rotate180 => self.rotate(None),
                Action::RotateLeft => self.rotate(Some(true)),
                Action::RotateRight => self.rotate(Some(false)),
                Action::MoveRight => self.multi_move(Some(false)),
                Action::MoveLeft => self.multi_move(Some(true)),
                Action::MoveDown => self.multi_move(None),
                Action::Exit => (),
            }
        } else {
            match action {
                Action::MoveRight => self.time.reset_timing(Some(false)),
                Action::MoveLeft => self.time.reset_timing(Some(true)),
                Action::MoveDown => self.time.reset_timing(None),
                _ => (),
            }
        }
    }

    /// The piece cannot fall one more row.
    pub open spec fn resting(self) -> bool {
        moved(self.board, self.mino, 0, 1) == self.mino.pos
    }

    /// The lock timer runs out in this tick.
    pub open spec fn lock_fires(self) -> bool {
        self.resting() && self.time.hard_drop.after_increment(self.mino.pos.y).1
    }

    /// `self` is `old` with the lock timer replaced by `h`.
    pub open spec fn with_hard_drop(old: Game, h: HardDrop) -> Game {
        Game { time: GameTime { hard_drop: h, ..old.time }, ..old }
    }

    /// `self` is `old` after the lock stage of a tick: a piece that can fall
    /// disengages the timer; one that cannot counts it down, and is locked
    /// when it runs out.
    pub open spec fn lock_stage_from(self, old: Game) -> bool {
        let y = old.mino.pos.y;
        if !old.resting() {
            self == Game::with_hard_drop(
                old,
                HardDrop { scheduled: false, goal: lock_budget(y) as u32 },
            )
        } else {
            let (h, fires) = old.time.hard_drop.after_increment(y);
            if fires {
                self.locked_from(Game::with_hard_drop(old, h))
            } else {
                self == Game::with_hard_drop(old, h)
            }
        }
    }

    /// Advances one tick: runs the lock timer (forcing a lock when it runs
    /// out), then gravity. True when a lock happened, or gravity moved the
    /// piece or its ghost.
    pub fn tick(&mut self, now: Instant) -> (r: bool)
        requires
            old(self).wf(),
        ensures
            final(self).wf(),
            exists|mid: Game|
                #![trigger mid.lock_stage_from(*old(self))]
                {
                    let (t, n) = mid.time.ticked(now);
                    let m = mid.mino.at(moved(mid.board, mid.mino, 0, n));
                    &&& mid.wf()
                    &&& mid.lock_stage_from(*old(self))
                    &&& final(self).time == t
                    &&& final(self).mino == m
                    &&& final(self).board == mid.board
                    &&& final(self).bag == mid.bag
                    &&& final(self).rng == mid.rng
                    &&& final(self).seed == mid.seed
                    &&& r == (old(self).lock_fires() || m.pos != mid.mino.pos || ghost_of(
                        mid.board,
                        m,
                    ) != mid.ghost_piece)
                },
    {
        let mut changed = false;
        let down = try_move(&self.board, self.mino, 0, 1);
        if down == self.mino.pos {
            if self.time.hard_drop.increment(self.mino.pos.y) {
                self.hard_drop();
                changed = true;
            }
        } else {
            self.time.hard_drop.reset_goal(self.mino.pos.y);
        }
        let ghost mid = *self;
        match self.time.tick(now) {
            TimeAction::Drop(n) => {
                changed = self.move_mino(n, true) || changed;
            },
            TimeAction::Idle => {
                assert(moved(mid.board, mid.mino, 0, 0) == mid.mino.pos);
                assert(mid.mino.at(mid.mino.pos) == mid.mino);
            },
        }
        assert(mid.lock_stage_from(*old(self)));
        changed
    }

    /// Restarts the session with its own seed: the generator is reseeded,
    /// and bag, board, piece, ghost and timers begin afresh.
    pub fn start(&mut self)
        ensures
            final(self).is_fresh(),
            final(self).seed == old(self).seed,
    {
        let seed = self.seed;
        *self = Game::new(Some(seed));
    }

    /// The cells of row `y`.
    pub fn blocks(&self, y: u8) -> (r: Line)
        requires
            y < 24,
        ensures
            r == self.board.0[y as int],
    {
        self.board.0[y as usize]
    }

    pub fn mino(&self) -> (r: Mino)
        ensures
            r == self.mino,
    {
        self.mino
    }

    pub fn ghost_piece(&self) -> (r: Mino)
        ensures
            r == self.ghost_piece,
    {
        self.ghost_piece
    }

    pub fn bag(&self) -> (r: &MinoBag)
        ensures
            r == self.bag,
    {
        &self.bag
    }

    pub fn board(&self) -> (r: &Board)
        ensures
            r == self.board,
    {
        &self.board
    }
}

} // verus!
