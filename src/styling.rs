use vstd::prelude::*;

use crate::game::Game;

verus! {

/// Where the board is drawn and how large its cells are, in pixels.
#[derive(Debug, Clone, Copy)]
pub struct Sizing {
    pub game_x: u32,
    pub game_y: u32,
    pub block_size: u32,
    pub block_gap: u32,
}

/// `a - b`, or zero where `b` exceeds `a`.
pub open spec fn sat_sub(a: int, b: int) -> int {
    if a > b {
        a - b
    } else {
        0
    }
}

impl Sizing {
    /// The cell size and gap fit a board's height in `u32`.
    pub open spec fn fits_u32(self) -> bool {
        (self.block_gap + self.block_size) * 20 <= u32::MAX
    }

    /// Centres the visible board in a window of `width` by `height` pixels.
    pub fn resize(&mut self, game: &Game, width: u32, height: u32)
        requires
            old(self).fits_u32(),
        ensures
            final(self).game_x == sat_sub(
                width as int / 2,
                (old(self).block_gap + old(self).block_size) * 10 / 2,
            ),
            final(self).game_y == sat_sub(
                height as int / 2,
                (old(self).block_gap + old(self).block_size) * 20 / 2,
            ),
            final(self).block_size == old(self).block_size,
            final(self).block_gap == old(self).block_gap,
    {
        let n_wide = game.board().line(0).blocks().len() as u32;
        let n_tall = game.board().visible().len() as u32;
        let board_width = (self.block_gap + self.block_size) * n_wide;
        let board_height = (self.block_gap + self.block_size) * n_tall;
        self.game_x = (width / 2).saturating_sub(board_width / 2);
        self.game_y = (height / 2).saturating_sub(board_height / 2);
    }
}

} // verus!
