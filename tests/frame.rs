use wgputris::draw::{base_quads, game_quads, Quad, Shade};
use wgputris::game::Game;
use wgputris::styling::Sizing;
use wgputris::time::{diff_time, TimeAction, Timer, TICK_DURATION, TICK_RATE};

fn sizing() -> Sizing {
    Sizing { game_x: 200, game_y: 50, block_size: 30, block_gap: 2 }
}

#[test]
fn base_quad_covers_the_visible_board() {
    let q = base_quads(&sizing());
    assert_eq!(
        q,
        vec![Quad { shade: Shade::Background, x: 200, y: 50, width: 300, height: 600 }]
    );
}

#[test]
fn frame_of_a_new_game() {
    let game = Game::new(Some(8));
    let quads = game_quads(&sizing(), &game);
    // 200 board cells, 5 preview pieces, no held piece, ghost and piece; five quads per cell
    assert_eq!(quads.len(), (200 + 5 * 4 + 4 + 4) * 5);
    assert_eq!(quads[0], Quad { shade: Shade::Cell(None), x: 200, y: 50, width: 30, height: 30 });
    assert_eq!(quads[1], Quad { shade: Shade::Tint, x: 200, y: 50, width: 30, height: 1 });
    assert_eq!(quads[3], Quad { shade: Shade::Tint, x: 200, y: 79, width: 30, height: 1 });
    assert_eq!(quads[4], Quad { shade: Shade::Tint, x: 229, y: 50, width: 1, height: 30 });
    // the last cell of the board: column 9, visible row 19
    assert_eq!(quads[199 * 5].x, 200 + 9 * 30);
    assert_eq!(quads[199 * 5].y, 50 + 19 * 30);
    let first_next = game.bag().minos[0];
    let p = first_next.points(Default::default())[0];
    assert_eq!(
        quads[200 * 5],
        Quad {
            shade: Shade::Cell(Some(first_next)),
            x: 200 + 300 + 15 + p.x as u32 * 30,
            y: 50 + p.y as u32 * 30,
            width: 30,
            height: 30
        }
    );
    let ghost = quads[(200 + 20) * 5];
    assert_eq!(ghost.shade, Shade::Faded(game.mino().block));
    let piece = quads[(200 + 24) * 5];
    assert_eq!(piece.shade, Shade::Cell(Some(game.mino().block)));
}

#[test]
fn held_piece_is_drawn_when_there_is_room() {
    let mut game = Game::new(Some(8));
    let held = game.mino().block;
    game.apply_action(wgputris::Action::Hold, true);
    let quads = game_quads(&sizing(), &game);
    assert_eq!(quads.len(), (200 + 20 + 4 + 4 + 4) * 5);
    let h = quads[(200 + 20) * 5];
    let p = held.points(Default::default())[0];
    assert_eq!(h.shade, Shade::Cell(Some(held)));
    assert_eq!(h.x, 200 - 135 + p.x as u32 * 30);
    let tight = Sizing { game_x: 100, ..sizing() };
    assert_eq!(game_quads(&tight, &game).len(), (200 + 20 + 4 + 4) * 5);
}

#[test]
fn zero_sized_cells_have_no_borders() {
    let game = Game::new(Some(8));
    let s = Sizing { game_x: 0, game_y: 0, block_size: 0, block_gap: 0 };
    assert_eq!(game_quads(&s, &game).len(), 200 + 20 + 4 + 4);
}

#[test]
fn timer_counts_due_ticks() {
    let mut t = Timer::new(60, 1_000);
    assert_eq!(t.tick_rate(), TICK_RATE);
    assert_eq!(t.render_rate(), 60);
    assert_eq!(t.start(), 1_000);
    assert_eq!(t.sleep_until(), 1_000 + TICK_DURATION);
    let a = t.tick(1_000 + TICK_DURATION / 2);
    assert_eq!(a.ticks, 0);
    assert!(!a.render);
    let b = t.tick(1_000 + 3 * TICK_DURATION + 1);
    assert_eq!(b.ticks, 3);
    assert!(b.render);
    assert_eq!(b.now, 1_000 + 3 * TICK_DURATION + 1);
    assert_eq!(t.ticks(), 3);
    assert_eq!(t.renders(), 1);
    assert_eq!(t.elapsed(), 3 * TICK_DURATION + 1);
    assert_eq!(t.next_tick, 1_000 + 4 * TICK_DURATION);
    assert_eq!(t.est_ticks(1_000 + 3 * TICK_DURATION + 1), 3);
    assert_eq!(t.tick_drift(1_000 + 5 * TICK_DURATION), -2);
    assert_eq!(t.est_renders(1_000 + 16_666_666), 1);
    assert_eq!(t.render_drift(1_000 + 16_666_666), 0);
    let _ = TimeAction::new(true, 1, 2, 3, 4);
}

#[test]
fn diff_time_pulls_back_the_deadline() {
    assert_eq!(diff_time(100, 10, 105), 105);
    assert_eq!(diff_time(100, 10, 150), 110);
    assert_eq!(diff_time(100, 10, 50), 100);
}
