use rand::SeedableRng;
use rand_xoshiro::Xoshiro256Plus;
use wgputris::game::bag::random_minos;
use wgputris::game::timing::{GameTime, HardDrop, TimeAction, Ticker, Timings};
use wgputris::game::{drop_ghost, rotate_mino, try_move};
use wgputris::game::{Block, Board, Game, IPoint, Mino, MinoBag, Ori, Point};
use wgputris::styling::Sizing;
use wgputris::Action;

const ALL: [Block; 7] = [Block::I, Block::T, Block::O, Block::L, Block::J, Block::S, Block::Z];

fn is_full_set(s: &[Block]) -> bool {
    s.len() == 7 && ALL.iter().all(|b| s.iter().filter(|x| *x == b).count() == 1)
}

#[test]
fn move_accepted_iff_cells_free() {
    let mut board = Board::new();
    let m = Mino::new(Block::O);
    // O at (3,3) covers (4,3) (4,4) (5,3) (5,4)
    assert_eq!(try_move(&board, m, 1, 0), IPoint::new(4, 3));
    board.set_block(Point::new(6, 4), Some(Block::Z));
    assert_eq!(try_move(&board, m, 1, 0), IPoint::new(3, 3));
    assert_eq!(try_move(&board, m, -1, 0), IPoint::new(2, 3));
    let wall = Mino { pos: IPoint::new(-1, 3), ..m };
    assert_eq!(try_move(&board, wall, -1, 0), IPoint::new(-1, 3));
    let bottom = Mino { pos: IPoint::new(3, 22), ..m };
    assert_eq!(try_move(&board, bottom, 0, 1), IPoint::new(3, 22));
    assert_eq!(try_move(&board, bottom, 0, -1), IPoint::new(3, 21));
}

#[test]
fn bag_keeps_full_sets() {
    let mut rng = Xoshiro256Plus::seed_from_u64(7);
    let mut bag = MinoBag::new(&mut rng);
    assert_eq!(bag.minos.len(), 14);
    assert!(is_full_set(&bag.minos[..7]));
    assert!(is_full_set(&bag.minos[7..]));
    assert!(!bag.is_held);
    assert_eq!(bag.held, None);
    let mut drawn = Vec::new();
    for _ in 0..70 {
        let front = bag.minos[0];
        assert_eq!(bag.next_block(&mut rng), front);
        drawn.push(front);
        assert!(bag.minos.len() >= 8 && bag.minos.len() <= 14);
        let n = bag.minos.len();
        assert!(is_full_set(&bag.minos[n - 7..]));
    }
    for set in drawn.chunks(7) {
        assert!(is_full_set(set));
    }
}

#[test]
fn shuffle_changes_order() {
    let mut rng = Xoshiro256Plus::seed_from_u64(3);
    let mut moved = false;
    for _ in 0..10 {
        let s = random_minos(&mut rng);
        assert!(is_full_set(&s));
        if s != ALL {
            moved = true;
        }
    }
    assert!(moved);
}

#[test]
fn seed_fixes_the_sequence() {
    let a = Game::new(Some(11));
    let b = Game::new(Some(11));
    let c = Game::new(Some(12));
    assert_eq!(a.seed, 11);
    assert_eq!(a.bag().minos, b.bag().minos);
    assert_eq!(a.mino(), b.mino());
    assert!(a.bag().minos != c.bag().minos || a.mino() != c.mino());
}

#[test]
fn fresh_seeds_differ() {
    let seeds: Vec<u64> = (0..4).map(|_| Game::new(None).seed).collect();
    assert!(seeds.iter().any(|s| *s != seeds[0]));
}

#[test]
fn ghost_is_stable() {
    let mut game = Game::new(Some(5));
    let g = game.ghost_piece();
    assert!(!game.calc_ghost());
    assert!(!game.calc_ghost());
    assert_eq!(game.ghost_piece(), g);
    assert_eq!(g.pos.x, game.mino().pos.x);
    assert!(g.pos.y >= game.mino().pos.y);
    assert_eq!(g.ori, game.mino().ori);
    assert_eq!(try_move(game.board(), g, 0, 1), g.pos);
}

#[test]
fn ghost_lands_on_stack() {
    let mut board = Board::new();
    board.set_block(Point::new(4, 15), Some(Block::L));
    let g = drop_ghost(&board, Mino::new(Block::O));
    // O covers columns 4 and 5, rows pos.y and pos.y + 1
    assert_eq!(g.pos, IPoint::new(3, 13));
    assert_eq!(drop_ghost(&board, g), g);
}

#[test]
fn rotation_takes_second_kick() {
    let mut board = Board::new();
    let t = Mino::new(Block::T);
    // clockwise from spawn is Left here: T cells at (3,3) are (4,3) (4,4) (5,4) (4,5)
    board.set_block(Point::new(4, 5), Some(Block::Z));
    let r = rotate_mino(&board, t, Some(false));
    assert_eq!(r.ori, Ori::Left);
    assert_eq!(r.pos, IPoint::new(2, 3));
    assert_eq!(r.points, Block::T.points(Ori::Left));
}

#[test]
fn rotation_without_kick() {
    let board = Board::new();
    let r = rotate_mino(&board, Mino::new(Block::T), Some(true));
    assert_eq!(r.ori, Ori::Right);
    assert_eq!(r.pos, IPoint::new(3, 3));
    let h = rotate_mino(&board, Mino::new(Block::I), None);
    assert_eq!(h.ori, Ori::Down);
}

#[test]
fn rotation_rejected_when_all_kicks_blocked() {
    let mut board = Board::new();
    for y in 0..24u8 {
        for x in 0..10u8 {
            board.set_block(Point::new(x, y), Some(Block::Z));
        }
    }
    let t = Mino::new(Block::T);
    let r = rotate_mino(&board, t, Some(false));
    assert_eq!(r, t);
    let h = rotate_mino(&board, t, None);
    assert_eq!(h, t);
}

#[test]
fn hold_swaps_once_per_piece() {
    let mut game = Game::new(Some(9));
    let first = game.mino().block;
    let next = game.bag().minos[0];
    game.apply_action(Action::Hold, true);
    assert_eq!(game.bag().held, Some(first));
    assert!(game.bag().is_held);
    assert_eq!(game.mino().block, next);
    assert_eq!(game.mino().pos, IPoint::new(3, 3));
    assert_eq!(game.mino().ori, Ori::Up);
    let now = game.mino();
    let queue = game.bag().minos.clone();
    game.apply_action(Action::Hold, true);
    assert_eq!(game.mino(), now);
    assert_eq!(game.bag().held, Some(first));
    assert_eq!(game.bag().minos, queue);
}

#[test]
fn hold_after_lock_swaps_back() {
    let mut game = Game::new(Some(9));
    let first = game.mino().block;
    game.apply_action(Action::Hold, true);
    game.apply_action(Action::Place, true);
    assert!(!game.bag().is_held);
    let current = game.mino().block;
    game.apply_action(Action::Hold, true);
    assert_eq!(game.mino().block, first);
    assert_eq!(game.bag().held, Some(current));
}

#[test]
fn hard_drop_locks_at_the_bottom() {
    let mut game = Game::new(Some(1));
    let m = game.mino();
    let landed = game.ghost_piece();
    let next = game.bag().minos[0];
    game.apply_action(Action::Place, true);
    for p in landed.real_points().unwrap() {
        assert_eq!(game.board().block(p), Some(m.block));
    }
    assert_eq!(game.mino().block, next);
    assert_eq!(game.mino().pos, IPoint::new(3, 3));
    assert!(landed.real_points().unwrap().iter().any(|p| p.y == 23));
}

#[test]
fn moves_and_rotations_through_actions() {
    let mut game = Game::new(Some(2));
    let x = game.mino().pos.x;
    game.apply_action(Action::MoveLeft, true);
    assert_eq!(game.mino().pos.x, x - 1);
    // still within the shift delay: no further move
    game.apply_action(Action::MoveLeft, true);
    assert_eq!(game.mino().pos.x, x - 1);
    game.apply_action(Action::MoveLeft, false);
    game.apply_action(Action::MoveRight, true);
    assert_eq!(game.mino().pos.x, x);
    game.apply_action(Action::MoveDown, true);
    assert_eq!(game.mino().pos, game.ghost_piece().pos);
    let before = game.mino();
    game.apply_action(Action::Exit, true);
    assert_eq!(game.mino(), before);
    game.apply_action(Action::RotateLeft, false);
    assert_eq!(game.mino(), before);
}

#[test]
fn gravity_drops_every_interval() {
    let mut game = Game::new(Some(4));
    let y = game.mino().pos.y;
    // the accumulator starts full: the first tick drops
    assert!(game.tick(std::time::Instant::now()));
    assert_eq!(game.mino().pos.y, y + 1);
    for _ in 0..119 {
        game.tick(std::time::Instant::now());
    }
    assert_eq!(game.mino().pos.y, y + 2);
    assert_eq!(game.time.ticks, 120);
}

#[test]
fn lock_timer_forces_a_lock() {
    let mut game = Game::new(Some(6));
    game.apply_action(Action::MoveDown, true);
    let landed = game.mino();
    assert_eq!(landed.pos, game.ghost_piece().pos);
    let mut locked = false;
    for _ in 0..4000 {
        game.tick(std::time::Instant::now());
        if game.board().lines().iter().any(|l| l.0.iter().any(|c| c.is_some())) {
            locked = true;
            break;
        }
    }
    assert!(locked);
}

#[test]
fn auto_repeat_counts() {
    let mut t = Timings::new(12, 0);
    assert_eq!(t.count(), 1);
    for _ in 0..10 {
        assert_eq!(t.count(), 0);
    }
    assert_eq!(t.count(), 255);
    let mut slow = Timings::new(2, 3);
    assert_eq!(slow.count(), 1);
    // the delay is reached on the second tick; then one move per three ticks
    assert_eq!(slow.count(), 0);
    assert_eq!(slow.count(), 0);
    assert_eq!(slow.count(), 1);
    assert_eq!(slow.count(), 0);
    slow.reset();
    assert_eq!(slow.das.value, 0);
    assert_eq!(slow.count(), 1);
    let mut k = Ticker::new(3);
    k.tick();
    assert!(!k.reached());
    k.tick();
    k.tick();
    assert!(k.reached());
}

#[test]
fn switching_direction_resets_the_other() {
    let mut time = GameTime::new(std::time::Instant::now());
    assert_eq!(time.count_move(Some(true)), 1);
    assert_eq!(time.left.das.value, 1);
    assert_eq!(time.count_move(Some(false)), 1);
    assert_eq!(time.left.das.value, 0);
    time.reset_timing(Some(false));
    assert_eq!(time.right.das.value, 0);
    assert_eq!(time.count_move(None), 255);
}

#[test]
fn gravity_accumulator() {
    let mut time = GameTime::new(std::time::Instant::now());
    assert_eq!(time.tick(std::time::Instant::now()), TimeAction::Drop(1));
    assert_eq!(time.grav_goal, 1);
    for _ in 0..118 {
        assert_eq!(time.tick(std::time::Instant::now()), TimeAction::Idle);
    }
    assert_eq!(time.tick(std::time::Instant::now()), TimeAction::Drop(1));
    assert_eq!(time.grav_goal, 0);
}

#[test]
fn lock_budget_shrinks_towards_the_bottom() {
    let mut h = HardDrop::new();
    assert_eq!(h.goal, 2400);
    assert!(!h.increment(20));
    assert!(h.scheduled);
    assert_eq!(h.goal, 120 * 4 - 1);
    let mut top = HardDrop::new();
    top.increment(2);
    assert_eq!(top.goal, 120 * 22 - 1);
    h.reset_goal(5);
    assert!(!h.scheduled);
    assert_eq!(h.goal, 120 * 19);
    let mut edge = HardDrop::new();
    assert!(edge.increment(24));
    assert_eq!(edge.goal, 120 * 24);
    assert!(!edge.scheduled);
}

#[test]
fn repeatable_actions() {
    assert!(Action::MoveLeft.repeatable());
    assert!(Action::MoveRight.repeatable());
    assert!(Action::MoveDown.repeatable());
    assert!(!Action::Hold.repeatable());
    assert!(!Action::Exit.repeatable());
}

#[test]
fn resize_centres_the_board() {
    let game = Game::new(Some(1));
    let mut s = Sizing { game_x: 0, game_y: 0, block_size: 30, block_gap: 2 };
    s.resize(&game, 1000, 800);
    assert_eq!(s.game_x, 500 - 160);
    assert_eq!(s.game_y, 400 - 320);
    s.resize(&game, 100, 100);
    assert_eq!(s.game_x, 0);
    assert_eq!(s.game_y, 0);
}

#[test]
fn blocks_row_reads_the_board() {
    let mut game = Game::new(Some(3));
    game.apply_action(Action::Place, true);
    let row = game.blocks(23);
    assert!(row.0.iter().any(|c| c.is_some()));
}

#[test]
fn restart_begins_afresh_with_the_same_seed() {
    let fresh = Game::new(Some(21));
    let mut game = Game::new(Some(21));
    game.apply_action(Action::Hold, true);
    game.apply_action(Action::Place, true);
    game.apply_action(Action::MoveLeft, true);
    for _ in 0..30 {
        game.tick(std::time::Instant::now());
    }
    assert!(game.board().lines().iter().any(|l| l.0.iter().any(|c| c.is_some())));
    game.start();
    assert_eq!(game.seed, 21);
    assert!(game.board().lines().iter().all(|l| l.0 == [None; 10]));
    assert_eq!(game.bag().minos, fresh.bag().minos);
    assert_eq!(game.bag().held, None);
    assert!(!game.bag().is_held);
    assert_eq!(game.mino(), fresh.mino());
    assert_eq!(game.ghost_piece(), fresh.ghost_piece());
    assert_eq!(game.time.ticks, 0);
    assert_eq!(game.time.grav_goal, game.time.gravity);
    assert_eq!(game.time.left.das.value, 0);
    assert!(!game.time.hard_drop.scheduled);
}

#[test]
fn release_resets_only_that_direction() {
    let mut game = Game::new(Some(13));
    game.apply_action(Action::MoveRight, true);
    game.apply_action(Action::MoveDown, true);
    let mino = game.mino();
    let queue = game.bag().minos.clone();
    let down = game.time.down.das.value;
    assert_eq!(game.time.right.das.value, 1);
    game.apply_action(Action::MoveRight, false);
    assert_eq!(game.time.right.das.value, 0);
    assert_eq!(game.time.right.arr.value, 0);
    assert_eq!(game.time.down.das.value, down);
    assert_eq!(game.mino(), mino);
    assert_eq!(game.bag().minos, queue);
    game.apply_action(Action::Hold, false);
    assert_eq!(game.mino(), mino);
    assert_eq!(game.bag().held, None);
}

#[test]
fn default_game_is_fresh() {
    let game = Game::default();
    assert!(!game.bag().is_held);
    assert_eq!(game.bag().minos.len(), 13);
    assert!(Board::default().lines().iter().all(|l| l.0 == [None; 10]));
}
