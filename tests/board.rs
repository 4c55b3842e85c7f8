use wgputris::game::piece::{ori_code, ori_code_180};
use wgputris::game::point::{cast_points, maybe_cast_points};
use wgputris::game::{Block, Board, IPoint, Line, Mino, Ori, Point};

fn fill_row(board: &mut Board, y: u8, b: Block) {
    for x in 0..10u8 {
        board.set_block(Point::new(x, y), Some(b));
    }
}

#[test]
fn shapes_are_connected_tetrominoes() {
    let blocks = [Block::I, Block::J, Block::L, Block::O, Block::S, Block::T, Block::Z];
    let oris = [Ori::Up, Ori::Right, Ori::Down, Ori::Left];
    for b in blocks {
        for o in oris {
            let ps = b.points(o);
            for i in 0..4 {
                for j in 0..4 {
                    if i != j {
                        assert_ne!(ps[i], ps[j]);
                    }
                }
            }
            let mut reached = [true, false, false, false];
            for _ in 0..3 {
                let prev = reached;
                for j in 0..4 {
                    for i in 0..4 {
                        let (a, c) = (ps[i], ps[j]);
                        let adj = (a.x == c.x && a.y.abs_diff(c.y) == 1)
                            || (a.y == c.y && a.x.abs_diff(c.x) == 1);
                        if prev[i] && adj {
                            reached[j] = true;
                        }
                    }
                }
            }
            assert!(reached.iter().all(|r| *r), "{:?} {:?}", b, o);
        }
    }
}

#[test]
fn points_table_values() {
    assert_eq!(
        Block::T.points(Ori::Up),
        [Point::new(1, 0), Point::new(0, 1), Point::new(1, 1), Point::new(2, 1)]
    );
    assert_eq!(
        Block::I.points(Ori::Right),
        [Point::new(1, 0), Point::new(1, 1), Point::new(1, 2), Point::new(1, 3)]
    );
}

#[test]
fn occupied_and_bounds() {
    let mut board = Board::new();
    board.set_block(Point::new(2, 5), Some(Block::S));
    assert!(board.occupied(Point::new(2, 5)));
    assert!(!board.check_block(Point::new(2, 5)));
    assert!(!board.occupied(Point::new(3, 5)));
    assert!(board.check_block(Point::new(3, 5)));
    assert!(!board.in_bounds(Point::new(10, 0)));
    assert!(!board.occupied(Point::new(10, 0)));
    assert!(!board.check_block(Point::new(0, 24)));
    assert!(!board.icheck_block(IPoint::new(-1, 3)));
    assert!(board.icheck_block(IPoint::new(9, 23)));
    assert_eq!(board.block(Point::new(2, 5)), Some(Block::S));
    assert_eq!(board.origin(), Point::new(0, 23));
    assert_eq!(board.lines().len(), 24);
    assert_eq!(board.visible().len(), 20);
    assert_eq!(board.line(5).block(2usize), Some(Block::S));
    assert_eq!(board.line(5).blocks().len(), 10);
}

#[test]
fn merge_writes_four_cells() {
    let mut board = Board::new();
    let ps = [Point::new(0, 23), Point::new(1, 23), Point::new(1, 22), Point::new(30, 3)];
    board.merge(ps, Block::L);
    assert_eq!(board.block(Point::new(0, 23)), Some(Block::L));
    assert_eq!(board.block(Point::new(1, 22)), Some(Block::L));
    assert_eq!(board.block(Point::new(2, 23)), None);
}

#[test]
fn clears_rows_18_and_20_of_the_visible_field() {
    let mut board = Board::new();
    // visible rows 18 and 20 (1-indexed from the top) are board rows 21 and 23
    fill_row(&mut board, 21, Block::I);
    fill_row(&mut board, 23, Block::J);
    board.set_block(Point::new(0, 22), Some(Block::T));
    board.set_block(Point::new(4, 20), Some(Block::Z));
    board.set_block(Point::new(9, 19), Some(Block::O));
    board.set_block(Point::new(3, 4), Some(Block::S));
    for x in 0..9u8 {
        board.set_block(Point::new(x, 10), Some(Block::L));
    }
    let before = board;
    assert_eq!(board.clear_full_rows(), 2);
    // row 22 lies between the two cleared rows: it moves down by one
    assert_eq!(board.line(23).0, before.line(22).0);
    // rows above row 21 move down by two
    for y in 0..21usize {
        assert_eq!(board.line(y + 2).0, before.line(y).0);
    }
    assert_eq!(board.line(0).0, [None; 10]);
    assert_eq!(board.line(1).0, [None; 10]);
    assert_eq!(board.block(Point::new(4, 22)), Some(Block::Z));
    assert_eq!(board.block(Point::new(9, 21)), Some(Block::O));
    assert_eq!(board.block(Point::new(3, 6)), Some(Block::S));
}

#[test]
fn clear_nothing_and_everything() {
    let mut board = Board::new();
    assert_eq!(board.clear_full_rows(), 0);
    for y in 0..24u8 {
        fill_row(&mut board, y, Block::O);
    }
    assert_eq!(board.clear_full_rows(), 24);
    assert!(board.lines().iter().all(|l| l.0 == [None; 10]));
    assert!(!Line::empty().full());
}

#[test]
fn ori_codes() {
    assert_eq!(ori_code(Ori::Up, Ori::Right), Some(0));
    assert_eq!(ori_code(Ori::Up, Ori::Left), Some(7));
    assert_eq!(ori_code(Ori::Up, Ori::Up), None);
    assert_eq!(ori_code(Ori::Up, Ori::Down), None);
    assert_eq!(ori_code_180(Ori::Left, Ori::Right), Some(3));
    assert_eq!(ori_code_180(Ori::Left, Ori::Up), None);
}

#[test]
fn point_arithmetic() {
    assert_eq!(IPoint::new(120, -120).saturating_add(IPoint::new(10, -10)), IPoint::new(127, -128));
    assert_eq!(IPoint::new(3, 4).saturating_add(IPoint::new(-1, 2)), IPoint::new(2, 6));
    assert_eq!(Point::new(2, 3).checked_offset(IPoint::new(-3, 1)), Some(IPoint::new(-1, 4)));
    assert_eq!(Point::new(127, 3).checked_offset(IPoint::new(1, 0)), None);
    assert_eq!(Point::new(200, 3).checked_offset(IPoint::new(0, 0)), None);
    assert_eq!(Point::new(7, 9).xy(), (7, 9));
    let ps = [IPoint::new(1, 2), IPoint::new(0, 0), IPoint::new(3, 4), IPoint::new(5, 6)];
    assert_eq!(
        cast_points(ps),
        Some([Point::new(1, 2), Point::new(0, 0), Point::new(3, 4), Point::new(5, 6)])
    );
    let neg = [IPoint::new(1, 2), IPoint::new(0, -1), IPoint::new(3, 4), IPoint::new(5, 6)];
    assert_eq!(cast_points(neg), None);
    assert_eq!(maybe_cast_points([Some(ps[0]), Some(ps[1]), None, Some(ps[3])]), None);
    assert_eq!(
        maybe_cast_points([Some(ps[0]), Some(ps[1]), Some(ps[2]), Some(ps[3])]),
        cast_points(ps)
    );
}

#[test]
fn real_points_of_a_piece() {
    let m = Mino::new(Block::O);
    assert_eq!(m.pos, IPoint::new(3, 3));
    assert_eq!(m.ori, Ori::Up);
    assert_eq!(
        m.real_points(),
        Some([Point::new(4, 3), Point::new(4, 4), Point::new(5, 3), Point::new(5, 4)])
    );
    let off = Mino { pos: IPoint::new(-2, 0), ..m };
    assert_eq!(off.real_points(), None);
}

#[test]
fn point_conversions() {
    assert_eq!(Point::from(IPoint::new(-3, 4)), Point::new(3, 4));
    assert_eq!(Point::from(IPoint::new(-128, 127)), Point::new(128, 127));
    assert_eq!(IPoint::from(Point::new(5, 127)), IPoint::new(5, 127));
    assert_eq!(IPoint::from(Point::new(200, 129)), IPoint::new(56, 127));
    assert_eq!(IPoint::from(Point::new(128, 0)), IPoint::new(-128, 0));
    assert_eq!(Point::from((2u8, 9u8)), Point::new(2, 9));
    assert_eq!(IPoint::from((-2i8, 9i8)), IPoint::new(-2, 9));
    assert_eq!(Point::new(3, 4).times(30), (90, 120));
    assert_eq!(Point::new(3, 4).times_xy(10, 100), (30, 400));
    assert!(Line::default().0.iter().all(|c| c.is_none()));
}
