use tetris::block::{Block, Color, Line};
use tetris::board::Board;
use tetris::game::{Command, Game, FALL_MS, TICK_MS};
use tetris::shape::Type;
use tetris::tetrimino::Tetrimino;

const ALL: [Type; 7] = [Type::I, Type::S, Type::Z, Type::O, Type::J, Type::L, Type::T];

fn red() -> Block {
    Block::On(Color { r: 255, g: 0, b: 0 })
}

fn occupied(board: &Board) -> Vec<(usize, usize)> {
    let mut v = Vec::new();
    for y in 0..20 {
        for x in 0..10 {
            if !board.lines[y].blocks[x].is_free() {
                v.push((x, y));
            }
        }
    }
    v
}

fn lock(board: &mut Board, piece: &Tetrimino) {
    let cells = piece.blocks_not_free();
    board.add_blocks(&cells, Block::On(piece.color()));
}

#[test]
fn block_new_is_free() {
    assert!(Block::new().is_free());
    assert!(!red().is_free());
}

#[test]
fn line_predicates() {
    let mut l = Line::new();
    assert!(l.is_all_free());
    assert!(!l.is_should_erase());
    for x in 0..10u16 {
        l.add(red(), x);
    }
    assert!(l.is_should_erase());
    assert!(!l.is_all_free());
    l.add(Block::Free, 3);
    assert!(l.is_free_on_x(3));
    assert!(!l.is_free_on_x(4));
    assert!(!l.is_should_erase());
    assert!(!l.is_all_free());
}

#[test]
fn board_cells_and_conflict() {
    let mut b = Board::new(15, 3);
    assert_eq!((b.x, b.y), (15, 3));
    assert!(occupied(&b).is_empty());
    b.add_block(red(), 2, 7);
    assert!(!b.is_free_on_xy(2, 7));
    assert!(b.is_free_on_xy(7, 2));
    assert!(b.is_conflict(&vec![(0, 0), (2, 7)]));
    assert!(!b.is_conflict(&vec![(7, 2), (0, 19)]));
    assert!(!b.is_conflict(&vec![]));
}

#[test]
fn erase_keeps_size() {
    let mut b = Board::new(0, 0);
    for x in 0..10u16 {
        b.add_block(red(), x, 19);
        b.add_block(red(), x, 12);
    }
    b.add_block(red(), 0, 18);
    assert_eq!(b.erase(), 2);
    assert_eq!(b.lines.len(), 20);
    for l in b.lines.iter() {
        assert_eq!(l.blocks.len(), 10);
    }
}

#[test]
fn erase_removes_complete_row_only() {
    let mut b = Board::new(0, 0);
    for x in 0..10u16 {
        b.add_block(red(), x, 19);
    }
    for x in 0..9u16 {
        b.add_block(red(), x, 18);
    }
    b.add_block(red(), 4, 17);
    assert_eq!(b.erase(), 1);
    // the row with nine cells and the one above it moved down by one
    let mut expected: Vec<(usize, usize)> = (0..9).map(|x| (x, 19)).collect();
    expected.insert(0, (4, 18));
    assert_eq!(occupied(&b), expected);
    assert!(!b.lines[19].is_should_erase());
    assert!(b.lines[0].is_all_free());
}

#[test]
fn erase_complete_row_in_the_middle() {
    let mut b = Board::new(0, 0);
    b.add_block(red(), 1, 19);
    for x in 0..10u16 {
        b.add_block(red(), x, 15);
    }
    b.add_block(red(), 2, 14);
    assert_eq!(b.erase(), 1);
    assert_eq!(occupied(&b), vec![(2, 15), (1, 19)]);
}

#[test]
fn erase_full_board_reports_and_keeps() {
    let mut b = Board::new(0, 0);
    for y in 0..20u16 {
        for x in 0..10u16 {
            if !(x == 3 && y % 2 == 0) {
                b.add_block(red(), x, y);
            }
        }
    }
    let before = occupied(&b);
    assert_eq!(b.erase(), usize::MAX);
    assert_eq!(occupied(&b), before);

    let mut all = Board::new(0, 0);
    for y in 0..20u16 {
        for x in 0..10u16 {
            all.add_block(red(), x, y);
        }
    }
    assert_eq!(all.erase(), usize::MAX);
    assert_eq!(occupied(&all).len(), 200);
}

#[test]
fn erase_nothing_complete() {
    let mut b = Board::new(0, 0);
    b.add_block(red(), 0, 19);
    assert_eq!(b.erase(), 0);
    assert_eq!(occupied(&b), vec![(0, 19)]);
}

#[test]
fn four_cells_in_every_state() {
    let b = Board::new(0, 0);
    for t in ALL {
        for s in 0..4u8 {
            let p = Tetrimino { tty: t, state: s, x: 3, y: 5, base_x: 0, base_y: 0 };
            let cells = p.blocks_not_free();
            assert_eq!(cells.len(), 4);
            let g = p.blocks();
            let n: usize = g.iter().map(|r| r.iter().filter(|c| **c == 1).count()).sum();
            assert_eq!(n, 4);
            assert!(!b.is_conflict(&cells));
        }
    }
}

#[test]
fn cells_above_board_are_left_out() {
    let p = Tetrimino { tty: Type::I, state: 1, x: 3, y: -2, base_x: 0, base_y: 0 };
    assert_eq!(p.blocks_not_free(), vec![(5, 0), (5, 1)]);
    let q = Tetrimino { tty: Type::T, state: 0, x: 0, y: -4, base_x: 0, base_y: 0 };
    assert!(q.blocks_not_free().is_empty());
}

#[test]
fn grid_spans() {
    let p = Tetrimino { tty: Type::I, state: 0, x: 3, y: 0, base_x: 0, base_y: 0 };
    assert_eq!(p.blocks_rang_on_x(), (0, 3));
    assert_eq!(p.blocks_rang_on_y(), (1, 1));
    let q = Tetrimino { tty: Type::L, state: 3, x: 3, y: 0, base_x: 0, base_y: 0 };
    assert_eq!(q.blocks_rang_on_x(), (0, 2));
    assert_eq!(q.blocks_rang_on_y(), (0, 1));
    let o = Tetrimino { tty: Type::O, state: 2, x: 3, y: 0, base_x: 0, base_y: 0 };
    assert_eq!(o.blocks_rang_on_x(), (1, 2));
    assert_eq!(o.blocks_rang_on_y(), (0, 1));
}

#[test]
fn un_rotate_steps_back() {
    let mut p = Tetrimino { tty: Type::T, state: 0, x: 3, y: 0, base_x: 0, base_y: 0 };
    p.un_rotate();
    assert_eq!(p.state, 3);
    p.un_rotate();
    assert_eq!(p.state, 2);
}

#[test]
fn rotate_i_through_all_states() {
    let b = Board::new(0, 0);
    let mut p = Tetrimino::spawn(&b, Type::I);
    let start = p.state;
    assert_eq!(start, 3);
    for k in 1..=4u8 {
        p.rotate(&b);
        assert_eq!(p.state, (start + k) % 4);
    }
    assert_eq!(p.state, start);
    assert_eq!(p, Tetrimino::spawn(&b, Type::I));
}

#[test]
fn rotate_reverts_at_wall_and_on_locked_cells() {
    let b = Board::new(0, 0);
    let mut p = Tetrimino::spawn(&b, Type::I);
    for _ in 0..10 {
        p.move_left(&b);
    }
    assert_eq!(p.x, -1);
    let before = p;
    p.rotate(&b);
    assert_eq!(p, before);

    let mut c = Board::new(0, 0);
    c.add_block(red(), 6, 1);
    let mut q = Tetrimino::spawn(&c, Type::I);
    q.rotate(&c);
    assert_eq!(q.state, 3);
    let mut free = Tetrimino::spawn(&b, Type::I);
    free.rotate(&b);
    assert_eq!(free.state, 0);
}

#[test]
fn moves_stay_between_walls() {
    let b = Board::new(0, 0);
    for t in ALL {
        let mut p = Tetrimino::spawn(&b, t);
        for _ in 0..12 {
            p.move_left(&b);
            let xs: Vec<u16> = p.blocks_not_free().iter().map(|c| c.0).collect();
            assert!(xs.iter().all(|x| *x < 10));
        }
        let (l, _) = p.blocks_rang_on_x();
        assert_eq!(p.x + l as i32, 0);
        for _ in 0..12 {
            p.move_right(&b);
            let xs: Vec<u16> = p.blocks_not_free().iter().map(|c| c.0).collect();
            assert!(xs.iter().all(|x| *x < 10));
        }
        let (_, r) = p.blocks_rang_on_x();
        assert_eq!(p.x + r as i32, 9);
    }
}

#[test]
fn move_blocked_by_locked_cell() {
    let mut b = Board::new(0, 0);
    let mut p = Tetrimino::spawn(&b, Type::O);
    b.add_block(red(), 3, 0);
    p.move_left(&b);
    assert_eq!(p.x, 3);
    p.move_right(&b);
    assert_eq!(p.x, 4);
}

#[test]
fn drop_leaves_piece_unable_to_descend() {
    let b = Board::new(0, 0);
    for t in ALL {
        let mut p = Tetrimino::spawn(&b, t);
        p.move_down_to_bottom(&b);
        assert!(!p.is_can_down(&b));
        let (_, d) = p.blocks_rang_on_y();
        assert_eq!(p.y + d as i32, 19);
    }
    let mut c = Board::new(0, 0);
    c.add_block(red(), 4, 10);
    let mut o = Tetrimino::spawn(&c, Type::O);
    o.move_down_to_bottom(&c);
    assert_eq!(o.y, 8);
    assert!(!o.is_can_down(&c));
}

#[test]
fn move_down_one_row() {
    let b = Board::new(0, 0);
    let mut p = Tetrimino::spawn(&b, Type::T);
    let y = p.y;
    assert!(p.is_can_down(&b));
    assert_eq!(p.y, y);
    p.move_down(&b);
    assert_eq!(p.y, y + 1);
}

#[test]
fn spawn_enters_board() {
    let b = Board::new(15, 3);
    let p = Tetrimino::spawn(&b, Type::O);
    assert_eq!((p.state, p.x, p.y, p.base_x, p.base_y), (3, 3, 0, 15, 3));
    let mut c = Board::new(0, 0);
    c.add_block(red(), 4, 1);
    let q = Tetrimino::spawn(&c, Type::O);
    assert_eq!(q.y, -1);
    assert!(!c.is_conflict(&q.blocks_not_free()));
    let r = Tetrimino::new(&b);
    assert_eq!((r.state, r.x, r.y), (3, 3, 0));
}

#[test]
fn o_piece_dropped_on_empty_board() {
    let mut b = Board::new(0, 0);
    let mut p = Tetrimino::spawn(&b, Type::O);
    p.move_down_to_bottom(&b);
    lock(&mut b, &p);
    assert_eq!(b.erase(), 0);
    assert_eq!(occupied(&b), vec![(4, 18), (5, 18), (4, 19), (5, 19)]);
    assert_eq!(b.lines[19].blocks[4], Block::On(Color { r: 255, g: 125, b: 0 }));
}

#[test]
fn piece_completes_row() {
    let mut b = Board::new(0, 0);
    for x in 0..10u16 {
        if x != 5 {
            b.add_block(red(), x, 19);
        }
    }
    b.add_block(red(), 0, 18);
    let mut p = Tetrimino::spawn(&b, Type::I);
    p.move_right(&b);
    p.move_down_to_bottom(&b);
    assert_eq!(p.blocks_not_free(), vec![(5, 16), (5, 17), (5, 18), (5, 19)]);
    lock(&mut b, &p);
    assert_eq!(b.erase(), 1);
    assert_eq!(occupied(&b), vec![(5, 17), (5, 18), (0, 19), (5, 19)]);
    assert!(b.lines[0].is_all_free());
}

#[test]
fn kinds_from_rolls_and_colours() {
    assert_eq!(Type::from_roll(0), Type::I);
    assert_eq!(Type::from_roll(1), Type::O);
    assert_eq!(Type::from_roll(2), Type::T);
    assert_eq!(Type::from_roll(3), Type::S);
    assert_eq!(Type::from_roll(4), Type::Z);
    assert_eq!(Type::from_roll(5), Type::J);
    assert_eq!(Type::from_roll(6), Type::L);
    assert_eq!(Type::from_roll(13), Type::L);
    assert_eq!(Type::from_roll(252), Type::I);
    assert_eq!(Type::from_roll(255), Type::S);
    assert_eq!(Type::T.color(), Color { r: 125, g: 0, b: 255 });
    assert_eq!(Type::Z.color(), Color { r: 125, g: 255, b: 125 });
    let p = Tetrimino { tty: Type::S, state: 0, x: 3, y: 0, base_x: 0, base_y: 0 };
    assert_eq!(p.color(), Color { r: 0, g: 255, b: 125 });
}

#[test]
fn game_quit_and_gravity() {
    let mut g = Game::new(15, 3);
    assert!(!g.finished);
    let y0 = g.piece.y;
    let before = g;
    assert!(!g.tick_with(Some(Command::Quit), Type::I));
    assert_eq!(g.piece, before.piece);
    let ticks = FALL_MS / TICK_MS;
    for _ in 0..ticks - 1 {
        assert!(g.tick_with(None, Type::I));
    }
    assert_eq!(g.piece.y, y0);
    assert_eq!(g.elapsed, FALL_MS - TICK_MS);
    assert!(g.tick(None));
    assert_eq!(g.piece.y, y0 + 1);
    assert_eq!(g.elapsed, 0);
}

#[test]
fn game_drop_locks_and_spawns() {
    let mut g = Game::new(0, 0);
    g.piece = Tetrimino::spawn(&g.board, Type::O);
    assert!(g.tick_with(Some(Command::Drop), Type::T));
    assert_eq!(occupied(&g.board), vec![(4, 18), (5, 18), (4, 19), (5, 19)]);
    assert_eq!(g.piece, Tetrimino::spawn(&g.board, Type::T));
    assert!(!g.finished);
}

#[test]
fn game_ends_when_board_fills() {
    let mut g = Game::new(0, 0);
    for y in 1..20u16 {
        g.board.add_block(red(), 0, y);
    }
    g.board.add_block(red(), 4, 2);
    g.piece = Tetrimino::spawn(&g.board, Type::O);
    assert_eq!(g.piece.y, 0);
    assert!(g.tick_with(Some(Command::Drop), Type::T));
    assert!(g.finished);
    assert_eq!(g.piece.tty, Type::O);
    assert_eq!(g.piece.y, 0);
    assert!(!g.board.is_free_on_xy(4, 0));
    assert!(!g.board.is_free_on_xy(5, 1));
    let frozen = g.piece;
    assert!(g.tick_with(Some(Command::Left), Type::I));
    assert_eq!(g.piece, frozen);
    assert!(!g.tick_with(Some(Command::Quit), Type::I));
}
