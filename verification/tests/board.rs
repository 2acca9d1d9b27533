use versus_stacker::active::ActivePiece;
use versus_stacker::board::Board;
use versus_stacker::piece::{Point, Rotation, Tetromino};
use versus_stacker::shape::shape_blocks;

fn fill_row(b: &mut Board, y: usize, color: u8, gaps: &[usize]) {
    for x in 0..10 {
        b.cells[y][x] = if gaps.contains(&x) { 0 } else { color };
    }
}

#[test]
fn new_board_is_empty() {
    let b = Board::new();
    assert!(b.cells.iter().all(|row| row.iter().all(|&c| c == 0)));
    assert!(b.visible_empty());
    assert_eq!(b.max_height(), 0);
    assert_eq!(b.hole_count(), 0);
}

#[test]
fn cells_outside_the_grid_are_occupied() {
    let b = Board::new();
    assert!(b.is_occupied(-1, 0));
    assert!(b.is_occupied(10, 0));
    assert!(b.is_occupied(0, -1));
    assert!(b.is_occupied(0, 40));
    assert!(!b.is_occupied(0, 0));
    assert!(!b.is_occupied(9, 39));
    assert!(b.is_occupied(i32::MIN, i32::MAX));
}

#[test]
fn buffer_rows_never_block() {
    let mut b = Board::new();
    b.cells[19][3] = 5;
    b.cells[20][3] = 5;
    b.cells[39][9] = 8;
    assert!(b.is_occupied(3, 19));
    assert!(!b.is_occupied(3, 20));
    assert!(!b.is_occupied(9, 39));
}

#[test]
fn collision_looks_at_all_four_cells() {
    let mut b = Board::new();
    let mut ap = ActivePiece::new(Tetromino::T);
    ap.y = 0;
    assert!(!b.collision(&ap));
    b.cells[1][4] = 2;
    assert!(b.collision(&ap));
    b.cells[1][4] = 0;
    ap.x = 0;
    assert!(b.collision(&ap));
    ap.x = 1;
    assert!(!b.collision(&ap));
    assert!(b.collision_after(&ap, Rotation::Spawn, -1, 0));
    assert!(b.collision_after(&ap, Rotation::Reverse, 0, 0));
    assert!(!b.collision_after(&ap, Rotation::Reverse, 0, 1));
    ap.x = i32::MAX;
    ap.y = i32::MIN;
    assert!(b.collision(&ap));
    assert!(b.collision_after(&ap, Rotation::Left, i32::MAX, i32::MIN));
}

#[test]
fn lock_writes_the_four_cells_and_nothing_else() {
    let mut b = Board::new();
    b.cells[0][0] = 8;
    let before = b;
    let blocks = shape_blocks(Tetromino::S, Rotation::Spawn);
    b.lock_piece(4, 5, &blocks, Tetromino::S.color_id());
    let target = [(3usize, 5usize), (4, 5), (4, 6), (5, 6)];
    for y in 0..40 {
        for x in 0..10 {
            if target.contains(&(x, y)) {
                assert_eq!(b.cells[y][x], 5);
            } else {
                assert_eq!(b.cells[y][x], before.cells[y][x]);
            }
        }
    }
}

#[test]
fn lock_drops_cells_outside_the_grid() {
    let mut b = Board::new();
    let blocks = shape_blocks(Tetromino::I, Rotation::Spawn);
    b.lock_piece(0, 39, &blocks, 1);
    assert_eq!(b.cells[39][0], 1);
    assert_eq!(b.cells[39][1], 1);
    assert_eq!(b.cells[39][2], 1);
    let filled: usize = b.cells.iter().map(|r| r.iter().filter(|&&c| c != 0).count()).sum();
    assert_eq!(filled, 3);
    let mut c = Board::new();
    c.lock_piece(i32::MAX, i32::MIN, &blocks, 1);
    assert!(c.visible_empty());
    assert_eq!(c.max_height(), 0);
}

#[test]
fn clear_lines_removes_full_rows_and_shifts_the_rest() {
    let mut b = Board::new();
    fill_row(&mut b, 0, 3, &[]);
    fill_row(&mut b, 1, 4, &[7]);
    fill_row(&mut b, 2, 5, &[]);
    b.cells[3][2] = 6;
    b.cells[25][9] = 8;
    assert_eq!(b.clear_lines(), 2);
    for x in 0..10 {
        assert_eq!(b.cells[0][x], if x == 7 { 0 } else { 4 });
        assert_eq!(b.cells[1][x], if x == 2 { 6 } else { 0 });
    }
    assert_eq!(b.cells[23][9], 8);
    assert_eq!(b.cells[25][9], 0);
    assert!(b.cells[38].iter().all(|&c| c == 0));
    assert!(b.cells[39].iter().all(|&c| c == 0));
    for y in 0..20 {
        assert!(b.cells[y].iter().any(|&c| c == 0));
    }
}

#[test]
fn clear_lines_leaves_a_board_without_full_rows_alone() {
    let mut b = Board::new();
    fill_row(&mut b, 0, 3, &[0]);
    fill_row(&mut b, 30, 3, &[]);
    let before = b;
    assert_eq!(b.clear_lines(), 0);
    assert_eq!(b.cells, before.cells);
}

#[test]
fn a_full_buffer_row_clears_once_it_comes_into_view() {
    let mut b = Board::new();
    fill_row(&mut b, 5, 2, &[]);
    for y in 6..20 {
        b.cells[y][0] = 1;
    }
    fill_row(&mut b, 20, 7, &[]);
    fill_row(&mut b, 21, 7, &[]);
    assert_eq!(b.clear_lines(), 3);
    assert!(b.cells[19].iter().all(|&c| c == 0));
    assert!(b.cells[20].iter().all(|&c| c == 0));
    assert_eq!(b.cells[18][0], 1);
    assert_eq!(b.cells[18][1], 0);
    assert_eq!(b.cells[5][0], 1);
    assert_eq!(b.cells[5][1], 0);
}

#[test]
fn a_full_buffer_row_stays_while_it_is_out_of_view() {
    let mut b = Board::new();
    fill_row(&mut b, 5, 2, &[]);
    fill_row(&mut b, 21, 7, &[]);
    b.cells[22][4] = 6;
    assert_eq!(b.clear_lines(), 1);
    assert!(b.cells[20].iter().all(|&c| c == 7));
    assert_eq!(b.cells[21][4], 6);
    assert!(b.cells[5].iter().all(|&c| c == 0));
    assert!(b.cells[39].iter().all(|&c| c == 0));
}

#[test]
fn holes_height_and_emptiness() {
    let mut b = Board::new();
    b.cells[2][0] = 1;
    b.cells[5][3] = 1;
    b.cells[3][3] = 1;
    assert_eq!(b.hole_count(), 2 + 4);
    assert_eq!(b.max_height(), 6);
    assert!(!b.visible_empty());
    let mut c = Board::new();
    c.cells[20][4] = 1;
    assert!(c.visible_empty());
    assert_eq!(c.max_height(), 21);
    assert_eq!(c.hole_count(), 20);
}

#[test]
fn lowest_drop_height_is_the_lowest_free_row() {
    let b = Board::new();
    let flat = shape_blocks(Tetromino::I, Rotation::Spawn);
    assert_eq!(b.lowest_drop_height(4, &flat), Some(0));
    assert_eq!(b.lowest_drop_height(1, &flat), Some(0));
    assert_eq!(b.lowest_drop_height(0, &flat), None);
    assert_eq!(b.lowest_drop_height(8, &flat), None);
    let upright = shape_blocks(Tetromino::I, Rotation::Right);
    assert_eq!(b.lowest_drop_height(-1, &upright), Some(2));
    assert_eq!(b.lowest_drop_height(9, &upright), None);
    let mut c = Board::new();
    fill_row(&mut c, 0, 8, &[]);
    fill_row(&mut c, 1, 8, &[3]);
    assert_eq!(c.lowest_drop_height(4, &flat), Some(2));
    assert_eq!(c.lowest_drop_height(2, &upright), Some(3));
    let odd = [Point { x: 0, y: 50 }; 4];
    assert_eq!(c.lowest_drop_height(0, &odd), None);
}

#[test]
fn lowest_drop_height_finds_room_under_an_overhang() {
    let mut b = Board::new();
    fill_row(&mut b, 1, 8, &[0]);
    let flat = shape_blocks(Tetromino::I, Rotation::Spawn);
    assert_eq!(b.lowest_drop_height(4, &flat), Some(0));
}

#[test]
fn garbage_at_a_hole_pushes_the_board_up() {
    let mut b = Board::new();
    b.cells[0][5] = 3;
    b.cells[38][1] = 4;
    assert!(!b.add_garbage_at(0, 2));
    assert_eq!(b.cells[0][5], 3);
    assert!(!b.add_garbage_at(2, 7));
    for y in 0..2 {
        for x in 0..10 {
            assert_eq!(b.cells[y][x], if x == 7 { 0 } else { 8 });
        }
    }
    assert_eq!(b.cells[2][5], 3);
    assert_eq!(b.cells[0][5], 8);
    assert!(b.cells[39].iter().all(|&c| c == 0));
    assert!(b.cells[38].iter().all(|&c| c == 0));
}

#[test]
fn garbage_tops_out_above_the_visible_rows() {
    let mut b = Board::new();
    assert!(!b.add_garbage_at(20, 0));
    assert_eq!(b.max_height(), 20);
    assert!(b.add_garbage_at(1, 0));
    assert_eq!(b.max_height(), 21);
    let mut c = Board::new();
    assert!(c.add_garbage_at(u32::MAX, 9));
    for y in 0..40 {
        assert_eq!(c.cells[y][9], 0);
        assert_eq!(c.cells[y][0], 8);
    }
}

#[test]
fn random_garbage_has_one_hole_in_one_column() {
    for _ in 0..50 {
        let mut b = Board::new();
        b.cells[0][0] = 1;
        assert!(!b.add_garbage(3));
        let hole = (0..10).find(|&x| b.cells[0][x] == 0).unwrap();
        for y in 0..3 {
            for x in 0..10 {
                assert_eq!(b.cells[y][x], if x == hole { 0 } else { 8 });
            }
        }
        assert_eq!(b.cells[3][0], 1);
    }
    let mut b = Board::new();
    assert!(!b.add_garbage(0));
    assert!(b.visible_empty());
}
