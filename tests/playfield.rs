use tetris::{CollisionResult, Playfield, Point, TetriminoType, COLS, ROWS};

#[test]
fn playfield_index_usize() {
    let playfield = Playfield::default();
    assert_eq!(playfield[3][7], TetriminoType::NONE);
}

#[test]
fn playfield_index_mut_usize() {
    let mut playfield = Playfield::default();
    playfield.row_mut(3)[7] = TetriminoType::O;
    assert_eq!(playfield[3][7], TetriminoType::O);
}

#[test]
fn playfield_index_point() {
    let playfield = Playfield::default();
    let point = Point { row: 3, col: 7 };
    assert_eq!(playfield[point], TetriminoType::NONE);
}

#[test]
fn playfield_index_mut_point() {
    let mut playfield = Playfield::default();
    let point = Point { row: 3, col: 7 };
    playfield.set(point, TetriminoType::O);
    assert_eq!(playfield[point], TetriminoType::O);
}

#[test]
fn playfield_dimensions() {
    assert_eq!(ROWS, 40);
    assert_eq!(COLS, 10);
}

#[test]
fn playfield_new_is_empty() {
    let playfield = Playfield::new();
    for row in 0..ROWS as i32 {
        for col in 0..COLS as i32 {
            assert_eq!(playfield.get(Point { row, col }), TetriminoType::NONE);
        }
    }
}

#[test]
fn playfield_write_touches_one_cell() {
    let mut playfield = Playfield::new();
    playfield.set(Point { row: 3, col: 7 }, TetriminoType::O);
    for row in 0..ROWS as i32 {
        for col in 0..COLS as i32 {
            let expected = if row == 3 && col == 7 { TetriminoType::O } else { TetriminoType::NONE };
            assert_eq!(playfield.get(Point { row, col }), expected);
            assert_eq!(playfield[row as usize][col as usize], expected);
        }
    }
}

#[test]
fn playfield_row_rewrite() {
    let mut playfield = Playfield::new();
    *playfield.row_mut(39) = [TetriminoType::I; 10];
    assert_eq!(playfield[39], [TetriminoType::I; 10]);
    assert_eq!(playfield[38], [TetriminoType::NONE; 10]);
}

fn square_at(row: i32, col: i32) -> [Point; 4] {
    [
        Point { row, col },
        Point { row, col: col + 1 },
        Point { row: row + 1, col },
        Point { row: row + 1, col: col + 1 },
    ]
}

#[test]
fn collision_inside_empty_grid_is_none() {
    let playfield = Playfield::new();
    let r = playfield.test_collision(&square_at(10, 4));
    assert_eq!(r, CollisionResult::none());
    assert!(r.is_empty());
}

#[test]
fn collision_empty_cell_set_is_none() {
    let playfield = Playfield::new();
    assert!(playfield.test_collision(&[]).is_empty());
}

#[test]
fn collision_left_of_grid_is_wall() {
    let playfield = Playfield::new();
    let r = playfield.test_collision(&square_at(5, -1));
    assert_eq!(r, CollisionResult::wall());
}

#[test]
fn collision_right_of_grid_is_wall() {
    let playfield = Playfield::new();
    let r = playfield.test_collision(&square_at(5, 9));
    assert_eq!(r, CollisionResult::wall());
}

#[test]
fn collision_below_bottom_is_floor() {
    let playfield = Playfield::new();
    let r = playfield.test_collision(&[Point { row: ROWS as i32, col: 4 }]);
    assert_eq!(r, CollisionResult::floor());
    let r = playfield.test_collision(&square_at(39, 4));
    assert_eq!(r, CollisionResult::floor());
}

#[test]
fn collision_above_top_is_allowed() {
    let playfield = Playfield::new();
    let r = playfield.test_collision(&square_at(-2, 4));
    assert!(r.is_empty());
}

#[test]
fn collision_on_locked_block_is_mino() {
    let mut playfield = Playfield::new();
    playfield.lock(&square_at(38, 0), TetriminoType::O);
    let r = playfield.test_collision(&square_at(37, 1));
    assert_eq!(r, CollisionResult::mino());
}

#[test]
fn collision_reports_wall_and_mino_together() {
    let mut playfield = Playfield::new();
    playfield.set(Point { row: 20, col: 0 }, TetriminoType::L);
    let r = playfield.test_collision(&square_at(20, -1));
    assert!(r.contains(CollisionResult::wall()));
    assert!(r.contains(CollisionResult::mino()));
    assert!(!r.contains(CollisionResult::floor()));
    assert_eq!(r, CollisionResult::wall().union(CollisionResult::mino()));
}

#[test]
fn collision_reports_all_three_causes() {
    let mut playfield = Playfield::new();
    playfield.set(Point { row: 39, col: 9 }, TetriminoType::Z);
    let r = playfield.test_collision(&square_at(39, 9));
    assert!(r.contains(CollisionResult::wall()));
    assert!(r.contains(CollisionResult::floor()));
    assert!(r.contains(CollisionResult::mino()));
}

#[test]
fn collision_test_is_repeatable() {
    let mut playfield = Playfield::new();
    playfield.set(Point { row: 20, col: 0 }, TetriminoType::S);
    let cells = square_at(20, -1);
    let first = playfield.test_collision(&cells);
    let second = playfield.test_collision(&cells);
    assert_eq!(first, second);
    assert_eq!(playfield.get(Point { row: 20, col: 0 }), TetriminoType::S);
}

#[test]
fn lock_writes_every_cell() {
    let mut playfield = Playfield::new();
    let cells = square_at(30, 2);
    assert!(playfield.test_collision(&cells).is_empty());
    playfield.lock(&cells, TetriminoType::T);
    for p in cells {
        assert_eq!(playfield[p], TetriminoType::T);
    }
    assert_eq!(playfield.get(Point { row: 30, col: 4 }), TetriminoType::NONE);
    assert_eq!(playfield.get(Point { row: 29, col: 2 }), TetriminoType::NONE);
}

#[test]
fn lock_with_none_clears_cells() {
    let mut playfield = Playfield::new();
    let cells = square_at(30, 2);
    playfield.lock(&cells, TetriminoType::J);
    playfield.lock(&cells, TetriminoType::NONE);
    assert!(playfield.test_collision(&cells).is_empty());
}
