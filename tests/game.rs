use tetris::{TetriminoFacing, TetriminoType};

#[test]
fn tetrimino_type_defaults_to_none() {
    assert_eq!(TetriminoType::default(), TetriminoType::NONE);
}

#[test]
fn facing_rotates_clockwise_in_order() {
    assert_eq!(TetriminoFacing::NORTH.rotate_cw(), TetriminoFacing::EAST);
    assert_eq!(TetriminoFacing::EAST.rotate_cw(), TetriminoFacing::SOUTH);
    assert_eq!(TetriminoFacing::SOUTH.rotate_cw(), TetriminoFacing::WEST);
    assert_eq!(TetriminoFacing::WEST.rotate_cw(), TetriminoFacing::NORTH);
}

#[test]
fn facing_rotates_counter_clockwise_in_order() {
    assert_eq!(TetriminoFacing::NORTH.rotate_ccw(), TetriminoFacing::WEST);
    assert_eq!(TetriminoFacing::WEST.rotate_ccw(), TetriminoFacing::SOUTH);
    assert_eq!(TetriminoFacing::SOUTH.rotate_ccw(), TetriminoFacing::EAST);
    assert_eq!(TetriminoFacing::EAST.rotate_ccw(), TetriminoFacing::NORTH);
}

#[test]
fn facing_four_clockwise_turns_return_home() {
    let all = [
        TetriminoFacing::NORTH,
        TetriminoFacing::EAST,
        TetriminoFacing::SOUTH,
        TetriminoFacing::WEST,
    ];
    for f in all {
        assert_eq!(f.rotate_cw().rotate_cw().rotate_cw().rotate_cw(), f);
        assert_eq!(f.rotate_cw().rotate_ccw(), f);
        assert_eq!(f.rotate_ccw().rotate_cw(), f);
        assert_ne!(f.rotate_cw(), f);
    }
}
