use tetris::Point;

#[test]
fn point_add() {
    assert_eq!(
        Point { row: 2, col: 7 } + Point { row: 4, col: 2 } + Point { row: 3, col: 3 },
        Point { row: 9, col: 12 }
    );
}

#[test]
fn point_sub() {
    assert_eq!(
        Point { row: 10, col: 13 } - Point { row: 4, col: 2 } - Point { row: 3, col: 5 },
        Point { row: 3, col: 6 }
    );
}

#[test]
fn point_add_mixed_signs() {
    assert_eq!(
        Point { row: -2, col: 7 } + Point { row: 4, col: -17 } + Point { row: 3, col: 3 },
        Point { row: 5, col: -7 }
    );
}

#[test]
fn point_sub_mixed_signs() {
    assert_eq!(
        Point { row: -2, col: 7 } - Point { row: 4, col: -17 } - Point { row: 3, col: 3 },
        Point { row: -9, col: 21 }
    );
}

#[test]
fn point_add_commutes_and_sub_undoes_it() {
    let a = Point { row: -5, col: 12 };
    let b = Point { row: 8, col: -3 };
    assert_eq!(a + b, b + a);
    assert_eq!(a + b - b, a);
    assert_eq!(a + b, Point { row: 3, col: 9 });
}
