use vstd::prelude::*;

verus! {

/// Two-dimensional integer vector.
///
/// Used both as an absolute cell of the playfield and as a relative
/// displacement between two cells. Rows grow downwards, columns to the right.
#[derive(Clone, Copy, Debug, PartialEq, Eq, Structural)]
pub struct Point {
    pub row: i32,
    pub col: i32,
}

/// Whether `a + b` can be represented, component by component.
pub open spec fn add_fits(a: Point, b: Point) -> bool {
    i32::MIN <= a.row + b.row <= i32::MAX && i32::MIN <= a.col + b.col <= i32::MAX
}

/// Whether `a - b` can be represented, component by component.
pub open spec fn sub_fits(a: Point, b: Point) -> bool {
    i32::MIN <= a.row - b.row <= i32::MAX && i32::MIN <= a.col - b.col <= i32::MAX
}

/// Component-wise sum.
pub open spec fn point_add(a: Point, b: Point) -> Point {
    Point { row: (a.row + b.row) as i32, col: (a.col + b.col) as i32 }
}

/// Component-wise difference.
pub open spec fn point_sub(a: Point, b: Point) -> Point {
    Point { row: (a.row - b.row) as i32, col: (a.col - b.col) as i32 }
}

impl core::ops::Add for Point {
    type Output = Point;

    fn add(self, other: Point) -> (r: Point)
        ensures
            r == point_add(self, other),
    {
        Point { row: self.row + other.row, col: self.col + other.col }
    }
}

impl vstd::std_specs::ops::AddSpecImpl for Point {
    open spec fn obeys_add_spec() -> bool {
        true
    }

    open spec fn add_req(self, other: Point) -> bool {
        add_fits(self, other)
    }

    open spec fn add_spec(self, other: Point) -> Point {
        point_add(self, other)
    }
}

impl core::ops::Sub for Point {
    type Output = Point;

    fn sub(self, other: Point) -> (r: Point)
        ensures
            r == point_sub(self, other),
    {
        Point { row: self.row - other.row, col: self.col - other.col }
    }
}

impl vstd::std_specs::ops::SubSpecImpl for Point {
    open spec fn obeys_sub_spec() -> bool {
        true
    }

    open spec fn sub_req(self, other: Point) -> bool {
        sub_fits(self, other)
    }

    open spec fn sub_spec(self, other: Point) -> Point {
        point_sub(self, other)
    }
}

/// Addition of points is commutative.
pub proof fn lemma_add_commutative(a: Point, b: Point)
    ensures
        add_fits(a, b) == add_fits(b, a),
        point_add(a, b) == point_add(b, a),
{
}

/// Subtracting `b` undoes adding `b`.
pub proof fn lemma_sub_undoes_add(a: Point, b: Point)
    requires
        add_fits(a, b),
    ensures
        sub_fits(point_add(a, b), b),
        point_sub(point_add(a, b), b) == a,
{
}

} // verus!
