use vstd::prelude::*;

verus! {

/// The causes that a collision test can report, as plain booleans.
pub struct CollisionFlags {
    /// A tested cell lies left or right of the grid.
    pub wall: bool,
    /// A tested cell lies below the bottom row.
    pub floor: bool,
    /// A tested cell overlaps a locked block.
    pub mino: bool,
}

/// Bit that records a wall violation.
pub const WALL_BIT: u8 = 1;

/// Bit that records a floor violation.
pub const FLOOR_BIT: u8 = 2;

/// Bit that records an overlap with a locked block.
pub const MINO_BIT: u8 = 4;

/// Set of violations found by a collision test, stored as bits.
///
/// Built from `none`, `wall`, `floor` and `mino` and merged with `union`.
/// The empty set, `none()`, means that the tested placement is legal.
#[derive(Clone, Copy, Debug, PartialEq, Eq, Structural)]
pub struct CollisionResult {
    bits: u8,
}

/// The violations that a bit pattern records; other bits are ignored.
pub open spec fn flags_of_bits(bits: u8) -> CollisionFlags {
    CollisionFlags {
        wall: bits & WALL_BIT != 0,
        floor: bits & FLOOR_BIT != 0,
        mino: bits & MINO_BIT != 0,
    }
}

/// The bit pattern that records exactly the violations of `f`.
pub open spec fn bits_of_flags(f: CollisionFlags) -> u8 {
    (if f.wall { WALL_BIT } else { 0u8 }) | (if f.floor { FLOOR_BIT } else { 0u8 }) | (if f.mino {
        MINO_BIT
    } else {
        0u8
    })
}

proof fn lemma_bits_round_trip(x: u8)
    requires
        x < 8,
    ensures
        bits_of_flags(flags_of_bits(x)) == x,
{
    assert(x < 8 ==> x == (if x & 1u8 != 0 { 1u8 } else { 0u8 }) | (if x & 2u8 != 0 {
        2u8
    } else {
        0u8
    }) | (if x & 4u8 != 0 { 4u8 } else { 0u8 })) by (bit_vector);
}

proof fn lemma_flags_round_trip(f: CollisionFlags)
    ensures
        flags_of_bits(bits_of_flags(f)) == f,
        bits_of_flags(f) < 8,
{
    let w = if f.wall { 1u8 } else { 0u8 };
    let l = if f.floor { 2u8 } else { 0u8 };
    let m = if f.mino { 4u8 } else { 0u8 };
    assert((w == 0 || w == 1) && (l == 0 || l == 2) && (m == 0 || m == 4) ==> ((w | l | m) < 8
        && ((w | l | m) & 1u8 != 0) == (w == 1) && ((w | l | m) & 2u8 != 0) == (l == 2) && ((w
        | l | m) & 4u8 != 0) == (m == 4))) by (bit_vector);
}

impl View for CollisionResult {
    type V = CollisionFlags;

    closed spec fn view(&self) -> CollisionFlags {
        flags_of_bits(self.bits)
    }
}

impl CollisionResult {
    #[verifier::type_invariant]
    spec fn only_known_bits(self) -> bool {
        self.bits < 8
    }

    /// The one result that reports exactly the violations of `f`.
    pub closed spec fn from_flags(f: CollisionFlags) -> CollisionResult {
        CollisionResult { bits: bits_of_flags(f) }
    }

    /// `from_flags` reports exactly the violations it was given.
    pub proof fn lemma_from_flags_view(f: CollisionFlags)
        ensures
            Self::from_flags(f)@ == f,
    {
        lemma_flags_round_trip(f);
    }

    /// The empty set: no violation.
    pub fn none() -> (r: CollisionResult)
        ensures
            r@ == (CollisionFlags { wall: false, floor: false, mino: false }),
            r == Self::from_flags(r@),
    {
        proof {
            lemma_bits_round_trip(0u8);
            assert(0u8 & 1u8 == 0 && 0u8 & 2u8 == 0 && 0u8 & 4u8 == 0) by (bit_vector);
        }
        CollisionResult { bits: 0 }
    }

    /// The set that holds only a wall violation.
    pub fn wall() -> (r: CollisionResult)
        ensures
            r@ == (CollisionFlags { wall: true, floor: false, mino: false }),
            r == Self::from_flags(r@),
    {
        proof {
            lemma_bits_round_trip(WALL_BIT);
            assert(1u8 & 1u8 != 0 && 1u8 & 2u8 == 0 && 1u8 & 4u8 == 0) by (bit_vector);
        }
        CollisionResult { bits: WALL_BIT }
    }

    /// The set that holds only a floor violation.
    pub fn floor() -> (r: CollisionResult)
        ensures
            r@ == (CollisionFlags { wall: false, floor: true, mino: false }),
            r == Self::from_flags(r@),
    {
        proof {
            lemma_bits_round_trip(FLOOR_BIT);
            assert(2u8 & 1u8 == 0 && 2u8 & 2u8 != 0 && 2u8 & 4u8 == 0) by (bit_vector);
        }
        CollisionResult { bits: FLOOR_BIT }
    }

    /// The set that holds only an overlap with a locked block.
    pub fn mino() -> (r: CollisionResult)
        ensures
            r@ == (CollisionFlags { wall: false, floor: false, mino: true }),
            r == Self::from_flags(r@),
    {
        proof {
            lemma_bits_round_trip(MINO_BIT);
            assert(4u8 & 1u8 == 0 && 4u8 & 2u8 == 0 && 4u8 & 4u8 != 0) by (bit_vector);
        }
        CollisionResult { bits: MINO_BIT }
    }

    /// Every violation that is in either set.
    pub fn union(self, other: CollisionResult) -> (r: CollisionResult)
        ensures
            r@ == (CollisionFlags {
                wall: self@.wall || other@.wall,
                floor: self@.floor || other@.floor,
                mino: self@.mino || other@.mino,
            }),
            r == Self::from_flags(r@),
    {
        proof {
            use_type_invariant(&self);
            use_type_invariant(&other);
        }
        let a = self.bits;
        let b = other.bits;
        proof {
            assert(a < 8 && b < 8 ==> (a | b) < 8) by (bit_vector);
            assert(((a | b) & 1u8 != 0) == (a & 1u8 != 0 || b & 1u8 != 0)) by (bit_vector);
            assert(((a | b) & 2u8 != 0) == (a & 2u8 != 0 || b & 2u8 != 0)) by (bit_vector);
            assert(((a | b) & 4u8 != 0) == (a & 4u8 != 0 || b & 4u8 != 0)) by (bit_vector);
            lemma_bits_round_trip(a | b);
        }
        CollisionResult { bits: a | b }
    }

    /// Whether every violation of `other` is also in this set.
    pub fn contains(self, other: CollisionResult) -> (r: bool)
        ensures
            r == ((other@.wall ==> self@.wall) && (other@.floor ==> self@.floor) && (other@.mino
                ==> self@.mino)),
    {
        proof {
            use_type_invariant(&self);
            use_type_invariant(&other);
        }
        let a = self.bits;
        let b = other.bits;
        proof {
            assert(a < 8 && b < 8 ==> (((a & b) == b) == ((b & 1u8 != 0 ==> a & 1u8 != 0) && (b
                & 2u8 != 0 ==> a & 2u8 != 0) && (b & 4u8 != 0 ==> a & 4u8 != 0)))) by (bit_vector);
        }
        a & b == b
    }

    /// Whether the set holds no violation, that is, whether the tested
    /// placement is legal.
    pub fn is_empty(self) -> (r: bool)
        ensures
            r == (!self@.wall && !self@.floor && !self@.mino),
    {
        proof {
            use_type_invariant(&self);
        }
        let a = self.bits;
        proof {
            assert(a < 8 ==> ((a == 0) == (a & 1u8 == 0 && a & 2u8 == 0 && a & 4u8 == 0)))
                by (bit_vector);
        }
        a == 0
    }
}

} // verus!
