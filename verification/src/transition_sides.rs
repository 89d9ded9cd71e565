//! The six sides of a block that can face a double-resolution neighbour, and
//! sets of such sides.

use vstd::prelude::*;

verus! {

/// A block face for which the algorithm should generate "transition" cells
/// (because the neighbouring block on that face is double-resolution of this
/// block).
#[derive(Clone, Copy, Debug, PartialEq, Eq, Structural)]
pub enum TransitionSide {
    LowX,
    HighX,
    LowY,
    HighY,
    LowZ,
    HighZ,
}

/// The side whose table position is `index` (0 to 5).
pub open spec fn side_from_index(index: int) -> TransitionSide {
    if index == 0 {
        TransitionSide::LowX
    } else if index == 1 {
        TransitionSide::HighX
    } else if index == 2 {
        TransitionSide::LowY
    } else if index == 3 {
        TransitionSide::HighY
    } else if index == 4 {
        TransitionSide::LowZ
    } else {
        TransitionSide::HighZ
    }
}

impl TransitionSide {
    /// Position of this side in tables indexed by side.
    pub open spec fn index_spec(self) -> int {
        match self {
            TransitionSide::LowX => 0,
            TransitionSide::HighX => 1,
            TransitionSide::LowY => 2,
            TransitionSide::HighY => 3,
            TransitionSide::LowZ => 4,
            TransitionSide::HighZ => 5,
        }
    }

    /// Position of this side in tables indexed by side.
    pub fn index(self) -> (r: usize)
        ensures
            r == self.index_spec(),
    {
        match self {
            TransitionSide::LowX => 0,
            TransitionSide::HighX => 1,
            TransitionSide::LowY => 2,
            TransitionSide::HighY => 3,
            TransitionSide::LowZ => 4,
            TransitionSide::HighZ => 5,
        }
    }

    /// The side whose table position is `index`.
    pub fn from_index(index: usize) -> (r: TransitionSide)
        requires
            index < 6,
        ensures
            r.index_spec() == index,
            r == side_from_index(index as int),
    {
        if index == 0 {
            TransitionSide::LowX
        } else if index == 1 {
            TransitionSide::HighX
        } else if index == 2 {
            TransitionSide::LowY
        } else if index == 3 {
            TransitionSide::HighY
        } else if index == 4 {
            TransitionSide::LowZ
        } else {
            TransitionSide::HighZ
        }
    }
}

/// A set of several [`TransitionSide`], stored as one bit per side.
#[derive(Clone, Copy, Debug, PartialEq, Eq, Structural)]
pub struct TransitionSides {
    /// Bit `side.index()` is set when `side` belongs to the set.
    pub bits: u8,
}

impl TransitionSides {
    /// Whether the side with table position `i` belongs to the set.
    pub open spec fn has_index(self, i: int) -> bool {
        self.bits & (1u8 << i as u8) != 0
    }

    /// Whether `side` belongs to the set.
    pub open spec fn has(self, side: TransitionSide) -> bool {
        self.has_index(side.index_spec())
    }

    /// Whether the set holds no side at all.
    pub open spec fn is_empty_spec(self) -> bool {
        forall|side: TransitionSide| !self.has(side)
    }

    /// Empty set of sides.
    pub fn empty() -> (r: TransitionSides)
        ensures
            forall|side: TransitionSide| !r.has(side),
            r.bits == 0,
    {
        proof {
            assert forall|side: TransitionSide| !(TransitionSides { bits: 0u8 }).has(side) by {
                let i = side.index_spec() as u8;
                assert(0u8 & (1u8 << i) == 0) by (bit_vector);
            }
        }
        TransitionSides { bits: 0 }
    }

    /// Whether `side` belongs to the set.
    pub fn contains(&self, side: TransitionSide) -> (r: bool)
        ensures
            r == self.has(side),
    {
        self.bits & (1u8 << side.index() as u8) != 0
    }

    /// The set with `side` added.
    pub fn adding(self, side: TransitionSide) -> (r: TransitionSides)
        ensures
            r.has(side),
            forall|other: TransitionSide| other != side ==> r.has(other) == self.has(other),
    {
        let i = side.index() as u8;
        let r = TransitionSides { bits: self.bits | (1u8 << i) };
        proof {
            let b = self.bits;
            assert(b | (1u8 << i) != 0 ==> true) by (bit_vector);
            assert((b | (1u8 << i)) & (1u8 << i) != 0) by (bit_vector)
                requires i < 6u8;
            assert forall|other: TransitionSide| other != side implies r.has(other) == self.has(
                other,
            ) by {
                let j = other.index_spec() as u8;
                assert((b | (1u8 << i)) & (1u8 << j) == b & (1u8 << j)) by (bit_vector)
                    requires i < 6u8, j < 6u8, i != j;
            }
        }
        r
    }
}

/// Empty set of sides.
pub fn no_side() -> (r: TransitionSides)
    ensures
        forall|side: TransitionSide| !r.has(side),
{
    TransitionSides::empty()
}

} // verus!
