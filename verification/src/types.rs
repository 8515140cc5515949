//! Scalar vocabulary shared by the table and its callers: position keys,
//! scores, search depths and bound kinds.

use vstd::prelude::*;

verus! {

/// A 64-bit hash of a position. The table uses only two slices of it: the
/// high 16 bits identify an entry inside a cluster, the low bits address the
/// cluster.
#[derive(Clone, Copy, Debug, PartialEq, Eq, Structural)]
pub struct Key(pub u64);

impl Key {
    /// The identification tag: the high 16 bits of the key.
    pub open spec fn spec_high16(self) -> u16 {
        (self.0 >> 48) as u16
    }

    /// The identification tag: the high 16 bits of the key.
    #[verifier::when_used_as_spec(spec_high16)]
    pub fn high16(self) -> (tag: u16)
        ensures
            tag == self.spec_high16(),
            tag as u64 == self.0 >> 48,
    {
        let k: u64 = self.0;
        assert(k >> 48 <= 0xffff) by (bit_vector);
        (k >> 48) as u16
    }
}

/// A search score. Entries keep the low 16 bits, so a score survives storage
/// exactly when it lies in `i16`'s range.
#[derive(Clone, Copy, Debug, PartialEq, Eq, Structural)]
pub struct Value(pub i32);

impl Value {
    /// Whether the score can be stored without loss.
    pub open spec fn storable(self) -> bool {
        i16::MIN <= self.0 <= i16::MAX
    }
}

/// A search depth in plies. Depths below `Depth::OFFSET` do not occur.
#[derive(Clone, Copy, Debug, PartialEq, Eq, Structural)]
pub struct Depth(pub i32);

impl Depth {
    /// The ply unit: every depth is a multiple of it.
    pub const ONE_PLY: i32 = 1;

    /// The smallest depth; it is stored as byte 0.
    pub const OFFSET: i32 = -6;

    /// The number of ply units by which the depth exceeds `OFFSET`.
    pub open spec fn code(self) -> int {
        (self.0 - Self::OFFSET) / (Self::ONE_PLY as int)
    }

    /// Whether the depth is a whole number of plies at or above `OFFSET`
    /// whose distance from `OFFSET` still fits the machine word.
    pub open spec fn aligned(self) -> bool {
        &&& Self::OFFSET <= self.0
        &&& self.0 - Self::OFFSET <= i32::MAX
        &&& (self.0 - Self::OFFSET) % (Self::ONE_PLY as int) == 0
    }

    /// Whether the depth fits the stored byte, so that it survives storage.
    pub open spec fn storable(self) -> bool {
        self.aligned() && self.code() <= u8::MAX
    }

    /// The depth that a stored byte stands for.
    pub open spec fn from_code(code: u8) -> Depth {
        Depth((code * Self::ONE_PLY + Self::OFFSET) as i32)
    }

    /// A depth that is a whole number of plies and fits the stored byte comes
    /// back from its code as it went in.
    pub proof fn lemma_code_round_trip(self)
        requires
            self.storable(),
        ensures
            0 <= self.code() <= u8::MAX,
            Self::from_code(self.code() as u8) == self,
    {
        assert(self.code() * Self::ONE_PLY == self.0 - Self::OFFSET) by (nonlinear_arith)
            requires
                self.code() == (self.0 - Self::OFFSET) / (Self::ONE_PLY as int),
                (self.0 - Self::OFFSET) % (Self::ONE_PLY as int) == 0,
                Self::ONE_PLY > 0,
        ;
    }
}

/// How a stored score relates to the true score of its position.
#[derive(Clone, Copy, Debug, PartialEq, Eq, Structural)]
pub enum Bound {
    /// No information; what an unused entry carries.
    Unset,
    /// The true score is at most the stored one (fail-low).
    Upper,
    /// The true score is at least the stored one (fail-high).
    Lower,
    /// The stored score is the true score.
    Exact,
}

impl Bound {
    /// The two-bit code of the bound; `Exact` has both bits set.
    pub open spec fn spec_bits(self) -> u8 {
        match self {
            Bound::Unset => 0,
            Bound::Upper => 1,
            Bound::Lower => 2,
            Bound::Exact => 3,
        }
    }

    /// The two-bit code of the bound.
    #[verifier::when_used_as_spec(spec_bits)]
    pub fn bits(self) -> (b: u8)
        ensures
            b == self.spec_bits(),
    {
        match self {
            Bound::Unset => 0,
            Bound::Upper => 1,
            Bound::Lower => 2,
            Bound::Exact => 3,
        }
    }

    /// The bound whose code is the low two bits of `b`.
    pub open spec fn spec_from_bits(b: u8) -> Bound {
        let low = b & 3;
        if low == 0 {
            Bound::Unset
        } else if low == 1 {
            Bound::Upper
        } else if low == 2 {
            Bound::Lower
        } else {
            Bound::Exact
        }
    }

    /// The bound whose code is the low two bits of `b`.
    #[verifier::when_used_as_spec(spec_from_bits)]
    pub fn from_bits(b: u8) -> (bound: Bound)
        ensures
            bound == Self::spec_from_bits(b),
    {
        let low: u8 = b & 3;
        if low == 0 {
            Bound::Unset
        } else if low == 1 {
            Bound::Upper
        } else if low == 2 {
            Bound::Lower
        } else {
            Bound::Exact
        }
    }

    /// Decoding the code of a bound gives the bound back.
    pub proof fn lemma_bits_round_trip(self)
        ensures
            Self::spec_from_bits(self.spec_bits()) == self,
            self.spec_bits() <= 3,
    {
        assert(0u8 & 3 == 0) by (bit_vector);
        assert(1u8 & 3 == 1) by (bit_vector);
        assert(2u8 & 3 == 2) by (bit_vector);
        assert(3u8 & 3 == 3) by (bit_vector);
    }
}

} // verus!
