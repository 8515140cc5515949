//! Moves as the table sees them: a 32-bit in-search encoding, its 16-bit
//! stored form, and the one way to put a moved piece back into a stored move.

use vstd::prelude::*;

verus! {

/// A board square, by number.
#[derive(Clone, Copy, Debug, PartialEq, Eq, Structural)]
pub struct Square(pub u8);

/// A piece kind (with its colour), by number; `Piece(0)` is the empty square.
#[derive(Clone, Copy, Debug, PartialEq, Eq, Structural)]
pub struct Piece(pub u8);

/// An encoded move.
///
/// Bits 0-6 hold the destination square, bits 7-13 the origin square (for a
/// drop: the kind of the piece dropped), bit 14 the promotion flag and bit 15
/// the drop flag. These sixteen bits are what an entry stores. From bit 16
/// upwards the in-search form holds the kind of the moved piece, which a
/// stored board move leaves out: the board at hand gives it back.
///
/// An encoding whose destination and origin fields are equal is a marker
/// (null move, declared win, resignation) and not a board move.
#[derive(Clone, Copy, Debug, PartialEq, Eq, Structural)]
pub struct Move(pub u32);

impl Move {
    /// Mask of the destination square.
    pub const TO_MASK: u32 = 0x7f;

    /// Mask of the origin square, before shifting.
    pub const FROM_MASK: u32 = 0x3f80;

    /// Position of the origin square.
    pub const FROM_SHIFT: u32 = 7;

    /// Flag of a drop.
    pub const DROP_FLAG: u32 = 0x8000;

    /// Position of the moved piece's kind.
    pub const MOVED_PIECE_SHIFT: u32 = 16;

    /// The sixteen bits that an entry stores.
    pub open spec fn spec_stored(self) -> u16 {
        (self.0 & 0xffff) as u16
    }

    /// The sixteen bits that an entry stores.
    #[verifier::when_used_as_spec(spec_stored)]
    pub fn stored(self) -> (low: u16)
        ensures
            low == self.spec_stored(),
    {
        let raw: u32 = self.0;
        assert(raw & 0xffff <= 0xffff) by (bit_vector);
        (raw & 0xffff) as u16
    }

    /// The move that sixteen stored bits stand for, moved piece not yet filled in.
    pub open spec fn spec_from_stored(low: u16) -> Move {
        Move(low as u32)
    }

    /// The move that sixteen stored bits stand for, moved piece not yet filled in.
    #[verifier::when_used_as_spec(spec_from_stored)]
    pub fn from_stored(low: u16) -> (m: Move)
        ensures
            m == Self::spec_from_stored(low),
    {
        Move(low as u32)
    }

    /// The destination square.
    pub open spec fn spec_to(self) -> Square {
        Square((self.0 & Self::TO_MASK) as u8)
    }

    /// The destination square.
    #[verifier::when_used_as_spec(spec_to)]
    pub fn to(self) -> (sq: Square)
        ensures
            sq == self.spec_to(),
    {
        let raw: u32 = self.0;
        assert(raw & 0x7f <= 0x7f) by (bit_vector);
        Square((raw & Self::TO_MASK) as u8)
    }

    /// The origin square (meaningful for a board move).
    pub open spec fn spec_from(self) -> Square {
        Square(((self.0 & Self::FROM_MASK) >> Self::FROM_SHIFT) as u8)
    }

    /// The origin square (meaningful for a board move).
    #[verifier::when_used_as_spec(spec_from)]
    pub fn from(self) -> (sq: Square)
        ensures
            sq == self.spec_from(),
    {
        let raw: u32 = self.0;
        assert((raw & 0x3f80) >> 7 <= 0x7f) by (bit_vector);
        Square(((raw & Self::FROM_MASK) >> Self::FROM_SHIFT) as u8)
    }

    /// Whether the move puts a piece from hand onto the board.
    pub open spec fn spec_is_drop(self) -> bool {
        self.0 & Self::DROP_FLAG != 0
    }

    /// Whether the move puts a piece from hand onto the board.
    #[verifier::when_used_as_spec(spec_is_drop)]
    pub fn is_drop(self) -> (b: bool)
        ensures
            b == self.spec_is_drop(),
    {
        self.0 & Self::DROP_FLAG != 0
    }

    /// Whether the encoding is a move on the board rather than a marker:
    /// its destination and origin fields differ.
    pub open spec fn spec_is_normal_move(self) -> bool {
        self.spec_to().0 != self.spec_from().0
    }

    /// Whether the encoding is a move on the board rather than a marker.
    #[verifier::when_used_as_spec(spec_is_normal_move)]
    pub fn is_normal_move(self) -> (b: bool)
        ensures
            b == self.spec_is_normal_move(),
    {
        self.to().0 != self.from().0
    }

    /// Whether the stored form left out the moved piece: the move is a board
    /// move and no drop.
    pub open spec fn spec_lacks_moved_piece(self) -> bool {
        self.spec_is_normal_move() && !self.spec_is_drop()
    }

    /// Whether the stored form left out the moved piece.
    #[verifier::when_used_as_spec(spec_lacks_moved_piece)]
    pub fn lacks_moved_piece(self) -> (b: bool)
        ensures
            b == self.spec_lacks_moved_piece(),
    {
        self.is_normal_move() && !self.is_drop()
    }

    /// The move as it is played on a board whose origin square holds
    /// `piece`: a board move gets the kind of `piece` merged in as its moved
    /// piece; a drop or a marker, which left nothing out, stays as it is.
    pub open spec fn spec_with_moved_piece(self, piece: Piece) -> Move {
        if self.spec_lacks_moved_piece() {
            Move(self.0 | ((piece.0 as u32) << Self::MOVED_PIECE_SHIFT))
        } else {
            self
        }
    }

    /// The move as it is played on a board whose origin square holds
    /// `piece`. This is the only way to put a moved piece into a move: it
    /// does so for a board move and for nothing else, and the stored sixteen
    /// bits stay as they are.
    #[verifier::when_used_as_spec(spec_with_moved_piece)]
    pub fn with_moved_piece(self, piece: Piece) -> (m: Move)
        ensures
            m == self.spec_with_moved_piece(piece),
            m.spec_stored() == self.spec_stored(),
    {
        if self.lacks_moved_piece() {
            let raw: u32 = self.0;
            let kind: u32 = piece.0 as u32;
            assert(kind < 0x100 ==> (raw | (kind << 16)) & 0xffff == raw & 0xffff) by (bit_vector);
            Move(raw | (kind << Self::MOVED_PIECE_SHIFT))
        } else {
            self
        }
    }
}

/// What the table asks of the position in which a stored move is to be
/// played. The table promises nothing about these answers and learns of them
/// only what an implementation states.
pub trait Position {
    /// The piece on a square.
    fn piece_on(&self, sq: Square) -> Piece;

    /// Whether the move could be played here, leaving checks aside.
    fn pseudo_legal(&self, m: Move) -> bool;
}

} // verus!
