//! The packed record of one cached search result, and its codec.

use vstd::prelude::*;
use crate::moves::{Move, Piece, Position};
use crate::types::{Bound, Depth, Key, Value};

verus! {

/// One cached search result in ten bytes. Every bit pattern is a valid
/// entry; the all-zero pattern is the unused entry.
#[derive(Clone, Copy, Debug, PartialEq, Eq, Structural)]
pub struct TTEntry {
    /// High 16 bits of the key of the position; 0 marks an unused entry.
    pub key16: u16,
    /// The best move in stored form; 0 when none is known.
    pub mv16: u16,
    /// The search score, low 16 bits.
    pub value16: i16,
    /// The static evaluation, low 16 bits.
    pub eval16: i16,
    /// Bits 0-1: bound; bit 2: principal-variation flag; bits 3-7: generation.
    pub genbound8: u8,
    /// Depth above `Depth::OFFSET`, in ply units.
    pub depth8: u8,
}

/// How far below the resident depth a result may lie and still replace it:
/// a result at most this many plies shallower does, one shallower by more
/// does not.
pub const DEPTH_UNDERCUT: i32 = 4;

/// Mask of the generation bits in the packed field.
pub const GENERATION_MASK: u8 = 0xf8;

/// Mask of the bits below the generation: bound and flag.
pub const GENERATION_LOW_BITS: u8 = 0x7;

/// Bit of the principal-variation flag in the packed field.
pub const PV_BIT: u8 = 0x4;

/// The packed field for a generation, a principal-variation flag and a bound.
pub open spec fn pack_genbound(generation: u8, pv: bool, bound: Bound) -> u8 {
    generation | (if pv { PV_BIT } else { 0u8 }) | bound.spec_bits()
}

/// A packed field made of a generation without low bits, a flag and a bound
/// gives all three back.
pub proof fn lemma_genbound_round_trip(generation: u8, pv: bool, bound: Bound)
    requires
        generation & GENERATION_LOW_BITS == 0,
    ensures
        pack_genbound(generation, pv, bound) & GENERATION_MASK == generation,
        (pack_genbound(generation, pv, bound) & PV_BIT != 0) == pv,
        Bound::spec_from_bits(pack_genbound(generation, pv, bound)) == bound,
{
    let flag: u8 = if pv { PV_BIT } else { 0u8 };
    let code: u8 = bound.spec_bits();
    bound.lemma_bits_round_trip();
    assert(generation & 7 == 0 && (flag == 4 || flag == 0) && code <= 3 ==> {
        &&& (generation | flag | code) & 0xf8 == generation
        &&& ((generation | flag | code) & 4 != 0) == (flag == 4)
        &&& (generation | flag | code) & 3 == code & 3
    }) by (bit_vector);
}

impl TTEntry {
    /// The unused entry: every field zero.
    pub open spec fn spec_empty() -> TTEntry {
        TTEntry { key16: 0, mv16: 0, value16: 0, eval16: 0, genbound8: 0, depth8: 0 }
    }

    /// The unused entry: every field zero.
    #[verifier::when_used_as_spec(spec_empty)]
    pub fn empty() -> (e: TTEntry)
        ensures
            e == Self::spec_empty(),
    {
        TTEntry { key16: 0, mv16: 0, value16: 0, eval16: 0, genbound8: 0, depth8: 0 }
    }

    /// The stored score, sign-extended.
    pub open spec fn spec_value(&self) -> Value {
        Value(self.value16 as i32)
    }

    /// The stored score, sign-extended.
    #[verifier::when_used_as_spec(spec_value)]
    pub fn value(&self) -> (v: Value)
        ensures
            v == self.spec_value(),
    {
        Value(self.value16 as i32)
    }

    /// The stored static evaluation, sign-extended.
    pub open spec fn spec_eval(&self) -> Value {
        Value(self.eval16 as i32)
    }

    /// The stored static evaluation, sign-extended.
    #[verifier::when_used_as_spec(spec_eval)]
    pub fn eval(&self) -> (v: Value)
        ensures
            v == self.spec_eval(),
    {
        Value(self.eval16 as i32)
    }

    /// The stored depth: the byte times the ply unit, plus the offset.
    pub open spec fn spec_depth(&self) -> Depth {
        Depth::from_code(self.depth8)
    }

    /// The stored depth: the byte times the ply unit, plus the offset.
    #[verifier::when_used_as_spec(spec_depth)]
    pub fn depth(&self) -> (d: Depth)
        ensures
            d == self.spec_depth(),
            d.0 == self.depth8 * Depth::ONE_PLY + Depth::OFFSET,
    {
        Depth(self.depth8 as i32 * Depth::ONE_PLY + Depth::OFFSET)
    }

    /// Whether the entry lies on the principal variation: bit 2 of the packed field.
    pub open spec fn spec_is_pv(&self) -> bool {
        self.genbound8 & PV_BIT != 0
    }

    /// Whether the entry lies on the principal variation.
    #[verifier::when_used_as_spec(spec_is_pv)]
    pub fn is_pv(&self) -> (b: bool)
        ensures
            b == self.spec_is_pv(),
    {
        (self.genbound8 & PV_BIT) != 0
    }

    /// The bound of the stored score: bits 0-1 of the packed field.
    pub open spec fn spec_bound(&self) -> Bound {
        Bound::spec_from_bits(self.genbound8)
    }

    /// The bound of the stored score.
    #[verifier::when_used_as_spec(spec_bound)]
    pub fn bound(&self) -> (b: Bound)
        ensures
            b == self.spec_bound(),
    {
        Bound::from_bits(self.genbound8)
    }

    /// The generation in which the entry was last written or probed: bits
    /// 3-7 of the packed field, left in place.
    pub open spec fn spec_generation(&self) -> u8 {
        self.genbound8 & GENERATION_MASK
    }

    /// The generation in which the entry was last written or probed.
    #[verifier::when_used_as_spec(spec_generation)]
    pub fn generation(&self) -> (g: u8)
        ensures
            g == self.spec_generation(),
    {
        self.genbound8 & GENERATION_MASK
    }

    /// The move field after a save: a supplied move is always stored; with
    /// none supplied the field is cleared when another position claims the
    /// entry and kept when the same position comes back.
    pub open spec fn move_after_save(&self, key: Key, mv: Option<Move>) -> u16 {
        match mv {
            Some(m) => m.spec_stored(),
            None => if key.spec_high16() != self.key16 {
                0
            } else {
                self.mv16
            },
        }
    }

    /// Whether a save replaces the record: the entry belongs to another
    /// position, or the new depth is not more than the undercut below the
    /// resident one (at exactly the undercut below it still replaces), or
    /// the new score is exact.
    pub open spec fn overwritten_by(&self, key: Key, bound: Bound, depth: Depth) -> bool {
        ||| key.spec_high16() != self.key16
        ||| depth.code() >= self.depth8 - DEPTH_UNDERCUT
        ||| bound == Bound::Exact
    }

    /// The entry after a save.
    pub open spec fn after_save(
        &self,
        key: Key,
        value: Value,
        pv: bool,
        bound: Bound,
        depth: Depth,
        mv: Option<Move>,
        eval: Value,
        generation: u8,
    ) -> TTEntry {
        if self.overwritten_by(key, bound, depth) {
            TTEntry {
                key16: key.spec_high16(),
                mv16: self.move_after_save(key, mv),
                value16: value.0 as i16,
                eval16: eval.0 as i16,
                genbound8: pack_genbound(generation, pv, bound),
                depth8: depth.code() as u8,
            }
        } else {
            TTEntry { mv16: self.move_after_save(key, mv), ..*self }
        }
    }

    /// Stores a search result in the entry.
    ///
    /// The move field follows `move_after_save`, whatever becomes of the rest.
    /// The other fields are replaced together, and only when
    /// `overwritten_by` holds; else the resident result stays. Scores keep
    /// their low 16 bits and the depth code its low 8.
    pub fn save(
        &mut self,
        key: Key,
        value: Value,
        pv: bool,
        bound: Bound,
        depth: Depth,
        mv: Option<Move>,
        eval: Value,
        generation: u8,
    )
        requires
            depth.aligned(),
        ensures
            *final(self) == old(self).after_save(key, value, pv, bound, depth, mv, eval, generation),
            mv is None && key.spec_high16() == old(self).key16 ==> final(self).mv16 == old(self).mv16,
            mv is None && key.spec_high16() != old(self).key16 ==> final(self).mv16 == 0,
            mv is Some ==> final(self).mv16 == mv->0.spec_stored(),
            key.spec_high16() == old(self).key16 && bound != Bound::Exact && depth.code() < old(
                self,
            ).depth8 - DEPTH_UNDERCUT ==> !old(self).overwritten_by(key, bound, depth),
            !old(self).overwritten_by(key, bound, depth) ==> {
                &&& final(self).key16 == old(self).key16
                &&& final(self).value16 == old(self).value16
                &&& final(self).eval16 == old(self).eval16
                &&& final(self).genbound8 == old(self).genbound8
                &&& final(self).depth8 == old(self).depth8
            },
    {
        let key16 = key.high16();
        match mv {
            Some(m) => {
                self.mv16 = m.stored();
            },
            None => {
                if key16 != self.key16 {
                    self.mv16 = 0;
                }
            },
        }
        let code: i32 = (depth.0 - Depth::OFFSET) / Depth::ONE_PLY;
        if key16 != self.key16 || code >= self.depth8 as i32 - DEPTH_UNDERCUT || bound == Bound::Exact {
            self.key16 = key16;
            self.value16 = #[verifier::truncate] (value.0 as i16);
            self.eval16 = #[verifier::truncate] (eval.0 as i16);
            self.genbound8 = generation | (if pv { PV_BIT } else { 0u8 }) | bound.bits();
            self.depth8 = #[verifier::truncate] (code as u8);
        }
    }

    /// The entry with its generation set to `generation`, bound and
    /// principal-variation flag kept.
    pub open spec fn spec_refreshed(&self, generation: u8) -> TTEntry {
        TTEntry { genbound8: generation | (self.genbound8 & GENERATION_LOW_BITS), ..*self }
    }

    /// Sets the generation to `generation` and keeps bound and
    /// principal-variation flag, so that an entry in use looks young.
    pub fn refresh(&mut self, generation: u8)
        ensures
            *final(self) == old(self).spec_refreshed(generation),
    {
        self.genbound8 = generation | (self.genbound8 & GENERATION_LOW_BITS);
    }

    /// How much the entry counts for less, in plies, for its age: the
    /// distance from its generation to the current one, taken around the
    /// cycle of generations. The 263 is the cycle's length, 256, plus 7, which
    /// keeps the entry's bound and flag bits from borrowing out of the
    /// generation bits.
    pub open spec fn spec_age_penalty(&self, generation: u8) -> i32 {
        ((263 + generation - self.genbound8) as i32) & 0xf8
    }

    /// What the entry is worth when one has to go: its depth code less its
    /// age penalty. The entry worth least is replaced.
    pub open spec fn spec_worth(&self, generation: u8) -> int {
        self.depth8 - self.spec_age_penalty(generation)
    }

    /// What the entry is worth when one has to go.
    pub fn worth(&self, generation: u8) -> (w: i32)
        ensures
            w == self.spec_worth(generation),
            -248 <= w <= 255,
    {
        let distance: i32 = 263 + generation as i32 - self.genbound8 as i32;
        assert(0 <= distance & 0xf8 <= 248) by (bit_vector);
        self.depth8 as i32 - (distance & 0xf8)
    }

    /// What was saved can be read back: where the save replaces the record,
    /// scores and a depth within their stored ranges, the flag, the bound and
    /// a generation without low bits come out of the entry as they went in.
    pub proof fn lemma_save_round_trip(
        &self,
        key: Key,
        value: Value,
        pv: bool,
        bound: Bound,
        depth: Depth,
        mv: Option<Move>,
        eval: Value,
        generation: u8,
    )
        requires
            self.overwritten_by(key, bound, depth),
            value.storable(),
            eval.storable(),
            depth.storable(),
            generation & GENERATION_LOW_BITS == 0,
        ensures
            ({
                let saved = self.after_save(key, value, pv, bound, depth, mv, eval, generation);
                &&& saved.key16 == key.spec_high16()
                &&& saved.spec_value() == value
                &&& saved.spec_eval() == eval
                &&& saved.spec_depth() == depth
                &&& saved.spec_bound() == bound
                &&& saved.spec_is_pv() == pv
                &&& saved.spec_generation() == generation
            }),
    {
        depth.lemma_code_round_trip();
        lemma_genbound_round_trip(generation, pv, bound);
    }

    /// Refreshing with a generation without low bits sets the generation and
    /// changes nothing that was saved.
    pub proof fn lemma_refresh_keeps_result(&self, generation: u8)
        requires
            generation & GENERATION_LOW_BITS == 0,
        ensures
            ({
                let fresh = self.spec_refreshed(generation);
                &&& fresh.key16 == self.key16
                &&& fresh.mv16 == self.mv16
                &&& fresh.spec_value() == self.spec_value()
                &&& fresh.spec_eval() == self.spec_eval()
                &&& fresh.spec_depth() == self.spec_depth()
                &&& fresh.spec_bound() == self.spec_bound()
                &&& fresh.spec_is_pv() == self.spec_is_pv()
                &&& fresh.spec_generation() == generation
            }),
    {
        let packed: u8 = self.genbound8;
        assert(generation & 7 == 0 ==> {
            &&& (generation | (packed & 7)) & 3 == packed & 3
            &&& ((generation | (packed & 7)) & 4 != 0) == (packed & 4 != 0)
            &&& (generation | (packed & 7)) & 0xf8 == generation
        }) by (bit_vector);
    }

    /// The stored move as it stands in the entry, moved piece not filled in.
    pub open spec fn stored_move(&self) -> Move {
        Move::spec_from_stored(self.mv16)
    }

    /// What `mv` returns once the position has answered: the stored move
    /// rebuilt with the piece on its origin square, if the position accepts
    /// it, and no move otherwise.
    pub open spec fn spec_decode_move(&self, piece: Piece, legal: bool) -> Option<Move> {
        if legal {
            Some(self.stored_move().spec_with_moved_piece(piece))
        } else {
            None
        }
    }

    /// The move to try in `pos`, if the stored one can be played there.
    ///
    /// An entry that stores no move, its move field being 0, gives none, and
    /// `pos` is not asked. Else a stored board move gets its moved piece from
    /// the origin square of `pos`; a drop or a marker is taken as stored. The
    /// move is returned only if `pos` finds it pseudo-legal: the entry may
    /// stem from another position with the same key, where the move made
    /// sense and here does not. So the result is `spec_decode_move` of some
    /// answers that `pos` can give: of the piece on the origin square, asked
    /// only for a board move, and of the legality of the rebuilt move.
    pub fn mv<P: Position>(&self, pos: &P) -> (r: Option<Move>)
        ensures
            self.mv16 == 0 ==> r is None,
            r matches Some(m) ==> m.spec_stored() == self.mv16,
            self.mv16 != 0 ==> exists|piece: Piece, legal: bool|
                {
                    &&& self.stored_move().spec_lacks_moved_piece() ==> call_ensures(
                        P::piece_on,
                        (pos, self.stored_move().spec_from()),
                        piece,
                    )
                    &&& call_ensures(
                        P::pseudo_legal,
                        (pos, self.stored_move().spec_with_moved_piece(piece)),
                        legal,
                    )
                    &&& r == #[trigger] self.spec_decode_move(piece, legal)
                },
    {
        if self.mv16 == 0 {
            return None;
        }
        let stored = Move::from_stored(self.mv16);
        let mut piece = Piece(0);
        let m = if stored.lacks_moved_piece() {
            piece = pos.piece_on(stored.from());
            stored.with_moved_piece(piece)
        } else {
            stored
        };
        let legal = pos.pseudo_legal(m);
        let r = if legal {
            Some(m)
        } else {
            None
        };
        assert(r == self.spec_decode_move(piece, legal));
        proof {
            let low: u16 = self.mv16;
            assert((low as u32) & 0xffff == low as u32) by (bit_vector);
        }
        r
    }
}

} // verus!
