//! The bucket of entries that share a table index, and the choice of the
//! entry that a probe hands out.

use vstd::prelude::*;
use crate::entry::{TTEntry, GENERATION_LOW_BITS};
use crate::moves::Move;
use crate::types::{Bound, Depth, Key, Value};

verus! {

/// Entries in a cluster.
pub const CLUSTER_SIZE: usize = 3;

/// Bytes that a cluster occupies: three entries of ten bytes and two of padding.
pub const CLUSTER_BYTES: usize = 32;

/// Three entries that are probed together, padded to 32 bytes.
#[derive(Clone, Copy, Debug)]
pub struct TTCluster {
    /// The entries, in the order in which a probe scans them.
    pub entry: [TTEntry; CLUSTER_SIZE],
    /// Padding; always written as zero.
    pub padding: [u8; 2],
}

impl TTCluster {
    /// Whether every entry is unused and the padding zero.
    pub open spec fn is_empty(&self) -> bool {
        &&& forall|slot: int| 0 <= slot < CLUSTER_SIZE ==> self.entry@[slot] == TTEntry::spec_empty()
        &&& self.padding@[0] == 0
        &&& self.padding@[1] == 0
    }

    /// A cluster of unused entries.
    pub fn empty() -> (c: TTCluster)
        ensures
            c.is_empty(),
    {
        TTCluster { entry: [TTEntry::empty(), TTEntry::empty(), TTEntry::empty()], padding: [0, 0] }
    }

    /// Makes every entry unused and the padding zero.
    pub fn reset(&mut self)
        ensures
            final(self).is_empty(),
    {
        *self = TTCluster::empty();
    }

    /// Whether a probe for `key16` may take the entry at `slot` without
    /// replacing anything: the entry is unused or holds `key16`.
    pub open spec fn qualifies(&self, slot: int, key16: u16) -> bool {
        self.entry@[slot].key16 == 0 || self.entry@[slot].key16 == key16
    }

    /// Whether `slot` is the first in scan order that qualifies for `key16`.
    pub open spec fn is_first_qualifying(&self, slot: int, key16: u16) -> bool {
        &&& 0 <= slot < CLUSTER_SIZE
        &&& self.qualifies(slot, key16)
        &&& forall|before: int| 0 <= before < slot ==> !self.qualifies(before, key16)
    }

    /// Whether the cluster is full of other positions: no slot qualifies for `key16`.
    pub open spec fn none_qualifies(&self, key16: u16) -> bool {
        forall|slot: int| 0 <= slot < CLUSTER_SIZE ==> !self.qualifies(slot, key16)
    }

    /// Whether `slot` holds the entry to replace: none is worth less, and
    /// those before it in scan order are worth more.
    pub open spec fn is_victim(&self, slot: int, generation: u8) -> bool {
        &&& 0 <= slot < CLUSTER_SIZE
        &&& forall|other: int|
            0 <= other < CLUSTER_SIZE ==> self.entry@[slot].spec_worth(generation)
                <= self.entry@[other].spec_worth(generation)
        &&& forall|before: int|
            0 <= before < slot ==> self.entry@[slot].spec_worth(generation)
                < self.entry@[before].spec_worth(generation)
    }

    /// Whether a probe for `key16` in generation `generation` hands out the
    /// entry at `slot`: the first that qualifies, or, where none does, the victim.
    pub open spec fn is_probe_slot(&self, slot: int, key16: u16, generation: u8) -> bool {
        ||| self.is_first_qualifying(slot, key16)
        ||| self.none_qualifies(key16) && self.is_victim(slot, generation)
    }

    /// The slot that a probe for `key16` in generation `generation` hands out.
    pub open spec fn probe_slot(&self, key16: u16, generation: u8) -> int {
        choose|slot: int| self.is_probe_slot(slot, key16, generation)
    }

    /// Whether a probe for `key16` finds its position: the entry handed out
    /// qualified and was in use.
    pub open spec fn probe_found(&self, key16: u16, generation: u8) -> bool {
        let slot = self.probe_slot(key16, generation);
        self.qualifies(slot, key16) && self.entry@[slot].key16 != 0
    }

    /// The entry as a probe for `key16` hands it out: one that qualified has
    /// its generation refreshed, a victim is as it was.
    pub open spec fn probe_entry(&self, key16: u16, generation: u8) -> TTEntry {
        let slot = self.probe_slot(key16, generation);
        if self.qualifies(slot, key16) {
            self.entry@[slot].spec_refreshed(generation)
        } else {
            self.entry@[slot]
        }
    }

    /// Whether `after` is this cluster with `entry` at `slot` and all else the same.
    pub open spec fn with_slot(&self, slot: int, entry: TTEntry, after: TTCluster) -> bool {
        &&& after.entry@ == self.entry@.update(slot, entry)
        &&& after.padding == self.padding
    }

    /// Exactly one slot is the probe slot.
    pub proof fn lemma_probe_slot_unique(&self, slot: int, key16: u16, generation: u8)
        requires
            self.is_probe_slot(slot, key16, generation),
        ensures
            self.probe_slot(key16, generation) == slot,
    {
        let chosen = self.probe_slot(key16, generation);
        assert(self.is_probe_slot(chosen, key16, generation));
    }

    /// A probe of a cleared cluster finds nothing and hands out the first
    /// entry, unused but for the generation it was refreshed with.
    pub proof fn lemma_probe_empty(&self, key16: u16, generation: u8)
        requires
            self.is_empty(),
        ensures
            self.probe_slot(key16, generation) == 0,
            !self.probe_found(key16, generation),
            self.probe_entry(key16, generation) == (TTEntry {
                genbound8: generation,
                ..TTEntry::spec_empty()
            }),
    {
        self.lemma_probe_slot_unique(0, key16, generation);
        assert(generation | (0u8 & 7) == generation) by (bit_vector);
    }

    /// A result saved into the entry that a probe handed out is found by the
    /// next probe for the same key, and read back as it was saved.
    ///
    /// `self` is the cluster before the first probe, in generation
    /// `generation`; `after` is the cluster once the entry handed out has been
    /// saved into; the next probe comes in generation `later`. This asks that
    /// the key's high 16 bits are not 0, which marks an unused entry; that the
    /// save replaced the record, as it does unless the first probe found the
    /// position with a result more than the undercut deeper and the new score
    /// is a bound; and that scores, depth and generations are within what an
    /// entry stores.
    pub proof fn lemma_save_then_probe(
        &self,
        after: TTCluster,
        key: Key,
        value: Value,
        pv: bool,
        bound: Bound,
        depth: Depth,
        mv: Option<Move>,
        eval: Value,
        generation: u8,
        later: u8,
    )
        requires
            key.spec_high16() != 0,
            self.probe_found(key.spec_high16(), generation) ==> self.probe_entry(
                key.spec_high16(),
                generation,
            ).overwritten_by(key, bound, depth),
            value.storable(),
            eval.storable(),
            depth.storable(),
            generation & GENERATION_LOW_BITS == 0,
            later & GENERATION_LOW_BITS == 0,
            self.with_slot(
                self.probe_slot(key.spec_high16(), generation),
                self.probe_entry(key.spec_high16(), generation).after_save(
                    key,
                    value,
                    pv,
                    bound,
                    depth,
                    mv,
                    eval,
                    generation,
                ),
                after,
            ),
        ensures
            after.probe_slot(key.spec_high16(), later) == self.probe_slot(
                key.spec_high16(),
                generation,
            ),
            after.probe_found(key.spec_high16(), later),
            ({
                let read = after.probe_entry(key.spec_high16(), later);
                &&& read.spec_value() == value
                &&& read.spec_eval() == eval
                &&& read.spec_depth() == depth
                &&& read.spec_bound() == bound
                &&& read.spec_is_pv() == pv
                &&& read.spec_generation() == later
                &&& read.mv16 == self.probe_entry(key.spec_high16(), generation).move_after_save(key, mv)
            }),
    {
        let key16 = key.spec_high16();
        let slot = self.probe_slot(key16, generation);
        let handed = self.probe_entry(key16, generation);
        self.lemma_probe_slot_exists(key16, generation);
        assert(self.is_probe_slot(slot, key16, generation));
        self.entry@[slot].lemma_refresh_keeps_result(generation);
        assert(handed.overwritten_by(key, bound, depth));
        handed.lemma_save_round_trip(key, value, pv, bound, depth, mv, eval, generation);
        let saved = handed.after_save(key, value, pv, bound, depth, mv, eval, generation);
        assert(after.entry@[slot] == saved);
        assert forall|before: int| 0 <= before < slot implies !after.qualifies(before, key16) by {
            assert(after.entry@[before] == self.entry@[before]);
            assert(!self.qualifies(before, key16));
        }
        assert(after.is_first_qualifying(slot, key16));
        after.lemma_probe_slot_unique(slot, key16, later);
        saved.lemma_refresh_keeps_result(later);
    }

    /// Some slot is the probe slot: every probe hands out an entry.
    pub proof fn lemma_probe_slot_exists(&self, key16: u16, generation: u8)
        ensures
            self.is_probe_slot(self.probe_slot(key16, generation), key16, generation),
            0 <= self.probe_slot(key16, generation) < CLUSTER_SIZE,
    {
        let w0 = self.entry@[0].spec_worth(generation);
        let w1 = self.entry@[1].spec_worth(generation);
        let w2 = self.entry@[2].spec_worth(generation);
        if self.qualifies(0, key16) {
            assert(self.is_probe_slot(0, key16, generation));
        } else if self.qualifies(1, key16) {
            assert(self.is_probe_slot(1, key16, generation));
        } else if self.qualifies(2, key16) {
            assert(self.is_probe_slot(2, key16, generation));
        } else if w0 <= w1 && w0 <= w2 {
            assert(self.is_probe_slot(0, key16, generation));
        } else if w1 <= w2 {
            assert(self.is_probe_slot(1, key16, generation));
        } else {
            assert(self.is_probe_slot(2, key16, generation));
        }
    }

    /// Finds the slot that a probe hands out: scans for the first entry that
    /// is unused or holds `key16`; where there is none, takes the entry worth
    /// least, the first of them if several are.
    pub fn select(&self, key16: u16, generation: u8) -> (slot: usize)
        ensures
            slot < CLUSTER_SIZE,
            slot == self.probe_slot(key16, generation),
            self.is_probe_slot(slot as int, key16, generation),
    {
        let mut i: usize = 0;
        while i < CLUSTER_SIZE
            invariant
                i <= CLUSTER_SIZE,
                forall|before: int| 0 <= before < i ==> !self.qualifies(before, key16),
            decreases CLUSTER_SIZE - i,
        {
            if self.entry[i].key16 == 0 || self.entry[i].key16 == key16 {
                proof {
                    self.lemma_probe_slot_unique(i as int, key16, generation);
                }
                return i;
            }
            i += 1;
        }
        let mut replace: usize = 0;
        let mut least: i32 = self.entry[0].worth(generation);
        let mut j: usize = 1;
        while j < CLUSTER_SIZE
            invariant
                1 <= j <= CLUSTER_SIZE,
                replace < j,
                least == self.entry@[replace as int].spec_worth(generation),
                forall|other: int|
                    0 <= other < j ==> least <= self.entry@[other].spec_worth(generation),
                forall|before: int|
                    0 <= before < replace ==> least < self.entry@[before].spec_worth(generation),
            decreases CLUSTER_SIZE - j,
        {
            let w = self.entry[j].worth(generation);
            if w < least {
                least = w;
                replace = j;
            }
            j += 1;
        }
        proof {
            self.lemma_probe_slot_unique(replace as int, key16, generation);
        }
        replace
    }
}

} // verus!
