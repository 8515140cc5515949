//! The table: a power-of-two array of clusters and the generation counter.

use vstd::prelude::*;
use vstd::arithmetic::power::pow;
use vstd::arithmetic::power2::{
    is_pow2, is_pow2_equiv, lemma2_to64, lemma_pow2, lemma_pow2_strictly_increases,
    lemma_pow2_unfold, pow2,
};
use vstd::bits::{lemma_usize_low_bits_mask_is_mod, low_bits_mask};
use rayon::iter::{IntoParallelRefMutIterator, ParallelIterator};
use crate::cluster::{TTCluster, CLUSTER_BYTES};
use crate::entry::{TTEntry, GENERATION_LOW_BITS};
use crate::moves::Move;
use crate::types::{Bound, Depth, Key, Value};

verus! {

/// Bytes in a megabyte.
pub const MEGABYTE: usize = 0x10_0000;

/// Clusters in a megabyte.
pub const CLUSTERS_PER_MEGABYTE: usize = 0x8000;

/// By how much the generation advances with each search: one unit of the
/// generation bits in an entry's packed field.
pub const GENERATION_STEP: u8 = 8;

/// The workers that search with the table. The table asks of them only to
/// have come to rest before its storage is replaced.
pub trait ThreadPool {
    /// Returns once no worker is searching.
    fn wait_for_search_finished(&mut self);
}

/// The largest power of two that is at most `n`; 0 for 0.
pub open spec fn floor_power_of_two(n: nat) -> nat
    decreases n,
{
    if n == 0 {
        0
    } else if n == 1 {
        1
    } else {
        2 * floor_power_of_two(n / 2)
    }
}

/// The generation that follows `generation`: one step on, around the cycle of 256.
pub open spec fn next_generation(generation: u8) -> u8 {
    ((generation + GENERATION_STEP) % 256) as u8
}

/// The generation after `searches` further searches.
pub open spec fn generation_after(generation: u8, searches: nat) -> u8
    decreases searches,
{
    if searches == 0 {
        generation
    } else {
        next_generation(generation_after(generation, (searches - 1) as nat))
    }
}

/// The cluster that a key addresses in a table of `count` clusters: the
/// key's low bits under the mask `count - 1`.
pub open spec fn cluster_index_of(key: Key, count: usize) -> usize {
    (key.0 as usize) & ((count - 1) as usize)
}

/// Every key addresses a cluster of a table that has any.
pub proof fn lemma_cluster_index_in_range(key: Key, count: usize)
    requires
        count > 0,
    ensures
        cluster_index_of(key, count) < count,
{
    let low: usize = key.0 as usize;
    let mask: usize = (count - 1) as usize;
    assert(low & mask <= mask) by (bit_vector);
}

/// In a table whose number of clusters is a power of two, the mask takes
/// the remainder: a key addresses the cluster whose index is the remainder
/// of the key's low bits by the number of clusters, so that every cluster is
/// the address of as many keys as any other.
pub proof fn lemma_cluster_index_is_remainder(key: Key, count: usize)
    requires
        is_pow2(count as int),
    ensures
        cluster_index_of(key, count) == (key.0 as usize) % count,
{
    is_pow2_equiv(count as int);
    let exponent = choose|exponent: nat| pow(2, exponent) == count as int;
    lemma_pow2(exponent);
    assert(pow2(exponent) == count);
    lemma2_to64();
    if exponent >= usize::BITS {
        if exponent > usize::BITS {
            lemma_pow2_strictly_increases(usize::BITS as nat, exponent);
        }
        assert(pow2(usize::BITS as nat) > usize::MAX);
    }
    assert(exponent < usize::BITS);
    assert(count > 0) by {
        reveal(is_pow2);
    }
    assert(low_bits_mask(exponent) == count - 1);
    let low: usize = key.0 as usize;
    assert(low & (low_bits_mask(exponent) as usize) == low % (pow2(exponent) as usize)) by {
        lemma_usize_low_bits_mask_is_mod(low, exponent);
    }
}

/// A transposition table: clusters addressed by the low bits of a key, and
/// the generation of the current search.
pub struct TranspositionTable {
    table: Vec<TTCluster>,
    generation8: u8,
}

impl View for TranspositionTable {
    type V = Seq<TTCluster>;

    /// The clusters, by index.
    closed spec fn view(&self) -> Seq<TTCluster> {
        self.table@
    }
}

impl TranspositionTable {
    /// The generation of the current search.
    pub closed spec fn spec_generation(&self) -> u8 {
        self.generation8
    }

    /// What holds of every table: the number of clusters is zero or a power
    /// of two, and fits a machine word; the generation is a multiple of the
    /// step, so that it leaves an entry's bound and flag bits alone.
    pub open spec fn wf(&self) -> bool {
        &&& self@.len() == 0 || is_pow2(self@.len() as int)
        &&& self@.len() <= usize::MAX
        &&& self.spec_generation() & GENERATION_LOW_BITS == 0
    }

    /// A table without storage, in generation 0. It has to be resized before
    /// it can be probed.
    pub fn new() -> (tt: TranspositionTable)
        ensures
            tt.wf(),
            tt@.len() == 0,
            tt.spec_generation() == 0,
    {
        assert(0u8 & 7 == 0) by (bit_vector);
        TranspositionTable { table: Vec::new(), generation8: 0 }
    }

    /// The number of clusters.
    pub fn cluster_count(&self) -> (count: usize)
        ensures
            count == self@.len(),
    {
        self.table.len()
    }

    /// The generation of the current search.
    #[verifier::when_used_as_spec(spec_generation)]
    pub fn generation(&self) -> (generation: u8)
        ensures
            generation == self.spec_generation(),
    {
        self.generation8
    }

    /// Replaces the storage by `floor_power_of_two(mega_byte_size)` megabytes
    /// of unused clusters, once `thread_pool` has come to rest. The old
    /// storage is given up before the new is taken. The generation stays.
    ///
    /// The pool is waited for once, and not touched otherwise: it is left
    /// as one call of `wait_for_search_finished` leaves the pool that came in.
    pub fn resize<T: ThreadPool>(&mut self, mega_byte_size: usize, thread_pool: &mut T)
        requires
            old(self).wf(),
            mega_byte_size * MEGABYTE <= isize::MAX,
        ensures
            final(self).wf(),
            final(self)@.len() == floor_power_of_two(mega_byte_size as nat) * CLUSTERS_PER_MEGABYTE,
            final(self)@.len() * CLUSTER_BYTES == floor_power_of_two(mega_byte_size as nat) * MEGABYTE,
            forall|index: int| 0 <= index < final(self)@.len() ==> (#[trigger] final(self)@[index]).is_empty(),
            final(self).spec_generation() == old(self).spec_generation(),
            exists|waited: &mut T|
                *waited == *old(thread_pool) && *final(waited) == *final(thread_pool)
                    && #[trigger] call_ensures(T::wait_for_search_finished, (waited,), ()),
    {
        thread_pool.wait_for_search_finished();
        let mega_bytes = largest_power_of_two_within(mega_byte_size);
        let cluster_count = mega_bytes * MEGABYTE / CLUSTER_BYTES;
        proof {
            lemma_cluster_count_is_pow2(mega_bytes as nat);
        }
        self.table = Vec::new();
        let mut table: Vec<TTCluster> = Vec::with_capacity(cluster_count);
        while table.len() < cluster_count
            invariant
                table@.len() <= cluster_count,
            decreases cluster_count - table@.len(),
        {
            table.push(TTCluster::empty());
        }
        self.table = table;
        self.clear();
    }

    /// Makes every entry of every cluster unused, and the padding zero. The
    /// clusters are shared out among rayon's workers; the generation stays.
    pub fn clear(&mut self)
        requires
            old(self).wf(),
        ensures
            final(self).wf(),
            final(self)@.len() == old(self)@.len(),
            forall|index: int| 0 <= index < final(self)@.len() ==> (#[trigger] final(self)@[index]).is_empty(),
            final(self).spec_generation() == old(self).spec_generation(),
    {
        par_reset(&mut self.table);
    }

    /// Begins a new search: the generation moves one step on, and wraps
    /// around after 32 steps. Entries of earlier searches count as older from
    /// now on. The clusters stay.
    pub fn new_search(&mut self)
        requires
            old(self).wf(),
        ensures
            final(self).wf(),
            final(self).spec_generation() == next_generation(old(self).spec_generation()),
            final(self)@ == old(self)@,
    {
        let before: u8 = self.generation8;
        assert(before & 7 == 0 ==> (((before + 8) % 256) as u8) & 7 == 0) by (bit_vector);
        self.generation8 = self.generation8.wrapping_add(GENERATION_STEP);
    }

    fn cluster_index(&self, key: Key) -> (index: usize)
        requires
            self@.len() > 0,
        ensures
            index == cluster_index_of(key, self@.len() as usize),
            index < self@.len(),
    {
        proof {
            lemma_cluster_index_in_range(key, self.table.len());
        }
        let mask: usize = self.table.len() - 1;
        let low: usize = #[verifier::truncate] (key.0 as usize);
        low & mask
    }

    fn get_mut_cluster(&mut self, index: usize) -> (cluster: &mut TTCluster)
        requires
            index < old(self)@.len(),
        ensures
            *cluster == old(self)@[index as int],
            final(self)@ == old(self)@.update(index as int, *final(cluster)),
            final(self).spec_generation() == old(self).spec_generation(),
    {
        &mut self.table[index]
    }

    /// The cluster that `key` addresses.
    pub open spec fn cluster_of(&self, key: Key) -> TTCluster {
        self@[cluster_index_of(key, self@.len() as usize) as int]
    }

    /// A probe of a table that was resized or cleared, and not written
    /// since, finds nothing, whatever the key: it hands out the first entry
    /// of the key's cluster, unused but for the table's generation.
    pub proof fn lemma_probe_untouched(&self, key: Key)
        requires
            self.wf(),
            self@.len() > 0,
            forall|index: int| 0 <= index < self@.len() ==> (#[trigger] self@[index]).is_empty(),
        ensures
            !self.cluster_of(key).probe_found(key.spec_high16(), self.spec_generation()),
            self.cluster_of(key).probe_slot(key.spec_high16(), self.spec_generation()) == 0,
            self.cluster_of(key).probe_entry(key.spec_high16(), self.spec_generation()) == (TTEntry {
                genbound8: self.spec_generation(),
                ..TTEntry::spec_empty()
            }),
            self.cluster_of(key).probe_entry(key.spec_high16(), self.spec_generation()).spec_value()
                == Value(0),
            self.cluster_of(key).probe_entry(key.spec_high16(), self.spec_generation()).spec_bound()
                == Bound::Unset,
            !self.cluster_of(key).probe_entry(key.spec_high16(), self.spec_generation()).spec_is_pv(),
    {
        lemma_cluster_index_in_range(key, self@.len() as usize);
        self.cluster_of(key).lemma_probe_empty(key.spec_high16(), self.spec_generation());
        let generation = self.spec_generation();
        assert(generation & 7 == 0 ==> generation & 3 == 0 && generation & 4 == 0) by (bit_vector);
    }

    /// Probe, save, probe: a result saved into the entry that a probe handed
    /// out, under the table's generation, is found by the next probe for the
    /// same key and read back as it was saved.
    ///
    /// `self` is the table before the first probe and `after` the table once
    /// the entry handed out has been saved into; `searches` searches may have
    /// begun in between. This asks that the key's high 16 bits are not 0,
    /// which marks an unused entry; that scores and depth are within what an
    /// entry stores; and, where the first probe found the position, that the
    /// save replaces the record.
    pub proof fn lemma_save_then_probe(
        &self,
        after: TranspositionTable,
        key: Key,
        value: Value,
        pv: bool,
        bound: Bound,
        depth: Depth,
        mv: Option<Move>,
        eval: Value,
        searches: nat,
    )
        requires
            self.wf(),
            self@.len() > 0,
            key.spec_high16() != 0,
            value.storable(),
            eval.storable(),
            depth.storable(),
            self.cluster_of(key).probe_found(key.spec_high16(), self.spec_generation())
                ==> self.cluster_of(key).probe_entry(
                key.spec_high16(),
                self.spec_generation(),
            ).overwritten_by(key, bound, depth),
            after@.len() == self@.len(),
            self.cluster_of(key).with_slot(
                self.cluster_of(key).probe_slot(key.spec_high16(), self.spec_generation()),
                self.cluster_of(key).probe_entry(
                    key.spec_high16(),
                    self.spec_generation(),
                ).after_save(key, value, pv, bound, depth, mv, eval, self.spec_generation()),
                after.cluster_of(key),
            ),
            after.spec_generation() == generation_after(self.spec_generation(), searches),
        ensures
            after.cluster_of(key).probe_found(key.spec_high16(), after.spec_generation()),
            ({
                let read = after.cluster_of(key).probe_entry(
                    key.spec_high16(),
                    after.spec_generation(),
                );
                &&& read.spec_value() == value
                &&& read.spec_eval() == eval
                &&& read.spec_depth() == depth
                &&& read.spec_bound() == bound
                &&& read.spec_is_pv() == pv
                &&& read.spec_generation() == after.spec_generation()
            }),
    {
        lemma_generation_stays_aligned(self.spec_generation(), searches);
        self.cluster_of(key).lemma_save_then_probe(
            after.cluster_of(key),
            key,
            value,
            pv,
            bound,
            depth,
            mv,
            eval,
            self.spec_generation(),
            after.spec_generation(),
        );
    }

    /// Looks `key` up and hands out the entry to read and to save into.
    ///
    /// The key's low bits address a cluster, its high 16 bits identify the
    /// entry. The entry handed out is the first in the cluster that is unused
    /// or holds the key's high bits, with its generation refreshed; `found`
    /// says whether it was in use. Where the cluster is full of other
    /// positions, the entry worth least is handed out as it is, to be
    /// replaced, and `found` is false. The table afterwards is the table
    /// before with the entry, as the caller leaves it, in that place.
    pub fn probe(&mut self, key: Key) -> (r: (&mut TTEntry, bool))
        requires
            old(self).wf(),
            old(self)@.len() > 0,
        ensures
            r.1 == old(self).cluster_of(key).probe_found(key.spec_high16(), old(self).spec_generation()),
            *r.0 == old(self).cluster_of(key).probe_entry(key.spec_high16(), old(self).spec_generation()),
            final(self)@ == old(self)@.update(
                cluster_index_of(key, old(self)@.len() as usize) as int,
                final(self).cluster_of(key),
            ),
            old(self).cluster_of(key).with_slot(
                old(self).cluster_of(key).probe_slot(key.spec_high16(), old(self).spec_generation()),
                *final(r.0),
                final(self).cluster_of(key),
            ),
            final(self)@.len() == old(self)@.len(),
            final(self).spec_generation() == old(self).spec_generation(),
            final(self).wf(),
    {
        let generation8 = self.generation8;
        let key16 = key.high16();
        let index = self.cluster_index(key);
        let slot = self.table[index].select(key16, generation8);
        let cluster = self.get_mut_cluster(index);
        let entry = &mut cluster.entry[slot];
        let found = if entry.key16 == 0 || entry.key16 == key16 {
            entry.refresh(generation8);
            entry.key16 != 0
        } else {
            false
        };
        (entry, found)
    }
}

/// The largest power of two that is at most `n`; 0 for 0.
pub fn largest_power_of_two_within(n: usize) -> (p: usize)
    ensures
        p == floor_power_of_two(n as nat),
        p <= n,
        n > 0 ==> is_pow2(p as int) && n < 2 * p,
{
    if n == 0 {
        return 0;
    }
    let mut p: usize = 1;
    proof {
        reveal(is_pow2);
    }
    while p <= n / 2
        invariant
            is_pow2(p as int),
            1 <= p <= n,
        decreases n - p,
    {
        proof {
            lemma_pow2_double(p as int);
        }
        p = p * 2;
    }
    proof {
        lemma_floor_power_of_two(n as nat, p as nat);
    }
    p
}

/// After `searches` searches the generation stands `searches` steps on,
/// around the cycle of 256.
pub proof fn lemma_generation_after(generation: u8, searches: nat)
    ensures
        generation_after(generation, searches) == (generation + GENERATION_STEP * searches) % 256,
    decreases searches,
{
    if searches > 0 {
        lemma_generation_after(generation, (searches - 1) as nat);
    }
}

/// A generation that is a multiple of the step stays one, however many
/// searches begin.
pub proof fn lemma_generation_stays_aligned(generation: u8, searches: nat)
    requires
        generation & GENERATION_LOW_BITS == 0,
    ensures
        generation_after(generation, searches) & GENERATION_LOW_BITS == 0,
    decreases searches,
{
    if searches > 0 {
        lemma_generation_stays_aligned(generation, (searches - 1) as nat);
        let before = generation_after(generation, (searches - 1) as nat);
        assert(before & 7 == 0 ==> (((before + 8) % 256) as u8) & 7 == 0) by (bit_vector);
    }
}

/// The generation comes back to where it was after 32 searches: as many
/// steps as the generation bits of an entry can tell apart.
pub proof fn lemma_generation_wraps(generation: u8)
    ensures
        generation_after(generation, 32) == generation,
{
    lemma_generation_after(generation, 32);
}

/// Twice a power of two is a power of two.
proof fn lemma_pow2_double(p: int)
    requires
        is_pow2(p),
    ensures
        is_pow2(2 * p),
{
    reveal(is_pow2);
    assert(p > 0);
    assert((2 * p) / 2 == p);
}

/// A power of two `p` with `p <= n < 2 * p` is the floor power of two of `n`.
proof fn lemma_floor_power_of_two(n: nat, p: nat)
    requires
        is_pow2(p as int),
        p <= n < 2 * p,
    ensures
        floor_power_of_two(n) == p,
    decreases n,
{
    reveal(is_pow2);
    if n > 1 {
        assert(p > 1);
        assert(is_pow2(p as int / 2));
        lemma_floor_power_of_two(n / 2, p / 2);
    }
}

/// A power of two doubled `doublings` times is a power of two.
proof fn lemma_pow2_doubled(p: int, doublings: nat)
    requires
        is_pow2(p),
    ensures
        is_pow2(p * pow2(doublings)),
    decreases doublings,
{
    if doublings == 0 {
        lemma2_to64();
    } else {
        lemma_pow2_doubled(p, (doublings - 1) as nat);
        lemma_pow2_double(p * pow2((doublings - 1) as nat));
        lemma_pow2_unfold(doublings);
        assert(2 * (p * pow2((doublings - 1) as nat)) == p * (2 * pow2((doublings - 1) as nat)))
            by (nonlinear_arith);
    }
}

/// A whole number of megabytes that is zero or a power of two makes a
/// number of clusters that is zero or a power of two.
proof fn lemma_cluster_count_is_pow2(mega_bytes: nat)
    requires
        mega_bytes == 0 || is_pow2(mega_bytes as int),
    ensures
        mega_bytes * MEGABYTE / (CLUSTER_BYTES as int) == mega_bytes * CLUSTERS_PER_MEGABYTE,
        mega_bytes == 0 || is_pow2(mega_bytes * CLUSTERS_PER_MEGABYTE),
{
    if mega_bytes != 0 {
        lemma_pow2_doubled(mega_bytes as int, 15);
        lemma2_to64();
    }
}

/// Hands the clusters to rayon: `par_iter_mut` on the vector gives a
/// parallel iterator over mutable references to its elements, and `for_each`
/// runs the given operation on each of them, on whichever worker, and
/// returns when all are done. The operation is `TTCluster::reset`, so
/// afterwards the vector has its length and every cluster is empty. This is
/// taken on trust from rayon. (On first use rayon starts its workers, and
/// panics if the system lets it start none.)
#[verifier::external_body]
fn par_reset(table: &mut Vec<TTCluster>)
    ensures
        final(table)@.len() == old(table)@.len(),
        forall|index: int| 0 <= index < final(table)@.len() ==> (#[trigger] final(table)@[index]).is_empty(),
{
    table.par_iter_mut().for_each(|cluster| cluster.reset());
}

} // verus!
