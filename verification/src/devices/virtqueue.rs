//! Split virtqueue bookkeeping shared by the VirtIO block and GPU drivers:
//! the ring memory layout, the descriptor free list, the available ring and
//! the consumption of used-ring entries.
use vstd::prelude::*;

verus! {

pub const VRING_DESC_F_NEXT: u16 = 1;
pub const VRING_DESC_F_WRITE: u16 = 2;

/// End-of-chain marker in a descriptor's `next` field.
pub const DESC_CHAIN_END: u16 = 0xFFFF;

/// One descriptor of the descriptor table.
#[derive(Clone, Copy)]
pub struct VirtqDesc {
    pub addr: u64,
    pub len: u32,
    pub flags: u16,
    pub next: u16,
}

/// Byte sizes of the descriptor table, available ring, used ring and the
/// page-rounded total for a queue of `queue_size` entries with descriptors of
/// `desc_entry_size` bytes.
pub open spec fn ring_layout_spec(queue_size: u16, desc_entry_size: usize) -> (int, int, int, int) {
    let desc_sz = queue_size as int * desc_entry_size as int;
    let avail_sz = 6 + queue_size as int * 2;
    let used_sz = 6 + queue_size as int * 8;
    let raw = desc_sz + avail_sz + used_sz;
    (desc_sz, avail_sz, used_sz, (raw + 4095) / 4096 * 4096)
}

pub fn ring_layout(queue_size: u16, desc_entry_size: usize) -> (r: (usize, usize, usize, usize))
    requires
        desc_entry_size <= 64,
    ensures
        r.0 == ring_layout_spec(queue_size, desc_entry_size).0,
        r.1 == ring_layout_spec(queue_size, desc_entry_size).1,
        r.2 == ring_layout_spec(queue_size, desc_entry_size).2,
        r.3 == ring_layout_spec(queue_size, desc_entry_size).3,
        r.3 % 4096 == 0,
        r.3 >= r.0 + r.1 + r.2,
{
    proof {
        assert(queue_size as int * desc_entry_size as int <= 65535 * 64) by (nonlinear_arith)
            requires
                queue_size <= 65535,
                desc_entry_size <= 64,
        ;
    }
    let desc_sz = (queue_size as usize) * desc_entry_size;
    let avail_sz = 6 + (queue_size as usize) * 2;
    let used_sz = 6 + (queue_size as usize) * 8;
    let raw = desc_sz + avail_sz + used_sz;
    let total = (raw + 4095) / 4096 * 4096;
    (desc_sz, avail_sz, used_sz, total)
}

/// A virtqueue as the driver sees it.  The free descriptors form a chain
/// through their `next` fields starting at `free_head`; `free` is that chain.
pub struct VirtQueue {
    pub descriptors: Vec<VirtqDesc>,
    pub avail_ring: Vec<u16>,
    pub queue_size: u16,
    pub free_head: u16,
    pub num_free: u16,
    pub next_avail: u16,
    pub free: Ghost<Seq<u16>>,
}

impl VirtQueue {
    /// The free list is a chain of distinct in-range descriptors linked by `next`.
    pub open spec fn wf(&self) -> bool {
        let f = self.free@;
        &&& self.descriptors@.len() == self.queue_size
        &&& self.avail_ring@.len() == 2 + self.queue_size
        &&& self.queue_size > 0
        &&& f.len() == self.num_free
        &&& self.num_free <= self.queue_size
        &&& f.len() > 0 ==> self.free_head == f[0]
        &&& forall|i: int| 0 <= i < f.len() ==> f[i] < self.queue_size
        &&& forall|i: int, j: int| 0 <= i < j < f.len() ==> f[i] != f[j]
        &&& forall|i: int| 0 <= i < f.len() - 1 ==> #[trigger] self.descriptors@[f[i] as int].next == f[i + 1]
    }

    /// A fresh queue: all descriptors zeroed and chained in index order, all free.
    pub fn new(queue_size: u16) -> (q: VirtQueue)
        requires
            queue_size > 0,
        ensures
            q.wf(),
            q.queue_size == queue_size,
            q.free@ == Seq::new(queue_size as nat, |i: int| i as u16),
            q.next_avail == 0,
            forall|i: int| 0 <= i < queue_size ==> #[trigger] q.avail_ring@[i] == 0,
            q.descriptors@[queue_size - 1].next == DESC_CHAIN_END,
    {
        let mut descriptors: Vec<VirtqDesc> = Vec::new();
        let mut i: u16 = 0;
        while i < queue_size
            invariant
                i <= queue_size,
                descriptors@.len() == i,
                forall|k: int| 0 <= k < i ==> #[trigger] descriptors@[k].next == (if k + 1 < queue_size { (k + 1) as u16 } else { DESC_CHAIN_END }),
            decreases queue_size - i,
        {
            let next = if i + 1 < queue_size { i + 1 } else { DESC_CHAIN_END };
            descriptors.push(VirtqDesc { addr: 0, len: 0, flags: 0, next });
            i = i + 1;
        }
        let mut avail_ring: Vec<u16> = Vec::new();
        let mut k: usize = 0;
        while k < 2 + queue_size as usize
            invariant
                k <= 2 + queue_size,
                avail_ring@.len() == k,
                forall|j: int| 0 <= j < k ==> #[trigger] avail_ring@[j] == 0,
            decreases 2 + queue_size as usize - k,
        {
            avail_ring.push(0);
            k = k + 1;
        }
        let ghost free = Seq::new(queue_size as nat, |i: int| i as u16);
        let q = VirtQueue {
            descriptors,
            avail_ring,
            queue_size,
            free_head: 0,
            num_free: queue_size,
            next_avail: 0,
            free: Ghost(free),
        };
        assert forall|i: int| 0 <= i < free.len() - 1 implies #[trigger] q.descriptors@[free[i] as int].next == free[i + 1] by {
            assert(free[i] as int == i);
        }
        q
    }

    /// Takes the first descriptor of the free list.
    pub fn alloc_desc(&mut self) -> (r: Option<u16>)
        requires
            old(self).wf(),
        ensures
            final(self).wf(),
            final(self).queue_size == old(self).queue_size,
            final(self).descriptors == old(self).descriptors,
            final(self).avail_ring == old(self).avail_ring,
            final(self).next_avail == old(self).next_avail,
            old(self).num_free == 0 ==> r is None && final(self).free@ == old(self).free@,
            old(self).num_free > 0 ==> r == Some(old(self).free@[0]) && final(self).free@ == old(self).free@.drop_first(),
    {
        if self.num_free == 0 {
            return None;
        }
        let idx = self.free_head;
        let ghost f = self.free@;
        self.free_head = self.descriptors[idx as usize].next;
        self.num_free = self.num_free - 1;
        self.free = Ghost(f.drop_first());
        assert forall|i: int| 0 <= i < self.free@.len() - 1 implies #[trigger] self.descriptors@[self.free@[i] as int].next == self.free@[i + 1] by {
            assert(self.free@[i] == f[i + 1]);
            assert(self.descriptors@[f[i + 1] as int].next == f[i + 2]);
        }
        if self.num_free > 0 {
            assert(self.descriptors@[f[0] as int].next == f[1]);
        }
        Some(idx)
    }

    /// Returns descriptor `idx` to the head of the free list.
    pub fn free_desc(&mut self, idx: u16)
        requires
            old(self).wf(),
            idx < old(self).queue_size,
            !old(self).free@.contains(idx),
        ensures
            final(self).wf(),
            final(self).queue_size == old(self).queue_size,
            final(self).free@ == seq![idx] + old(self).free@,
            final(self).free_head == idx,
            final(self).avail_ring == old(self).avail_ring,
            final(self).next_avail == old(self).next_avail,
            forall|k: int| 0 <= k < old(self).queue_size && k != idx ==> #[trigger] final(self).descriptors@[k] == old(self).descriptors@[k],
    {
        let ghost f = self.free@;
        proof { lemma_free_list_short(f, self.queue_size, idx); }
        let old_head = self.free_head;
        let mut d = self.descriptors[idx as usize];
        d.next = old_head;
        self.descriptors.set(idx as usize, d);
        self.free_head = idx;
        self.num_free = self.num_free + 1;
        let ghost nf = seq![idx] + f;
        self.free = Ghost(nf);
        assert forall|i: int, j: int| 0 <= i < j < nf.len() implies nf[i] != nf[j] by {
            if i == 0 {
                assert(nf[j] == f[j - 1]);
                assert(f.contains(f[j - 1]));
            }
        }
        assert forall|i: int| 0 <= i < nf.len() - 1 implies #[trigger] self.descriptors@[nf[i] as int].next == nf[i + 1] by {
            if i > 0 {
                assert(nf[i] == f[i - 1]);
                assert(f[i - 1] != idx) by {
                    assert(f.contains(f[i - 1]));
                }
            }
        }
    }

    /// Sets the fields of descriptor `idx`.
    pub fn set_desc(&mut self, idx: u16, addr: u64, len: u32, flags: u16, next: u16)
        requires
            old(self).wf(),
            idx < old(self).queue_size,
            !old(self).free@.contains(idx),
        ensures
            final(self).wf(),
            final(self).queue_size == old(self).queue_size,
            final(self).free@ == old(self).free@,
            final(self).free_head == old(self).free_head,
            final(self).avail_ring == old(self).avail_ring,
            final(self).next_avail == old(self).next_avail,
            final(self).descriptors@ == old(self).descriptors@.update(idx as int, VirtqDesc { addr, len, flags, next }),
    {
        let ghost f = self.free@;
        self.descriptors.set(idx as usize, VirtqDesc { addr, len, flags, next });
        assert forall|i: int| 0 <= i < f.len() - 1 implies #[trigger] self.descriptors@[f[i] as int].next == f[i + 1] by {
            assert(f.contains(f[i]));
        }
    }

    /// Publishes the chain headed by `desc_idx` in the available ring: the slot
    /// at the ring index modulo the queue size, then the index advances (wrapping).
    pub fn add_buf(&mut self, desc_idx: u16)
        requires
            old(self).wf(),
        ensures
            final(self).wf(),
            final(self).queue_size == old(self).queue_size,
            final(self).free@ == old(self).free@,
            final(self).descriptors == old(self).descriptors,
            final(self).next_avail == old(self).next_avail,
            ({
                let idx = old(self).avail_ring@[1];
                let slot = 2 + (idx as int % old(self).queue_size as int);
                final(self).avail_ring@ == old(self).avail_ring@.update(slot, desc_idx).update(1, idx.wrapping_add(1))
            }),
    {
        let idx = self.avail_ring[1];
        let ring = (idx as usize) % (self.queue_size as usize);
        self.avail_ring.set(2 + ring, desc_idx);
        self.avail_ring.set(1, idx.wrapping_add(1));
    }

    /// Consumes the next used-ring entry if the device has published one.
    /// `used` is the used ring as 32-bit words: the index at word 1 and entry
    /// `k`'s id at word `2 + 2k`.
    pub fn poll_used(&mut self, used: &[u32]) -> (r: Option<u16>)
        requires
            old(self).wf(),
            used@.len() >= 2 + 2 * old(self).queue_size,
        ensures
            final(self).wf(),
            final(self).queue_size == old(self).queue_size,
            final(self).free@ == old(self).free@,
            final(self).descriptors == old(self).descriptors,
            final(self).avail_ring == old(self).avail_ring,
            (used@[1] as u16) == old(self).next_avail ==> r is None && final(self).next_avail == old(self).next_avail,
            (used@[1] as u16) != old(self).next_avail ==> r == Some(
                used@[2 + 2 * (old(self).next_avail as int % old(self).queue_size as int)] as u16)
                && final(self).next_avail == old(self).next_avail.wrapping_add(1),
    {
        let used_idx = used[1] as u16;
        if used_idx != self.next_avail {
            let ring = (self.next_avail as usize) % (self.queue_size as usize);
            let id = used[2 + ring * 2];
            self.next_avail = self.next_avail.wrapping_add(1);
            Some(id as u16)
        } else {
            None
        }
    }
}

/// A free list of distinct in-range descriptors that misses one in-range
/// descriptor is shorter than the queue.
proof fn lemma_free_list_short(f: Seq<u16>, n: u16, missing: u16)
    requires
        forall|i: int| 0 <= i < f.len() ==> f[i] < n,
        forall|i: int, j: int| 0 <= i < j < f.len() ==> f[i] != f[j],
        missing < n,
        !f.contains(missing),
    ensures
        f.len() < n,
{
    broadcast use vstd::set::group_set_axioms;
    assert(f.no_duplicates()) by {
        assert forall|i: int, j: int| 0 <= i < f.len() && 0 <= j < f.len() && i != j implies f[i] != f[j] by {
            if i > j {
                assert(f[j] != f[i]);
            }
        }
    }
    f.unique_seq_to_set();
    let s = f.to_set();
    let r = Set::<u16>::range(0, n);
    vstd::set_lib::range_set_properties(0u16, n);
    assert(s.insert(missing).subset_of(r)) by {
        assert forall|x: u16| s.insert(missing).contains(x) implies r.contains(x) by {
            if x != missing {
                assert(f.contains(x));
            }
        }
    }
    vstd::seq_lib::seq_to_set_is_finite(f);
    vstd::set_lib::lemma_len_subset(s.insert(missing), r);
    assert(!s.contains(missing));
}

/// Allocating a descriptor right after freeing one hands back the same descriptor.
pub proof fn lemma_free_then_alloc(q: VirtQueue, idx: u16)
    requires
        q.wf(),
        idx < q.queue_size,
        !q.free@.contains(idx),
    ensures
        (seq![idx] + q.free@)[0] == idx,
        (seq![idx] + q.free@).drop_first() == q.free@,
{
    assert((seq![idx] + q.free@).drop_first() =~= q.free@);
}

} // verus!
