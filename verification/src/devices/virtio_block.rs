//! VirtIO block device: probing decisions and the three-descriptor request
//! chain (request header, data buffer, status byte) used for every transfer.
use vstd::prelude::*;
use crate::devices::virtqueue::{VirtQueue, VirtqDesc, VRING_DESC_F_NEXT, VRING_DESC_F_WRITE, DESC_CHAIN_END};
use crate::bytes::{le_bytes32, le_bytes64, push_u32_le, push_u64_le};

verus! {

pub const MAGIC: u32 = 0x7472_6976;
pub const VERSION: u32 = 2;
pub const DEVICE_ID_BLOCK: u32 = 2;
pub const SECTOR_SIZE: u64 = 512;

pub const VIRTIO_STATUS_ACKNOWLEDGE: u8 = 1;
pub const VIRTIO_STATUS_DRIVER: u8 = 2;
pub const VIRTIO_STATUS_DRIVER_OK: u8 = 4;

pub const VIRTIO_BLK_T_IN: u32 = 0;
pub const VIRTIO_BLK_T_OUT: u32 = 1;

/// A VirtIO block device behind the MMIO window at `base`.
pub struct VirtioBlock {
    base: u64,
    queue_size: u16,
    status: u8,
    disk_size: u64,
    sector_count: u64,
    ready: bool,
    queue: Option<VirtQueue>,
}

/// Descriptors of a request in flight: header, data, status.
#[derive(Clone, Copy)]
pub struct RequestChain {
    pub header: u16,
    pub data: u16,
    pub status: u16,
}

/// The identity check of the MMIO header: magic `"virt"`, version 2, block device.
pub open spec fn identity_spec(magic: u32, version: u32, device_id: u32) -> Result<(), Seq<char>> {
    if magic != MAGIC {
        Err("bad magic"@)
    } else if version != VERSION {
        Err("bad version"@)
    } else if device_id != DEVICE_ID_BLOCK {
        Err("not block device"@)
    } else {
        Ok(())
    }
}

impl VirtioBlock {
    pub closed spec fn spec_base(&self) -> u64 { self.base }
    pub closed spec fn spec_ready(&self) -> bool { self.ready }
    pub closed spec fn spec_disk_size(&self) -> u64 { self.disk_size }
    pub closed spec fn spec_sector_count(&self) -> u64 { self.sector_count }
    pub closed spec fn spec_status(&self) -> u8 { self.status }
    pub closed spec fn spec_queue_size(&self) -> u16 { self.queue_size }
    pub closed spec fn spec_has_queue(&self) -> bool { self.queue is Some }

    pub closed spec fn spec_queue(&self) -> VirtQueue { self.queue->0 }

    /// The queue, when present, keeps its free list consistent.
    pub closed spec fn inv(&self) -> bool {
        self.queue matches Some(q) ==> q.wf()
    }

    /// The free descriptors of the queue.
    pub closed spec fn free_descs(&self) -> Seq<u16> {
        match self.queue {
            Some(q) => q.free@,
            None => Seq::empty(),
        }
    }

    pub fn new(base: u64) -> (r: VirtioBlock)
        ensures
            r.spec_base() == base,
            !r.spec_ready(),
            r.spec_disk_size() == 0,
            r.spec_sector_count() == 0,
            r.spec_status() == 0,
            r.spec_queue_size() == 0,
            !r.spec_has_queue(),
            r.inv(),
    {
        VirtioBlock { base, queue_size: 0, status: 0, disk_size: 0, sector_count: 0, ready: false, queue: None }
    }

    pub fn is_ready(&self) -> (r: bool)
        ensures
            r == self.spec_ready(),
    {
        self.ready
    }

    pub fn disk_size(&self) -> (r: u64)
        ensures
            r == self.spec_disk_size(),
    {
        self.disk_size
    }

    /// Checks the device identity registers.
    pub fn check_identity(magic: u32, version: u32, device_id: u32) -> (r: Result<(), &'static str>)
        ensures
            r matches Ok(_) ==> identity_spec(magic, version, device_id) is Ok,
            r matches Err(e) ==> identity_spec(magic, version, device_id) == Err::<(), Seq<char>>(e@),
    {
        if magic != MAGIC {
            return Err("bad magic");
        }
        if version != VERSION {
            return Err("bad version");
        }
        if device_id != DEVICE_ID_BLOCK {
            return Err("not block device");
        }
        Ok(())
    }

    /// Brings the device up from the values read from its registers: identity,
    /// the maximum queue size, whether ring memory could be allocated and the
    /// capacity in sectors.
    pub fn probe(
        &mut self,
        magic: u32,
        version: u32,
        device_id: u32,
        queue_num_max: u32,
        ring_memory: bool,
        capacity_lo: u32,
        capacity_hi: u32,
    ) -> (r: Result<(), &'static str>)
        requires
            capacity_hi < 0x80_0000,
            old(self).inv(),
        ensures
            final(self).inv(),
            final(self).spec_base() == old(self).spec_base(),
            identity_spec(magic, version, device_id) is Err ==> (r matches Err(e)
                && identity_spec(magic, version, device_id) == Err::<(), Seq<char>>(e@)),
            identity_spec(magic, version, device_id) is Ok && queue_num_max as u16 == 0 ==> (r matches Err(e)
                && e@ == "queue size 0"@),
            r is Err ==> final(self).spec_ready() == old(self).spec_ready()
                && final(self).spec_disk_size() == old(self).spec_disk_size()
                && final(self).spec_sector_count() == old(self).spec_sector_count()
                && final(self).spec_has_queue() == old(self).spec_has_queue()
                && final(self).free_descs() == old(self).free_descs(),
            identity_spec(magic, version, device_id) is Ok && queue_num_max as u16 != 0 ==> {
                &&& r is Ok
                &&& final(self).spec_ready()
                &&& final(self).spec_queue_size() == queue_num_max as u16
                &&& final(self).spec_has_queue() == (ring_memory || old(self).spec_has_queue())
                &&& final(self).spec_sector_count() == capacity_hi as u64 * 0x1_0000_0000 + capacity_lo as u64
                &&& final(self).spec_disk_size() == final(self).spec_sector_count() * 512
                &&& final(self).spec_status() == VIRTIO_STATUS_ACKNOWLEDGE | VIRTIO_STATUS_DRIVER | VIRTIO_STATUS_DRIVER_OK
            },
    {
        VirtioBlock::check_identity(magic, version, device_id)?;
        self.status = VIRTIO_STATUS_ACKNOWLEDGE | VIRTIO_STATUS_DRIVER;
        self.queue_size = queue_num_max as u16;
        if self.queue_size == 0 {
            return Err("queue size 0");
        }
        if ring_memory {
            self.queue = Some(VirtQueue::new(self.queue_size));
        }
        self.sector_count = (capacity_hi as u64) * 0x1_0000_0000 + capacity_lo as u64;
        self.disk_size = self.sector_count * SECTOR_SIZE;
        self.status = self.status | VIRTIO_STATUS_DRIVER_OK;
        self.ready = true;
        Ok(())
    }

    /// Sets up a transfer of `buf_len` bytes at physical address `buf_phys`:
    /// takes three descriptors, links header → data → status (the data
    /// descriptor device-writable for a read) and publishes the chain.  The
    /// caller then writes the request header (`request_header`) into the
    /// header descriptor's buffer and notifies the device.  When fewer than
    /// three descriptors are free, the ones taken before the shortage stay
    /// taken: the free list is left empty.
    pub fn start_transfer(&mut self, write: bool, buf_phys: u64, buf_len: u32) -> (r: Result<RequestChain, &'static str>)
        requires
            old(self).inv(),
        ensures
            final(self).inv(),
            final(self).spec_ready() == old(self).spec_ready(),
            final(self).spec_disk_size() == old(self).spec_disk_size(),
            final(self).spec_has_queue() == old(self).spec_has_queue(),
            !old(self).spec_ready() ==> (r matches Err(e) && e@ == "not ready"@),
            old(self).spec_ready() && !old(self).spec_has_queue() ==> (r matches Err(e) && e@ == "no queue"@),
            old(self).spec_ready() && old(self).spec_has_queue() && old(self).free_descs().len() < 3
                ==> (r matches Err(e) && e@ == "no desc"@),
            !(old(self).spec_ready() && old(self).spec_has_queue()) ==> final(self).free_descs() == old(self).free_descs(),
            old(self).spec_ready() && old(self).spec_has_queue() && old(self).free_descs().len() < 3
                ==> final(self).free_descs() == Seq::<u16>::empty(),
            old(self).spec_has_queue() ==> final(self).spec_queue().queue_size == old(self).spec_queue().queue_size,
            r matches Ok(c) ==> {
                &&& c.header < final(self).spec_queue().queue_size
                &&& c.data < final(self).spec_queue().queue_size
                &&& c.status < final(self).spec_queue().queue_size
                &&& c.header != c.data && c.data != c.status && c.header != c.status
                &&& !final(self).free_descs().contains(c.header)
                &&& !final(self).free_descs().contains(c.data)
                &&& !final(self).free_descs().contains(c.status)
            },
            old(self).spec_ready() && old(self).spec_has_queue() && old(self).free_descs().len() >= 3 ==> (r matches Ok(c)
                && c.header == old(self).free_descs()[0]
                && c.data == old(self).free_descs()[1]
                && c.status == old(self).free_descs()[2]
                && final(self).free_descs() == old(self).free_descs().subrange(3, old(self).free_descs().len() as int)),
            r matches Ok(c) ==> {
                let q = final(self).spec_queue();
                &&& q.descriptors@[c.header as int].len == 16
                &&& q.descriptors@[c.header as int].flags == VRING_DESC_F_NEXT
                &&& q.descriptors@[c.header as int].next == c.data
                &&& q.descriptors@[c.data as int].addr == buf_phys
                &&& q.descriptors@[c.data as int].len == buf_len
                &&& q.descriptors@[c.data as int].flags == (if write { VRING_DESC_F_NEXT } else { VRING_DESC_F_NEXT | VRING_DESC_F_WRITE })
                &&& q.descriptors@[c.data as int].next == c.status
                &&& q.descriptors@[c.status as int].len == 1
                &&& q.descriptors@[c.status as int].flags == VRING_DESC_F_WRITE
                &&& q.descriptors@[c.status as int].next == DESC_CHAIN_END
            },
    {
        if !self.ready {
            return Err("not ready");
        }
        let mut q = match self.queue.take() {
            Some(q) => q,
            None => return Err("no queue"),
        };
        let ghost f = q.free@;
        let h = match q.alloc_desc() {
            Some(i) => i,
            None => { self.queue = Some(q); return Err("no desc"); },
        };
        let d = match q.alloc_desc() {
            Some(i) => i,
            None => {
                assert(q.free@ =~= Seq::<u16>::empty());
                self.queue = Some(q);
                return Err("no desc");
            },
        };
        let s = match q.alloc_desc() {
            Some(i) => i,
            None => {
                assert(q.free@ =~= Seq::<u16>::empty());
                self.queue = Some(q);
                return Err("no desc");
            },
        };
        assert(q.free@ =~= f.subrange(3, f.len() as int));
        assert(h == f[0] && d == f[1] && s == f[2]);
        assert(h != d && d != s && h != s);
        assert(h < q.queue_size && d < q.queue_size && s < q.queue_size);
        assert(!q.free@.contains(h) && !q.free@.contains(d) && !q.free@.contains(s)) by {
            if q.free@.contains(h) { let k = choose|k: int| 0 <= k < q.free@.len() && q.free@[k] == h; assert(f[k + 3] == f[0]); }
            if q.free@.contains(d) { let k = choose|k: int| 0 <= k < q.free@.len() && q.free@[k] == d; assert(f[k + 3] == f[1]); }
            if q.free@.contains(s) { let k = choose|k: int| 0 <= k < q.free@.len() && q.free@[k] == s; assert(f[k + 3] == f[2]); }
        }
        let hdr = q.descriptors[h as usize];
        q.set_desc(h, hdr.addr, 16, VRING_DESC_F_NEXT, d);
        let data_flags = if write { VRING_DESC_F_NEXT } else { VRING_DESC_F_NEXT | VRING_DESC_F_WRITE };
        q.set_desc(d, buf_phys, buf_len, data_flags, s);
        let st = q.descriptors[s as usize];
        q.set_desc(s, st.addr, 1, VRING_DESC_F_WRITE, DESC_CHAIN_END);
        q.add_buf(h);
        self.queue = Some(q);
        Ok(RequestChain { header: h, data: d, status: s })
    }

    /// Completes a transfer once the device has used the chain: a non-zero
    /// status byte is an error and the three descriptors stay taken;
    /// otherwise they go back to the free list.
    pub fn finish_transfer(&mut self, write: bool, c: RequestChain, status: u8) -> (r: Result<(), &'static str>)
        requires
            old(self).inv(),
            old(self).spec_has_queue(),
            c.header < old(self).spec_queue().queue_size,
            c.data < old(self).spec_queue().queue_size,
            c.status < old(self).spec_queue().queue_size,
            c.header != c.data && c.data != c.status && c.header != c.status,
            !old(self).free_descs().contains(c.header),
            !old(self).free_descs().contains(c.data),
            !old(self).free_descs().contains(c.status),
        ensures
            final(self).inv(),
            final(self).spec_ready() == old(self).spec_ready(),
            final(self).spec_has_queue(),
            status != 0 ==> (r matches Err(e) && e@ == (if write { "write failed"@ } else { "read failed"@ })
                && final(self).free_descs() == old(self).free_descs()),
            status == 0 ==> r is Ok
                && final(self).free_descs() == seq![c.status, c.data, c.header] + old(self).free_descs(),
            final(self).spec_queue().queue_size == old(self).spec_queue().queue_size,
    {
        if status != 0 {
            return if write { Err("write failed") } else { Err("read failed") };
        }
        let mut q = self.queue.take().unwrap();
        let ghost f = q.free@;
        q.free_desc(c.header);
        q.free_desc(c.data);
        q.free_desc(c.status);
        assert(q.free@ =~= seq![c.status, c.data, c.header] + f);
        self.queue = Some(q);
        Ok(())
    }

    /// Passes the device's used ring to the queue; `Some` once the device has
    /// completed the next request.
    pub fn poll(&mut self, used: &[u32]) -> (r: Option<u16>)
        requires
            old(self).inv(),
            old(self).spec_has_queue(),
            used@.len() >= 2 + 2 * old(self).spec_queue().queue_size,
        ensures
            final(self).inv(),
            final(self).spec_has_queue(),
            final(self).spec_ready() == old(self).spec_ready(),
            final(self).free_descs() == old(self).free_descs(),
            final(self).spec_base() == old(self).spec_base(),
            final(self).spec_disk_size() == old(self).spec_disk_size(),
            final(self).spec_sector_count() == old(self).spec_sector_count(),
            final(self).spec_status() == old(self).spec_status(),
            final(self).spec_queue_size() == old(self).spec_queue_size(),
            final(self).spec_queue().queue_size == old(self).spec_queue().queue_size,
            final(self).spec_queue().descriptors == old(self).spec_queue().descriptors,
            final(self).spec_queue().avail_ring == old(self).spec_queue().avail_ring,
            (used@[1] as u16) == old(self).spec_queue().next_avail ==> r is None
                && final(self).spec_queue().next_avail == old(self).spec_queue().next_avail,
            (used@[1] as u16) != old(self).spec_queue().next_avail ==> r == Some(
                used@[2 + 2 * (old(self).spec_queue().next_avail as int % old(self).spec_queue().queue_size as int)] as u16)
                && final(self).spec_queue().next_avail == old(self).spec_queue().next_avail.wrapping_add(1),
    {
        let mut q = self.queue.take().unwrap();
        let r = q.poll_used(used);
        self.queue = Some(q);
        r
    }
}

/// A transfer started on `d0` (giving chain `c` and leaving `d1`) and then
/// finished with status 0 (leaving `d2`) gives every descriptor back: the
/// free list holds the same descriptors as before, as many of them.
pub proof fn lemma_transfer_returns_descriptors(d0: VirtioBlock, d1: VirtioBlock, d2: VirtioBlock, c: RequestChain)
    requires
        d0.free_descs().len() >= 3,
        c.header == d0.free_descs()[0],
        c.data == d0.free_descs()[1],
        c.status == d0.free_descs()[2],
        d1.free_descs() == d0.free_descs().subrange(3, d0.free_descs().len() as int),
        d2.free_descs() == seq![c.status, c.data, c.header] + d1.free_descs(),
    ensures
        d2.free_descs().len() == d0.free_descs().len(),
        forall|x: u16| d2.free_descs().contains(x) <==> d0.free_descs().contains(x),
{
    let f = d0.free_descs();
    let g = d2.free_descs();
    assert forall|x: u16| g.contains(x) <==> f.contains(x) by {
        if g.contains(x) {
            let k = choose|k: int| 0 <= k < g.len() && g[k] == x;
            if k == 0 { assert(f[2] == x); } else if k == 1 { assert(f[1] == x); } else if k == 2 { assert(f[0] == x); }
            else { assert(f[k] == x); }
        }
        if f.contains(x) {
            let k = choose|k: int| 0 <= k < f.len() && f[k] == x;
            if k == 0 { assert(g[2] == x); } else if k == 1 { assert(g[1] == x); } else if k == 2 { assert(g[0] == x); }
            else { assert(g[k] == x); }
        }
    }
}

/// The 16-byte request header: type (0 read, 1 write), a reserved word and
/// the sector, little-endian.
pub open spec fn request_header_spec(write: bool, sector: u64) -> Seq<u8> {
    le_bytes32(if write { VIRTIO_BLK_T_OUT } else { VIRTIO_BLK_T_IN }) + le_bytes32(0) + le_bytes64(sector)
}

pub fn request_header(write: bool, sector: u64) -> (r: Vec<u8>)
    ensures
        r@ == request_header_spec(write, sector),
{
    let mut v: Vec<u8> = Vec::new();
    push_u32_le(&mut v, if write { VIRTIO_BLK_T_OUT } else { VIRTIO_BLK_T_IN });
    push_u32_le(&mut v, 0);
    push_u64_le(&mut v, sector);
    assert(v@ =~= request_header_spec(write, sector));
    v
}

/// The chain part of a started transfer.
pub open spec fn chain_of(r: Result<(RequestChain, Vec<u8>), &'static str>) -> Result<RequestChain, &'static str> {
    match r {
        Ok(t) => Ok(t.0),
        Err(e) => Err(e),
    }
}

/// What starting a transfer on device `d0` gives, leaving it as `d1`: the
/// errors for a device not ready, without a queue or short of descriptors
/// (then the free list is left empty), else the first three free
/// descriptors as the chain.
pub open spec fn transfer_outcome(d0: VirtioBlock, d1: VirtioBlock, r: Result<RequestChain, &'static str>) -> bool {
    &&& d1.inv()
    &&& d1.spec_ready() == d0.spec_ready()
    &&& d1.spec_has_queue() == d0.spec_has_queue()
    &&& !(d0.spec_ready() && d0.spec_has_queue()) ==> d1.free_descs() == d0.free_descs()
    &&& d0.spec_ready() && d0.spec_has_queue() && d0.free_descs().len() < 3 ==> d1.free_descs() == Seq::<u16>::empty()
    &&& !d0.spec_ready() ==> (r matches Err(e) && e@ == "not ready"@)
    &&& d0.spec_ready() && !d0.spec_has_queue() ==> (r matches Err(e) && e@ == "no queue"@)
    &&& d0.spec_ready() && d0.spec_has_queue() && d0.free_descs().len() < 3 ==> (r matches Err(e) && e@ == "no desc"@)
    &&& d0.spec_ready() && d0.spec_has_queue() && d0.free_descs().len() >= 3 ==> (r matches Ok(c)
        && c.header == d0.free_descs()[0]
        && c.data == d0.free_descs()[1]
        && c.status == d0.free_descs()[2]
        && d1.free_descs() == d0.free_descs().subrange(3, d0.free_descs().len() as int))
}

/// Starts a read of `sector` on the registered device, if there is one:
/// the descriptor chain and the request header to put in its first buffer.
pub fn read_sector(dev: &mut Option<VirtioBlock>, sector: u64, buf_phys: u64, buf_len: u32) -> (r: Result<(RequestChain, Vec<u8>), &'static str>)
    requires
        *old(dev) matches Some(d) ==> d.inv(),
    ensures
        *old(dev) is None ==> (r matches Err(e) && e@ == "no device"@),
        *final(dev) is Some <==> *old(dev) is Some,
        *final(dev) matches Some(d) ==> d.inv(),
        r matches Ok(t) ==> t.1@ == request_header_spec(false, sector),
        *old(dev) matches Some(d0) ==> (*final(dev) matches Some(d1) && transfer_outcome(d0, d1, chain_of(r))),
{
    match dev {
        Some(d) => match d.start_transfer(false, buf_phys, buf_len) {
            Ok(c) => Ok((c, request_header(false, sector))),
            Err(e) => Err(e),
        },
        None => Err("no device"),
    }
}

/// Starts a write of `sector` on the registered device, if there is one:
/// the descriptor chain and the request header to put in its first buffer.
pub fn write_sector(dev: &mut Option<VirtioBlock>, sector: u64, buf_phys: u64, buf_len: u32) -> (r: Result<(RequestChain, Vec<u8>), &'static str>)
    requires
        *old(dev) matches Some(d) ==> d.inv(),
    ensures
        *old(dev) is None ==> (r matches Err(e) && e@ == "no device"@),
        *final(dev) is Some <==> *old(dev) is Some,
        *final(dev) matches Some(d) ==> d.inv(),
        r matches Ok(t) ==> t.1@ == request_header_spec(true, sector),
        *old(dev) matches Some(d0) ==> (*final(dev) matches Some(d1) && transfer_outcome(d0, d1, chain_of(r))),
{
    match dev {
        Some(d) => match d.start_transfer(true, buf_phys, buf_len) {
            Ok(c) => Ok((c, request_header(true, sector))),
            Err(e) => Err(e),
        },
        None => Err("no device"),
    }
}

} // verus!
