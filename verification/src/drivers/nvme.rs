//! NVMe: capability decoding, controller configuration, command encoding,
//! submission/completion ring positions with the phase bit, and the Identify
//! data the driver reads.
use vstd::prelude::*;
use crate::bytes::{le64, read_u64_le};
use crate::fs::FsError;
use crate::drivers::pci::PciDevice;

verus! {

pub const NVME_REG_CAP: u64 = 0x00;
pub const NVME_REG_CC: u64 = 0x14;
pub const NVME_REG_CSTS: u64 = 0x1C;
pub const NVME_REG_AQA: u64 = 0x24;
pub const NVME_REG_ASQ: u64 = 0x28;
pub const NVME_REG_ACQ: u64 = 0x30;

pub const CC_EN: u32 = 1;
/// I/O submission queue entry size 2^6.
pub const CC_IOSQES: u32 = 0x6_0000;
/// I/O completion queue entry size 2^4.
pub const CC_IOCQES: u32 = 0x40_0000;
pub const CSTS_RDY: u32 = 1;

pub const NVME_ADMIN_IDENTIFY: u8 = 0x06;
pub const NVME_ADMIN_CREATE_IO_SQ: u8 = 0x01;
pub const NVME_ADMIN_CREATE_IO_CQ: u8 = 0x05;
pub const NVME_IO_READ: u8 = 0x02;
pub const NVME_IO_WRITE: u8 = 0x01;

/// Entries per queue.
pub const QUEUE_ENTRIES: u16 = 64;

/// Doorbell stride in bytes: 4 << CAP.DSTRD.
pub open spec fn doorbell_stride_spec(cap: u64) -> u64 {
    (4u64 << ((cap >> 32u64) & 0xF)) as u64
}

/// Memory page size: 2^(12 + CAP.MPSMIN).
pub open spec fn page_size_spec(cap: u64) -> u32 {
    (1u32 << (12 + ((cap >> 48u64) & 0xF) as u32)) as u32
}

pub fn cap_info(cap: u64) -> (r: (u64, u32))
    ensures
        r.0 == doorbell_stride_spec(cap),
        r.1 == page_size_spec(cap),
{
    let dstrd = (cap >> 32u64) & 0xF;
    let mpsmin = ((cap >> 48u64) & 0xF) as u32;
    assert(((cap >> 48u64) & 0xF) <= 15 && ((cap >> 32u64) & 0xF) <= 15) by (bit_vector);
    (4u64 << dstrd, 1u32 << (12 + mpsmin))
}

/// Admin queue attributes: 64 entries for both admin queues (sizes stored minus one).
pub open spec fn aqa_value() -> u32 {
    (63u32 << 16u32) | 63u32
}

/// Controller configuration written to enable the controller: NVM command
/// set, 4 KiB pages, round robin, 64-byte submission and 16-byte completion entries.
pub open spec fn cc_value() -> u32 {
    CC_EN | CC_IOSQES | CC_IOCQES
}

pub fn admin_queue_attributes() -> (r: u32)
    ensures
        r == aqa_value(),
{
    (63u32 << 16u32) | 63u32
}

pub fn controller_config() -> (r: u32)
    ensures
        r == cc_value(),
{
    CC_EN | CC_IOSQES | CC_IOCQES
}

/// A 64-byte submission queue entry; `cdw` are command dwords 10 to 18.
#[derive(Clone, Copy)]
pub struct NvmeCommand {
    pub opcode: u8,
    pub flags: u8,
    pub cid: u16,
    pub nsid: u32,
    pub mptr: u64,
    pub prp1: u64,
    pub prp2: u64,
    pub cdw: [u32; 9],
}

pub open spec fn command(opcode: u8, cid: u16, nsid: u32, prp1: u64, c10: u32, c11: u32, c12: u32) -> NvmeCommand {
    NvmeCommand { opcode, flags: 0, cid, nsid, mptr: 0, prp1, prp2: 0, cdw: [c10, c11, c12, 0, 0, 0, 0, 0, 0] }
}

fn make_command(opcode: u8, cid: u16, nsid: u32, prp1: u64, c10: u32, c11: u32, c12: u32) -> (r: NvmeCommand)
    ensures
        r == command(opcode, cid, nsid, prp1, c10, c11, c12),
{
    NvmeCommand { opcode, flags: 0, cid, nsid, mptr: 0, prp1, prp2: 0, cdw: [c10, c11, c12, 0, 0, 0, 0, 0, 0] }
}

/// Identify Controller into the page at `prp1` (CNS 1 in dword 10, command id 1).
pub fn identify_controller_command(prp1: u64) -> (r: NvmeCommand)
    ensures
        r == command(NVME_ADMIN_IDENTIFY, 1, 0, prp1, 0x0001_0000, 0, 0),
{
    make_command(NVME_ADMIN_IDENTIFY, 1, 0, prp1, 0x0001_0000, 0, 0)
}

/// Create I/O Completion Queue: 64 entries at `prp1`, physically contiguous, interrupts on.
pub fn create_io_cq_command(prp1: u64) -> (r: NvmeCommand)
    ensures
        r == command(NVME_ADMIN_CREATE_IO_CQ, 2, 0, prp1, 63u32 << 16u32, 3, 0),
{
    make_command(NVME_ADMIN_CREATE_IO_CQ, 2, 0, prp1, 63u32 << 16u32, 3, 0)
}

/// Create I/O Submission Queue: 64 entries at `prp1`, physically contiguous.
pub fn create_io_sq_command(prp1: u64) -> (r: NvmeCommand)
    ensures
        r == command(NVME_ADMIN_CREATE_IO_SQ, 3, 0, prp1, 63u32 << 16u32, 1, 0),
{
    make_command(NVME_ADMIN_CREATE_IO_SQ, 3, 0, prp1, 63u32 << 16u32, 1, 0)
}

/// Identify Namespace 1 into the page at `prp1`.
pub fn identify_namespace_command(prp1: u64) -> (r: NvmeCommand)
    ensures
        r == command(NVME_ADMIN_IDENTIFY, 4, 1, prp1, 0, 0, 0),
{
    make_command(NVME_ADMIN_IDENTIFY, 4, 1, prp1, 0, 0, 0)
}

/// Read or write `blocks` logical blocks from `sector` of namespace `nsid`
/// with the buffer at `prp1`: starting LBA in dwords 10-11, block count minus
/// one in dword 12; command id 10 for reads and 11 for writes.
pub fn io_command(write: bool, nsid: u32, sector: u64, blocks: u32, prp1: u64) -> (r: NvmeCommand)
    requires
        blocks >= 1,
    ensures
        r == command(if write { NVME_IO_WRITE } else { NVME_IO_READ }, if write { 11 } else { 10 }, nsid, prp1,
            sector as u32, (sector >> 32u64) as u32, (blocks - 1) as u32),
{
    let opcode = if write { NVME_IO_WRITE } else { NVME_IO_READ };
    let cid: u16 = if write { 11 } else { 10 };
    make_command(opcode, cid, nsid, prp1, sector as u32, (sector >> 32u64) as u32, blocks - 1)
}

/// Status code of a completion: bits 1 to 7 of the status field.
pub open spec fn status_code_spec(status: u16) -> u16 {
    (status >> 1u16) & 0x7F
}

pub fn status_code(status: u16) -> (r: u16)
    ensures
        r == status_code_spec(status),
{
    (status >> 1u16) & 0x7F
}

/// A submission/completion queue pair: submission tail, completion head and
/// the phase the next completion entry carries.
#[derive(Clone, Copy)]
pub struct QueuePair {
    pub sq_tail: u16,
    pub cq_head: u16,
    pub phase: bool,
}

impl QueuePair {
    pub open spec fn wf(&self) -> bool {
        self.sq_tail < QUEUE_ENTRIES && self.cq_head < QUEUE_ENTRIES
    }

    /// Empty queues; completions of the first pass carry phase 1.
    pub fn new() -> (q: QueuePair)
        ensures
            q.wf(),
            q.sq_tail == 0 && q.cq_head == 0 && q.phase,
    {
        QueuePair { sq_tail: 0, cq_head: 0, phase: true }
    }

    /// Places a command at the tail; returns its slot and the new tail, which
    /// is written to the submission doorbell.
    pub fn submit(&mut self) -> (r: (u16, u16))
        requires
            old(self).wf(),
        ensures
            final(self).wf(),
            r.0 == old(self).sq_tail,
            r.1 == (old(self).sq_tail + 1) % 64,
            final(self).sq_tail == r.1,
            final(self).cq_head == old(self).cq_head,
            final(self).phase == old(self).phase,
    {
        let slot = self.sq_tail;
        self.sq_tail = (self.sq_tail + 1) % QUEUE_ENTRIES;
        (slot, self.sq_tail)
    }

    /// Looks at the completion entry at the head, whose status field is
    /// `status`: it is new when its phase bit matches.  A new entry is consumed
    /// and the new head (written to the completion doorbell) returned; the
    /// phase flips each time the head wraps.
    pub fn complete(&mut self, status: u16) -> (r: Option<u16>)
        requires
            old(self).wf(),
        ensures
            final(self).wf(),
            final(self).sq_tail == old(self).sq_tail,
            (status & 1 == 1) != old(self).phase ==> r is None && *final(self) == *old(self),
            (status & 1 == 1) == old(self).phase ==> r == Some(final(self).cq_head)
                && final(self).cq_head == (old(self).cq_head + 1) % 64
                && final(self).phase == (if final(self).cq_head == 0 { !old(self).phase } else { old(self).phase }),
    {
        if (status & 1 == 1) != self.phase {
            return None;
        }
        self.cq_head = (self.cq_head + 1) % QUEUE_ENTRIES;
        if self.cq_head == 0 {
            self.phase = !self.phase;
        }
        Some(self.cq_head)
    }
}

/// The `len` bytes of the big-endian words `data[first..first + n]`, with
/// trailing spaces and NULs removed.
pub open spec fn swapped_bytes(data: Seq<u16>, first: int, n: int) -> Seq<u8> {
    Seq::new((2 * n) as nat, |i: int| if i % 2 == 0 { (data[first + i / 2] >> 8u16) as u8 } else { data[first + i / 2] as u8 })
}

/// `s` without trailing spaces and NUL bytes.
pub open spec fn trim_trailing(s: Seq<u8>) -> Seq<u8>
    decreases s.len(),
{
    if s.len() > 0 && (s.last() == 0x20 || s.last() == 0) {
        trim_trailing(s.drop_last())
    } else {
        s
    }
}

fn swap_words(data: &[u16], first: usize, n: usize) -> (r: Vec<u8>)
    requires
        first + n <= data@.len(),
    ensures
        r@ == swapped_bytes(data@, first as int, n as int),
{
    let mut out: Vec<u8> = Vec::new();
    let len = data.len();
    let mut i: usize = 0;
    while i < n
        invariant
            i <= n,
            len == data@.len(),
            first + n <= len,
            out@ =~= swapped_bytes(data@, first as int, n as int).take(2 * i as int),
        decreases n - i,
    {
        let w = data[first + i];
        out.push((w >> 8u16) as u8);
        out.push(w as u8);
        i = i + 1;
        assert(out@ =~= swapped_bytes(data@, first as int, n as int).take(2 * i as int));
    }
    out
}

fn trim(v: Vec<u8>) -> (r: Vec<u8>)
    ensures
        r@ == trim_trailing(v@),
    decreases v@.len(),
{
    let mut v = v;
    let n = v.len();
    if n > 0 && (v[n - 1] == 0x20 || v[n - 1] == 0) {
        let _ = v.pop();
        trim(v)
    } else {
        v
    }
}

/// What Identify Controller reports: model (words 13-32) and serial number
/// (words 3-6), byte-swapped ASCII without trailing padding, and the maximum
/// queue entries (word 512 plus one).
pub fn parse_identify_controller(data: &[u16]) -> (r: (Vec<u8>, Vec<u8>, u32))
    requires
        data@.len() == 2048,
    ensures
        r.0@ == trim_trailing(swapped_bytes(data@, 13, 20)),
        r.1@ == trim_trailing(swapped_bytes(data@, 3, 4)),
        r.2 == data@[512] + 1,
{
    let model = trim(swap_words(data, 13, 20));
    let serial = trim(swap_words(data, 3, 4));
    (model, serial, data[512] as u32 + 1)
}

/// Namespace size in blocks (bytes 0-7) and block size: 2 to the power of the
/// LBA data size of the format selected by FLBAS (byte 26).
pub open spec fn namespace_spec(data: Seq<u8>) -> (u64, u32) {
    let fmt = 128 + (data[26] & 0x0F) as int * 4;
    (le64(data, 0) as u64, (1u32 << data[fmt + 1] as u32) as u32)
}

/// The LBA data size of the selected format; a block size needs it below 32.
pub open spec fn namespace_lbads(data: Seq<u8>) -> u8 {
    data[128 + (data[26] & 0x0F) as int * 4 + 1]
}

pub fn parse_identify_namespace(data: &[u8]) -> (r: (u64, u32))
    requires
        data@.len() == 4096,
        namespace_lbads(data@) < 32,
    ensures
        r == namespace_spec(data@),
{
    let total_blocks = read_u64_le(data, 0);
    let b26 = data[26];
    let flbas = b26 as usize;
    let lba_fmt_index = flbas & 0x0F;
    assert(flbas & 0x0F <= 15) by (bit_vector);
    assert(lba_fmt_index == (b26 & 0x0F) as usize) by (bit_vector)
        requires
            flbas == b26 as usize,
            lba_fmt_index == flbas & 0x0F,
    ;
    let fmt_offset = 128 + lba_fmt_index * 4;
    let lbads = data[fmt_offset + 1];
    (total_blocks, 1u32 << (lbads as u32))
}

/// Driver state of the controller.
pub struct NvmeController {
    pub mmio_base: u64,
    pub doorbell_stride: u64,
    pub page_size: usize,
    pub admin: QueuePair,
    pub io: QueuePair,
    pub block_size: u32,
    pub total_blocks: u64,
    pub ns_id: u32,
}

/// A block transfer of `blocks` blocks, `buf_size` bytes through a DMA buffer.
pub struct BlockTransfer {
    pub blocks: u32,
    pub buf_size: usize,
    pub command: NvmeCommand,
}

impl NvmeController {
    /// Plans a read or write of `buf_len` bytes at `sector`: as many whole
    /// blocks as fit, the count taken to 32 bits; `None` (nothing to do) when
    /// that count is zero.
    pub fn plan_transfer(&self, write: bool, sector: u64, buf_len: usize, dma_phys: u64) -> (r: Option<BlockTransfer>)
        requires
            self.block_size > 0,
        ensures
            ((buf_len as int) / (self.block_size as int)) as u32 == 0 ==> r is None,
            ((buf_len as int) / (self.block_size as int)) as u32 > 0 ==> (r matches Some(t) && {
                &&& t.blocks == ((buf_len as int) / (self.block_size as int)) as u32
                &&& t.buf_size == t.blocks * self.block_size
                &&& t.buf_size <= buf_len
                &&& t.command == command(if write { NVME_IO_WRITE } else { NVME_IO_READ }, if write { 11 } else { 10 },
                    self.ns_id, dma_phys, sector as u32, (sector >> 32u64) as u32, (t.blocks - 1) as u32)
            }),
    {
        let whole = buf_len / self.block_size as usize;
        let blocks = whole as u32;
        if blocks == 0 {
            return None;
        }
        proof {
            assert(blocks as int <= whole as int) by (bit_vector)
                requires
                    blocks == whole as u32,
            ;
            assert(whole as int * self.block_size as int <= buf_len) by (nonlinear_arith)
                requires
                    whole == (buf_len as int) / (self.block_size as int),
                    self.block_size > 0,
            ;
            assert(blocks as int * self.block_size as int <= whole as int * self.block_size as int) by (nonlinear_arith)
                requires
                    blocks as int <= whole as int,
                    self.block_size >= 0,
            ;
        }
        let buf_size = blocks as usize * self.block_size as usize;
        Some(BlockTransfer { blocks, buf_size, command: io_command(write, self.ns_id, sector, blocks, dma_phys) })
    }

    /// The controller state the driver starts from once the controller has
    /// been found at `dev` and enabled: registers through the higher-half
    /// mapping at BAR0 (flags cleared), doorbell stride and page size from
    /// CAP, empty admin and I/O queues, 512-byte blocks on namespace 1 until
    /// Identify Namespace says otherwise.  An unconfigured BAR0 is an error.
    pub fn from_device(dev: &PciDevice, hhdm: u64, cap: u64) -> (r: Result<NvmeController, &'static str>)
        requires
            hhdm + 0xFFFF_FFFF <= u64::MAX,
        ensures
            (dev.bar0 & 0xFFFF_FFF0) == 0 ==> (r matches Err(e) && e@ == "BAR0 = 0"@),
            (dev.bar0 & 0xFFFF_FFF0) != 0 ==> (r matches Ok(c) && {
                &&& c.mmio_base == hhdm + (dev.bar0 & 0xFFFF_FFF0)
                &&& c.doorbell_stride == doorbell_stride_spec(cap)
                &&& c.page_size == page_size_spec(cap)
                &&& c.admin == QueuePair { sq_tail: 0, cq_head: 0, phase: true }
                &&& c.io == QueuePair { sq_tail: 0, cq_head: 0, phase: true }
                &&& c.block_size == 512
                &&& c.total_blocks == 0
                &&& c.ns_id == 1
            }),
    {
        let bar0 = dev.bar0 & 0xFFFF_FFF0;
        if bar0 == 0 {
            return Err("BAR0 = 0");
        }
        let (doorbell_stride, page_size) = cap_info(cap);
        Ok(NvmeController {
            mmio_base: hhdm + bar0 as u64,
            doorbell_stride,
            page_size: page_size as usize,
            admin: QueuePair::new(),
            io: QueuePair::new(),
            block_size: 512,
            total_blocks: 0,
            ns_id: 1,
        })
    }

    /// Records what Identify Namespace returned: with a successful
    /// completion, the size and block size read from the page; when the
    /// command failed or timed out (`None`), 512-byte blocks and no blocks.
    pub fn apply_namespace(&mut self, completion: Option<u16>, data: &[u8])
        requires
            data@.len() == 4096,
            completion matches Some(s) && status_code_spec(s) == 0 ==> namespace_lbads(data@) < 32,
        ensures
            completion matches Some(s) && status_code_spec(s) == 0 ==> (
                final(self).total_blocks == namespace_spec(data@).0
                && final(self).block_size == namespace_spec(data@).1),
            !(completion matches Some(s) && status_code_spec(s) == 0) ==> (
                final(self).total_blocks == 0 && final(self).block_size == 512),
            final(self).mmio_base == old(self).mmio_base,
            final(self).doorbell_stride == old(self).doorbell_stride,
            final(self).page_size == old(self).page_size,
            final(self).admin == old(self).admin,
            final(self).io == old(self).io,
            final(self).ns_id == old(self).ns_id,
    {
        if command_succeeded(completion) {
            let (total, bs) = parse_identify_namespace(data);
            self.total_blocks = total;
            self.block_size = bs;
        } else {
            self.block_size = 512;
            self.total_blocks = 0;
        }
    }

    /// Result of a transfer from its completion status.
    pub fn transfer_result(status: u16) -> (r: Result<(), FsError>)
        ensures
            status_code_spec(status) == 0 ==> r is Ok,
            status_code_spec(status) != 0 ==> r == Err::<(), FsError>(FsError::IoError),
    {
        if status_code(status) == 0 { Ok(()) } else { Err(FsError::IoError) }
    }
}

/// Whether an admin or I/O command completed (`Some` status) with status
/// code 0.  Queue creation goes on to the submission queue only when the
/// completion queue was created, and succeeds when both were.
pub fn command_succeeded(completion: Option<u16>) -> (r: bool)
    ensures
        r == (completion matches Some(s) && status_code_spec(s) == 0),
{
    match completion {
        Some(s) => status_code(s) == 0,
        None => false,
    }
}

/// Whether a controller is up.
pub fn is_available(ctrl: &Option<NvmeController>) -> (r: bool)
    ensures
        r == ctrl is Some,
{
    ctrl.is_some()
}

/// (total blocks, block size) of the namespace, if a controller is up.
pub fn disk_info(ctrl: &Option<NvmeController>) -> (r: Option<(u64, u32)>)
    ensures
        r == (match ctrl { Some(c) => Some((c.total_blocks, c.block_size)), None => None }),
{
    match ctrl {
        Some(c) => Some((c.total_blocks, c.block_size)),
        None => None,
    }
}

/// A disk object for the file system layer is not handed out: the controller
/// stays owned by the driver.
pub fn create_disk(ctrl: &Option<NvmeController>) -> (r: Option<u64>)
    ensures
        r is None,
{
    if ctrl.is_none() {
        return None;
    }
    None
}

/// Completion-queue head and phase after `n` completions consumed from
/// head `h` with phase `p`.
pub open spec fn consume_n(h: int, p: bool, n: nat) -> (int, bool)
    decreases n,
{
    if n == 0 {
        (h, p)
    } else {
        let prev = consume_n(h, p, (n - 1) as nat);
        let head = (prev.0 + 1) % 64;
        (head, if head == 0 { !prev.1 } else { prev.1 })
    }
}

proof fn lemma_consume_closed(h: int, p: bool, n: nat)
    requires
        0 <= h < 64,
    ensures
        consume_n(h, p, n) == ((h + n) % 64, if ((h + n) / 64) % 2 == 1 { !p } else { p }),
    decreases n,
{
    if n > 0 {
        lemma_consume_closed(h, p, (n - 1) as nat);
        let m = h + n - 1;
        assert(0 <= m % 64 < 64);
        if m % 64 == 63 {
            assert((m + 1) % 64 == 0);
            assert((m + 1) / 64 == m / 64 + 1);
        } else {
            assert((m + 1) % 64 == m % 64 + 1);
            assert((m + 1) / 64 == m / 64);
        }
    }
}

/// Consuming a full ring of 64 completions brings the head back where it
/// was with the phase flipped: an entry left over from the previous pass is
/// never taken for a new one.
pub proof fn lemma_full_ring_flips_phase(h: int, p: bool)
    requires
        0 <= h < 64,
    ensures
        consume_n(h, p, 64) == (h, !p),
{
    lemma_consume_closed(h, p, 64);
    assert((h + 64) % 64 == h);
    assert((h + 64) / 64 == 1);
}

} // verus!
