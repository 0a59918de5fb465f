//! RSDP (Root System Description Pointer): signature and checksums.
use vstd::prelude::*;
use crate::bytes::{le32, le64, checksum_valid, checksum_ok, read_u32_le, read_u64_le};

verus! {

/// The RSDP as laid out in memory (36 bytes for revision 2 and later).
pub struct Rsdp {
    pub signature: [u8; 8],
    pub checksum: u8,
    pub oem_id: [u8; 6],
    pub revision: u8,
    pub rsdt_address: u32,
    pub length: u32,
    pub xsdt_address: u64,
    pub extended_checksum: u8,
    pub reserved: [u8; 3],
    /// The bytes the structure was read from (at least 36, up to `length`).
    pub raw: Vec<u8>,
}

/// Whether the bytes start with the signature `"RSD PTR "`.
pub open spec fn rsdp_sig(t: Seq<u8>) -> bool {
    &&& t.len() >= 8
    &&& t[0] == 0x52 && t[1] == 0x53 && t[2] == 0x44 && t[3] == 0x20
    &&& t[4] == 0x50 && t[5] == 0x54 && t[6] == 0x52 && t[7] == 0x20
}

/// Signature and checksum over the first 20 bytes (ACPI 1.0 part).
pub open spec fn rsdp_valid(t: Seq<u8>) -> bool {
    rsdp_sig(t) && checksum_valid(t, 20)
}

/// Extended checksum over `length` bytes; revisions below 2 have none.
pub open spec fn rsdp_valid_extended(t: Seq<u8>) -> bool {
    t[15] < 2 || checksum_valid(t, le32(t, 20))
}

/// The bytes cover the structure and, for a valid revision-2 RSDP, its declared length.
pub open spec fn rsdp_readable(t: Seq<u8>) -> bool {
    t.len() >= 36 && (rsdp_valid(t) && t[15] >= 2 ==> le32(t, 20) <= t.len())
}

impl Rsdp {
    /// The bytes this RSDP was read from.
    pub open spec fn raw_bytes(&self) -> Seq<u8> {
        self.raw@
    }

    /// Reads an RSDP from memory bytes.
    pub fn parse(t: &[u8]) -> (r: Rsdp)
        requires
            t@.len() >= 36,
        ensures
            r.raw_bytes() == t@,
            r.signature@ == t@.subrange(0, 8),
            r.checksum == t@[8],
            r.oem_id@ == t@.subrange(9, 15),
            r.revision == t@[15],
            r.rsdt_address == le32(t@, 16),
            r.length == le32(t@, 20),
            r.xsdt_address == le64(t@, 24),
            r.extended_checksum == t@[32],
            r.reserved@ == t@.subrange(33, 36),
    {
        let mut raw: Vec<u8> = Vec::new();
        let mut i: usize = 0;
        while i < t.len()
            invariant
                i <= t@.len(),
                raw@ == t@.take(i as int),
            decreases t.len() - i,
        {
            raw.push(t[i]);
            i = i + 1;
            assert(raw@ =~= t@.take(i as int));
        }
        assert(raw@ =~= t@);
        let r = Rsdp {
            signature: [t[0], t[1], t[2], t[3], t[4], t[5], t[6], t[7]],
            checksum: t[8],
            oem_id: [t[9], t[10], t[11], t[12], t[13], t[14]],
            revision: t[15],
            rsdt_address: read_u32_le(t, 16),
            length: read_u32_le(t, 20),
            xsdt_address: read_u64_le(t, 24),
            extended_checksum: t[32],
            reserved: [t[33], t[34], t[35]],
            raw,
        };
        assert(r.signature@ =~= t@.subrange(0, 8));
        assert(r.oem_id@ =~= t@.subrange(9, 15));
        assert(r.reserved@ =~= t@.subrange(33, 36));
        r
    }

    /// Checks the signature `"RSD PTR "` and the checksum of the first 20 bytes.
    pub fn validate(&self) -> (r: bool)
        requires
            self.raw_bytes().len() >= 36,
        ensures
            r == rsdp_valid(self.raw_bytes()),
    {
        let t = self.raw.as_slice();
        let sig_ok = t[0] == 0x52 && t[1] == 0x53 && t[2] == 0x44 && t[3] == 0x20
            && t[4] == 0x50 && t[5] == 0x54 && t[6] == 0x52 && t[7] == 0x20;
        if !sig_ok {
            return false;
        }
        checksum_ok(t, 20)
    }

    /// Checks the extended checksum over `length` bytes (revision 2 and later).
    pub fn validate_extended(&self) -> (r: bool)
        requires
            self.raw_bytes().len() >= 36,
            self.raw_bytes()[15] >= 2 ==> le32(self.raw_bytes(), 20) <= self.raw_bytes().len(),
        ensures
            r == rsdp_valid_extended(self.raw_bytes()),
    {
        let t = self.raw.as_slice();
        if t[15] < 2 {
            return true;
        }
        let length = read_u32_le(t, 20) as usize;
        checksum_ok(t, length)
    }
}

/// The RSDP location reported by the boot loader may be virtual or physical.
/// `direct` holds the bytes read at `addr` itself and `via_hhdm` those read at
/// `addr` plus the higher-half offset.  Returns the virtual address of a valid
/// RSDP: `addr` when the direct bytes validate, else `hhdm + addr` when those do.
pub open spec fn find_rsdp_spec(addr: usize, hhdm: u64, direct: Seq<u8>, via_hhdm: Seq<u8>) -> Option<usize> {
    if addr == 0 {
        None
    } else if rsdp_valid(direct) && rsdp_valid_extended(direct) {
        Some(addr)
    } else if !rsdp_valid(via_hhdm) || !rsdp_valid_extended(via_hhdm) {
        None
    } else {
        Some((hhdm + addr) as usize)
    }
}

pub fn find_rsdp(addr: usize, hhdm: u64, direct: &[u8], via_hhdm: &[u8]) -> (r: Option<usize>)
    requires
        addr != 0 ==> rsdp_readable(direct@) && rsdp_readable(via_hhdm@),
        hhdm + addr <= usize::MAX,
    ensures
        r == find_rsdp_spec(addr, hhdm, direct@, via_hhdm@),
{
    if addr == 0 {
        return None;
    }
    let rsdp = Rsdp::parse(direct);
    if rsdp.validate() && rsdp.validate_extended() {
        return Some(addr);
    }
    let virt = hhdm as usize + addr;
    let rsdp = Rsdp::parse(via_hhdm);
    if !rsdp.validate() {
        return None;
    }
    if !rsdp.validate_extended() {
        return None;
    }
    Some(virt)
}

} // verus!
