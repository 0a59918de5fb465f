//! System Description Table header and the XSDT/RSDT table directory.
use vstd::prelude::*;
use crate::bytes::{le32, le64, sig4, checksum_valid, checksum_ok, has_sig4, read_u32_le, read_u64_le};

verus! {

/// Size in bytes of every SDT header.
pub const SDT_HEADER_SIZE: usize = 36;

/// Header shared by the RSDT/XSDT and every table they list.
pub struct SdtHeader {
    pub signature: [u8; 4],
    pub length: u32,
    pub revision: u8,
    pub checksum: u8,
    pub oem_id: [u8; 6],
    pub oem_table_id: [u8; 8],
    pub oem_revision: u32,
    pub creator_id: u32,
    pub creator_revision: u32,
}

impl SdtHeader {
    /// Reads the header from the first 36 bytes of a table.
    pub fn parse(t: &[u8]) -> (h: SdtHeader)
        requires
            t@.len() >= 36,
        ensures
            h.signature@ == t@.subrange(0, 4),
            h.length == le32(t@, 4),
            h.revision == t@[8],
            h.checksum == t@[9],
            h.oem_id@ == t@.subrange(10, 16),
            h.oem_table_id@ == t@.subrange(16, 24),
            h.oem_revision == le32(t@, 24),
            h.creator_id == le32(t@, 28),
            h.creator_revision == le32(t@, 32),
    {
        let h = SdtHeader {
            signature: [t[0], t[1], t[2], t[3]],
            length: read_u32_le(t, 4),
            revision: t[8],
            checksum: t[9],
            oem_id: [t[10], t[11], t[12], t[13], t[14], t[15]],
            oem_table_id: [t[16], t[17], t[18], t[19], t[20], t[21], t[22], t[23]],
            oem_revision: read_u32_le(t, 24),
            creator_id: read_u32_le(t, 28),
            creator_revision: read_u32_le(t, 32),
        };
        assert(h.signature@ =~= t@.subrange(0, 4));
        assert(h.oem_id@ =~= t@.subrange(10, 16));
        assert(h.oem_table_id@ =~= t@.subrange(16, 24));
        h
    }

    /// Checks the table checksum over its whole `length`; `table` holds the
    /// bytes of the table this header was read from.
    pub fn validate(&self, table: &[u8]) -> (r: bool)
        requires
            self.length <= table@.len(),
        ensures
            r == checksum_valid(table@, self.length as int),
    {
        checksum_ok(table, self.length as usize)
    }
}

/// Value of directory entry `i`: a 64-bit address in an XSDT, 32-bit in an RSDT.
pub open spec fn sdt_entry(t: Seq<u8>, is_xsdt: bool, i: int) -> usize {
    if is_xsdt {
        le64(t, 36 + 8 * i) as usize
    } else {
        le32(t, 36 + 4 * i) as usize
    }
}

/// The non-zero addresses among the first `n` directory entries, in order.
pub open spec fn sdt_entries(t: Seq<u8>, is_xsdt: bool, n: nat) -> Seq<usize>
    decreases n,
{
    if n == 0 {
        Seq::empty()
    } else {
        let prev = sdt_entries(t, is_xsdt, (n - 1) as nat);
        let a = sdt_entry(t, is_xsdt, n - 1);
        if a != 0 {
            prev.push(a)
        } else {
            prev
        }
    }
}

pub open spec fn is_xsdt_sig(t: Seq<u8>) -> bool {
    sig4(t, 0x58, 0x53, 0x44, 0x54)
}

pub open spec fn is_rsdt_sig(t: Seq<u8>) -> bool {
    sig4(t, 0x52, 0x53, 0x44, 0x54)
}

/// Whether the directory at `t` has a recognised signature and a sane length.
pub open spec fn sdt_directory_ok(t: Seq<u8>) -> bool {
    &&& is_xsdt_sig(t) || is_rsdt_sig(t)
    &&& 36 <= le32(t, 4) <= 0x10000
}

/// Number of entries in a well-formed directory.
pub open spec fn sdt_entry_count(t: Seq<u8>) -> nat {
    let es: int = if is_xsdt_sig(t) { 8 } else { 4 };
    ((le32(t, 4) - 36) / es) as nat
}

/// Addresses of the tables listed by the directory at physical address `phys`
/// whose bytes are `t`.
pub open spec fn xsdt_tables(phys: u64, t: Seq<u8>) -> Seq<usize> {
    if phys == 0 || !sdt_directory_ok(t) {
        Seq::empty()
    } else {
        sdt_entries(t, is_xsdt_sig(t), sdt_entry_count(t))
    }
}

/// The bytes handed over cover everything the directory walk reads.
pub open spec fn xsdt_readable(phys: u64, t: Seq<u8>) -> bool {
    phys != 0 ==> {
        &&& t.len() >= 36
        &&& sdt_directory_ok(t) ==> le32(t, 4) <= t.len()
    }
}

/// Lists the addresses of all tables named by the XSDT (or RSDT) at `xsdt_phys`;
/// `table` holds the directory's bytes.  Zero entries are skipped.
pub fn enumerate_xsdt(xsdt_phys: u64, table: &[u8]) -> (r: Vec<usize>)
    requires
        xsdt_readable(xsdt_phys, table@),
    ensures
        r@ == xsdt_tables(xsdt_phys, table@),
{
    let mut result: Vec<usize> = Vec::new();
    if xsdt_phys == 0 {
        return result;
    }
    let is_xsdt = has_sig4(table, 0x58, 0x53, 0x44, 0x54);
    let is_rsdt = has_sig4(table, 0x52, 0x53, 0x44, 0x54);
    if !is_xsdt && !is_rsdt {
        return result;
    }
    let xsdt_len = read_u32_le(table, 4) as usize;
    if xsdt_len < SDT_HEADER_SIZE || xsdt_len > 0x10000 {
        return result;
    }
    let entry_size: usize = if is_xsdt { 8 } else { 4 };
    let entry_count = (xsdt_len - SDT_HEADER_SIZE) / entry_size;
    assert(entry_count == sdt_entry_count(table@));
    proof {
        assert(entry_count * entry_size <= xsdt_len - 36) by (nonlinear_arith)
            requires
                entry_count == (xsdt_len - 36) / (entry_size as int),
                entry_size > 0,
                xsdt_len >= 36,
        ;
    }
    let mut i: usize = 0;
    while i < entry_count
        invariant
            i <= entry_count,
            entry_count * entry_size <= xsdt_len - 36,
            xsdt_len <= table@.len(),
            entry_size == (if is_xsdt { 8usize } else { 4usize }),
            result@ == sdt_entries(table@, is_xsdt, i as nat),
        decreases entry_count - i,
    {
        proof {
            assert((i + 1) * entry_size <= entry_count * entry_size) by (nonlinear_arith)
                requires
                    i < entry_count,
                    entry_size > 0,
            ;
        }
        let entry_addr = SDT_HEADER_SIZE + i * entry_size;
        let addr: usize = if is_xsdt {
            read_u64_le(table, entry_addr) as usize
        } else {
            read_u32_le(table, entry_addr) as usize
        };
        if addr != 0 {
            result.push(addr);
        }
        i = i + 1;
    }
    result
}

} // verus!
