//! MCFG (PCI Express memory-mapped configuration) parsing.
use vstd::prelude::*;
use crate::bytes::{le32, le64, sig4, checksum_valid, checksum_ok, has_sig4, read_u32_le, read_u64_le};

verus! {

/// Size of one packed MCFG allocation entry: base (8), segment (2), start/end bus (2), reserved (4).
pub const MCFG_ENTRY_SIZE: usize = 16;

pub open spec fn is_mcfg_sig(t: Seq<u8>) -> bool {
    sig4(t, 0x4D, 0x43, 0x46, 0x47)
}

/// Number of allocation entries after the header and its 4 reserved bytes.
pub open spec fn mcfg_entry_count(t: Seq<u8>) -> int {
    let len = le32(t, 4);
    let entries_bytes = if len >= 40 { len - 40 } else { 0 };
    entries_bytes / 16
}

/// The ECAM base address of the first allocation, or `None` when the checksum
/// fails, the signature is not `MCFG`, or there is no entry.
pub open spec fn mcfg_spec(t: Seq<u8>) -> Option<u64> {
    if !checksum_valid(t, le32(t, 4)) {
        None
    } else if !is_mcfg_sig(t) {
        None
    } else if mcfg_entry_count(t) == 0 {
        None
    } else {
        Some(le64(t, 44) as u64)
    }
}

/// The bytes handed over cover the header and the whole declared table.
pub open spec fn mcfg_readable(t: Seq<u8>) -> bool {
    t.len() >= 36 && le32(t, 4) <= t.len()
}

/// Parses an MCFG table whose bytes are `table`, returning the MMCONFIG base.
pub fn parse(table: &[u8]) -> (r: Option<u64>)
    requires
        mcfg_readable(table@),
    ensures
        r == mcfg_spec(table@),
{
    let length = read_u32_le(table, 4) as usize;
    if !checksum_ok(table, length) {
        return None;
    }
    if !has_sig4(table, 0x4D, 0x43, 0x46, 0x47) {
        return None;
    }
    let entries_bytes = length.saturating_sub(36 + 4);
    let entry_count = entries_bytes / MCFG_ENTRY_SIZE;
    if entry_count == 0 {
        return None;
    }
    Some(read_u64_le(table, 36 + 4 + 4))
}

} // verus!
