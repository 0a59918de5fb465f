//! HPET (High Precision Event Timer) table parsing.
use vstd::prelude::*;
use crate::bytes::{le64, sig4, has_sig4, read_u64_le};

verus! {

pub open spec fn is_hpet_sig(t: Seq<u8>) -> bool {
    sig4(t, 0x48, 0x50, 0x45, 0x54)
}

/// (base address, comparator count) of an `HPET` table: the comparator count
/// is byte 1 of the body and the address the 64-bit field at body offset 8.
pub open spec fn hpet_spec(t: Seq<u8>) -> Option<(u64, u8)> {
    if !is_hpet_sig(t) {
        None
    } else {
        Some((le64(t, 44) as u64, t[37]))
    }
}

/// The bytes handed over cover the header and, for an `HPET` table, the body fields read.
pub open spec fn hpet_readable(t: Seq<u8>) -> bool {
    t.len() >= 36 && (is_hpet_sig(t) ==> t.len() >= 52)
}

/// Parses an HPET table whose bytes are `table`: (base address, comparator count).
pub fn parse(table: &[u8]) -> (r: Option<(u64, u8)>)
    requires
        hpet_readable(table@),
    ensures
        r == hpet_spec(table@),
{
    if !has_sig4(table, 0x48, 0x50, 0x45, 0x54) {
        return None;
    }
    let body: usize = 36;
    let comparator_count = table[body + 1];
    let address = read_u64_le(table, body + 8);
    Some((address, comparator_count))
}

} // verus!
