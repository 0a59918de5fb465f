//! MADT (Multiple APIC Description Table) parsing.
use vstd::prelude::*;
use crate::bytes::{le32, le64, sig4, has_sig4, read_u32_le, lemma_le64_low_half};

verus! {

/// What the MADT tells about the interrupt controllers.
pub struct MadtInfo {
    pub lapic_addr: u32,
    pub io_apic_addr: Option<u32>,
    pub io_apic_id: Option<u8>,
    /// Interrupt source overrides on bus 0: (source IRQ, global system interrupt).
    pub iso: Vec<(u8, u32)>,
}

/// Abstract value of a `MadtInfo`: (LAPIC address, IO APIC address, IO APIC id, overrides).
pub type MadtView = (u32, Option<u32>, Option<u8>, Seq<(u8, u32)>);

impl MadtInfo {
    pub open spec fn view(&self) -> MadtView {
        (self.lapic_addr, self.io_apic_addr, self.io_apic_id, self.iso@)
    }
}

pub open spec fn is_madt_sig(t: Seq<u8>) -> bool {
    sig4(t, 0x41, 0x50, 0x49, 0x43)
}

/// Effect of the record at offset `p` on the parse state.
pub open spec fn madt_record(t: Seq<u8>, p: int, st: MadtView) -> MadtView {
    let ty = t[p];
    if ty == 1 {
        (st.0, Some(le32(t, p + 4) as u32), Some(t[p + 2]), st.3)
    } else if ty == 2 {
        if t[p + 2] == 0 {
            (st.0, st.1, st.2, st.3.push((t[p + 3], le32(t, p + 4) as u32)))
        } else {
            st
        }
    } else if ty == 5 {
        ((le64(t, p + 4) % 0x1_0000_0000) as u32, st.1, st.2, st.3)
    } else {
        st
    }
}

/// Walks the variable-length records from offset `p` up to `end`.  A record
/// shorter than two bytes stops the walk.
pub open spec fn madt_walk(t: Seq<u8>, p: int, end: int, st: MadtView) -> MadtView
    decreases end + 256 - p,
{
    if p + 2 > end || t[p + 1] < 2 {
        st
    } else {
        madt_walk(t, p + t[p + 1], end, madt_record(t, p, st))
    }
}

/// The MADT's content, `None` when the signature is not `APIC`.
pub open spec fn madt_spec(t: Seq<u8>) -> Option<MadtView> {
    if !is_madt_sig(t) {
        None
    } else {
        Some(madt_walk(t, 44, le32(t, 4), (le32(t, 36) as u32, None, None, Seq::empty())))
    }
}

/// Offsets of the records the walk from `p` to `end` visits, in order.
pub open spec fn record_starts(t: Seq<u8>, p: int, end: int) -> Seq<int>
    decreases end + 256 - p,
{
    if p + 2 > end || t[p + 1] < 2 {
        Seq::empty()
    } else {
        seq![p] + record_starts(t, p + t[p + 1], end)
    }
}

proof fn lemma_walk_io_apic(t: Seq<u8>, p: int, end: int, st: MadtView)
    ensures
        ({
            let ps = record_starts(t, p, end);
            let r = madt_walk(t, p, end, st);
            &&& (forall|k: int| 0 <= k < ps.len() ==> t[#[trigger] ps[k]] != 1) ==> r.1 == st.1 && r.2 == st.2
            &&& forall|k: int| 0 <= k < ps.len() && t[#[trigger] ps[k]] == 1
                && (forall|j: int| k < j < ps.len() ==> t[ps[j]] != 1)
                ==> r.1 == Some(le32(t, ps[k] + 4) as u32) && r.2 == Some(t[ps[k] + 2])
        }),
    decreases end + 256 - p,
{
    if p + 2 > end || t[p + 1] < 2 {
    } else {
        let q = p + t[p + 1];
        let st2 = madt_record(t, p, st);
        lemma_walk_io_apic(t, q, end, st2);
        let ps = record_starts(t, p, end);
        let rest = record_starts(t, q, end);
        assert(ps == seq![p] + rest);
        assert forall|k: int| 0 <= k < rest.len() implies ps[k + 1] == rest[k] by {}
        let r = madt_walk(t, p, end, st);
        assert(r == madt_walk(t, q, end, st2));
        if forall|k: int| 0 <= k < ps.len() ==> t[#[trigger] ps[k]] != 1 {
            assert(t[ps[0]] != 1);
            assert forall|k: int| 0 <= k < rest.len() implies t[#[trigger] rest[k]] != 1 by {
                assert(t[ps[k + 1]] != 1);
            }
        }
        assert forall|k: int| 0 <= k < ps.len() && t[#[trigger] ps[k]] == 1
            && (forall|j: int| k < j < ps.len() ==> t[ps[j]] != 1)
            implies r.1 == Some(le32(t, ps[k] + 4) as u32) && r.2 == Some(t[ps[k] + 2]) by {
            if k == 0 {
                assert forall|j: int| 0 <= j < rest.len() implies t[#[trigger] rest[j]] != 1 by {
                    assert(t[ps[j + 1]] != 1);
                }
            } else {
                assert(rest[k - 1] == ps[k]);
                assert forall|j: int| k - 1 < j < rest.len() implies t[rest[j]] != 1 by {
                    assert(rest[j] == ps[j + 1]);
                }
            }
        }
    }
}

/// The IO APIC a MADT reports is the one of its last IO APIC record (type 1)
/// among the records the walk visits: the address is the little-endian
/// 32-bit field at byte 4 of that record and the id its byte 2; with no IO
/// APIC record there is none.
pub proof fn lemma_madt_io_apic(t: Seq<u8>)
    requires
        is_madt_sig(t),
    ensures
        ({
            let ps = record_starts(t, 44, le32(t, 4));
            let v = madt_spec(t)->0;
            &&& (forall|k: int| 0 <= k < ps.len() ==> t[#[trigger] ps[k]] != 1) ==> v.1 is None && v.2 is None
            &&& forall|k: int| 0 <= k < ps.len() && t[#[trigger] ps[k]] == 1
                && (forall|j: int| k < j < ps.len() ==> t[ps[j]] != 1)
                ==> v.1 == Some(le32(t, ps[k] + 4) as u32) && v.2 == Some(t[ps[k] + 2])
        }),
{
    lemma_walk_io_apic(t, 44, le32(t, 4), (le32(t, 36) as u32, None, None, Seq::empty()));
}

/// The bytes handed over cover everything the parse reads: the header, and
/// for an `APIC` table up to ten bytes past its declared end (the widest
/// record field read from the last record start).
pub open spec fn madt_readable(t: Seq<u8>) -> bool {
    &&& t.len() >= 36
    &&& is_madt_sig(t) ==> t.len() >= 44 && t.len() >= le32(t, 4) + 10
}

/// Parses a MADT whose bytes are `table`.
pub fn parse(table: &[u8]) -> (r: Option<MadtInfo>)
    requires
        madt_readable(table@),
    ensures
        r matches Some(i) ==> madt_spec(table@) == Some(i@),
        r is None <==> madt_spec(table@) is None,
{
    if !has_sig4(table, 0x41, 0x50, 0x49, 0x43) {
        return None;
    }
    let table_len = read_u32_le(table, 4) as u64;
    let lapic_addr = read_u32_le(table, 36);
    let mut info = MadtInfo { lapic_addr, io_apic_addr: None, io_apic_id: None, iso: Vec::new() };
    let ghost t = table@;
    let ghost init: MadtView = (lapic_addr, None, None, Seq::empty());
    assert(info@ =~= init);
    let mut ptr: u64 = 44;
    while ptr + 2 <= table_len
        invariant
            t == table@,
            is_madt_sig(t),
            table_len == le32(t, 4),
            t.len() >= table_len + 10,
            44 <= ptr,
            ptr <= table_len + 255,
            madt_walk(t, ptr as int, table_len as int, info@) == madt_walk(t, 44, table_len as int, init),
        ensures
            madt_walk(t, ptr as int, table_len as int, info@) == madt_walk(t, 44, table_len as int, init),
            madt_walk(t, ptr as int, table_len as int, info@) == info@,
        decreases table_len + 256 - ptr,
    {
        let p = ptr as usize;
        let record_type = table[p];
        let record_len = table[p + 1] as u64;
        if record_len < 2 {
            break;
        }
        let ghost before = info@;
        if record_type == 1 {
            let ioapic_id = table[p + 2];
            let ioapic_addr = read_u32_le(table, p + 4);
            info.io_apic_addr = Some(ioapic_addr);
            info.io_apic_id = Some(ioapic_id);
        } else if record_type == 2 {
            let bus = table[p + 2];
            let source = table[p + 3];
            let gsi = read_u32_le(table, p + 4);
            if bus == 0 {
                info.iso.push((source, gsi));
            }
        } else if record_type == 5 {
            proof { lemma_le64_low_half(t, p + 4); }
            info.lapic_addr = read_u32_le(table, p + 4);
        }
        assert(info@ =~= madt_record(t, p as int, before));
        ptr = ptr + record_len;
    }
    Some(info)
}

} // verus!
