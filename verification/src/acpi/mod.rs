//! ACPI tables: RSDP, the SDT directory, MADT, MCFG and HPET, and the
//! summary the kernel keeps of them.
pub mod sdt;
pub mod madt;
pub mod mcfg;
pub mod hpet;
pub mod rsdp;

use vstd::prelude::*;
use crate::acpi::madt::{is_madt_sig, madt_readable, madt_spec};
use crate::acpi::mcfg::{is_mcfg_sig, mcfg_readable, mcfg_spec};
use crate::acpi::hpet::{is_hpet_sig, hpet_readable, hpet_spec};
use crate::bytes::has_sig4;

verus! {

/// What the kernel learned from the ACPI tables.
pub struct AcpiInfo {
    pub lapic_addr: Option<u32>,
    pub io_apic_addr: Option<u32>,
    pub io_apic_id: Option<u8>,
    pub iso: Vec<(u8, u32)>,
    pub mcfg_base: Option<u64>,
    pub hpet_base: Option<u64>,
    pub hpet_comparator_count: Option<u8>,
}

/// Abstract value of an `AcpiInfo`, field by field.
pub type AcpiView = (Option<u32>, Option<u32>, Option<u8>, Seq<(u8, u32)>, Option<u64>, Option<u64>, Option<u8>);

impl AcpiInfo {
    pub open spec fn view(&self) -> AcpiView {
        (self.lapic_addr, self.io_apic_addr, self.io_apic_id, self.iso@, self.mcfg_base,
            self.hpet_base, self.hpet_comparator_count)
    }

    /// Nothing known yet.
    pub fn empty() -> (r: AcpiInfo)
        ensures
            r@ == acpi_empty(),
    {
        let r = AcpiInfo {
            lapic_addr: None,
            io_apic_addr: None,
            io_apic_id: None,
            iso: Vec::new(),
            mcfg_base: None,
            hpet_base: None,
            hpet_comparator_count: None,
        };
        assert(r@ =~= acpi_empty());
        r
    }
}

pub open spec fn acpi_empty() -> AcpiView {
    (None, None, None, Seq::empty(), None, None, None)
}

/// Effect of one listed table (given by its bytes) on the summary.
pub open spec fn acpi_step(st: AcpiView, t: Seq<u8>) -> AcpiView {
    if is_madt_sig(t) {
        match madt_spec(t) {
            Some(m) => (Some(m.0), m.1, m.2, m.3, st.4, st.5, st.6),
            None => st,
        }
    } else if is_mcfg_sig(t) {
        match mcfg_spec(t) {
            Some(b) => (st.0, st.1, st.2, st.3, Some(b), st.5, st.6),
            None => st,
        }
    } else if is_hpet_sig(t) {
        match hpet_spec(t) {
            Some(h) => (st.0, st.1, st.2, st.3, st.4, Some(h.0), Some(h.1)),
            None => st,
        }
    } else {
        st
    }
}

/// Summary after the first `n` tables.
pub open spec fn acpi_fold(ts: Seq<Seq<u8>>, n: nat) -> AcpiView
    decreases n,
{
    if n == 0 {
        acpi_empty()
    } else {
        acpi_step(acpi_fold(ts, (n - 1) as nat), ts[n - 1])
    }
}

/// The bytes of a listed table cover what the parser for its signature reads.
pub open spec fn table_readable(t: Seq<u8>) -> bool {
    &&& t.len() >= 36
    &&& madt_readable(t)
    &&& is_mcfg_sig(t) ==> mcfg_readable(t)
    &&& hpet_readable(t)
}

/// The table directory to walk: the XSDT for revision 2 and later when present,
/// else the RSDT, else none.
pub open spec fn root_table_spec(revision: u8, xsdt: u64, rsdt: u32) -> Option<u64> {
    if revision >= 2 && xsdt != 0 {
        Some(xsdt)
    } else if rsdt != 0 {
        Some(rsdt as u64)
    } else {
        None
    }
}

pub fn root_table_address(r: &rsdp::Rsdp) -> (a: Option<u64>)
    ensures
        a == root_table_spec(r.revision, r.xsdt_address, r.rsdt_address),
{
    let rev = r.revision;
    let xsdt_addr = r.xsdt_address;
    let rsdt_addr = r.rsdt_address;
    if rev >= 2 && xsdt_addr != 0 {
        Some(xsdt_addr)
    } else if rsdt_addr != 0 {
        Some(rsdt_addr as u64)
    } else {
        None
    }
}

/// Builds the ACPI summary from the bytes of every table the directory lists,
/// in directory order: MADT, MCFG and HPET contribute, other tables are skipped.
pub fn init(tables: &[Vec<u8>]) -> (info: AcpiInfo)
    requires
        forall|i: int| 0 <= i < tables@.len() ==> table_readable(#[trigger] tables@[i]@),
    ensures
        info@ == acpi_fold(tables@.map_values(|v: Vec<u8>| v@), tables@.len() as nat),
{
    let ghost ts = tables@.map_values(|v: Vec<u8>| v@);
    let mut info = AcpiInfo::empty();
    let mut i: usize = 0;
    while i < tables.len()
        invariant
            i <= tables@.len(),
            ts == tables@.map_values(|v: Vec<u8>| v@),
            forall|k: int| 0 <= k < tables@.len() ==> table_readable(#[trigger] tables@[k]@),
            info@ == acpi_fold(ts, i as nat),
        decreases tables.len() - i,
    {
        let t = tables[i].as_slice();
        assert(ts[i as int] == t@);
        assert(table_readable(tables@[i as int]@));
        let ghost before = info@;
        if has_sig4(t, 0x41, 0x50, 0x49, 0x43) {
            if let Some(m) = madt::parse(t) {
                info.lapic_addr = Some(m.lapic_addr);
                info.io_apic_addr = m.io_apic_addr;
                info.io_apic_id = m.io_apic_id;
                info.iso = m.iso;
            }
        } else if has_sig4(t, 0x4D, 0x43, 0x46, 0x47) {
            if let Some(base) = mcfg::parse(t) {
                info.mcfg_base = Some(base);
            }
        } else if has_sig4(t, 0x48, 0x50, 0x45, 0x54) {
            if let Some((base, count)) = hpet::parse(t) {
                info.hpet_base = Some(base);
                info.hpet_comparator_count = Some(count);
            }
        }
        assert(info@ =~= acpi_step(before, ts[i as int]));
        i = i + 1;
    }
    info
}

} // verus!
