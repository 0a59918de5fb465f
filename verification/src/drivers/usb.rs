//! USB host controllers found on the PCI bus (class 0x0C, subclass 0x03).
use vstd::prelude::*;
use crate::drivers::pci::PciDevice;

verus! {

/// A detected USB host controller.
#[derive(Clone, Copy, Debug)]
pub struct UsbController {
    pub vendor: u16,
    pub device: u16,
    pub mmio_base: u64,
    pub port_count: u8,
    pub version: u16,
}

/// How a USB controller found on the bus is handled.
pub enum UsbProbe {
    /// BAR0 is an I/O BAR: skipped, a memory BAR is needed.
    IoBar,
    /// BAR0 is a memory BAR at zero: skipped.
    ZeroBar,
    /// Read the capability registers at this physical address.
    Mmio(u64),
}

pub fn probe_decision(dev: &PciDevice) -> (r: UsbProbe)
    ensures
        dev.bar0 & 1 == 1 ==> r is IoBar,
        dev.bar0 & 1 == 0 && (dev.bar0 as u64) & 0xFFFF_FFF0 == 0 ==> r is ZeroBar,
        dev.bar0 & 1 == 0 && (dev.bar0 as u64) & 0xFFFF_FFF0 != 0 ==> r == UsbProbe::Mmio((dev.bar0 as u64) & 0xFFFF_FFF0),
{
    if dev.is_io_bar(0) {
        return UsbProbe::IoBar;
    }
    let bar0_phys = dev.bar0_phys();
    if bar0_phys == 0 {
        return UsbProbe::ZeroBar;
    }
    UsbProbe::Mmio(bar0_phys)
}

/// The controller record from its capability registers: the port count is
/// the low byte of HCSPARAMS1.
pub fn controller_from_caps(dev: &PciDevice, mmio_base: u64, hci_version: u16, hcsparams1: u32) -> (c: UsbController)
    ensures
        c == (UsbController {
            vendor: dev.vendor_id,
            device: dev.device_id,
            mmio_base,
            port_count: (hcsparams1 & 0xFF) as u8,
            version: hci_version,
        }),
{
    UsbController {
        vendor: dev.vendor_id,
        device: dev.device_id,
        mmio_base,
        port_count: (hcsparams1 & 0xFF) as u8,
        version: hci_version,
    }
}

/// Major and minor interface version from HCIVERSION.
pub fn version_parts(hci_version: u16) -> (r: (u8, u8))
    ensures
        r.0 == (hci_version >> 8u16) as u8,
        r.1 == (hci_version & 0xFF) as u8,
{
    ((hci_version >> 8u16) as u8, (hci_version & 0xFF) as u8)
}

/// A copy of the list of controllers.
pub fn get_controllers(list: &Vec<UsbController>) -> (r: Vec<UsbController>)
    ensures
        r@ == list@,
{
    let mut out: Vec<UsbController> = Vec::new();
    let mut i: usize = 0;
    while i < list.len()
        invariant
            i <= list@.len(),
            out@ == list@.take(i as int),
        decreases list.len() - i,
    {
        out.push(list[i]);
        i = i + 1;
        assert(out@ =~= list@.take(i as int));
    }
    assert(list@.take(list@.len() as int) =~= list@);
    out
}

} // verus!
