//! PCI configuration space: address encoding, register decoding, the bus
//! scan order and the table of discovered devices.
use vstd::prelude::*;

verus! {

/// Address written to port 0xCF8 to select a configuration dword.
pub open spec fn config_address_spec(bus: u8, dev: u8, func: u8, offset: u8) -> u32 {
    ((1u32 << 31u32) | ((bus as u32) << 16u32) | ((dev as u32) << 11u32) | ((func as u32) << 8u32)
        | ((offset & 0xFC) as u32)) as u32
}

pub fn config_address(bus: u8, dev: u8, func: u8, offset: u8) -> (r: u32)
    ensures
        r == config_address_spec(bus, dev, func, offset),
{
    (1u32 << 31u32) | ((bus as u32) << 16u32) | ((dev as u32) << 11u32) | ((func as u32) << 8u32)
        | ((offset & 0xFC) as u32)
}

/// The 16-bit register at `offset` inside the dword read from `offset & 0xFC`.
pub open spec fn extract_u16_spec(dword: u32, offset: u8) -> u16 {
    ((dword >> (((offset & 2) as u32) * 8)) & 0xFFFF) as u16
}

/// The 8-bit register at `offset` inside the dword read from `offset & 0xFC`.
pub open spec fn extract_u8_spec(dword: u32, offset: u8) -> u8 {
    ((dword >> (((offset & 3) as u32) * 8)) & 0xFF) as u8
}

pub fn extract_u16(dword: u32, offset: u8) -> (r: u16)
    ensures
        r == extract_u16_spec(dword, offset),
{
    assert((offset & 2) <= 2) by (bit_vector);
    ((dword >> (((offset & 2) as u32) * 8)) & 0xFFFF) as u16
}

pub fn extract_u8(dword: u32, offset: u8) -> (r: u8)
    ensures
        r == extract_u8_spec(dword, offset),
{
    assert((offset & 3) <= 3) by (bit_vector);
    ((dword >> (((offset & 3) as u32) * 8)) & 0xFF) as u8
}

/// The command register value that turns on bus mastering (bit 2, needed
/// for DMA) and memory space decoding (bit 1), keeping the other bits of the
/// dword read at offset 0x04.
pub fn bus_master_command(command: u32) -> (r: u32)
    ensures
        r == command | 6,
{
    assert(((1u32 << 2u32) | (1u32 << 1u32)) == 6u32) by (bit_vector);
    command | ((1u32 << 2u32) | (1u32 << 1u32))
}

/// Physical address held by a BAR whose low dword is `low` and, for a 64-bit
/// memory BAR, whose following dword is `high`.
pub open spec fn decode_bar_spec(low: u32, high: u32) -> u64 {
    if low & 1 == 0 {
        if (low >> 1u32) & 3 == 2 {
            ((high as u64) << 32u64) | ((low as u64) & 0xFFFF_FFF0)
        } else {
            (low as u64) & 0xFFFF_FFF0
        }
    } else {
        (low & !3u32) as u64
    }
}

pub fn decode_bar(low: u32, high: u32) -> (r: u64)
    ensures
        r == decode_bar_spec(low, high),
{
    if low & 1 == 0 {
        let bar_type = (low >> 1u32) & 0x3;
        if bar_type == 2 {
            ((high as u64) << 32u64) | ((low as u64) & 0xFFFF_FFF0)
        } else {
            (low as u64) & 0xFFFF_FFF0
        }
    } else {
        (low & !3u32) as u64
    }
}

/// A discovered PCI function.
#[derive(Clone, Copy)]
pub struct PciDevice {
    pub bus: u8,
    pub dev: u8,
    pub func: u8,
    pub vendor_id: u16,
    pub device_id: u16,
    pub class: u8,
    pub subclass: u8,
    pub prog_if: u8,
    pub header_type: u8,
    pub bar0: u32,
    pub bar1: u32,
    pub bar2: u32,
    pub bar3: u32,
    pub bar4: u32,
    pub bar5: u32,
    pub bar_phys: [u64; 6],
    pub irq: u8,
}

pub open spec fn class_name_spec(class: u8) -> Seq<char> {
    if class == 0x00 { "Unclassified"@ }
    else if class == 0x01 { "Mass Storage"@ }
    else if class == 0x02 { "Network"@ }
    else if class == 0x03 { "Display"@ }
    else if class == 0x04 { "Multimedia"@ }
    else if class == 0x05 { "Memory"@ }
    else if class == 0x06 { "Bridge"@ }
    else if class == 0x07 { "Communication"@ }
    else if class == 0x08 { "System"@ }
    else if class == 0x09 { "Input"@ }
    else if class == 0x0A { "Docking"@ }
    else if class == 0x0B { "Processor"@ }
    else if class == 0x0C { "Serial Bus"@ }
    else if class == 0x0D { "Wireless"@ }
    else if class == 0x0E { "Intelligent I/O"@ }
    else if class == 0x0F { "Satellite"@ }
    else if class == 0x10 { "Cryptographic"@ }
    else if class == 0x11 { "Signal Processing"@ }
    else if class == 0x12 { "Processing Accelerator"@ }
    else if class == 0x13 { "Non-Essential Instrumentation"@ }
    else { "Other"@ }
}

pub open spec fn subclass_name_spec(class: u8, subclass: u8) -> Seq<char> {
    if class == 0x01 && subclass == 0x00 { "SCSI"@ }
    else if class == 0x01 && subclass == 0x01 { "IDE"@ }
    else if class == 0x01 && subclass == 0x06 { "SATA (AHCI)"@ }
    else if class == 0x01 && subclass == 0x08 { "NVMe"@ }
    else if class == 0x06 && subclass == 0x00 { "Host Bridge"@ }
    else if class == 0x06 && subclass == 0x01 { "ISA Bridge"@ }
    else if class == 0x06 && subclass == 0x04 { "PCI-to-PCI Bridge"@ }
    else if class == 0x03 && subclass == 0x00 { "VGA"@ }
    else if class == 0x02 && subclass == 0x00 { "Ethernet"@ }
    else if class == 0x0C && subclass == 0x03 { "USB"@ }
    else { ""@ }
}

/// Raw value of BAR `n` of a device.
pub open spec fn bar_value(d: PciDevice, n: int) -> u32 {
    if n == 0 { d.bar0 }
    else if n == 1 { d.bar1 }
    else if n == 2 { d.bar2 }
    else if n == 3 { d.bar3 }
    else if n == 4 { d.bar4 }
    else { d.bar5 }
}

/// Physical address recorded for BAR `i` while scanning, from the raw BAR dwords.
pub open spec fn scanned_bar_phys(bars: Seq<u32>, i: int) -> u64 {
    let raw = bars[i];
    if raw == 0 || raw == 0xFFFF_FFFF {
        0
    } else if raw & 1 == 0 && (raw >> 1u32) & 3 == 2 && i < 5 {
        decode_bar_spec(raw, bars[i + 1])
    } else if raw & 1 == 0 {
        (raw as u64) & 0xFFFF_FFF0
    } else {
        (raw & !3u32) as u64
    }
}

/// The device described by the first sixteen configuration dwords `regs` of
/// function `bus:dev.func`.
pub open spec fn device_from_config_spec(bus: u8, dev: u8, func: u8, regs: Seq<u32>, d: PciDevice) -> bool {
    &&& d.bus == bus && d.dev == dev && d.func == func
    &&& d.vendor_id == extract_u16_spec(regs[0], 0x00)
    &&& d.device_id == extract_u16_spec(regs[0], 0x02)
    &&& d.class == ((regs[2] >> 24u32) & 0xFF) as u8
    &&& d.subclass == ((regs[2] >> 16u32) & 0xFF) as u8
    &&& d.prog_if == ((regs[2] >> 8u32) & 0xFF) as u8
    &&& d.header_type == extract_u8_spec(regs[3], 0x0E)
    &&& d.bar0 == regs[4] && d.bar1 == regs[5] && d.bar2 == regs[6]
    &&& d.bar3 == regs[7] && d.bar4 == regs[8] && d.bar5 == regs[9]
    &&& forall|i: int| 0 <= i < 6 ==> d.bar_phys@[i] == scanned_bar_phys(regs.subrange(4, 10), i)
    &&& d.irq == extract_u8_spec(regs[15], 0x3C)
}

/// The class-code dword (offset 0x08) of a function is its revision in the
/// low byte, then the programming interface, the subclass and, in the most
/// significant byte, the class: the device record holds the class from
/// byte 0x0B, the subclass from 0x0A and the programming interface from
/// 0x09, and together with the revision they give the dword back.
pub proof fn lemma_class_bytes(bus: u8, dev: u8, func: u8, regs: Seq<u32>, d: PciDevice)
    requires
        regs.len() == 16,
        device_from_config_spec(bus, dev, func, regs, d),
    ensures
        d.class == extract_u8_spec(regs[2], 0x0B),
        d.subclass == extract_u8_spec(regs[2], 0x0A),
        d.prog_if == extract_u8_spec(regs[2], 0x09),
        regs[2] == ((d.class as u32) << 24u32) | ((d.subclass as u32) << 16u32) | ((d.prog_if as u32) << 8u32)
            | (regs[2] & 0xFF),
{
    let w = regs[2];
    let c = d.class;
    let sc = d.subclass;
    let pi = d.prog_if;
    assert(((0x0Bu8 & 3) as u32) * 8 == 24 && ((0x0Au8 & 3) as u32) * 8 == 16 && ((0x09u8 & 3) as u32) * 8 == 8)
        by (bit_vector);
    assert(w == ((c as u32) << 24u32) | ((sc as u32) << 16u32) | ((pi as u32) << 8u32) | (w & 0xFF)) by (bit_vector)
        requires
            c == ((w >> 24u32) & 0xFF) as u8,
            sc == ((w >> 16u32) & 0xFF) as u8,
            pi == ((w >> 8u32) & 0xFF) as u8,
    ;
}

impl PciDevice {
    /// Builds the device record of function `bus:dev.func` from its first
    /// sixteen configuration dwords (offsets 0x00 to 0x3C).
    pub fn from_config(bus: u8, dev: u8, func: u8, regs: &[u32]) -> (d: PciDevice)
        requires
            regs@.len() == 16,
        ensures
            device_from_config_spec(bus, dev, func, regs@, d),
    {
        let class_reg = regs[2];
        let mut d = PciDevice {
            bus,
            dev,
            func,
            vendor_id: extract_u16(regs[0], 0x00),
            device_id: extract_u16(regs[0], 0x02),
            class: ((class_reg >> 24u32) & 0xFF) as u8,
            subclass: ((class_reg >> 16u32) & 0xFF) as u8,
            prog_if: ((class_reg >> 8u32) & 0xFF) as u8,
            header_type: extract_u8(regs[3], 0x0E),
            bar0: regs[4],
            bar1: regs[5],
            bar2: regs[6],
            bar3: regs[7],
            bar4: regs[8],
            bar5: regs[9],
            bar_phys: [0; 6],
            irq: extract_u8(regs[15], 0x3C),
        };
        let ghost bars = regs@.subrange(4, 10);
        let mut i: usize = 0;
        while i < 6
            invariant
                i <= 6,
                regs@.len() == 16,
                bars == regs@.subrange(4, 10),
                d.bus == bus && d.dev == dev && d.func == func,
                d.vendor_id == extract_u16_spec(regs@[0], 0x00),
                d.device_id == extract_u16_spec(regs@[0], 0x02),
                d.class == ((regs@[2] >> 24u32) & 0xFF) as u8,
                d.subclass == ((regs@[2] >> 16u32) & 0xFF) as u8,
                d.prog_if == ((regs@[2] >> 8u32) & 0xFF) as u8,
                d.header_type == extract_u8_spec(regs@[3], 0x0E),
                d.bar0 == regs@[4] && d.bar1 == regs@[5] && d.bar2 == regs@[6],
                d.bar3 == regs@[7] && d.bar4 == regs@[8] && d.bar5 == regs@[9],
                d.irq == extract_u8_spec(regs@[15], 0x3C),
                forall|k: int| 0 <= k < i ==> d.bar_phys@[k] == scanned_bar_phys(bars, k),
                forall|k: int| i <= k < 6 ==> d.bar_phys@[k] == 0,
            decreases 6 - i,
        {
            let raw = regs[4 + i];
            if raw == 0 || raw == 0xFFFF_FFFF {
                i = i + 1;
                continue;
            }
            if raw & 1 == 0 {
                let bar_type = (raw >> 1u32) & 0x3;
                if bar_type == 2 && i < 5 {
                    let high = regs[4 + i + 1];
                    d.bar_phys[i] = ((high as u64) << 32u64) | ((raw as u64) & 0xFFFF_FFF0);
                } else {
                    d.bar_phys[i] = (raw as u64) & 0xFFFF_FFF0;
                }
            } else {
                d.bar_phys[i] = (raw & !3u32) as u64;
            }
            i = i + 1;
        }
        d
    }

    pub fn class_name(&self) -> (r: &'static str)
        ensures
            r@ == class_name_spec(self.class),
    {
        match self.class {
            0x00 => "Unclassified",
            0x01 => "Mass Storage",
            0x02 => "Network",
            0x03 => "Display",
            0x04 => "Multimedia",
            0x05 => "Memory",
            0x06 => "Bridge",
            0x07 => "Communication",
            0x08 => "System",
            0x09 => "Input",
            0x0A => "Docking",
            0x0B => "Processor",
            0x0C => "Serial Bus",
            0x0D => "Wireless",
            0x0E => "Intelligent I/O",
            0x0F => "Satellite",
            0x10 => "Cryptographic",
            0x11 => "Signal Processing",
            0x12 => "Processing Accelerator",
            0x13 => "Non-Essential Instrumentation",
            _ => "Other",
        }
    }

    pub fn subclass_name(&self) -> (r: &'static str)
        ensures
            r@ == subclass_name_spec(self.class, self.subclass),
    {
        let c = self.class;
        let s = self.subclass;
        if c == 0x01 && s == 0x00 { "SCSI" }
        else if c == 0x01 && s == 0x01 { "IDE" }
        else if c == 0x01 && s == 0x06 { "SATA (AHCI)" }
        else if c == 0x01 && s == 0x08 { "NVMe" }
        else if c == 0x06 && s == 0x00 { "Host Bridge" }
        else if c == 0x06 && s == 0x01 { "ISA Bridge" }
        else if c == 0x06 && s == 0x04 { "PCI-to-PCI Bridge" }
        else if c == 0x03 && s == 0x00 { "VGA" }
        else if c == 0x02 && s == 0x00 { "Ethernet" }
        else if c == 0x0C && s == 0x03 { "USB" }
        else { "" }
    }

    /// Physical base of BAR0 with the low flag bits cleared.
    pub fn bar0_phys(&self) -> (r: u64)
        ensures
            r == (self.bar0 as u64) & 0xFFFF_FFF0,
    {
        (self.bar0 as u64) & 0xFFFF_FFF0
    }

    /// Whether BAR `bar_num` maps I/O ports (bit 0 set) rather than memory;
    /// false for a BAR number above 5.
    pub fn is_io_bar(&self, bar_num: usize) -> (r: bool)
        ensures
            r == (bar_num < 6 && bar_value(*self, bar_num as int) & 1 == 1),
    {
        let bar = match bar_num {
            0 => self.bar0,
            1 => self.bar1,
            2 => self.bar2,
            3 => self.bar3,
            4 => self.bar4,
            5 => self.bar5,
            _ => return false,
        };
        bar & 1 == 1
    }

    /// Physical address of BAR `bar_num` given its configuration dword `low`
    /// and the following dword `high` (used by 64-bit memory BARs).
    pub fn bar_phys_from_config(&self, low: u32, high: u32) -> (r: u64)
        ensures
            r == decode_bar_spec(low, high),
    {
        decode_bar(low, high)
    }
}

/// Position in the scan order bus-major, then device, then function.
pub open spec fn scan_index(bus: u8, dev: u8, func: u8) -> int {
    bus as int * 256 + dev as int * 8 + func as int
}

/// The slot following `bus:dev.*` in scan order (first function of the next device).
pub open spec fn next_device_spec(bus: u8, dev: u8) -> Option<(u8, u8, u8)> {
    if dev + 1 < 32 {
        Some((bus, (dev + 1) as u8, 0u8))
    } else if bus < 255 {
        Some(((bus + 1) as u8, 0u8, 0u8))
    } else {
        None
    }
}

/// The slot to probe after `bus:dev.func`, given whether a function answered
/// there and its header type: an empty function 0 or a single-function device
/// skips the remaining functions of the device.
pub open spec fn scan_next_spec(bus: u8, dev: u8, func: u8, present: bool, header_type: u8) -> Option<(u8, u8, u8)> {
    if (!present && func == 0) || (present && func == 0 && header_type & 0x80 == 0) || func + 1 >= 8 {
        next_device_spec(bus, dev)
    } else {
        Some((bus, dev, (func + 1) as u8))
    }
}

/// Whether a slot is inside the scanned range.
pub open spec fn slot_in_range(bus: u8, dev: u8, func: u8) -> bool {
    dev < 32 && func < 8
}

pub fn scan_next(bus: u8, dev: u8, func: u8, present: bool, header_type: u8) -> (r: Option<(u8, u8, u8)>)
    requires
        slot_in_range(bus, dev, func),
    ensures
        r == scan_next_spec(bus, dev, func, present, header_type),
        r matches Some(n) ==> slot_in_range(n.0, n.1, n.2),
{
    let skip = (!present && func == 0) || (present && func == 0 && header_type & 0x80 == 0) || func + 1 >= 8;
    if skip {
        if dev + 1 < 32 {
            Some((bus, dev + 1, 0))
        } else if bus < 255 {
            Some((bus + 1, 0, 0))
        } else {
            None
        }
    } else {
        Some((bus, dev, func + 1))
    }
}

/// The scan always moves forward, so it visits every slot at most once and ends.
pub proof fn lemma_scan_advances(bus: u8, dev: u8, func: u8, present: bool, header_type: u8)
    requires
        slot_in_range(bus, dev, func),
    ensures
        scan_next_spec(bus, dev, func, present, header_type) matches Some(n)
            ==> scan_index(n.0, n.1, n.2) > scan_index(bus, dev, func),
{
}

/// Devices of the given class and subclass.
pub open spec fn class_pred(class: u8, subclass: u8) -> spec_fn(PciDevice) -> bool {
    |d: PciDevice| d.class == class && d.subclass == subclass
}

/// The devices found on the bus, in scan order.
pub struct PciDevices {
    devices: Vec<PciDevice>,
}


impl PciDevices {
    pub closed spec fn view(&self) -> Seq<PciDevice> {
        self.devices@
    }

    pub fn new() -> (r: PciDevices)
        ensures
            r@ == Seq::<PciDevice>::empty(),
    {
        PciDevices { devices: Vec::new() }
    }

    /// Records a device found by the scan.
    pub fn push(&mut self, d: PciDevice)
        ensures
            final(self)@ == old(self)@.push(d),
    {
        self.devices.push(d);
    }

    /// First device with the given class and subclass.
    pub fn find_device(&self, class: u8, subclass: u8) -> (r: Option<PciDevice>)
        ensures
            r matches Some(d) ==> exists|i: int| 0 <= i < self@.len() && self@[i] == d
                && d.class == class && d.subclass == subclass
                && forall|j: int| 0 <= j < i ==> !(self@[j].class == class && self@[j].subclass == subclass),
            r is None <==> forall|j: int| 0 <= j < self@.len() ==> !(self@[j].class == class && self@[j].subclass == subclass),
    {
        let mut i: usize = 0;
        while i < self.devices.len()
            invariant
                i <= self@.len(),
                forall|j: int| 0 <= j < i ==> !(self@[j].class == class && self@[j].subclass == subclass),
            decreases self.devices.len() - i,
        {
            let d = self.devices[i];
            if d.class == class && d.subclass == subclass {
                return Some(d);
            }
            i = i + 1;
        }
        None
    }

    /// First device with the given vendor and device identifiers.
    pub fn find_device_by_id(&self, vendor: u16, device: u16) -> (r: Option<PciDevice>)
        ensures
            r matches Some(d) ==> exists|i: int| 0 <= i < self@.len() && self@[i] == d
                && d.vendor_id == vendor && d.device_id == device
                && forall|j: int| 0 <= j < i ==> !(self@[j].vendor_id == vendor && self@[j].device_id == device),
            r is None <==> forall|j: int| 0 <= j < self@.len() ==> !(self@[j].vendor_id == vendor && self@[j].device_id == device),
    {
        let mut i: usize = 0;
        while i < self.devices.len()
            invariant
                i <= self@.len(),
                forall|j: int| 0 <= j < i ==> !(self@[j].vendor_id == vendor && self@[j].device_id == device),
            decreases self.devices.len() - i,
        {
            let d = self.devices[i];
            if d.vendor_id == vendor && d.device_id == device {
                return Some(d);
            }
            i = i + 1;
        }
        None
    }

    /// All devices with the given class and subclass, in scan order.
    pub fn find_all_devices_by_class(&self, class: u8, subclass: u8) -> (r: Vec<PciDevice>)
        ensures
            r@ == self@.filter(class_pred(class, subclass)),
    {
        let mut out: Vec<PciDevice> = Vec::new();
        let mut i: usize = 0;
        while i < self.devices.len()
            invariant
                i <= self@.len(),
                out@ == self@.take(i as int).filter(class_pred(class, subclass)),
            decreases self.devices.len() - i,
        {
            let d = self.devices[i];
            proof {
                let s = self@.take(i as int + 1);
                assert(s.drop_last() =~= self@.take(i as int));
                reveal(Seq::filter);
                assert(s.last() == d);
                assert(s.filter(class_pred(class, subclass)) == (if class_pred(class, subclass)(d) { self@.take(i as int).filter(class_pred(class, subclass)).push(d) } else {
                    self@.take(i as int).filter(class_pred(class, subclass)) }));
                assert(class_pred(class, subclass)(d) == (d.class == class && d.subclass == subclass));
            }
            if d.class == class && d.subclass == subclass {
                out.push(d);
            }
            i = i + 1;
        }
        assert(self@.take(self@.len() as int) =~= self@);
        out
    }

    pub fn device_count(&self) -> (r: usize)
        ensures
            r == self@.len(),
    {
        self.devices.len()
    }
}

} // verus!
