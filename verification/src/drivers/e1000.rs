//! Intel e1000: MAC address decoding, descriptor ring set-up values and the
//! transmit/receive ring positions.
use vstd::prelude::*;
use crate::drivers::pci::PciDevice;

verus! {

pub const E1000_CTRL: u64 = 0x000;
pub const E1000_RCTL: u64 = 0x100;
pub const E1000_TCTL: u64 = 0x400;
pub const E1000_RDBAL: u64 = 0x2800;
pub const E1000_RDBAH: u64 = 0x2804;
pub const E1000_RDLEN: u64 = 0x2808;
pub const E1000_RDH: u64 = 0x2810;
pub const E1000_RDT: u64 = 0x2818;
pub const E1000_TDBAL: u64 = 0x3800;
pub const E1000_TDBAH: u64 = 0x3804;
pub const E1000_TDLEN: u64 = 0x3808;
pub const E1000_TDH: u64 = 0x3810;
pub const E1000_TDT: u64 = 0x3818;

pub const CTRL_RESET: u32 = 0x0400_0000;
pub const CTRL_SLU: u32 = 0x40;
pub const RCTL_EN: u32 = 0x2;
pub const RCTL_BAM: u32 = 0x8000;
pub const RCTL_BSIZE_2048: u32 = 0;
pub const TCTL_EN: u32 = 0x2;
pub const TCTL_PSP: u32 = 0x8;
pub const TCTL_CT: u32 = 0xF0;
pub const TCTL_COLD: u32 = 0x4_0000;

pub const RX_DESC_COUNT: usize = 32;
pub const TX_DESC_COUNT: usize = 8;
pub const RX_BUFFER_SIZE: usize = 2048;
/// Size of one packed receive or transmit descriptor.
pub const DESC_SIZE: usize = 16;
pub const RXD_STAT_DD: u8 = 1;
/// Transmit command: report status, insert FCS, end of packet.
pub const TX_CMD: u8 = 0x0B;

/// MAC address held in the receive address registers RAL/RAH.
pub open spec fn mac_spec(ral: u32, rah: u32) -> Seq<u8> {
    seq![ral as u8, (ral >> 8u32) as u8, (ral >> 16u32) as u8, (ral >> 24u32) as u8, rah as u8, (rah >> 8u32) as u8]
}

pub fn mac_from_regs(ral: u32, rah: u32) -> (mac: [u8; 6])
    ensures
        mac@ == mac_spec(ral, rah),
{
    let mac = [ral as u8, (ral >> 8u32) as u8, (ral >> 16u32) as u8, (ral >> 24u32) as u8, rah as u8, (rah >> 8u32) as u8];
    assert(mac@ =~= mac_spec(ral, rah));
    mac
}

/// Register write (offset from BAR0, value).
pub type RegWrite = (u64, u32);

/// Receive ring registers: descriptor base (low, high), length of 32
/// descriptors, head 0 and tail at the last descriptor.
pub open spec fn rx_setup_spec(rx_descs_phys: u64) -> Seq<RegWrite> {
    seq![
        (E1000_RDBAL, rx_descs_phys as u32),
        (E1000_RDBAH, (rx_descs_phys >> 32u64) as u32),
        (E1000_RDLEN, (DESC_SIZE * RX_DESC_COUNT) as u32),
        (E1000_RDH, 0u32),
        (E1000_RDT, (RX_DESC_COUNT - 1) as u32),
    ]
}

/// Transmit ring registers: base, length of 8 descriptors, head and tail 0.
pub open spec fn tx_setup_spec(tx_descs_phys: u64) -> Seq<RegWrite> {
    seq![
        (E1000_TDBAL, tx_descs_phys as u32),
        (E1000_TDBAH, (tx_descs_phys >> 32u64) as u32),
        (E1000_TDLEN, (DESC_SIZE * TX_DESC_COUNT) as u32),
        (E1000_TDH, 0u32),
        (E1000_TDT, 0u32),
    ]
}

/// Enabling: receiver (broadcasts accepted, 2 KiB buffers), transmitter
/// (short-packet padding, collision threshold and distance), then link up on
/// top of the current control register value.
pub open spec fn enable_spec(ctrl: u32) -> Seq<RegWrite> {
    seq![
        (E1000_RCTL, RCTL_EN | RCTL_BAM | RCTL_BSIZE_2048),
        (E1000_TCTL, TCTL_EN | TCTL_PSP | TCTL_CT | TCTL_COLD),
        (E1000_CTRL, ctrl | CTRL_SLU),
    ]
}

/// The controller's driver state.
pub struct E1000Controller {
    pub mmio_base: u64,
    pub mac: [u8; 6],
    pub rx_descs_phys: u64,
    pub rx_buffers_phys: Vec<u64>,
    pub rx_head: u16,
    pub rx_tail: u16,
    pub tx_descs_phys: u64,
    pub tx_buffers_phys: Vec<u64>,
    pub tx_head: u16,
    pub tx_tail: u16,
}

/// What to do for one transmission: copy `copy_len` bytes to the buffer of
/// descriptor `slot` at `buffer_phys`, fill the descriptor (length, command
/// 0x0B, status 0) and write `tail` to TDT.
pub struct TxSlot {
    pub slot: usize,
    pub buffer_phys: u64,
    pub copy_len: usize,
    pub tail: u16,
}

/// A received frame: copy `copy_len` bytes from the buffer of descriptor
/// `slot`, clear that descriptor and write `head` to RDH.
pub struct RxSlot {
    pub slot: usize,
    pub copy_len: usize,
    pub head: u16,
}

impl E1000Controller {
    /// Ring positions stay in range and every descriptor has a buffer.
    pub open spec fn wf(&self) -> bool {
        &&& self.rx_head < RX_DESC_COUNT
        &&& self.tx_tail < TX_DESC_COUNT
        &&& self.rx_buffers_phys@.len() == RX_DESC_COUNT
        &&& self.tx_buffers_phys@.len() == TX_DESC_COUNT
    }

    /// Driver state after reset, MAC read and ring set-up.
    pub fn new(mmio_base: u64, ral: u32, rah: u32, rx_descs_phys: u64, rx_buffers_phys: Vec<u64>, tx_descs_phys: u64,
        tx_buffers_phys: Vec<u64>) -> (c: E1000Controller)
        requires
            rx_buffers_phys@.len() == RX_DESC_COUNT,
            tx_buffers_phys@.len() == TX_DESC_COUNT,
        ensures
            c.wf(),
            c.mmio_base == mmio_base,
            c.mac@ == mac_spec(ral, rah),
            c.rx_head == 0 && c.rx_tail == RX_DESC_COUNT - 1,
            c.tx_head == 0 && c.tx_tail == 0,
            c.rx_buffers_phys == rx_buffers_phys && c.tx_buffers_phys == tx_buffers_phys,
            c.rx_descs_phys == rx_descs_phys && c.tx_descs_phys == tx_descs_phys,
    {
        E1000Controller {
            mmio_base,
            mac: mac_from_regs(ral, rah),
            rx_descs_phys,
            rx_buffers_phys,
            rx_head: 0,
            rx_tail: (RX_DESC_COUNT - 1) as u16,
            tx_descs_phys,
            tx_buffers_phys,
            tx_head: 0,
            tx_tail: 0,
        }
    }

    pub fn setup_rx(&self) -> (w: Vec<RegWrite>)
        ensures
            w@ == rx_setup_spec(self.rx_descs_phys),
    {
        let p = self.rx_descs_phys;
        let w = vec![
            (E1000_RDBAL, p as u32),
            (E1000_RDBAH, (p >> 32u64) as u32),
            (E1000_RDLEN, (DESC_SIZE * RX_DESC_COUNT) as u32),
            (E1000_RDH, 0u32),
            (E1000_RDT, (RX_DESC_COUNT - 1) as u32),
        ];
        assert(w@ =~= rx_setup_spec(p));
        w
    }

    pub fn setup_tx(&self) -> (w: Vec<RegWrite>)
        ensures
            w@ == tx_setup_spec(self.tx_descs_phys),
    {
        let p = self.tx_descs_phys;
        let w = vec![
            (E1000_TDBAL, p as u32),
            (E1000_TDBAH, (p >> 32u64) as u32),
            (E1000_TDLEN, (DESC_SIZE * TX_DESC_COUNT) as u32),
            (E1000_TDH, 0u32),
            (E1000_TDT, 0u32),
        ];
        assert(w@ =~= tx_setup_spec(p));
        w
    }
}

pub fn enable(ctrl: u32) -> (w: Vec<RegWrite>)
    ensures
        w@ == enable_spec(ctrl),
{
    let w = vec![
        (E1000_RCTL, RCTL_EN | RCTL_BAM | RCTL_BSIZE_2048),
        (E1000_TCTL, TCTL_EN | TCTL_PSP | TCTL_CT | TCTL_COLD),
        (E1000_CTRL, ctrl | CTRL_SLU),
    ];
    assert(w@ =~= enable_spec(ctrl));
    w
}

/// MMIO base of a found controller: BAR0 with flags cleared, through the
/// higher-half mapping; an unconfigured BAR0 (zero) is an error.
pub fn mmio_base_for(dev: &PciDevice, hhdm: u64) -> (r: Result<u64, &'static str>)
    requires
        hhdm + 0xFFFF_FFFF <= u64::MAX,
    ensures
        (dev.bar0 & 0xFFFF_FFF0) == 0 ==> (r matches Err(e) && e@ == "BAR0 = 0"@),
        (dev.bar0 & 0xFFFF_FFF0) != 0 ==> r == Ok::<u64, &'static str>((hhdm + (dev.bar0 & 0xFFFF_FFF0)) as u64),
{
    let bar0 = dev.bar0 & 0xFFFF_FFF0;
    if bar0 == 0 {
        return Err("BAR0 = 0");
    }
    Ok(hhdm + bar0 as u64)
}

/// The controller's MAC address, if the driver is up.
pub fn get_mac(ctrl: &Option<E1000Controller>) -> (r: Option<[u8; 6]>)
    ensures
        r == (match ctrl { Some(c) => Some(c.mac), None => None }),
{
    match ctrl {
        Some(c) => Some(c.mac),
        None => None,
    }
}

/// Queues a frame of `data_len` bytes: the frame goes to the descriptor at
/// the tail, truncated to the 2 KiB buffer, and the tail advances modulo 8.
/// `None` (nothing sent) when the driver is not up.
pub fn send_packet(ctrl: &mut Option<E1000Controller>, data_len: usize) -> (r: Option<TxSlot>)
    requires
        *old(ctrl) matches Some(c) ==> c.wf(),
    ensures
        *final(ctrl) matches Some(c) ==> c.wf(),
        *old(ctrl) is None ==> r is None && *final(ctrl) is None,
        *old(ctrl) matches Some(c0) ==> (r matches Some(t) && *final(ctrl) matches Some(c1) && {
            &&& t.slot == c0.tx_tail
            &&& t.buffer_phys == c0.tx_buffers_phys@[c0.tx_tail as int]
            &&& t.copy_len == (if data_len < RX_BUFFER_SIZE { data_len } else { RX_BUFFER_SIZE })
            &&& t.tail == (c0.tx_tail + 1) % (TX_DESC_COUNT as int)
            &&& c1.tx_tail == t.tail
            &&& c1.rx_head == c0.rx_head
            &&& c1.mac == c0.mac
        }),
{
    match ctrl {
        Some(c) => {
            let slot = c.tx_tail as usize;
            let copy_len = if data_len < RX_BUFFER_SIZE { data_len } else { RX_BUFFER_SIZE };
            let buffer_phys = c.tx_buffers_phys[slot];
            c.tx_tail = (c.tx_tail + 1) % (TX_DESC_COUNT as u16);
            Some(TxSlot { slot, buffer_phys, copy_len, tail: c.tx_tail })
        },
        None => None,
    }
}

/// Takes the frame at the receive head if its descriptor is done: at most
/// `buf_len` of its `desc_len` bytes are copied and the head advances modulo
/// 32.  `None` when the driver is not up or no frame has arrived.
pub fn recv_packet(ctrl: &mut Option<E1000Controller>, desc_status: u8, desc_len: u16, buf_len: usize) -> (r: Option<RxSlot>)
    requires
        *old(ctrl) matches Some(c) ==> c.wf(),
    ensures
        *final(ctrl) matches Some(c) ==> c.wf(),
        *old(ctrl) is None ==> r is None && *final(ctrl) is None,
        *old(ctrl) matches Some(c0) ==> (*final(ctrl) matches Some(c1) && {
            &&& desc_status & RXD_STAT_DD == 0 ==> r is None && c1.rx_head == c0.rx_head
            &&& desc_status & RXD_STAT_DD != 0 ==> (r matches Some(s) && {
                &&& s.slot == c0.rx_head
                &&& s.copy_len == (if (desc_len as usize) < buf_len { desc_len as usize } else { buf_len })
                &&& s.head == (c0.rx_head + 1) % (RX_DESC_COUNT as int)
                &&& c1.rx_head == s.head
            })
            &&& c1.tx_tail == c0.tx_tail
            &&& c1.mac == c0.mac
        }),
{
    match ctrl {
        Some(c) => {
            if desc_status & RXD_STAT_DD == 0 {
                return None;
            }
            let slot = c.rx_head as usize;
            let len = desc_len as usize;
            let copy_len = if len < buf_len { len } else { buf_len };
            c.rx_head = (c.rx_head + 1) % (RX_DESC_COUNT as u16);
            Some(RxSlot { slot, copy_len, head: c.rx_head })
        },
        None => None,
    }
}

} // verus!
