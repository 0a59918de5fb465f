//! Realtek RTL8139: I/O base selection, the four round-robin transmit
//! buffers and the receive ring position.
use vstd::prelude::*;
use crate::drivers::pci::PciDevice;

verus! {

pub const RTL_CMD: u16 = 0x37;
pub const RTL_RBSTART: u16 = 0x30;
pub const RTL_CAPR: u16 = 0x38;
pub const RTL_CBR: u16 = 0x3A;
pub const RTL_RCR: u16 = 0x44;
pub const RTL_TCR: u16 = 0x40;
pub const RTL_TXADDR0: u16 = 0x20;
pub const RTL_TXSTATUS0: u16 = 0x10;

pub const CMD_RESET: u8 = 0x10;
pub const CMD_RX_EN: u8 = 0x08;
pub const CMD_TX_EN: u8 = 0x04;
/// Accept all multicast, physical match and broadcast; wrap at the buffer end.
pub const RCR_CONFIG: u8 = 0x87;
pub const TCR_IFG: u32 = 0x0B00_0000;

/// Receive ring: 16 KiB plus room for a maximal frame and the header.
pub const RX_BUFFER_SIZE: usize = 16384 + 1518 + 16;
pub const TX_BUFFER_SIZE: usize = 1536;
pub const TX_PORT_COUNT: usize = 4;

/// I/O base of a found controller: BAR0 must be an I/O BAR and non-zero.
pub fn io_base_for(dev: &PciDevice) -> (r: Result<u16, &'static str>)
    ensures
        dev.bar0 & 1 == 0 ==> (r matches Err(e) && e@ == "BAR0 is not an I/O BAR"@),
        dev.bar0 & 1 == 1 && (dev.bar0 as u16) & 0xFFFC == 0 ==> (r matches Err(e) && e@ == "BAR0 = 0"@),
        dev.bar0 & 1 == 1 && (dev.bar0 as u16) & 0xFFFC != 0 ==> r == Ok::<u16, &'static str>((dev.bar0 as u16) & 0xFFFC),
{
    if !dev.is_io_bar(0) {
        return Err("BAR0 is not an I/O BAR");
    }
    let io_base = (dev.bar0 as u16) & 0xFFFC;
    if io_base == 0 {
        return Err("BAR0 = 0");
    }
    Ok(io_base)
}

/// Driver state of the controller.
pub struct Rtl8139Controller {
    pub io_base: u16,
    pub mac: [u8; 6],
    pub rx_buffer_phys: u64,
    pub rx_pos: usize,
    pub tx_buffers_phys: [u64; 4],
    pub tx_cur_port: usize,
}

/// One transmission: copy `copy_len` bytes to transmit buffer `port`, then
/// write `status` (length with the OWN bit 13) to `status_port`.
pub struct TxPlan {
    pub port: usize,
    pub copy_len: usize,
    pub status_port: u16,
    pub status: u32,
}

/// Outcome of looking at the receive ring.
pub enum RxStep {
    /// The read position caught up with the device.
    Empty,
    /// A frame with an error status was skipped; when the position wrapped,
    /// `capr` is the value written to CAPR.
    Skipped { capr: Option<u8> },
    /// A frame of `copy_len` bytes starts at `data_offset` in the ring;
    /// `capr` is written to CAPR afterwards.
    Frame { data_offset: usize, copy_len: usize, capr: u16 },
}

/// Position after a frame of `pkt_len` bytes at `pos`: past the 4-byte header
/// and the frame, rounded up to 4 bytes, back to 0 at the end of the ring.
pub open spec fn next_rx_pos(pos: int, pkt_len: int) -> int {
    let n = (pos + 4 + pkt_len + 3) / 4 * 4;
    if n >= RX_BUFFER_SIZE { 0 } else { n }
}

/// After a frame of `pkt_len` bytes read at `pos`, the read position moves
/// past the 4-byte header and the frame to the next 4-byte boundary: the
/// smallest multiple of 4 at or after `pos + 4 + pkt_len`.  It goes back to
/// the start of the ring only when that boundary is not inside the ring.
pub proof fn lemma_next_rx_pos(pos: int, pkt_len: int)
    requires
        0 <= pos,
        0 <= pkt_len,
    ensures
        ({
            let n = next_rx_pos(pos, pkt_len);
            let end = pos + 4 + pkt_len;
            &&& n != 0 ==> n % 4 == 0 && end <= n && n < end + 4 && n < RX_BUFFER_SIZE
            &&& n == 0 ==> end + 3 >= RX_BUFFER_SIZE
            &&& end + 3 < RX_BUFFER_SIZE ==> n == (if end % 4 == 0 { end } else { end + 4 - end % 4 })
        }),
{
    let end = pos + 4 + pkt_len;
    let m = (end + 3) / 4 * 4;
    assert(m % 4 == 0 && end <= m && m < end + 4) by {
        assert(end + 3 == (end + 3) / 4 * 4 + (end + 3) % 4);
    }
    assert(m == (if end % 4 == 0 { end } else { end + 4 - end % 4 })) by {
        assert(end == end / 4 * 4 + end % 4);
        assert(end + 3 == (end + 3) / 4 * 4 + (end + 3) % 4);
    }
}

fn advance(pos: usize, pkt_len: usize) -> (r: usize)
    requires
        pos < RX_BUFFER_SIZE,
        pkt_len <= 0xFFFF,
    ensures
        r == next_rx_pos(pos as int, pkt_len as int),
        r < RX_BUFFER_SIZE,
{
    let n = (pos + 4 + pkt_len + 3) / 4 * 4;
    if n >= RX_BUFFER_SIZE { 0 } else { n }
}

impl Rtl8139Controller {
    pub open spec fn wf(&self) -> bool {
        &&& self.rx_pos < RX_BUFFER_SIZE
        &&& self.tx_cur_port < TX_PORT_COUNT
        &&& self.io_base as int + 0xFF <= 0xFFFF
    }

    /// Driver state after reset: MAC read, rings set up, read position 0, port 0.
    pub fn new(io_base: u16, mac: [u8; 6], rx_buffer_phys: u64, tx_buffers_phys: [u64; 4]) -> (c: Rtl8139Controller)
        requires
            io_base as int + 0xFF <= 0xFFFF,
        ensures
            c.wf(),
            c == (Rtl8139Controller { io_base, mac, rx_buffer_phys, rx_pos: 0, tx_buffers_phys, tx_cur_port: 0 }),
    {
        Rtl8139Controller { io_base, mac, rx_buffer_phys, rx_pos: 0, tx_buffers_phys, tx_cur_port: 0 }
    }
}

/// A port write of the given width in bytes (1 or 4).
pub type PortWrite = (u16, u32, u8);

/// Port writes that set up and start the controller: receive ring start,
/// the four transmit buffer addresses, receive and transmit configuration,
/// then receiver and transmitter on.
pub open spec fn setup_spec(c: Rtl8139Controller) -> Seq<PortWrite> {
    seq![
        ((c.io_base + RTL_RBSTART) as u16, c.rx_buffer_phys as u32, 4u8),
        ((c.io_base + RTL_TXADDR0) as u16, c.tx_buffers_phys[0] as u32, 4u8),
        ((c.io_base + RTL_TXADDR0 + 4) as u16, c.tx_buffers_phys[1] as u32, 4u8),
        ((c.io_base + RTL_TXADDR0 + 8) as u16, c.tx_buffers_phys[2] as u32, 4u8),
        ((c.io_base + RTL_TXADDR0 + 12) as u16, c.tx_buffers_phys[3] as u32, 4u8),
        ((c.io_base + RTL_RCR) as u16, RCR_CONFIG as u32, 1u8),
        ((c.io_base + RTL_TCR) as u16, TCR_IFG, 4u8),
        ((c.io_base + RTL_CMD) as u16, (CMD_RX_EN | CMD_TX_EN) as u32, 1u8),
    ]
}

impl Rtl8139Controller {
    /// The software reset: the reset bit written to the command register.
    pub fn reset_write(&self) -> (w: PortWrite)
        requires
            self.wf(),
        ensures
            w == ((self.io_base + RTL_CMD) as u16, CMD_RESET as u32, 1u8),
    {
        (self.io_base + RTL_CMD, CMD_RESET as u32, 1u8)
    }

    /// Whether the reset has completed, from the command register read back.
    pub fn reset_done(cmd: u8) -> (r: bool)
        ensures
            r == (cmd & CMD_RESET == 0),
    {
        cmd & CMD_RESET == 0
    }

    /// The ports holding the MAC address, in byte order.
    pub fn mac_ports(&self) -> (p: [u16; 6])
        requires
            self.wf(),
        ensures
            forall|i: int| 0 <= i < 6 ==> p@[i] == self.io_base + i,
    {
        let b = self.io_base;
        [b, b + 1, b + 2, b + 3, b + 4, b + 5]
    }

    /// The set-up writes for this controller's rings (`setup_spec`).
    pub fn setup_writes(&self) -> (w: Vec<PortWrite>)
        requires
            self.wf(),
        ensures
            w@ == setup_spec(*self),
    {
        let b = self.io_base;
        let t = self.tx_buffers_phys;
        let w = vec![
            (b + RTL_RBSTART, self.rx_buffer_phys as u32, 4u8),
            (b + RTL_TXADDR0, t[0] as u32, 4u8),
            (b + RTL_TXADDR0 + 4, t[1] as u32, 4u8),
            (b + RTL_TXADDR0 + 8, t[2] as u32, 4u8),
            (b + RTL_TXADDR0 + 12, t[3] as u32, 4u8),
            (b + RTL_RCR, RCR_CONFIG as u32, 1u8),
            (b + RTL_TCR, TCR_IFG, 4u8),
            (b + RTL_CMD, (CMD_RX_EN | CMD_TX_EN) as u32, 1u8),
        ];
        assert(w@ =~= setup_spec(*self));
        w
    }
}

/// The controller's MAC address, if the driver is up.
pub fn get_mac(ctrl: &Option<Rtl8139Controller>) -> (r: Option<[u8; 6]>)
    ensures
        r == (match ctrl { Some(c) => Some(c.mac), None => None }),
{
    match ctrl {
        Some(c) => Some(c.mac),
        None => None,
    }
}

/// Queues a frame of `data_len` bytes on the current transmit port (truncated
/// to 1536 bytes) and moves to the next port of four.  `None` when the driver
/// is not up.
pub fn send_packet(ctrl: &mut Option<Rtl8139Controller>, data_len: usize) -> (r: Option<TxPlan>)
    requires
        *old(ctrl) matches Some(c) ==> c.wf(),
    ensures
        *final(ctrl) matches Some(c) ==> c.wf(),
        *old(ctrl) is None ==> r is None && *final(ctrl) is None,
        *old(ctrl) matches Some(c0) ==> (r matches Some(t) && *final(ctrl) matches Some(c1) && {
            &&& t.port == c0.tx_cur_port
            &&& t.copy_len == (if data_len < TX_BUFFER_SIZE { data_len } else { TX_BUFFER_SIZE })
            &&& t.status == t.copy_len + 0x2000
            &&& t.status_port == c0.io_base + RTL_TXSTATUS0 + 4 * c0.tx_cur_port
            &&& c1.tx_cur_port == (c0.tx_cur_port + 1) % (TX_PORT_COUNT as int)
            &&& c1.rx_pos == c0.rx_pos
        }),
{
    match ctrl {
        Some(c) => {
            let port = c.tx_cur_port;
            let copy_len = if data_len < TX_BUFFER_SIZE { data_len } else { TX_BUFFER_SIZE };
            let status = (copy_len as u32) | 0x2000u32;
            assert((copy_len as u32) | 0x2000u32 == copy_len as u32 + 0x2000u32) by (bit_vector)
                requires
                    copy_len as u32 <= 1536,
            ;
            let status_port = c.io_base + RTL_TXSTATUS0 + (port as u16) * 4;
            c.tx_cur_port = (c.tx_cur_port + 1) % TX_PORT_COUNT;
            Some(TxPlan { port, copy_len, status_port, status })
        },
        None => None,
    }
}

/// Looks at the receive ring given the device's current buffer position
/// `cbr` and the header at the read position (`pkt_status`, `pkt_len`), for a
/// destination buffer of `buf_len` bytes.
pub fn recv_packet(ctrl: &mut Option<Rtl8139Controller>, cbr: u16, pkt_status: u16, pkt_len: u16, buf_len: usize)
    -> (r: Option<RxStep>)
    requires
        *old(ctrl) matches Some(c) ==> c.wf(),
        *old(ctrl) matches Some(c) ==> (c.rx_pos != cbr as usize && pkt_status & 1 != 0 ==> pkt_len >= 4),
    ensures
        *final(ctrl) matches Some(c) ==> c.wf(),
        *old(ctrl) is None ==> r is None && *final(ctrl) is None,
        *old(ctrl) matches Some(c0) ==> (*final(ctrl) matches Some(c1) && {
            &&& c0.rx_pos == cbr as usize ==> (r matches Some(RxStep::Empty)) && c1.rx_pos == c0.rx_pos
            &&& c0.rx_pos != cbr as usize && pkt_status & 1 == 0 ==> c1.rx_pos == next_rx_pos(c0.rx_pos as int, pkt_len as int)
                && (r matches Some(RxStep::Skipped { capr }) && capr == (if c1.rx_pos == 0 { Some((RX_BUFFER_SIZE - 16) as u8) } else { None::<u8> }))
            &&& c0.rx_pos != cbr as usize && pkt_status & 1 != 0 ==> c1.rx_pos == next_rx_pos(c0.rx_pos as int, pkt_len as int)
                && (r matches Some(RxStep::Frame { data_offset, copy_len, capr }) && data_offset == c0.rx_pos + 4
                    && copy_len == (if (pkt_len - 4) < buf_len { (pkt_len - 4) as usize } else { buf_len })
                    && capr == (c1.rx_pos as u16).wrapping_sub(16))
            &&& c1.tx_cur_port == c0.tx_cur_port
        }),
{
    match ctrl {
        Some(c) => {
            if c.rx_pos == cbr as usize {
                return Some(RxStep::Empty);
            }
            if pkt_status & 1 == 0 {
                c.rx_pos = advance(c.rx_pos, pkt_len as usize);
                let capr = if c.rx_pos == 0 { Some((RX_BUFFER_SIZE - 16) as u8) } else { None };
                return Some(RxStep::Skipped { capr });
            }
            let data_offset = c.rx_pos + 4;
            let frame = (pkt_len - 4) as usize;
            let copy_len = if frame < buf_len { frame } else { buf_len };
            c.rx_pos = advance(c.rx_pos, pkt_len as usize);
            let capr = (c.rx_pos as u16).wrapping_sub(16);
            Some(RxStep::Frame { data_offset, copy_len, capr })
        },
        None => None,
    }
}

} // verus!
