use kernel::bytes::{read_u16_le, read_u32_le, read_u64_le, checksum_ok};
use kernel::console::{dec_string, hex_fixed_string};
use kernel::drivers::pci::{config_address, decode_bar, scan_next};
use kernel::devices::ps2_mouse::Ps2Mouse;
use kernel::display::{color_to_native, native_to_color, PixelFormat};

#[test]
fn little_endian_reads() {
    let b = [0x78, 0x56, 0x34, 0x12, 0xEF, 0xCD, 0xAB, 0x89];
    assert_eq!(read_u16_le(&b, 0), 0x5678);
    assert_eq!(read_u32_le(&b, 0), 0x1234_5678);
    assert_eq!(read_u64_le(&b, 0), 0x89AB_CDEF_1234_5678);
    assert!(checksum_ok(&[0x10, 0xF0], 2));
    assert!(!checksum_ok(&[0x10, 0xF1], 2));
}

#[test]
fn number_text() {
    assert_eq!(dec_string(0), "0");
    assert_eq!(dec_string(1234567), "1234567");
    assert_eq!(hex_fixed_string(0xAB, 4, true), "00AB");
    assert_eq!(hex_fixed_string(0x1234, 2, false), "34");
}

#[test]
fn pci_helpers() {
    assert_eq!(config_address(1, 2, 3, 0x10), 0x8001_1310);
    assert_eq!(decode_bar(0xFEB0_0004, 0x1), 0x1_FEB0_0000);
    assert_eq!(scan_next(0, 0, 0, false, 0), Some((0, 1, 0)));
    assert_eq!(scan_next(0, 3, 0, true, 0x80), Some((0, 3, 1)));
    assert_eq!(scan_next(255, 31, 7, true, 0x80), None);
}

#[test]
fn mouse_packet() {
    let mut m = Ps2Mouse::new();
    m.handle_byte(0x09);
    m.handle_byte(5);
    m.handle_byte(0xFE);
    let s = m.get_state();
    assert!(s.left_button);
    assert!(!s.right_button);
    assert_eq!(s.dx, 5);
    assert_eq!(s.dy, 2);
}

#[test]
fn colour_conversion_round_trips() {
    let c = 0x0012_3456;
    assert_eq!(native_to_color(color_to_native(c, PixelFormat::Bgr888), PixelFormat::Bgr888), c);
    assert_eq!(color_to_native(c, PixelFormat::Rgb888), c);
}

use kernel::acpi::rsdp::Rsdp;
use kernel::bytes::push_u32_le;
use kernel::devices::virtqueue::VirtQueue;
use kernel::devices::virtio_block::request_header;
use kernel::drivers::nvme::{io_command, status_code};

fn rsdp_bytes(revision: u8) -> Vec<u8> {
    let mut t = vec![0u8; 36];
    t[..8].copy_from_slice(b"RSD PTR ");
    t[9..15].copy_from_slice(b"BOCHS ");
    t[15] = revision;
    t[16..20].copy_from_slice(&0x7FE1_234u32.to_le_bytes());
    t[20..24].copy_from_slice(&36u32.to_le_bytes());
    t[24..32].copy_from_slice(&0x7FE1_1000u64.to_le_bytes());
    let sum20: u8 = t[..20].iter().fold(0u8, |a, b| a.wrapping_add(*b));
    t[8] = 0u8.wrapping_sub(sum20);
    let sum36: u8 = t.iter().fold(0u8, |a, b| a.wrapping_add(*b));
    t[32] = 0u8.wrapping_sub(sum36);
    t
}

#[test]
fn rsdp_parse_and_checksums() {
    let r = Rsdp::parse(&rsdp_bytes(2));
    assert_eq!(&r.signature, b"RSD PTR ");
    assert_eq!(r.revision, 2);
    assert_eq!(r.xsdt_address, 0x7FE1_1000);
    assert!(r.validate());
    assert!(r.validate_extended());
    let mut bad = rsdp_bytes(2);
    bad[10] ^= 1;
    let rb = Rsdp::parse(&bad);
    assert!(!rb.validate());
    assert!(!rb.validate_extended());
    let mut sig = rsdp_bytes(0);
    sig[0] = b'X';
    assert!(!Rsdp::parse(&sig).validate());
}

#[test]
fn little_endian_round_trip() {
    let mut v = Vec::new();
    push_u32_le(&mut v, 0xDEAD_BEEF);
    assert_eq!(v, vec![0xEF, 0xBE, 0xAD, 0xDE]);
    assert_eq!(read_u32_le(&v, 0), 0xDEAD_BEEF);
}

#[test]
fn virtqueue_free_then_alloc() {
    let mut q = VirtQueue::new(4);
    assert_eq!(q.alloc_desc(), Some(0));
    assert_eq!(q.alloc_desc(), Some(1));
    q.free_desc(0);
    // the descriptor freed last is the next one handed out
    assert_eq!(q.alloc_desc(), Some(0));
    assert_eq!(q.alloc_desc(), Some(2));
    assert_eq!(q.alloc_desc(), Some(3));
    assert_eq!(q.alloc_desc(), None);
}

#[test]
fn block_request_header_layout() {
    assert_eq!(request_header(false, 5), vec![0, 0, 0, 0, 0, 0, 0, 0, 5, 0, 0, 0, 0, 0, 0, 0]);
    assert_eq!(request_header(true, 0x1_0000_0002)[..12], [1, 0, 0, 0, 0, 0, 0, 0, 2, 0, 0, 0]);
}

#[test]
fn rgb565_round_trip() {
    let native = 0xF81Fu32;
    assert_eq!(color_to_native(native_to_color(native, PixelFormat::Rgb565), PixelFormat::Rgb565), native);
    assert_eq!(color_to_native(0x00FF_0000, PixelFormat::Rgb565), 0xF800);
}

#[test]
fn nvme_status_field() {
    // status word: phase in bit 0, status code in bits 1..=7
    assert_eq!(status_code(0x0003), 1);
    assert_eq!(status_code(0x0001), 0);
    let _ = io_command(false, 1, 0, 1, 0x1000);
}

use kernel::devices::virtio_block::VirtioBlock;
use kernel::drivers::pci::PciDevice;
use kernel::drivers::{e1000, rtl8139, virtio_gpu};

fn device_with_bar0(bar0: u32) -> PciDevice {
    PciDevice {
        bus: 0, dev: 3, func: 0, vendor_id: 0x8086, device_id: 0x100E,
        class: 2, subclass: 0, prog_if: 0, header_type: 0,
        bar0, bar1: 0, bar2: 0, bar3: 0, bar4: 0, bar5: 0,
        bar_phys: [0; 6], irq: 11,
    }
}

#[test]
fn gpu_identity_errors() {
    assert_eq!(virtio_gpu::check_identity(0, 2, 16), Err("gpu: неверный magic"));
    assert_eq!(virtio_gpu::check_identity(0x7472_6976, 1, 16), Err("gpu: неверная версия VirtIO"));
    assert_eq!(virtio_gpu::check_identity(0x7472_6976, 2, 2), Err("gpu: не GPU device"));
    assert_eq!(virtio_gpu::check_identity(0x7472_6976, 2, 16), Ok(()));
}

#[test]
fn gpu_queue_size_is_capped() {
    assert_eq!(virtio_gpu::queue_size_for(0), Err("gpu: queue size 0"));
    assert_eq!(virtio_gpu::queue_size_for(0x1_0000), Err("gpu: queue size 0"));
    assert_eq!(virtio_gpu::queue_size_for(8), Ok(8));
    assert_eq!(virtio_gpu::queue_size_for(256), Ok(32));
}

#[test]
fn block_identity_errors() {
    assert_eq!(VirtioBlock::check_identity(1, 2, 2), Err("bad magic"));
    assert_eq!(VirtioBlock::check_identity(0x7472_6976, 1, 2), Err("bad version"));
    assert_eq!(VirtioBlock::check_identity(0x7472_6976, 2, 16), Err("not block device"));
    assert_eq!(VirtioBlock::check_identity(0x7472_6976, 2, 2), Ok(()));
}

#[test]
fn rtl8139_io_base() {
    assert_eq!(rtl8139::io_base_for(&device_with_bar0(0xC000)), Err("BAR0 is not an I/O BAR"));
    assert_eq!(rtl8139::io_base_for(&device_with_bar0(0x0001)), Err("BAR0 = 0"));
    assert_eq!(rtl8139::io_base_for(&device_with_bar0(0xC001)), Ok(0xC000));
}

#[test]
fn e1000_mmio_base() {
    assert_eq!(e1000::mmio_base_for(&device_with_bar0(0x0000_000F), 0xFFFF_8000_0000_0000), Err("BAR0 = 0"));
    assert_eq!(
        e1000::mmio_base_for(&device_with_bar0(0xFEBC_0004), 0xFFFF_8000_0000_0000),
        Ok(0xFFFF_8000_FEBC_0000)
    );
}

use kernel::drivers::nvme::{command_succeeded, NvmeController};

#[test]
fn nvme_controller_from_device() {
    assert!(matches!(NvmeController::from_device(&device_with_bar0(0x8), 0xFFFF_8000_0000_0000, 0), Err("BAR0 = 0")));
    // CAP.DSTRD = 2, CAP.MPSMIN = 1
    let cap: u64 = (1u64 << 48) | (2u64 << 32);
    let c = NvmeController::from_device(&device_with_bar0(0xFEB0_0004), 0xFFFF_8000_0000_0000, cap).ok().unwrap();
    assert_eq!(c.mmio_base, 0xFFFF_8000_FEB0_0000);
    assert_eq!(c.doorbell_stride, 16);
    assert_eq!(c.page_size, 8192);
    assert_eq!(c.block_size, 512);
    assert_eq!(c.total_blocks, 0);
    assert_eq!(c.ns_id, 1);
    assert!(c.admin.phase && c.io.phase);
}

#[test]
fn nvme_namespace_applied() {
    let mut page = vec![0u8; 4096];
    page[0..8].copy_from_slice(&2048u64.to_le_bytes());
    page[26] = 1;
    page[133] = 12;
    let mut c = NvmeController::from_device(&device_with_bar0(0xFEB0_0000), 0, 0).ok().unwrap();
    c.apply_namespace(Some(1), &page);
    assert_eq!((c.total_blocks, c.block_size), (2048, 4096));
    c.apply_namespace(Some(1 | (2 << 1)), &page);
    assert_eq!((c.total_blocks, c.block_size), (0, 512));
    c.apply_namespace(None, &page);
    assert_eq!((c.total_blocks, c.block_size), (0, 512));
    assert!(command_succeeded(Some(0)));
    assert!(command_succeeded(Some(1)));
    assert!(!command_succeeded(Some(0x10)));
    assert!(!command_succeeded(None));
}

use kernel::drivers::rtl8139::Rtl8139Controller;

#[test]
fn rtl8139_setup_sequence() {
    let c = Rtl8139Controller::new(0xC000, [0x52, 0x54, 0, 0x12, 0x34, 0x56], 0x10_0000, [0x20_0000, 0x20_1000, 0x20_2000, 0x20_3000]);
    assert_eq!(c.reset_write(), (0xC037, 0x10, 1));
    assert!(!Rtl8139Controller::reset_done(0x10));
    assert!(Rtl8139Controller::reset_done(0x0C));
    assert_eq!(c.mac_ports(), [0xC000, 0xC001, 0xC002, 0xC003, 0xC004, 0xC005]);
    assert_eq!(
        c.setup_writes(),
        vec![
            (0xC030, 0x10_0000, 4),
            (0xC020, 0x20_0000, 4),
            (0xC024, 0x20_1000, 4),
            (0xC028, 0x20_2000, 4),
            (0xC02C, 0x20_3000, 4),
            (0xC044, 0x87, 1),
            (0xC040, 0x0B00_0000, 4),
            (0xC037, 0x0C, 1),
        ]
    );
}

use kernel::devices::ps2_mouse::{setup_sequence, enable_sequence, acknowledged, unmask_mouse_irq, Ps2Op};

#[test]
fn ps2_mouse_bring_up() {
    assert_eq!(setup_sequence(), vec![
        Ps2Op::WaitInputEmpty, Ps2Op::Write(0x64, 0xA8),
        Ps2Op::WaitInputEmpty, Ps2Op::Write(0x64, 0x20),
        Ps2Op::WaitOutputFull, Ps2Op::Read(0x60),
    ]);
    let ops = enable_sequence(0x44);
    assert_eq!(ops[3], Ps2Op::Write(0x60, 0x47));
    assert_eq!(ops[5], Ps2Op::Write(0x64, 0xD4));
    assert_eq!(ops[7], Ps2Op::Write(0x60, 0xF4));
    assert_eq!(ops[9], Ps2Op::Read(0x60));
    assert!(acknowledged(0xFA));
    assert!(!acknowledged(0xFE));
    assert_eq!(unmask_mouse_irq(0xFF), 0xFB);
}

#[test]
fn block_poll_reads_used_ring() {
    let mut dev = VirtioBlock::new(0x0a00_0000);
    assert!(dev.probe(0x7472_6976, 2, 2, 8, true, 2048, 0).is_ok());
    let mut used = vec![0u32; 2 + 2 * 8];
    assert_eq!(dev.poll(&used), None);
    used[1] = 1;
    used[2] = 5;
    assert_eq!(dev.poll(&used), Some(5));
    assert_eq!(dev.poll(&used), None);
}

#[test]
fn block_failed_transfer_keeps_descriptors_taken() {
    let mut dev = VirtioBlock::new(0x0a00_0000);
    assert!(dev.probe(0x7472_6976, 2, 2, 3, true, 16, 0).is_ok());
    let c = dev.start_transfer(false, 0x1000, 512).ok().unwrap();
    assert_eq!(dev.finish_transfer(false, c, 0), Ok(()));
    let c = dev.start_transfer(false, 0x1000, 512).ok().unwrap();
    assert_eq!(dev.finish_transfer(false, c, 1), Err("read failed"));
    // the failed request's descriptors were not given back
    assert_eq!(dev.start_transfer(true, 0x1000, 512).err(), Some("no desc"));
}

#[test]
fn block_short_queue_keeps_taken_descriptors() {
    let mut dev = VirtioBlock::new(0x0a00_0000);
    assert!(dev.probe(0x7472_6976, 2, 2, 4, true, 16, 0).is_ok());
    let c = dev.start_transfer(false, 0x1000, 512).ok().unwrap();
    assert_eq!(dev.start_transfer(false, 0x2000, 512).err(), Some("no desc"));
    assert_eq!(dev.finish_transfer(false, c, 0), Ok(()));
    // three free again, the fourth stays taken: one more transfer fits
    let c = dev.start_transfer(false, 0x1000, 512).ok().unwrap();
    assert_eq!(dev.finish_transfer(false, c, 0), Ok(()));
}

#[test]
fn block_failed_probe_leaves_device_down() {
    let mut dev = VirtioBlock::new(0x0a00_0000);
    assert_eq!(dev.probe(0x7472_6976, 2, 2, 0, true, 16, 0), Err("queue size 0"));
    assert!(!dev.is_ready());
    assert_eq!(dev.disk_size(), 0);
    assert_eq!(dev.probe(0, 2, 2, 8, true, 16, 0), Err("bad magic"));
    assert!(!dev.is_ready());
}

use kernel::drivers::nvme_init::{NvmeInit, InitEvent, InitAction, InitPhase};

fn nvme_device() -> PciDevice {
    let mut d = device_with_bar0(0xFEB0_0004);
    d.class = 1;
    d.subclass = 8;
    d
}

#[test]
fn nvme_bring_up_to_ready() {
    let mut s = NvmeInit::new(0xFFFF_8000_0000_0000);
    let a = s.step(InitEvent::Device(Some(nvme_device())));
    assert!(matches!(a[..], [InitAction::EnableBusMaster(0, 3, 0), InitAction::ReadCap]));
    let a = s.step(InitEvent::Cap(0));
    assert!(matches!(a[..], [InitAction::WriteReg32(0x14, 0), InitAction::ReadStatus]));
    assert!(matches!(s.step(InitEvent::Status(1))[..], [InitAction::ReadStatus]));
    assert!(matches!(s.step(InitEvent::Status(0))[..], [InitAction::AllocQueues]));
    let a = s.step(InitEvent::Memory(Some((0x10_0000, 0x11_0000))));
    assert!(matches!(a[..], [
        InitAction::WriteReg32(0x24, 0x003F_003F),
        InitAction::WriteReg64(0x28, 0x10_0000),
        InitAction::WriteReg64(0x30, 0x11_0000),
        InitAction::WriteReg32(0x14, 0x0046_0001),
        InitAction::ReadStatus,
    ]));
    assert!(matches!(s.step(InitEvent::Status(0))[..], [InitAction::ReadStatus]));
    assert!(matches!(s.step(InitEvent::Status(1))[..], [InitAction::AllocPage]));
    let a = s.step(InitEvent::Page(Some(0x20_0000)));
    assert!(matches!(a[..], [InitAction::SubmitAdmin(c)] if c.opcode == 0x06 && c.prp1 == 0x20_0000 && c.cdw[0] == 0x0001_0000));
    assert!(matches!(s.step(InitEvent::Completion(Some(1)))[..], [InitAction::AllocQueues]));
    let a = s.step(InitEvent::Memory(Some((0x30_0000, 0x31_0000))));
    assert!(matches!(a[..], [InitAction::SubmitAdmin(c)] if c.opcode == 0x05 && c.prp1 == 0x31_0000));
    let a = s.step(InitEvent::Completion(Some(1)));
    assert!(matches!(a[..], [InitAction::SubmitAdmin(c)] if c.opcode == 0x01 && c.prp1 == 0x30_0000));
    assert!(matches!(s.step(InitEvent::Completion(Some(1)))[..], [InitAction::AllocPage]));
    let a = s.step(InitEvent::Page(Some(0x40_0000)));
    assert!(matches!(a[..], [InitAction::SubmitAdmin(c)] if c.opcode == 0x06 && c.nsid == 1));
    let mut page = vec![0u8; 4096];
    page[0..8].copy_from_slice(&1000u64.to_le_bytes());
    page[129] = 9;
    assert!(matches!(s.step(InitEvent::Namespace(Some(1), page))[..], [InitAction::Done]));
    assert_eq!(s.phase, InitPhase::Ready);
    let c = s.ctrl.as_ref().unwrap();
    assert_eq!((c.total_blocks, c.block_size, c.mmio_base), (1000, 512, 0xFFFF_8000_FEB0_0000));
}

#[test]
fn nvme_bring_up_failures() {
    let mut s = NvmeInit::new(0);
    assert!(matches!(s.step(InitEvent::Device(None))[..], [InitAction::Fail(_)]));
    assert_eq!(s.phase, InitPhase::Failed);
    let mut s = NvmeInit::new(0);
    assert!(matches!(s.step(InitEvent::Device(Some(device_with_bar0(0x8))))[..], [InitAction::EnableBusMaster(..), InitAction::Fail(_)]));
    // the submission queue is not created when the completion queue failed
    let mut s = NvmeInit::new(0);
    s.step(InitEvent::Device(Some(nvme_device())));
    s.step(InitEvent::Cap(0));
    s.step(InitEvent::Status(0));
    s.step(InitEvent::Memory(Some((1, 2))));
    s.step(InitEvent::Status(1));
    s.step(InitEvent::Page(None));
    s.step(InitEvent::Memory(Some((3, 4))));
    assert!(matches!(s.step(InitEvent::Completion(Some(0x0004)))[..], [InitAction::Fail(_)]));
    assert_eq!(s.phase, InitPhase::Failed);
    // an event the phase does not wait for changes nothing
    assert!(s.step(InitEvent::Status(0)).is_empty());
}

use kernel::drivers::gpu_probe::{GpuProbe, GpuEvent, GpuAction, GpuPhase};

fn ok_nodata() -> Vec<u8> {
    0x1100u32.to_le_bytes().to_vec()
}

#[test]
fn gpu_bring_up_to_ready() {
    let mut s = GpuProbe::new(0xFE00_0000, 0xFFFF_8000_0000_0000, 0x50_0000);
    let a = s.step(GpuEvent::Identity(0x7472_6976, 2, 16));
    assert!(matches!(a[..], [GpuAction::WriteStatus(3), GpuAction::ReadFeatures, GpuAction::Write32(0x20, 0), GpuAction::Write32(0x30, 0), GpuAction::ReadQueueMax]));
    let a = s.step(GpuEvent::QueueMax(64));
    assert_eq!(s.gpu.queue_size, 32);
    assert_eq!(a.len(), 8);
    assert!(matches!(a[0], GpuAction::Write32(0x80, 0x50_0000)));
    assert!(matches!(a[6], GpuAction::Write32(0x44, 1)));
    assert!(matches!(&a[7], GpuAction::Send(c) if c.len() == 24 && c[0] == 0x00 && c[1] == 0x01));
    let mut resp = vec![0u8; 408];
    resp[0..4].copy_from_slice(&0x1101u32.to_le_bytes());
    resp[32..36].copy_from_slice(&800u32.to_le_bytes());
    resp[36..40].copy_from_slice(&600u32.to_le_bytes());
    resp[40..44].copy_from_slice(&1u32.to_le_bytes());
    let a = s.step(GpuEvent::Response(Ok(resp)));
    assert!(matches!(a[..], [GpuAction::AllocFramebuffer(469)]));
    assert_eq!((s.gpu.width, s.gpu.height), (800, 600));
    let a = s.step(GpuEvent::Framebuffer(Some(0x100_0000)));
    assert!(matches!(&a[..], [GpuAction::ClearFramebuffer, GpuAction::Send(_)]));
    assert_eq!((s.gpu.fb_virt, s.gpu.pitch, s.gpu.resource_id), (0xFFFF_8000_0100_0000, 3200, 1));
    assert!(matches!(&s.step(GpuEvent::Response(Ok(ok_nodata())))[..], [GpuAction::Send(_)]));
    assert!(matches!(&s.step(GpuEvent::Response(Ok(ok_nodata())))[..], [GpuAction::Send(_)]));
    assert!(matches!(s.step(GpuEvent::Response(Ok(ok_nodata())))[..], [GpuAction::Done]));
    assert_eq!(s.phase, GpuPhase::Ready);
    assert!(s.gpu.ready);
}

#[test]
fn gpu_bring_up_failures() {
    let mut s = GpuProbe::new(0, 0, 0);
    assert!(matches!(s.step(GpuEvent::Identity(0x7472_6976, 2, 2))[..], [GpuAction::Fail("gpu: не GPU device")]));
    let mut s = GpuProbe::new(0, 0, 0);
    s.step(GpuEvent::Identity(0x7472_6976, 2, 16));
    assert!(matches!(s.step(GpuEvent::QueueMax(0))[..], [GpuAction::Fail("gpu: queue size 0")]));
    let mut s = GpuProbe::new(0, 0, 0);
    s.step(GpuEvent::Identity(0x7472_6976, 2, 16));
    s.step(GpuEvent::QueueMax(8));
    assert!(matches!(s.step(GpuEvent::Response(Err("gpu: таймаут ответа")))[..], [GpuAction::Fail("gpu: таймаут ответа")]));
    assert_eq!(s.phase, GpuPhase::Failed);
    assert!(!s.gpu.ready);
}
