//! VirtIO GPU: device identification, control-queue set-up, the encoding of
//! the 2D commands, display selection and framebuffer geometry.
use vstd::prelude::*;
use crate::bytes::{le32, le_bytes32, le_bytes64, push_u32_le, push_u64_le, read_u32_le};

verus! {

pub const VIRTIO_GPU_CMD_GET_DISPLAY_INFO: u32 = 0x100;
pub const VIRTIO_GPU_CMD_SET_SCANOUT: u32 = 0x101;
pub const VIRTIO_GPU_CMD_RESOURCE_CREATE_2D: u32 = 0x102;
pub const VIRTIO_GPU_CMD_TRANSFER_TO_HOST_2D: u32 = 0x104;
pub const VIRTIO_GPU_CMD_RESOURCE_FLUSH: u32 = 0x105;
pub const VIRTIO_GPU_CMD_RESOURCE_ATTACH_BACKING: u32 = 0x110;
pub const VIRTIO_GPU_RESP_OK_NODATA: u32 = 0x1100;
pub const VIRTIO_GPU_RESP_OK_DISPLAY_INFO: u32 = 0x1101;
pub const VIRTIO_GPU_FORMAT_B8G8R8X8_UNORM: u32 = 1;

pub const MMIO_QUEUE_READY: u64 = 0x44;
pub const MMIO_QUEUE_DESC_LOW: u64 = 0x80;
pub const MMIO_QUEUE_DESC_HIGH: u64 = 0x84;
pub const MMIO_QUEUE_DRIVER_LOW: u64 = 0x90;
pub const MMIO_QUEUE_DRIVER_HIGH: u64 = 0x94;
pub const MMIO_QUEUE_DEVICE_LOW: u64 = 0xA0;
pub const MMIO_QUEUE_DEVICE_HIGH: u64 = 0xA4;

pub const VIRTIO_MAGIC: u32 = 0x7472_6976;
pub const VIRTIO_VERSION: u32 = 2;
pub const VIRTIO_DEVICE_ID_GPU: u32 = 16;

/// Size of one display entry in the display-info response.
pub const DISPLAY_ONE_SIZE: usize = 24;
/// Size of the control header.
pub const CTRL_HDR_SIZE: usize = 24;

/// Identity check of the MMIO header.
pub fn check_identity(magic: u32, version: u32, device_id: u32) -> (r: Result<(), &'static str>)
    ensures
        magic != VIRTIO_MAGIC ==> (r matches Err(e) && e@ == "gpu: неверный magic"@),
        magic == VIRTIO_MAGIC && version != VIRTIO_VERSION ==> (r matches Err(e) && e@ == "gpu: неверная версия VirtIO"@),
        magic == VIRTIO_MAGIC && version == VIRTIO_VERSION && device_id != VIRTIO_DEVICE_ID_GPU
            ==> (r matches Err(e) && e@ == "gpu: не GPU device"@),
        magic == VIRTIO_MAGIC && version == VIRTIO_VERSION && device_id == VIRTIO_DEVICE_ID_GPU ==> r is Ok,
{
    if magic != VIRTIO_MAGIC {
        return Err("gpu: неверный magic");
    }
    if version != VIRTIO_VERSION {
        return Err("gpu: неверная версия VirtIO");
    }
    if device_id != VIRTIO_DEVICE_ID_GPU {
        return Err("gpu: не GPU device");
    }
    Ok(())
}

/// Queue size used: the device maximum (as 16 bits) capped at 32; zero is an error.
pub fn queue_size_for(queue_num_max: u32) -> (r: Result<u16, &'static str>)
    ensures
        queue_num_max as u16 == 0 ==> (r matches Err(e) && e@ == "gpu: queue size 0"@),
        queue_num_max as u16 != 0 ==> r == Ok::<u16, &'static str>(if queue_num_max as u16 > 32 { 32u16 } else { queue_num_max as u16 }),
{
    let qs = queue_num_max as u16;
    if qs == 0 {
        return Err("gpu: queue size 0");
    }
    if qs > 32 { Ok(32) } else { Ok(qs) }
}

/// Register writes that hand the rings at `desc_phys` (descriptor table,
/// then available ring, then used ring) to the device and mark the queue ready.
pub open spec fn queue_registers_spec(desc_phys: u64, queue_size: u16) -> Seq<(u64, u32)> {
    let avail = desc_phys + queue_size as int * 16;
    let used = avail + 6 + queue_size as int * 2;
    seq![
        (MMIO_QUEUE_DESC_LOW, desc_phys as u32),
        (MMIO_QUEUE_DESC_HIGH, (desc_phys >> 32u64) as u32),
        (MMIO_QUEUE_DRIVER_LOW, avail as u64 as u32),
        (MMIO_QUEUE_DRIVER_HIGH, ((avail as u64) >> 32u64) as u32),
        (MMIO_QUEUE_DEVICE_LOW, used as u64 as u32),
        (MMIO_QUEUE_DEVICE_HIGH, ((used as u64) >> 32u64) as u32),
        (MMIO_QUEUE_READY, 1u32),
    ]
}

pub fn queue_registers(desc_phys: u64, queue_size: u16) -> (r: Vec<(u64, u32)>)
    requires
        desc_phys + 0x20_0000 <= u64::MAX,
    ensures
        r@ == queue_registers_spec(desc_phys, queue_size),
{
    let avail = desc_phys + queue_size as u64 * 16;
    let used = avail + 6 + queue_size as u64 * 2;
    let r = vec![
        (MMIO_QUEUE_DESC_LOW, desc_phys as u32),
        (MMIO_QUEUE_DESC_HIGH, (desc_phys >> 32u64) as u32),
        (MMIO_QUEUE_DRIVER_LOW, avail as u32),
        (MMIO_QUEUE_DRIVER_HIGH, (avail >> 32u64) as u32),
        (MMIO_QUEUE_DEVICE_LOW, used as u32),
        (MMIO_QUEUE_DEVICE_HIGH, (used >> 32u64) as u32),
        (MMIO_QUEUE_READY, 1u32),
    ];
    assert(r@ =~= queue_registers_spec(desc_phys, queue_size));
    r
}

/// Control header: command type, then zero flags, fence, context and padding.
pub open spec fn ctrl_hdr(ty: u32) -> Seq<u8> {
    le_bytes32(ty) + le_bytes32(0) + le_bytes64(0) + le_bytes32(0) + le_bytes32(0)
}

fn push_hdr(v: &mut Vec<u8>, ty: u32)
    ensures
        final(v)@ == old(v)@ + ctrl_hdr(ty),
{
    push_u32_le(v, ty);
    push_u32_le(v, 0);
    push_u64_le(v, 0);
    push_u32_le(v, 0);
    push_u32_le(v, 0);
    assert(v@ =~= old(v)@ + ctrl_hdr(ty));
}

pub open spec fn get_display_info_cmd_spec() -> Seq<u8> {
    ctrl_hdr(VIRTIO_GPU_CMD_GET_DISPLAY_INFO)
}

pub open spec fn resource_create_2d_spec(resource_id: u32, width: u32, height: u32) -> Seq<u8> {
    ctrl_hdr(VIRTIO_GPU_CMD_RESOURCE_CREATE_2D) + le_bytes32(resource_id) + le_bytes32(VIRTIO_GPU_FORMAT_B8G8R8X8_UNORM)
        + le_bytes32(width) + le_bytes32(height)
}

pub open spec fn attach_backing_spec(resource_id: u32, fb_phys: u64, fb_size: u32) -> Seq<u8> {
    ctrl_hdr(VIRTIO_GPU_CMD_RESOURCE_ATTACH_BACKING) + le_bytes32(resource_id) + le_bytes32(1)
        + le_bytes64(fb_phys) + le_bytes32(fb_size) + le_bytes32(0)
}

pub open spec fn set_scanout_spec(scanout_id: u32, x: u32, y: u32, width: u32, height: u32, resource_id: u32) -> Seq<u8> {
    ctrl_hdr(VIRTIO_GPU_CMD_SET_SCANOUT) + le_bytes32(x) + le_bytes32(y) + le_bytes32(width) + le_bytes32(height)
        + le_bytes32(scanout_id) + le_bytes32(resource_id)
}

/// TRANSFER_TO_HOST_2D and RESOURCE_FLUSH share this layout.
pub open spec fn rect_cmd_spec(ty: u32, x: u32, y: u32, w: u32, h: u32, resource_id: u32) -> Seq<u8> {
    ctrl_hdr(ty) + le_bytes32(x) + le_bytes32(y) + le_bytes32(w) + le_bytes32(h) + le_bytes32(resource_id) + le_bytes32(0)
}

pub fn get_display_info_cmd() -> (r: Vec<u8>)
    ensures
        r@ == get_display_info_cmd_spec(),
{
    let mut v: Vec<u8> = Vec::new();
    push_hdr(&mut v, VIRTIO_GPU_CMD_GET_DISPLAY_INFO);
    assert(v@ =~= get_display_info_cmd_spec());
    v
}

pub fn resource_create_2d_cmd(resource_id: u32, width: u32, height: u32) -> (r: Vec<u8>)
    ensures
        r@ == resource_create_2d_spec(resource_id, width, height),
{
    let mut v: Vec<u8> = Vec::new();
    push_hdr(&mut v, VIRTIO_GPU_CMD_RESOURCE_CREATE_2D);
    push_u32_le(&mut v, resource_id);
    push_u32_le(&mut v, VIRTIO_GPU_FORMAT_B8G8R8X8_UNORM);
    push_u32_le(&mut v, width);
    push_u32_le(&mut v, height);
    assert(v@ =~= resource_create_2d_spec(resource_id, width, height));
    v
}

pub fn attach_backing_cmd(resource_id: u32, fb_phys: u64, fb_size: u32) -> (r: Vec<u8>)
    ensures
        r@ == attach_backing_spec(resource_id, fb_phys, fb_size),
{
    let mut v: Vec<u8> = Vec::new();
    push_hdr(&mut v, VIRTIO_GPU_CMD_RESOURCE_ATTACH_BACKING);
    push_u32_le(&mut v, resource_id);
    push_u32_le(&mut v, 1);
    push_u64_le(&mut v, fb_phys);
    push_u32_le(&mut v, fb_size);
    push_u32_le(&mut v, 0);
    assert(v@ =~= attach_backing_spec(resource_id, fb_phys, fb_size));
    v
}

pub fn set_scanout_cmd(scanout_id: u32, x: u32, y: u32, width: u32, height: u32, resource_id: u32) -> (r: Vec<u8>)
    ensures
        r@ == set_scanout_spec(scanout_id, x, y, width, height, resource_id),
{
    let mut v: Vec<u8> = Vec::new();
    push_hdr(&mut v, VIRTIO_GPU_CMD_SET_SCANOUT);
    push_u32_le(&mut v, x);
    push_u32_le(&mut v, y);
    push_u32_le(&mut v, width);
    push_u32_le(&mut v, height);
    push_u32_le(&mut v, scanout_id);
    push_u32_le(&mut v, resource_id);
    assert(v@ =~= set_scanout_spec(scanout_id, x, y, width, height, resource_id));
    v
}

pub fn rect_cmd(ty: u32, x: u32, y: u32, w: u32, h: u32, resource_id: u32) -> (r: Vec<u8>)
    ensures
        r@ == rect_cmd_spec(ty, x, y, w, h, resource_id),
{
    let mut v: Vec<u8> = Vec::new();
    push_hdr(&mut v, ty);
    push_u32_le(&mut v, x);
    push_u32_le(&mut v, y);
    push_u32_le(&mut v, w);
    push_u32_le(&mut v, h);
    push_u32_le(&mut v, resource_id);
    push_u32_le(&mut v, 0);
    assert(v@ =~= rect_cmd_spec(ty, x, y, w, h, resource_id));
    v
}

/// Whether a response starts with the given type.
pub fn response_is(resp: &[u8], ty: u32) -> (r: bool)
    requires
        resp@.len() >= 4,
    ensures
        r == (le32(resp@, 0) == ty),
{
    read_u32_le(resp, 0) == ty
}

/// Field `k` (x, y, width, height, enabled, flags) of display `i` in a
/// display-info response.
pub open spec fn display_field(resp: Seq<u8>, i: int, k: int) -> int {
    le32(resp, CTRL_HDR_SIZE + i * DISPLAY_ONE_SIZE + 4 * k)
}

/// Display `i` is enabled and has a non-empty size.
pub open spec fn display_usable(resp: Seq<u8>, i: int) -> bool {
    display_field(resp, i, 4) != 0 && display_field(resp, i, 2) > 0 && display_field(resp, i, 3) > 0
}

/// Resolution chosen from a display-info response: that of the first usable
/// display among the sixteen, else 1024x768.
pub open spec fn display_choice(resp: Seq<u8>) -> (u32, u32) {
    if exists|i: int| 0 <= i < 16 && display_usable(resp, i) {
        let i = choose|i: int| 0 <= i < 16 && display_usable(resp, i) && forall|j: int| 0 <= j < i ==> !display_usable(resp, j);
        (display_field(resp, i, 2) as u32, display_field(resp, i, 3) as u32)
    } else {
        (1024, 768)
    }
}

/// Interprets a display-info response: an unexpected type is an error,
/// otherwise the chosen resolution.
pub fn parse_display_info(resp: &[u8]) -> (r: Result<(u32, u32), &'static str>)
    requires
        resp@.len() >= CTRL_HDR_SIZE + 16 * DISPLAY_ONE_SIZE,
    ensures
        le32(resp@, 0) != VIRTIO_GPU_RESP_OK_DISPLAY_INFO ==> (r matches Err(e) && e@ == "gpu: GET_DISPLAY_INFO: неверный ответ"@),
        le32(resp@, 0) == VIRTIO_GPU_RESP_OK_DISPLAY_INFO ==> (r matches Ok(wh) && {
            &&& (exists|i: int| 0 <= i < 16 && display_usable(resp@, i)) ==> exists|i: int| 0 <= i < 16
                && display_usable(resp@, i) && (forall|j: int| 0 <= j < i ==> !display_usable(resp@, j))
                && wh == (display_field(resp@, i, 2) as u32, display_field(resp@, i, 3) as u32)
            &&& (forall|i: int| 0 <= i < 16 ==> !display_usable(resp@, i)) ==> wh == (1024u32, 768u32)
            &&& wh == display_choice(resp@)
        }),
{
    if !response_is(resp, VIRTIO_GPU_RESP_OK_DISPLAY_INFO) {
        return Err("gpu: GET_DISPLAY_INFO: неверный ответ");
    }
    let mut i: usize = 0;
    while i < 16
        invariant
            i <= 16,
            resp@.len() >= CTRL_HDR_SIZE + 16 * DISPLAY_ONE_SIZE,
            le32(resp@, 0) == VIRTIO_GPU_RESP_OK_DISPLAY_INFO,
            forall|j: int| 0 <= j < i ==> !display_usable(resp@, j),
        decreases 16 - i,
    {
        let base = CTRL_HDR_SIZE + i * DISPLAY_ONE_SIZE;
        let width = read_u32_le(resp, base + 8);
        let height = read_u32_le(resp, base + 12);
        let enabled = read_u32_le(resp, base + 16);
        assert(width == display_field(resp@, i as int, 2));
        assert(height == display_field(resp@, i as int, 3));
        assert(enabled == display_field(resp@, i as int, 4));
        if enabled != 0 && width > 0 && height > 0 {
            assert(display_usable(resp@, i as int));
            proof {
                let k = choose|k: int| 0 <= k < 16 && display_usable(resp@, k) && forall|j: int| 0 <= j < k ==> !display_usable(resp@, j);
                assert(0 <= k < 16 && display_usable(resp@, k) && forall|j: int| 0 <= j < k ==> !display_usable(resp@, j));
                if k < i { assert(!display_usable(resp@, k)); }
                if k > i { assert(!display_usable(resp@, i as int)); }
            }
            return Ok((width, height));
        }
        i = i + 1;
    }
    Ok((1024, 768))
}

/// Framebuffer geometry for a resolution: size in bytes (4 per pixel), pages
/// of 4 KiB, pitch in bytes.
pub fn framebuffer_geometry(width: u32, height: u32) -> (r: (usize, usize, u32))
    requires
        width as int * height as int * 4 + 4095 <= usize::MAX,
        width as int * 4 <= u32::MAX,
    ensures
        r.0 == width as int * height as int * 4,
        r.1 == (r.0 + 4095) / 4096,
        r.2 == width * 4,
{
    proof {
        assert(width as int * height as int * 4 <= u32::MAX as int * u32::MAX as int * 4) by (nonlinear_arith)
            requires
                width <= u32::MAX,
                height <= u32::MAX,
        ;
    }
    let fb_size = (width as usize) * (height as usize) * 4;
    (fb_size, (fb_size + 4095) / 4096, width * 4)
}

/// Physical MMIO window of the device: BAR2 when it lies below the end of
/// physical memory and shows the VirtIO magic, else BAR0 under the same
/// conditions, else none (0).
pub open spec fn choose_mmio_spec(bar0: u64, bar2: u64, max_phys: u64, magic0: u32, magic2: u32) -> u64 {
    if bar2 != 0 && bar2 < max_phys && magic2 == VIRTIO_MAGIC {
        bar2
    } else if bar0 != 0 && bar0 < max_phys && magic0 == VIRTIO_MAGIC {
        bar0
    } else {
        0
    }
}

pub fn choose_mmio_base(bar0: u64, bar2: u64, max_phys: u64, magic0: u32, magic2: u32) -> (r: u64)
    ensures
        r == choose_mmio_spec(bar0, bar2, max_phys, magic0, magic2),
{
    let mut mmio_base: u64 = 0;
    if bar2 != 0 && bar2 < max_phys && magic2 == VIRTIO_MAGIC {
        mmio_base = bar2;
    }
    if mmio_base == 0 && bar0 != 0 && bar0 < max_phys && magic0 == VIRTIO_MAGIC {
        mmio_base = bar0;
    }
    mmio_base
}

/// End of physical memory: the largest `base + length` of the memory map
/// entries, 4 GiB when there are none.
pub open spec fn max_phys_spec(entries: Seq<(u64, u64)>) -> int
    decreases entries.len(),
{
    if entries.len() == 0 {
        0x1_0000_0000
    } else if entries.len() == 1 {
        entries[0].0 + entries[0].1
    } else {
        let rest = max_phys_spec(entries.drop_last());
        let e = entries.last().0 + entries.last().1;
        if e > rest { e } else { rest }
    }
}

pub fn max_phys_end(entries: &[(u64, u64)]) -> (r: u64)
    requires
        forall|i: int| 0 <= i < entries@.len() ==> entries@[i].0 + entries@[i].1 <= u64::MAX,
    ensures
        r == max_phys_spec(entries@),
{
    if entries.len() == 0 {
        return 0x1_0000_0000;
    }
    let mut best = entries[0].0 + entries[0].1;
    let mut i: usize = 1;
    while i < entries.len()
        invariant
            1 <= i <= entries@.len(),
            forall|k: int| 0 <= k < entries@.len() ==> entries@[k].0 + entries@[k].1 <= u64::MAX,
            best == max_phys_spec(entries@.take(i as int)),
        decreases entries.len() - i,
    {
        let e = entries[i].0 + entries[i].1;
        assert(entries@.take(i as int + 1).drop_last() =~= entries@.take(i as int));
        if e > best {
            best = e;
        }
        i = i + 1;
    }
    assert(entries@.take(entries@.len() as int) =~= entries@);
    best
}

/// Driver state of the GPU.
pub struct VirtioGpu {
    pub base: u64,
    pub queue_size: u16,
    pub fb_phys: u64,
    pub fb_virt: u64,
    pub width: u32,
    pub height: u32,
    pub pitch: u32,
    pub resource_id: u32,
    pub ready: bool,
}

impl VirtioGpu {
    pub fn new(base: u64) -> (g: VirtioGpu)
        ensures
            g == (VirtioGpu { base, queue_size: 0, fb_phys: 0, fb_virt: 0, width: 0, height: 0, pitch: 0, resource_id: 0, ready: false }),
    {
        VirtioGpu { base, queue_size: 0, fb_phys: 0, fb_virt: 0, width: 0, height: 0, pitch: 0, resource_id: 0, ready: false }
    }

    /// Next resource identifier (identifiers start at 1).
    pub fn alloc_resource_id(&mut self) -> (r: u32)
        requires
            old(self).resource_id < u32::MAX,
        ensures
            r == old(self).resource_id + 1,
            *final(self) == (VirtioGpu { resource_id: r, ..*old(self) }),
    {
        self.resource_id = self.resource_id + 1;
        self.resource_id
    }

    /// Transfer of the rectangle to the host resource followed by a flush of
    /// it; nothing before the device is ready.
    pub fn flush_region(&self, x: u32, y: u32, w: u32, h: u32) -> (r: Vec<Vec<u8>>)
        ensures
            !self.ready ==> r@.len() == 0,
            self.ready ==> r@.len() == 2
                && r@[0]@ == rect_cmd_spec(VIRTIO_GPU_CMD_TRANSFER_TO_HOST_2D, x, y, w, h, self.resource_id)
                && r@[1]@ == rect_cmd_spec(VIRTIO_GPU_CMD_RESOURCE_FLUSH, x, y, w, h, self.resource_id),
    {
        let mut out: Vec<Vec<u8>> = Vec::new();
        if !self.ready {
            return out;
        }
        out.push(rect_cmd(VIRTIO_GPU_CMD_TRANSFER_TO_HOST_2D, x, y, w, h, self.resource_id));
        out.push(rect_cmd(VIRTIO_GPU_CMD_RESOURCE_FLUSH, x, y, w, h, self.resource_id));
        out
    }

    /// Flush of the whole framebuffer.
    pub fn flush_all(&self) -> (r: Vec<Vec<u8>>)
        ensures
            !self.ready ==> r@.len() == 0,
            self.ready ==> r@.len() == 2
                && r@[0]@ == rect_cmd_spec(VIRTIO_GPU_CMD_TRANSFER_TO_HOST_2D, 0, 0, self.width, self.height, self.resource_id)
                && r@[1]@ == rect_cmd_spec(VIRTIO_GPU_CMD_RESOURCE_FLUSH, 0, 0, self.width, self.height, self.resource_id),
    {
        self.flush_region(0, 0, self.width, self.height)
    }

    pub fn fb_virt(&self) -> (r: u64)
        ensures
            r == self.fb_virt,
    {
        self.fb_virt
    }

    pub fn width(&self) -> (r: u32)
        ensures
            r == self.width,
    {
        self.width
    }

    pub fn height(&self) -> (r: u32)
        ensures
            r == self.height,
    {
        self.height
    }

    pub fn pitch(&self) -> (r: u32)
        ensures
            r == self.pitch,
    {
        self.pitch
    }

    pub fn is_ready(&self) -> (r: bool)
        ensures
            r == self.ready,
    {
        self.ready
    }
}

/// Flush of the whole framebuffer of the GPU, if there is one.
pub fn flush_full_framebuffer(gpu: &Option<VirtioGpu>) -> (r: Vec<Vec<u8>>)
    ensures
        gpu is None ==> r@.len() == 0,
        gpu matches Some(g) ==> (!g.ready ==> r@.len() == 0) && (g.ready ==> r@.len() == 2
            && r@[0]@ == rect_cmd_spec(VIRTIO_GPU_CMD_TRANSFER_TO_HOST_2D, 0, 0, g.width, g.height, g.resource_id)
            && r@[1]@ == rect_cmd_spec(VIRTIO_GPU_CMD_RESOURCE_FLUSH, 0, 0, g.width, g.height, g.resource_id)),
{
    match gpu {
        Some(g) => g.flush_all(),
        None => Vec::new(),
    }
}

/// Framebuffer the console switches to: (address, width, height, pitch in
/// 32-bit words), when the GPU is ready.
pub fn try_switch_console(gpu: &Option<VirtioGpu>) -> (r: Option<(u64, usize, usize, usize)>)
    ensures
        r == (match gpu {
            Some(g) => if g.ready { Some((g.fb_virt, g.width as usize, g.height as usize, (g.pitch / 4) as usize)) } else { None },
            None => None,
        }),
{
    match gpu {
        Some(g) => {
            if g.is_ready() {
                Some((g.fb_virt(), g.width() as usize, g.height() as usize, (g.pitch() / 4) as usize))
            } else {
                None
            }
        },
        None => None,
    }
}

} // verus!
