//! VirtIO GPU bring-up as a sequence of decisions.  The caller performs each
//! action (register access, sending a command on the control queue and
//! waiting for its response, allocating the framebuffer) and hands back what
//! came of it: identify the device, acknowledge it, set up control queue 0,
//! ask for the display information, allocate and clear the framebuffer,
//! create the 2D resource, attach the framebuffer to it and set the scanout.
use vstd::prelude::*;
use crate::bytes::le32;
use crate::drivers::virtio_gpu::{
    VirtioGpu, check_identity, queue_size_for, queue_registers, queue_registers_spec, get_display_info_cmd,
    get_display_info_cmd_spec, resource_create_2d_cmd, resource_create_2d_spec, attach_backing_cmd,
    attach_backing_spec, set_scanout_cmd, set_scanout_spec, parse_display_info, display_choice, display_usable,
    display_field, response_is, framebuffer_geometry, VIRTIO_MAGIC, VIRTIO_VERSION, VIRTIO_DEVICE_ID_GPU,
    VIRTIO_GPU_RESP_OK_NODATA, VIRTIO_GPU_RESP_OK_DISPLAY_INFO, CTRL_HDR_SIZE, DISPLAY_ONE_SIZE,
};

verus! {

pub const MMIO_DRIVER_FEATURES: u64 = 0x20;
pub const MMIO_QUEUE_SEL: u64 = 0x30;
/// Acknowledge and driver status bits.
pub const STATUS_ACK_DRIVER: u8 = 3;
/// Size of the display-info response.
pub const DISPLAY_INFO_SIZE: usize = 408;

/// Where the bring-up stands.
#[derive(PartialEq, Eq, Structural, Clone, Copy, Debug)]
pub enum GpuPhase {
    Identify,
    QueueSize,
    DisplayInfo,
    Framebuffer,
    Create2d,
    Attach,
    Scanout,
    Ready,
    Failed,
}

/// What the caller read or got since the last action.
pub enum GpuEvent {
    /// The magic, version and device id registers.
    Identity(u32, u32, u32),
    /// The maximum queue size register.
    QueueMax(u32),
    /// The response to the command sent, or the error of sending it
    /// (no descriptor, no answer in time).
    Response(Result<Vec<u8>, &'static str>),
    /// Physical address of the framebuffer pages, or `None`.
    Framebuffer(Option<u64>),
}

/// What the caller does next.
pub enum GpuAction {
    /// Write the device status register.
    WriteStatus(u8),
    /// Read the device feature bits (they are not used).
    ReadFeatures,
    /// Write a 32-bit register (offset, value).
    Write32(u64, u32),
    ReadQueueMax,
    /// Send a command on the control queue and wait for its response.
    Send(Vec<u8>),
    /// Get this many contiguous 4 KiB pages for the framebuffer.
    AllocFramebuffer(usize),
    /// Fill the framebuffer with zeros.
    ClearFramebuffer,
    /// Print the error; the device is left unused.
    Fail(&'static str),
    /// The GPU is ready.
    Done,
}

/// Abstract value of an action.
pub enum GpuActionView {
    WriteStatus(u8),
    ReadFeatures,
    Write32(u64, u32),
    ReadQueueMax,
    Send(Seq<u8>),
    AllocFramebuffer(usize),
    ClearFramebuffer,
    Fail(Seq<char>),
    Done,
}

pub open spec fn gpu_action_view(a: GpuAction) -> GpuActionView {
    match a {
        GpuAction::WriteStatus(v) => GpuActionView::WriteStatus(v),
        GpuAction::ReadFeatures => GpuActionView::ReadFeatures,
        GpuAction::Write32(o, v) => GpuActionView::Write32(o, v),
        GpuAction::ReadQueueMax => GpuActionView::ReadQueueMax,
        GpuAction::Send(b) => GpuActionView::Send(b@),
        GpuAction::AllocFramebuffer(n) => GpuActionView::AllocFramebuffer(n),
        GpuAction::ClearFramebuffer => GpuActionView::ClearFramebuffer,
        GpuAction::Fail(m) => GpuActionView::Fail(m@),
        GpuAction::Done => GpuActionView::Done,
    }
}

pub open spec fn gpu_actions_view(v: Seq<GpuAction>) -> Seq<GpuActionView> {
    v.map_values(|a: GpuAction| gpu_action_view(a))
}

/// The bring-up state: the phase, the higher-half mapping offset, the
/// physical address of the control queue's rings, the framebuffer size and
/// the driver state being built.
pub struct GpuProbe {
    pub phase: GpuPhase,
    pub hhdm: u64,
    pub ring_phys: u64,
    pub fb_size: usize,
    pub gpu: VirtioGpu,
}

/// A resolution the framebuffer can be sized for.
pub open spec fn fits(w: u32, h: u32) -> bool {
    w as int * h as int * 4 + 4095 <= usize::MAX && w as int * 4 <= u32::MAX
}

/// Pages of the framebuffer for a resolution.
pub open spec fn fb_pages(w: u32, h: u32) -> usize {
    ((w as int * h as int * 4 + 4095) / 4096) as usize
}

/// The register writes that hand the rings to the device, as actions.
pub open spec fn ring_writes(ring_phys: u64, qs: u16) -> Seq<GpuActionView> {
    queue_registers_spec(ring_phys, qs).map_values(|w: (u64, u32)| GpuActionView::Write32(w.0, w.1))
}

/// The phase after an event and the actions it calls for.  An event the
/// phase does not wait for changes nothing.
pub open spec fn gpu_next_spec(s: GpuProbe, e: GpuEvent) -> (GpuPhase, Seq<GpuActionView>) {
    let g = s.gpu;
    match (s.phase, e) {
        (GpuPhase::Identify, GpuEvent::Identity(m, v, d)) =>
            if m != VIRTIO_MAGIC {
                (GpuPhase::Failed, seq![GpuActionView::Fail("gpu: неверный magic"@)])
            } else if v != VIRTIO_VERSION {
                (GpuPhase::Failed, seq![GpuActionView::Fail("gpu: неверная версия VirtIO"@)])
            } else if d != VIRTIO_DEVICE_ID_GPU {
                (GpuPhase::Failed, seq![GpuActionView::Fail("gpu: не GPU device"@)])
            } else {
                (GpuPhase::QueueSize, seq![
                    GpuActionView::WriteStatus(STATUS_ACK_DRIVER),
                    GpuActionView::ReadFeatures,
                    GpuActionView::Write32(MMIO_DRIVER_FEATURES, 0),
                    GpuActionView::Write32(MMIO_QUEUE_SEL, 0),
                    GpuActionView::ReadQueueMax,
                ])
            },
        (GpuPhase::QueueSize, GpuEvent::QueueMax(n)) =>
            if n as u16 == 0 {
                (GpuPhase::Failed, seq![GpuActionView::Fail("gpu: queue size 0"@)])
            } else {
                let qs: u16 = if n as u16 > 32 { 32 } else { n as u16 };
                (GpuPhase::DisplayInfo, ring_writes(s.ring_phys, qs) + seq![GpuActionView::Send(get_display_info_cmd_spec())])
            },
        (GpuPhase::DisplayInfo, GpuEvent::Response(Err(msg))) =>
            (GpuPhase::Failed, seq![GpuActionView::Fail(msg@)]),
        (GpuPhase::DisplayInfo, GpuEvent::Response(Ok(b))) =>
            if le32(b@, 0) != VIRTIO_GPU_RESP_OK_DISPLAY_INFO {
                (GpuPhase::Failed, seq![GpuActionView::Fail("gpu: GET_DISPLAY_INFO: неверный ответ"@)])
            } else {
                let wh = display_choice(b@);
                (GpuPhase::Framebuffer, seq![GpuActionView::AllocFramebuffer(fb_pages(wh.0, wh.1))])
            },
        (GpuPhase::Framebuffer, GpuEvent::Framebuffer(None)) =>
            (GpuPhase::Failed, seq![GpuActionView::Fail("gpu: не удалось выделить framebuffer"@)]),
        (GpuPhase::Framebuffer, GpuEvent::Framebuffer(Some(_))) =>
            (GpuPhase::Create2d, seq![GpuActionView::ClearFramebuffer,
                GpuActionView::Send(resource_create_2d_spec((g.resource_id + 1) as u32, g.width, g.height))]),
        (GpuPhase::Create2d, GpuEvent::Response(Err(msg))) =>
            (GpuPhase::Failed, seq![GpuActionView::Fail(msg@)]),
        (GpuPhase::Create2d, GpuEvent::Response(Ok(b))) =>
            if le32(b@, 0) != VIRTIO_GPU_RESP_OK_NODATA {
                (GpuPhase::Failed, seq![GpuActionView::Fail("gpu: RESOURCE_CREATE_2D: неверный ответ"@)])
            } else {
                (GpuPhase::Attach, seq![GpuActionView::Send(attach_backing_spec(g.resource_id, g.fb_phys, s.fb_size as u32))])
            },
        (GpuPhase::Attach, GpuEvent::Response(Err(msg))) =>
            (GpuPhase::Failed, seq![GpuActionView::Fail(msg@)]),
        (GpuPhase::Attach, GpuEvent::Response(Ok(b))) =>
            if le32(b@, 0) != VIRTIO_GPU_RESP_OK_NODATA {
                (GpuPhase::Failed, seq![GpuActionView::Fail("gpu: RESOURCE_ATTACH_BACKING: неверный ответ"@)])
            } else {
                (GpuPhase::Scanout, seq![GpuActionView::Send(set_scanout_spec(0, 0, 0, g.width, g.height, g.resource_id))])
            },
        (GpuPhase::Scanout, GpuEvent::Response(Err(msg))) =>
            (GpuPhase::Failed, seq![GpuActionView::Fail(msg@)]),
        (GpuPhase::Scanout, GpuEvent::Response(Ok(b))) =>
            if le32(b@, 0) != VIRTIO_GPU_RESP_OK_NODATA {
                (GpuPhase::Failed, seq![GpuActionView::Fail("gpu: SET_SCANOUT: неверный ответ"@)])
            } else {
                (GpuPhase::Ready, seq![GpuActionView::Done])
            },
        _ => (s.phase, Seq::empty()),
    }
}

/// What each event must be like for the step to be defined: a display-info
/// response is long enough and every resolution it may pick fits, other
/// responses hold at least their type, and the framebuffer is mapped below
/// the end of the address space.
pub open spec fn event_ok(s: GpuProbe, e: GpuEvent) -> bool {
    match (s.phase, e) {
        (GpuPhase::DisplayInfo, GpuEvent::Response(Ok(b))) =>
            b@.len() >= DISPLAY_INFO_SIZE && fits(1024, 768)
                && forall|i: int| 0 <= i < 16 && display_usable(b@, i)
                    ==> fits(display_field(b@, i, 2) as u32, display_field(b@, i, 3) as u32),
        (GpuPhase::Create2d, GpuEvent::Response(Ok(b))) => b@.len() >= 4,
        (GpuPhase::Attach, GpuEvent::Response(Ok(b))) => b@.len() >= 4,
        (GpuPhase::Scanout, GpuEvent::Response(Ok(b))) => b@.len() >= 4,
        (GpuPhase::Framebuffer, GpuEvent::Framebuffer(Some(p))) => s.hhdm + p <= u64::MAX,
        _ => true,
    }
}

impl GpuProbe {
    pub open spec fn wf(&self) -> bool {
        &&& self.ring_phys + 0x20_0000 <= u64::MAX
        &&& self.gpu.resource_id == 0 || !(self.phase == GpuPhase::Identify || self.phase == GpuPhase::QueueSize
            || self.phase == GpuPhase::DisplayInfo || self.phase == GpuPhase::Framebuffer)
        &&& self.phase == GpuPhase::Framebuffer ==> fits(self.gpu.width, self.gpu.height)
        &&& (self.phase == GpuPhase::Framebuffer || self.phase == GpuPhase::Create2d || self.phase == GpuPhase::Attach
            || self.phase == GpuPhase::Scanout) ==> self.fb_size == self.gpu.width as int * self.gpu.height as int * 4
    }

    /// A bring-up of the device at MMIO `base` whose control-queue rings are
    /// at physical `ring_phys`.
    pub fn new(base: u64, hhdm: u64, ring_phys: u64) -> (s: GpuProbe)
        requires
            ring_phys + 0x20_0000 <= u64::MAX,
        ensures
            s.wf(),
            s.phase == GpuPhase::Identify,
            s.hhdm == hhdm && s.ring_phys == ring_phys,
            s.gpu == (VirtioGpu { base, queue_size: 0, fb_phys: 0, fb_virt: 0, width: 0, height: 0, pitch: 0, resource_id: 0, ready: false }),
    {
        GpuProbe { phase: GpuPhase::Identify, hhdm, ring_phys, fb_size: 0, gpu: VirtioGpu::new(base) }
    }

    /// Takes the bring-up one step further with what the last actions gave;
    /// returns the next actions.
    pub fn step(&mut self, e: GpuEvent) -> (r: Vec<GpuAction>)
        requires
            old(self).wf(),
            event_ok(*old(self), e),
        ensures
            final(self).wf(),
            final(self).hhdm == old(self).hhdm,
            final(self).ring_phys == old(self).ring_phys,
            final(self).gpu.base == old(self).gpu.base,
            (final(self).phase, gpu_actions_view(r@)) == gpu_next_spec(*old(self), e),
            final(self).gpu.ready == (old(self).gpu.ready || (old(self).phase == GpuPhase::Scanout && final(self).phase == GpuPhase::Ready)),
            old(self).phase == GpuPhase::QueueSize ==> (e matches GpuEvent::QueueMax(n) ==> (n as u16 != 0 ==>
                final(self).gpu.queue_size == (if n as u16 > 32 { 32u16 } else { n as u16 }))),
            old(self).phase == GpuPhase::DisplayInfo ==> (e matches GpuEvent::Response(Ok(b)) ==> (
                le32(b@, 0) == VIRTIO_GPU_RESP_OK_DISPLAY_INFO ==> (final(self).gpu.width, final(self).gpu.height) == display_choice(b@))),
            old(self).phase == GpuPhase::Framebuffer ==> (e matches GpuEvent::Framebuffer(Some(p)) ==> (
                final(self).gpu.fb_phys == p
                && final(self).gpu.fb_virt == old(self).hhdm + p
                && final(self).gpu.pitch == old(self).gpu.width * 4
                && final(self).gpu.resource_id == old(self).gpu.resource_id + 1)),
    {
        let mut r: Vec<GpuAction> = Vec::new();
        match self.phase {
            GpuPhase::Identify => {
                if let GpuEvent::Identity(m, v, d) = &e {
                    match check_identity(*m, *v, *d) {
                        Err(msg) => {
                            self.phase = GpuPhase::Failed;
                            r.push(GpuAction::Fail(msg));
                        },
                        Ok(()) => {
                            r.push(GpuAction::WriteStatus(STATUS_ACK_DRIVER));
                            r.push(GpuAction::ReadFeatures);
                            r.push(GpuAction::Write32(MMIO_DRIVER_FEATURES, 0));
                            r.push(GpuAction::Write32(MMIO_QUEUE_SEL, 0));
                            r.push(GpuAction::ReadQueueMax);
                            self.phase = GpuPhase::QueueSize;
                        },
                    }
                }
            },
            GpuPhase::QueueSize => {
                if let GpuEvent::QueueMax(n) = &e {
                    match queue_size_for(*n) {
                        Err(msg) => {
                            self.phase = GpuPhase::Failed;
                            r.push(GpuAction::Fail(msg));
                        },
                        Ok(qs) => {
                            self.gpu.queue_size = qs;
                            let regs = queue_registers(self.ring_phys, qs);
                            let mut i: usize = 0;
                            while i < regs.len()
                                invariant
                                    i <= regs@.len(),
                                    gpu_actions_view(r@) =~= ring_writes(self.ring_phys, qs).take(i as int),
                                    regs@ == queue_registers_spec(self.ring_phys, qs),
                                decreases regs.len() - i,
                            {
                                let (off, val) = regs[i];
                                let ghost before = r@;
                                r.push(GpuAction::Write32(off, val));
                                proof {
                                    let w = ring_writes(self.ring_phys, qs);
                                    assert(w[i as int] == GpuActionView::Write32(off, val));
                                    assert(gpu_actions_view(r@) =~= gpu_actions_view(before).push(GpuActionView::Write32(off, val)));
                                    assert(w.take(i + 1) =~= w.take(i as int).push(w[i as int]));
                                }
                                i = i + 1;
                            }
                            proof {
                                assert(ring_writes(self.ring_phys, qs).take(regs@.len() as int) =~= ring_writes(self.ring_phys, qs));
                            }
                            let ghost before = r@;
                            r.push(GpuAction::Send(get_display_info_cmd()));
                            assert(gpu_actions_view(r@) =~= gpu_actions_view(before).push(GpuActionView::Send(get_display_info_cmd_spec())));
                            self.phase = GpuPhase::DisplayInfo;
                        },
                    }
                }
            },
            GpuPhase::DisplayInfo => {
                match &e {
                    GpuEvent::Response(Err(msg)) => {
                        self.phase = GpuPhase::Failed;
                        r.push(GpuAction::Fail(*msg));
                    },
                    GpuEvent::Response(Ok(b)) => {
                        match parse_display_info(b.as_slice()) {
                            Err(msg) => {
                                self.phase = GpuPhase::Failed;
                                r.push(GpuAction::Fail(msg));
                            },
                            Ok((w, h)) => {
                                proof {
                                    if exists|i: int| 0 <= i < 16 && display_usable(b@, i) {
                                        let k = choose|k: int| 0 <= k < 16 && display_usable(b@, k)
                                            && forall|j: int| 0 <= j < k ==> !display_usable(b@, j);
                                        assert(0 <= k < 16 && display_usable(b@, k));
                                    }
                                }
                                let (size, pages, _pitch) = framebuffer_geometry(w, h);
                                self.gpu.width = w;
                                self.gpu.height = h;
                                self.fb_size = size;
                                r.push(GpuAction::AllocFramebuffer(pages));
                                self.phase = GpuPhase::Framebuffer;
                            },
                        }
                    },
                    _ => {},
                }
            },
            GpuPhase::Framebuffer => {
                match &e {
                    GpuEvent::Framebuffer(None) => {
                        self.phase = GpuPhase::Failed;
                        r.push(GpuAction::Fail("gpu: не удалось выделить framebuffer"));
                    },
                    GpuEvent::Framebuffer(Some(p)) => {
                        self.gpu.fb_phys = *p;
                        self.gpu.fb_virt = self.hhdm + *p;
                        self.gpu.pitch = self.gpu.width * 4;
                        let id = self.gpu.alloc_resource_id();
                        r.push(GpuAction::ClearFramebuffer);
                        r.push(GpuAction::Send(resource_create_2d_cmd(id, self.gpu.width, self.gpu.height)));
                        self.phase = GpuPhase::Create2d;
                    },
                    _ => {},
                }
            },
            GpuPhase::Create2d | GpuPhase::Attach | GpuPhase::Scanout => {
                match &e {
                    GpuEvent::Response(Err(msg)) => {
                        self.phase = GpuPhase::Failed;
                        r.push(GpuAction::Fail(*msg));
                    },
                    GpuEvent::Response(Ok(b)) => {
                        let ok = response_is(b.as_slice(), VIRTIO_GPU_RESP_OK_NODATA);
                        if self.phase == GpuPhase::Create2d {
                            if !ok {
                                self.phase = GpuPhase::Failed;
                                r.push(GpuAction::Fail("gpu: RESOURCE_CREATE_2D: неверный ответ"));
                            } else {
                                r.push(GpuAction::Send(attach_backing_cmd(self.gpu.resource_id, self.gpu.fb_phys, self.fb_size as u32)));
                                self.phase = GpuPhase::Attach;
                            }
                        } else if self.phase == GpuPhase::Attach {
                            if !ok {
                                self.phase = GpuPhase::Failed;
                                r.push(GpuAction::Fail("gpu: RESOURCE_ATTACH_BACKING: неверный ответ"));
                            } else {
                                r.push(GpuAction::Send(set_scanout_cmd(0, 0, 0, self.gpu.width, self.gpu.height, self.gpu.resource_id)));
                                self.phase = GpuPhase::Scanout;
                            }
                        } else {
                            if !ok {
                                self.phase = GpuPhase::Failed;
                                r.push(GpuAction::Fail("gpu: SET_SCANOUT: неверный ответ"));
                            } else {
                                self.gpu.ready = true;
                                r.push(GpuAction::Done);
                                self.phase = GpuPhase::Ready;
                            }
                        }
                    },
                    _ => {},
                }
            },
            _ => {},
        }
        proof {
            assert(gpu_actions_view(r@) =~= gpu_next_spec(*old(self), e).1);
        }
        r
    }
}

} // verus!
