//! NVMe controller bring-up as a sequence of decisions.  The caller performs
//! each action (register access, memory allocation, admin command through
//! the controller's admin queue pair) and hands back what it read as the next
//! event: find the controller, read CAP, reset and wait for CSTS.RDY to drop,
//! set up the admin queues, enable and wait for CSTS.RDY, Identify
//! Controller, create the I/O completion queue and then, only if that
//! succeeded, the I/O submission queue, and finally Identify Namespace.
use vstd::prelude::*;
use crate::drivers::pci::PciDevice;
use crate::drivers::nvme::{
    NvmeController, NvmeCommand, command, command_succeeded, status_code_spec, namespace_spec, namespace_lbads,
    doorbell_stride_spec, page_size_spec, aqa_value, cc_value, admin_queue_attributes, controller_config,
    identify_controller_command, identify_namespace_command, create_io_cq_command, create_io_sq_command,
    NVME_REG_CC, NVME_REG_AQA, NVME_REG_ASQ, NVME_REG_ACQ, CSTS_RDY, NVME_ADMIN_IDENTIFY,
    NVME_ADMIN_CREATE_IO_CQ, NVME_ADMIN_CREATE_IO_SQ,
};

verus! {

/// Polls of CSTS before a wait gives up.
pub const READY_POLLS: u32 = 5_000_000;

/// Where the bring-up stands.
#[derive(PartialEq, Eq, Structural, Clone, Copy, Debug)]
pub enum InitPhase {
    FindDevice,
    ReadCap,
    WaitNotReady,
    AllocAdmin,
    WaitReady,
    IdentifyBuffer,
    IdentifyController,
    AllocIo,
    CreateCq,
    CreateSq,
    NamespaceBuffer,
    IdentifyNamespace,
    Ready,
    Failed,
}

/// What the caller read or got since the last action.
pub enum InitEvent {
    /// The mass-storage / NVM controller found on the PCI bus, if any.
    Device(Option<PciDevice>),
    /// The CAP register.
    Cap(u64),
    /// The CSTS register.
    Status(u32),
    /// Physical addresses of a submission and a completion queue page, or
    /// `None` when the memory could not be had.
    Memory(Option<(u64, u64)>),
    /// Physical address of a zeroed 4 KiB page, or `None`.
    Page(Option<u64>),
    /// Status of the completion of the admin command submitted, `None` on
    /// timeout.
    Completion(Option<u16>),
    /// Completion of Identify Namespace and the page it filled.
    Namespace(Option<u16>, Vec<u8>),
}

/// What the caller does next.
#[derive(Clone, Copy)]
pub enum InitAction {
    /// Turn on bus mastering and memory decoding for the function.
    EnableBusMaster(u8, u8, u8),
    ReadCap,
    /// Write a 32-bit controller register (offset, value).
    WriteReg32(u64, u32),
    /// Write a 64-bit controller register (offset, value).
    WriteReg64(u64, u64),
    /// Read CSTS.
    ReadStatus,
    /// Get a submission and a completion queue page (64 entries each).
    AllocQueues,
    /// Get a zeroed 4 KiB page.
    AllocPage,
    /// Submit an admin command and wait for its completion.
    SubmitAdmin(NvmeCommand),
    /// Print a warning and go on.
    Warn(&'static str),
    /// Print the error; the bring-up stops without a controller.
    Fail(&'static str),
    /// The controller is up.
    Done,
}

/// Abstract value of an action (messages by their text).
pub enum ActionView {
    EnableBusMaster(u8, u8, u8),
    ReadCap,
    WriteReg32(u64, u32),
    WriteReg64(u64, u64),
    ReadStatus,
    AllocQueues,
    AllocPage,
    SubmitAdmin(NvmeCommand),
    Warn(Seq<char>),
    Fail(Seq<char>),
    Done,
}

pub open spec fn action_view(a: InitAction) -> ActionView {
    match a {
        InitAction::EnableBusMaster(b, d, f) => ActionView::EnableBusMaster(b, d, f),
        InitAction::ReadCap => ActionView::ReadCap,
        InitAction::WriteReg32(o, v) => ActionView::WriteReg32(o, v),
        InitAction::WriteReg64(o, v) => ActionView::WriteReg64(o, v),
        InitAction::ReadStatus => ActionView::ReadStatus,
        InitAction::AllocQueues => ActionView::AllocQueues,
        InitAction::AllocPage => ActionView::AllocPage,
        InitAction::SubmitAdmin(c) => ActionView::SubmitAdmin(c),
        InitAction::Warn(m) => ActionView::Warn(m@),
        InitAction::Fail(m) => ActionView::Fail(m@),
        InitAction::Done => ActionView::Done,
    }
}

pub open spec fn actions_view(v: Seq<InitAction>) -> Seq<ActionView> {
    v.map_values(|a: InitAction| action_view(a))
}

/// The bring-up state: the phase, the higher-half mapping offset, the polls
/// left in a wait, the controller found, the controller state being built
/// and the I/O queue pages.
pub struct NvmeInit {
    pub phase: InitPhase,
    pub hhdm: u64,
    pub timeout: u32,
    pub dev: Option<PciDevice>,
    pub ctrl: Option<NvmeController>,
    pub io_sq_phys: u64,
    pub io_cq_phys: u64,
}

/// BAR0 with its flag bits cleared.
pub open spec fn bar0_base(d: PciDevice) -> u32 {
    d.bar0 & 0xFFFF_FFF0
}

/// A command's completion counts as success.
pub open spec fn succeeded(c: Option<u16>) -> bool {
    c matches Some(s) && status_code_spec(s) == 0
}

/// The phase after an event and the actions it calls for.  An event the
/// phase does not wait for changes nothing.
pub open spec fn next_spec(s: NvmeInit, e: InitEvent) -> (InitPhase, Seq<ActionView>) {
    match (s.phase, e) {
        (InitPhase::FindDevice, InitEvent::Device(None)) =>
            (InitPhase::Failed, seq![ActionView::Fail("[NVMe] NVMe контроллер не найден"@)]),
        (InitPhase::FindDevice, InitEvent::Device(Some(d))) =>
            if bar0_base(d) == 0 {
                (InitPhase::Failed, seq![ActionView::EnableBusMaster(d.bus, d.dev, d.func),
                    ActionView::Fail("[NVMe] ОШИБКА: BAR0 = 0 — контроллер не сконфигурирован"@)])
            } else {
                (InitPhase::ReadCap, seq![ActionView::EnableBusMaster(d.bus, d.dev, d.func), ActionView::ReadCap])
            },
        (InitPhase::ReadCap, InitEvent::Cap(_)) =>
            (InitPhase::WaitNotReady, seq![ActionView::WriteReg32(NVME_REG_CC, 0), ActionView::ReadStatus]),
        (InitPhase::WaitNotReady, InitEvent::Status(csts)) =>
            if csts & CSTS_RDY != 0 && s.timeout > 0 {
                (InitPhase::WaitNotReady, seq![ActionView::ReadStatus])
            } else if s.timeout == 0 {
                (InitPhase::AllocAdmin, seq![
                    ActionView::Warn("[NVMe] Предупреждение: контроллер не сбросился (CSTS.RDY=1)"@),
                    ActionView::AllocQueues])
            } else {
                (InitPhase::AllocAdmin, seq![ActionView::AllocQueues])
            },
        (InitPhase::AllocAdmin, InitEvent::Memory(None)) =>
            (InitPhase::Failed, seq![ActionView::Fail("[NVMe] ОШИБКА: Не удалось выделить память для Admin queues"@)]),
        (InitPhase::AllocAdmin, InitEvent::Memory(Some((sq, cq)))) =>
            (InitPhase::WaitReady, seq![
                ActionView::WriteReg32(NVME_REG_AQA, aqa_value()),
                ActionView::WriteReg64(NVME_REG_ASQ, sq),
                ActionView::WriteReg64(NVME_REG_ACQ, cq),
                ActionView::WriteReg32(NVME_REG_CC, cc_value()),
                ActionView::ReadStatus]),
        (InitPhase::WaitReady, InitEvent::Status(csts)) =>
            if csts & CSTS_RDY == 0 && s.timeout > 0 {
                (InitPhase::WaitReady, seq![ActionView::ReadStatus])
            } else if s.timeout == 0 {
                (InitPhase::Failed, seq![ActionView::Fail("[NVMe] ОШИБКА: Тайм-аут ожидания CSTS.RDY"@)])
            } else {
                (InitPhase::IdentifyBuffer, seq![ActionView::AllocPage])
            },
        (InitPhase::IdentifyBuffer, InitEvent::Page(None)) =>
            (InitPhase::AllocIo, seq![ActionView::AllocQueues]),
        (InitPhase::IdentifyBuffer, InitEvent::Page(Some(p))) =>
            (InitPhase::IdentifyController, seq![ActionView::SubmitAdmin(command(NVME_ADMIN_IDENTIFY, 1, 0, p, 0x0001_0000, 0, 0))]),
        (InitPhase::IdentifyController, InitEvent::Completion(_)) =>
            (InitPhase::AllocIo, seq![ActionView::AllocQueues]),
        (InitPhase::AllocIo, InitEvent::Memory(None)) =>
            (InitPhase::Failed, seq![ActionView::Fail("[NVMe] ОШИБКА: Не удалось создать I/O очереди"@)]),
        (InitPhase::AllocIo, InitEvent::Memory(Some((_sq, cq)))) =>
            (InitPhase::CreateCq, seq![ActionView::SubmitAdmin(command(NVME_ADMIN_CREATE_IO_CQ, 2, 0, cq, 63u32 << 16u32, 3, 0))]),
        (InitPhase::CreateCq, InitEvent::Completion(c)) =>
            if succeeded(c) {
                (InitPhase::CreateSq, seq![ActionView::SubmitAdmin(command(NVME_ADMIN_CREATE_IO_SQ, 3, 0, s.io_sq_phys, 63u32 << 16u32, 1, 0))])
            } else {
                (InitPhase::Failed, seq![ActionView::Fail("[NVMe] ОШИБКА: Не удалось создать I/O очереди"@)])
            },
        (InitPhase::CreateSq, InitEvent::Completion(c)) =>
            if succeeded(c) {
                (InitPhase::NamespaceBuffer, seq![ActionView::AllocPage])
            } else {
                (InitPhase::Failed, seq![ActionView::Fail("[NVMe] ОШИБКА: Не удалось создать I/O очереди"@)])
            },
        (InitPhase::NamespaceBuffer, InitEvent::Page(None)) =>
            (InitPhase::Ready, seq![ActionView::Done]),
        (InitPhase::NamespaceBuffer, InitEvent::Page(Some(p))) =>
            (InitPhase::IdentifyNamespace, seq![ActionView::SubmitAdmin(command(NVME_ADMIN_IDENTIFY, 4, 1, p, 0, 0, 0))]),
        (InitPhase::IdentifyNamespace, InitEvent::Namespace(_, _)) =>
            (InitPhase::Ready, seq![ActionView::Done]),
        _ => (s.phase, Seq::empty()),
    }
}

/// Phases in which the controller state exists.
pub open spec fn has_controller(p: InitPhase) -> bool {
    !(p == InitPhase::FindDevice || p == InitPhase::ReadCap || p == InitPhase::Failed)
}

impl NvmeInit {
    pub open spec fn wf(&self) -> bool {
        &&& self.hhdm + 0xFFFF_FFFF <= u64::MAX
        &&& self.phase == InitPhase::ReadCap ==> (self.dev matches Some(d) && bar0_base(d) != 0)
        &&& has_controller(self.phase) ==> self.ctrl is Some
    }

    /// A bring-up about to look for the controller.
    pub fn new(hhdm: u64) -> (s: NvmeInit)
        requires
            hhdm + 0xFFFF_FFFF <= u64::MAX,
        ensures
            s.wf(),
            s.phase == InitPhase::FindDevice,
            s.hhdm == hhdm,
            s.dev is None && s.ctrl is None,
    {
        NvmeInit { phase: InitPhase::FindDevice, hhdm, timeout: 0, dev: None, ctrl: None, io_sq_phys: 0, io_cq_phys: 0 }
    }

    /// Takes the bring-up one step further with the event the last actions
    /// produced; returns the next actions.
    pub fn step(&mut self, e: InitEvent) -> (r: Vec<InitAction>)
        requires
            old(self).wf(),
            old(self).phase == InitPhase::IdentifyNamespace ==> (e matches InitEvent::Namespace(c, d) ==> (
                d@.len() == 4096 && (succeeded(c) ==> namespace_lbads(d@) < 32))),
        ensures
            final(self).wf(),
            final(self).hhdm == old(self).hhdm,
            (final(self).phase, actions_view(r@)) == next_spec(*old(self), e),
            // what the state keeps
            old(self).phase == InitPhase::FindDevice ==> (e matches InitEvent::Device(d) ==> final(self).dev == d),
            old(self).phase == InitPhase::ReadCap ==> (e matches InitEvent::Cap(cap) ==> (final(self).ctrl matches Some(c) && {
                let d = old(self).dev->0;
                &&& c.mmio_base == old(self).hhdm + bar0_base(d)
                &&& c.doorbell_stride == doorbell_stride_spec(cap)
                &&& c.page_size == page_size_spec(cap)
                &&& c.block_size == 512
                &&& c.total_blocks == 0
                &&& c.ns_id == 1
            }) && final(self).timeout == READY_POLLS),
            old(self).phase == InitPhase::WaitNotReady ==> (e matches InitEvent::Status(csts) ==> (
                csts & CSTS_RDY != 0 && old(self).timeout > 0 ==> final(self).timeout == old(self).timeout - 1)),
            old(self).phase == InitPhase::AllocAdmin ==> (e matches InitEvent::Memory(Some(_)) ==> final(self).timeout == READY_POLLS),
            old(self).phase == InitPhase::WaitReady ==> (e matches InitEvent::Status(csts) ==> (
                csts & CSTS_RDY == 0 && old(self).timeout > 0 ==> final(self).timeout == old(self).timeout - 1)),
            old(self).phase == InitPhase::AllocIo ==> (e matches InitEvent::Memory(Some(m)) ==> (
                final(self).io_sq_phys == m.0 && final(self).io_cq_phys == m.1)),
            old(self).phase == InitPhase::IdentifyNamespace ==> (e matches InitEvent::Namespace(c, d) ==> (
                final(self).ctrl matches Some(fc) && old(self).ctrl matches Some(oc) && (if succeeded(c) {
                    fc.total_blocks == namespace_spec(d@).0 && fc.block_size == namespace_spec(d@).1
                } else {
                    fc.total_blocks == 0 && fc.block_size == 512
                }) && fc.mmio_base == oc.mmio_base && fc.ns_id == oc.ns_id)),
            !(old(self).phase == InitPhase::ReadCap || old(self).phase == InitPhase::IdentifyNamespace)
                ==> final(self).ctrl == old(self).ctrl,
    {
        let mut r: Vec<InitAction> = Vec::new();
        match self.phase {
            InitPhase::FindDevice => {
                match &e {
                    InitEvent::Device(None) => {
                        self.dev = None;
                        self.phase = InitPhase::Failed;
                        r.push(InitAction::Fail("[NVMe] NVMe контроллер не найден"));
                    },
                    InitEvent::Device(Some(d)) => {
                        let d = *d;
                        self.dev = Some(d);
                        r.push(InitAction::EnableBusMaster(d.bus, d.dev, d.func));
                        if d.bar0 & 0xFFFF_FFF0 == 0 {
                            self.phase = InitPhase::Failed;
                            r.push(InitAction::Fail("[NVMe] ОШИБКА: BAR0 = 0 — контроллер не сконфигурирован"));
                        } else {
                            self.phase = InitPhase::ReadCap;
                            r.push(InitAction::ReadCap);
                        }
                    },
                    _ => {},
                }
            },
            InitPhase::ReadCap => {
                if let InitEvent::Cap(cap) = &e {
                    let cap = *cap;
                    let d = self.dev.unwrap();
                    match NvmeController::from_device(&d, self.hhdm, cap) {
                        Ok(c) => { self.ctrl = Some(c); },
                        Err(_) => {},
                    }
                    self.timeout = READY_POLLS;
                    self.phase = InitPhase::WaitNotReady;
                    r.push(InitAction::WriteReg32(NVME_REG_CC, 0));
                    r.push(InitAction::ReadStatus);
                }
            },
            InitPhase::WaitNotReady => {
                if let InitEvent::Status(csts) = &e {
                    let csts = *csts;
                    if csts & CSTS_RDY != 0 && self.timeout > 0 {
                        self.timeout = self.timeout - 1;
                        r.push(InitAction::ReadStatus);
                    } else {
                        if self.timeout == 0 {
                            r.push(InitAction::Warn("[NVMe] Предупреждение: контроллер не сбросился (CSTS.RDY=1)"));
                        }
                        self.phase = InitPhase::AllocAdmin;
                        r.push(InitAction::AllocQueues);
                    }
                }
            },
            InitPhase::AllocAdmin => {
                match &e {
                    InitEvent::Memory(None) => {
                        self.phase = InitPhase::Failed;
                        r.push(InitAction::Fail("[NVMe] ОШИБКА: Не удалось выделить память для Admin queues"));
                    },
                    InitEvent::Memory(Some((sq, cq))) => {
                        let (sq, cq) = (*sq, *cq);
                        r.push(InitAction::WriteReg32(NVME_REG_AQA, admin_queue_attributes()));
                        r.push(InitAction::WriteReg64(NVME_REG_ASQ, sq));
                        r.push(InitAction::WriteReg64(NVME_REG_ACQ, cq));
                        r.push(InitAction::WriteReg32(NVME_REG_CC, controller_config()));
                        r.push(InitAction::ReadStatus);
                        self.timeout = READY_POLLS;
                        self.phase = InitPhase::WaitReady;
                    },
                    _ => {},
                }
            },
            InitPhase::WaitReady => {
                if let InitEvent::Status(csts) = &e {
                    let csts = *csts;
                    if csts & CSTS_RDY == 0 && self.timeout > 0 {
                        self.timeout = self.timeout - 1;
                        r.push(InitAction::ReadStatus);
                    } else if self.timeout == 0 {
                        self.phase = InitPhase::Failed;
                        r.push(InitAction::Fail("[NVMe] ОШИБКА: Тайм-аут ожидания CSTS.RDY"));
                    } else {
                        self.phase = InitPhase::IdentifyBuffer;
                        r.push(InitAction::AllocPage);
                    }
                }
            },
            InitPhase::IdentifyBuffer => {
                match &e {
                    InitEvent::Page(None) => {
                        self.phase = InitPhase::AllocIo;
                        r.push(InitAction::AllocQueues);
                    },
                    InitEvent::Page(Some(p)) => {
                        let p = *p;
                        self.phase = InitPhase::IdentifyController;
                        r.push(InitAction::SubmitAdmin(identify_controller_command(p)));
                    },
                    _ => {},
                }
            },
            InitPhase::IdentifyController => {
                if let InitEvent::Completion(_) = &e {
                    self.phase = InitPhase::AllocIo;
                    r.push(InitAction::AllocQueues);
                }
            },
            InitPhase::AllocIo => {
                match &e {
                    InitEvent::Memory(None) => {
                        self.phase = InitPhase::Failed;
                        r.push(InitAction::Fail("[NVMe] ОШИБКА: Не удалось создать I/O очереди"));
                    },
                    InitEvent::Memory(Some((sq, cq))) => {
                        let (sq, cq) = (*sq, *cq);
                        self.io_sq_phys = sq;
                        self.io_cq_phys = cq;
                        self.phase = InitPhase::CreateCq;
                        r.push(InitAction::SubmitAdmin(create_io_cq_command(cq)));
                    },
                    _ => {},
                }
            },
            InitPhase::CreateCq => {
                if let InitEvent::Completion(c) = &e {
                    let c = *c;
                    if command_succeeded(c) {
                        self.phase = InitPhase::CreateSq;
                        r.push(InitAction::SubmitAdmin(create_io_sq_command(self.io_sq_phys)));
                    } else {
                        self.phase = InitPhase::Failed;
                        r.push(InitAction::Fail("[NVMe] ОШИБКА: Не удалось создать I/O очереди"));
                    }
                }
            },
            InitPhase::CreateSq => {
                if let InitEvent::Completion(c) = &e {
                    let c = *c;
                    if command_succeeded(c) {
                        self.phase = InitPhase::NamespaceBuffer;
                        r.push(InitAction::AllocPage);
                    } else {
                        self.phase = InitPhase::Failed;
                        r.push(InitAction::Fail("[NVMe] ОШИБКА: Не удалось создать I/O очереди"));
                    }
                }
            },
            InitPhase::NamespaceBuffer => {
                match &e {
                    InitEvent::Page(None) => {
                        self.phase = InitPhase::Ready;
                        r.push(InitAction::Done);
                    },
                    InitEvent::Page(Some(p)) => {
                        let p = *p;
                        self.phase = InitPhase::IdentifyNamespace;
                        r.push(InitAction::SubmitAdmin(identify_namespace_command(p)));
                    },
                    _ => {},
                }
            },
            InitPhase::IdentifyNamespace => {
                if let InitEvent::Namespace(c, d) = &e {
                    let c = *c;
                    match &mut self.ctrl {
                        Some(ctrl) => { ctrl.apply_namespace(c, d.as_slice()); },
                        None => {},
                    }
                    self.phase = InitPhase::Ready;
                    r.push(InitAction::Done);
                }
            },
            _ => {},
        }
        proof {
            assert(actions_view(r@) =~= next_spec(*old(self), e).1);
        }
        r
    }
}

} // verus!
