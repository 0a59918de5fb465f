//! Virtual devices: the registry of known devices, the PS/2 mouse packet
//! decoder and the VirtIO block device.
pub mod ps2_mouse;
pub mod virtio_block;
pub mod virtqueue;

use vstd::prelude::*;

verus! {

/// Kind of a virtual device.
#[derive(PartialEq, Eq, Structural, Clone, Copy, Debug)]
pub enum VirtDeviceType {
    Block,
    Network,
    Console,
    Input,
    GPU,
}

/// Life-cycle state of a virtual device.
#[derive(PartialEq, Eq, Structural, Clone, Copy, Debug)]
pub enum VirtDeviceState {
    Reset,
    Ready,
    Running,
    Error,
}

/// A virtual device.  Initialisation and reset succeed unless a device says
/// otherwise; reads and writes are unsupported unless it implements them.
pub trait VirtDevice {
    fn name(&self) -> &str;

    fn device_type(&self) -> VirtDeviceType;

    fn state(&self) -> VirtDeviceState;

    fn init(&mut self) -> (r: Result<(), &'static str>)
        default_ensures
            r is Ok,
    {
        Ok(())
    }

    fn reset(&mut self) -> (r: Result<(), &'static str>)
        default_ensures
            r is Ok,
    {
        Ok(())
    }

    fn read(&mut self, offset: u64, buf: &mut [u8]) -> (r: Result<usize, &'static str>)
        default_ensures
            r matches Err(e) && e@ == "not supported"@,
            final(buf)@ == old(buf)@,
    {
        Err("not supported")
    }

    fn write(&mut self, offset: u64, buf: &[u8]) -> (r: Result<usize, &'static str>)
        default_ensures
            r matches Err(e) && e@ == "not supported"@,
    {
        Err("not supported")
    }
}

/// A registered device.
pub struct VirtDeviceInfo {
    pub name: String,
    pub device_type: VirtDeviceType,
    pub state: VirtDeviceState,
}

/// The registered devices, in registration order.
pub struct DeviceRegistry {
    devices: Vec<VirtDeviceInfo>,
}

/// Abstract value of a registered device: (name, type, state).
pub open spec fn device_view(d: VirtDeviceInfo) -> (Seq<char>, VirtDeviceType, VirtDeviceState) {
    (d.name@, d.device_type, d.state)
}

impl DeviceRegistry {
    pub closed spec fn view(&self) -> Seq<(Seq<char>, VirtDeviceType, VirtDeviceState)> {
        self.devices@.map_values(|d: VirtDeviceInfo| device_view(d))
    }

    pub fn new() -> (r: DeviceRegistry)
        ensures
            r@ == Seq::<(Seq<char>, VirtDeviceType, VirtDeviceState)>::empty(),
    {
        let r = DeviceRegistry { devices: Vec::new() };
        assert(r@ =~= Seq::<(Seq<char>, VirtDeviceType, VirtDeviceState)>::empty());
        r
    }

    /// Registers a device; it starts in the `Reset` state.
    pub fn register_device(&mut self, name: &str, device_type: VirtDeviceType)
        ensures
            final(self)@ == old(self)@.push((name@, device_type, VirtDeviceState::Reset)),
    {
        let info = VirtDeviceInfo { name: String::from_str(name), device_type, state: VirtDeviceState::Reset };
        self.devices.push(info);
        assert(self@ =~= old(self)@.push((name@, device_type, VirtDeviceState::Reset)));
    }

    /// Number of registered devices.
    pub fn count(&self) -> (r: usize)
        ensures
            r == self@.len(),
    {
        self.devices.len()
    }

    /// The devices registered at start-up, in order.
    pub fn init(&mut self)
        ensures
            final(self)@ == old(self)@ + seq![
                ("virtio-block-0"@, VirtDeviceType::Block, VirtDeviceState::Reset),
                ("virtio-net-0"@, VirtDeviceType::Network, VirtDeviceState::Reset),
                ("pc-speaker"@, VirtDeviceType::Console, VirtDeviceState::Reset),
                ("ps2-keyboard"@, VirtDeviceType::Input, VirtDeviceState::Reset),
                ("ps2-mouse"@, VirtDeviceType::Input, VirtDeviceState::Reset),
            ],
    {
        self.register_device("virtio-block-0", VirtDeviceType::Block);
        self.register_device("virtio-net-0", VirtDeviceType::Network);
        self.register_device("pc-speaker", VirtDeviceType::Console);
        self.register_device("ps2-keyboard", VirtDeviceType::Input);
        self.register_device("ps2-mouse", VirtDeviceType::Input);
        assert(self@ =~= old(self)@ + seq![
            ("virtio-block-0"@, VirtDeviceType::Block, VirtDeviceState::Reset),
            ("virtio-net-0"@, VirtDeviceType::Network, VirtDeviceState::Reset),
            ("pc-speaker"@, VirtDeviceType::Console, VirtDeviceState::Reset),
            ("ps2-keyboard"@, VirtDeviceType::Input, VirtDeviceState::Reset),
            ("ps2-mouse"@, VirtDeviceType::Input, VirtDeviceState::Reset),
        ]);
    }
}

} // verus!
