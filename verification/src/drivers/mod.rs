//! Device drivers: the register-level decisions of PCI, NVMe, e1000,
//! RTL8139, USB host controllers and VirtIO-GPU.
pub mod pci;
pub mod e1000;
pub mod rtl8139;
pub mod usb;
pub mod nvme;
pub mod virtio_gpu;
pub mod nvme_init;
pub mod gpu_probe;
