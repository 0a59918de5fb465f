//! Verified core logic of the Vibra kernel: ACPI table parsing, PCI
//! configuration decoding, device ring bookkeeping, file-system path and
//! on-disk structure parsing, display colour handling, drawing algorithms
//! and the text produced by the shell commands.
pub mod bytes;
pub mod console;
pub mod acpi;
pub mod drivers;
pub mod text;
pub mod fs;
pub mod devices;
pub mod display;
pub mod graphics;
pub mod arch;
pub mod boot_log;
pub mod cpu_info;
pub mod commands;
