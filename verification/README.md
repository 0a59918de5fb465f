# kernel

The verified core of the Vibra x86_64 kernel, written in Verus.

`src/` holds the logic of the kernel with its contracts proved:

- `acpi` — RSDP, SDT header, XSDT, MADT, MCFG and HPET table parsing;
- `drivers` — PCI configuration decoding and bus scan, and the e1000,
  RTL8139, NVMe, USB host and VirtIO GPU drivers as register plans,
  command encoders and response parsers, and the NVMe and VirtIO GPU
  bring-up sequences as step functions from event to next actions;
- `devices` — the device registry, virtqueue bookkeeping, the PS/2 mouse
  packet decoder and the VirtIO block device;
- `display`, `graphics` — pixel formats, colour arithmetic, the frame
  counter and the drawing algorithms (Bresenham lines, midpoint circles,
  disks, triangles);
- `fs` — path normalisation and the mount table, devtmpfs, the disk
  manager and the read-only ext2 reader;
- `boot_log`, `cpu_info`, `arch` — boot log buffering, CPUID decoding;
- `commands` — the shell commands, each as the text it prints for what the
  kernel hands it, and the desktop's windows and main-loop step;
- `console` — the record of what is printed and drawn.

`app/` holds the part of the kernel glue that can stand without the rest of
the kernel: the global locks, the floating-point colour helpers, the
conversion of the boot loader's memory map, PCI configuration access (the
bus listing and bus-master enabling), performing a VGA register program,
and the CPUID and MSR reads behind the processor information.  The other
hardware access of the kernel (MMIO drivers, device bring-up, the shell
and desktop loops) is not in `app/`; the library offers the decisions and
encodings that such code would call.  `tests/` exercises the library on
concrete values.
