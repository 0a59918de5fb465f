use kernel::arch::{arch_name, boot_loader};
use kernel::boot_log::{BootLog, LOG_SIZE};
use kernel::cpu_info::{detect, freq_str, brand_str, brand_from_decoded, CpuInfo};
use kernel::drivers::nvme::QueuePair;
use kernel::text::{trim_end, eq_ignore_ascii_case, trim_start_slashes};

#[test]
fn arch_identification() {
    assert_eq!(arch_name(), "x86_64");
    assert_eq!(boot_loader(), "Limine (UEFI)");
}

#[test]
fn boot_log_keeps_first_bytes() {
    let mut log = BootLog::new();
    for i in 0..(LOG_SIZE + 10) {
        log.log_byte((i % 251) as u8);
    }
    assert_eq!(log.len(), LOG_SIZE + 10);
    let kept = log.get_log();
    assert_eq!(kept.len(), LOG_SIZE);
    assert_eq!(kept[0], 0);
    assert_eq!(kept[LOG_SIZE - 1], ((LOG_SIZE - 1) % 251) as u8);
}

#[test]
fn boot_log_raw_sector() {
    let mut log = BootLog::new();
    assert!(log.flush_raw(true).is_none());
    for b in b"boot ok\n" {
        log.log_byte(*b);
    }
    assert!(log.flush_raw(false).is_none());
    let sector = log.flush_raw(true).unwrap();
    assert_eq!(sector.len(), 512);
    assert_eq!(&sector[..8], b"boot ok\n");
    assert!(sector[8..].iter().all(|&b| b == 0));
    log.mark_written();
    assert!(log.flush_raw(true).is_none());
}

#[test]
fn boot_log_file_and_serial() {
    let mut log = BootLog::new();
    assert!(log.flush_to_file("/boot.log").is_none());
    assert!(log.serial_dump().is_empty());
    for b in [b'a', 0x07, b'\n', 0xC3, b'b'] {
        log.log_byte(b);
    }
    let (path, data) = log.flush_to_file("/boot.log").unwrap();
    assert_eq!(path, "/boot.log");
    assert_eq!(data, vec![b'a', 0x07, b'\n', 0xC3, b'b']);
    assert_eq!(log.serial_dump(), vec![b'a', b'\n', b'b', b'\n', b'\n']);
}

fn words_for(brand: &str) -> [u32; 12] {
    let mut bytes = [0u8; 48];
    bytes[..brand.len()].copy_from_slice(brand.as_bytes());
    let mut w = [0u32; 12];
    for i in 0..12 {
        w[i] = u32::from_le_bytes([bytes[4 * i], bytes[4 * i + 1], bytes[4 * i + 2], bytes[4 * i + 3]]);
    }
    w
}

#[test]
fn cpu_detect_decodes_registers() {
    let w = words_for("Test CPU @ 3.00GHz");
    let info = detect(0x8000_0008, &w, 0x0004_0800, (24u64 << 8) | (100u64 << 16));
    assert_eq!(info.max_leaf, 0x8000_0008);
    assert_eq!(info.brand_len, 18);
    assert_eq!(&info.brand[..18], b"Test CPU @ 3.00GHz");
    assert_eq!(info.cores, 4);
    assert_eq!(info.tsc_freq_mhz, 2400);
    assert_eq!(brand_str(&info), "Test CPU @ 3.00GHz");
    let info2 = detect(0, &w, 0x0004_0800, 0);
    assert_eq!(info2.brand_len, 0);
    assert_eq!(info2.cores, 1);
    assert_eq!(info2.tsc_freq_mhz, 2400);
    assert_eq!(brand_str(&info2), "QEMU Virtual CPU");
}

#[test]
fn cpu_frequency_text() {
    let mut info = CpuInfo { brand: [0; 48], brand_len: 0, cores: 1, max_leaf: 0, tsc_freq_mhz: 2400 };
    assert_eq!(freq_str(&info), "2.40 GHz");
    info.tsc_freq_mhz = 3099;
    assert_eq!(freq_str(&info), "3.09 GHz");
    info.tsc_freq_mhz = 1005;
    assert_eq!(freq_str(&info), "1.00 GHz");
    info.tsc_freq_mhz = 800;
    assert_eq!(freq_str(&info), "800 MHz");
}

#[test]
fn brand_fallbacks() {
    assert_eq!(brand_from_decoded(None), "QEMU Virtual CPU");
    assert_eq!(brand_from_decoded(Some(String::new())), "QEMU Virtual CPU");
    assert_eq!(brand_from_decoded(Some("X".to_string())), "X");
    let mut info = CpuInfo { brand: [0; 48], brand_len: 2, cores: 1, max_leaf: 0, tsc_freq_mhz: 0 };
    info.brand[0] = 0xFF;
    info.brand[1] = 0xFE;
    assert_eq!(brand_str(&info), "QEMU Virtual CPU");
}

#[test]
fn nvme_phase_flips_after_full_ring() {
    let mut q = QueuePair::new();
    for i in 0..64u16 {
        assert_eq!(q.complete(1), Some((i + 1) % 64));
    }
    assert_eq!(q.cq_head, 0);
    assert!(!q.phase);
    // an entry still carrying the old phase is not new
    assert_eq!(q.complete(1), None);
    assert_eq!(q.complete(0), Some(1));
}

#[test]
fn text_helpers() {
    assert_eq!(trim_end("name \t\r\n"), "name");
    assert_eq!(trim_end("a\u{3000}"), "a");
    assert!(eq_ignore_ascii_case("ReadMe.TXT", "readme.txt"));
    assert!(!eq_ignore_ascii_case("ab", "abc"));
    assert_eq!(trim_start_slashes("///dev/null"), "dev/null");
}
