//! Processor information decoded from CPUID and the platform-info MSR.
use vstd::prelude::*;
use crate::console::{dec, pad2, push_dec, push_dec_pad2};
use crate::text::{utf8_text, decode_utf8};

verus! {

pub struct CpuInfo {
    pub brand: [u8; 48],
    pub brand_len: usize,
    pub cores: u32,
    pub max_leaf: u32,
    pub tsc_freq_mhz: u64,
}

/// Byte `k` (0..4) of `w`, least significant first.
pub open spec fn word_byte(w: u32, k: int) -> u8 {
    ((w as int / pow256(k)) % 256) as u8
}

pub open spec fn pow256(k: int) -> int {
    if k == 0 { 1 } else if k == 1 { 0x100 } else if k == 2 { 0x1_0000 } else { 0x100_0000 }
}

/// Byte `i` of the brand string spread over twelve little-endian words.
pub open spec fn brand_byte(words: Seq<u32>, i: int) -> u8 {
    word_byte(words[i / 4], i % 4)
}

/// Length of the brand string: the position of its first zero byte, or 48.
pub open spec fn brand_length(bytes: Seq<u8>) -> int {
    if exists|i: int| 0 <= i < 48 && bytes[i] == 0 {
        choose|i: int| 0 <= i < 48 && bytes[i] == 0 && forall|j: int| 0 <= j < i ==> bytes[j] != 0
    } else {
        48
    }
}

/// Logical processor count from CPUID leaf 1: EBX bits 23..16, at least one.
pub open spec fn core_count(ebx: u32) -> u32 {
    let c = (ebx as int / 0x1_0000) % 256;
    if c == 0 { 1 } else { c as u32 }
}

/// TSC frequency in MHz from the platform-info MSR: the ratio (bits 15..8)
/// times the bus frequency (bits 23..16); 2400 MHz when either is zero.
pub open spec fn tsc_mhz(platform_info: u64) -> u64 {
    let ratio = (platform_info as int / 0x100) % 256;
    let bus = (platform_info as int / 0x1_0000) % 256;
    if ratio > 0 && bus > 0 { (ratio * bus) as u64 } else { 2400 }
}

fn brand_bytes(words: &[u32; 12]) -> (b: [u8; 48])
    ensures
        forall|i: int| 0 <= i < 48 ==> b[i] == brand_byte(words@, i),
{
    let mut b = [0u8; 48];
    let mut i: usize = 0;
    while i < 48
        invariant
            i <= 48,
            forall|k: int| 0 <= k < i ==> b[k] == brand_byte(words@, k),
        decreases 48 - i,
    {
        let w = words[i / 4];
        let k = i % 4;
        let d: u32 = if k == 0 { 1 } else if k == 1 { 0x100 } else if k == 2 { 0x1_0000 } else { 0x100_0000 };
        b[i] = ((w / d) % 256) as u8;
        i = i + 1;
    }
    b
}

fn first_zero(b: &[u8; 48]) -> (n: usize)
    ensures
        n == brand_length(b@),
{
    let mut i: usize = 0;
    while i < 48
        invariant
            i <= 48,
            forall|j: int| 0 <= j < i ==> b@[j] != 0,
        decreases 48 - i,
    {
        if b[i] == 0 {
            proof {
                let n = brand_length(b@);
                assert(b@[i as int] == 0);
                assert(0 <= n < 48 && b@[n] == 0 && forall|j: int| 0 <= j < n ==> b@[j] != 0);
                if n < i {
                    assert(b@[n] != 0);
                }
                if n > i {
                    assert(b@[i as int] != 0);
                }
            }
            return i;
        }
        i = i + 1;
    }
    i
}

/// Decodes what CPUID and the platform-info MSR reported: the highest
/// standard leaf, the brand-string words of leaves 0x80000002..4 (used only
/// when `max_leaf` reaches 0x80000004), EBX of leaf 1 (used when `max_leaf`
/// is at least 1) and the MSR value.
pub fn detect(max_leaf: u32, brand_words: &[u32; 12], leaf1_ebx: u32, platform_info: u64) -> (info: CpuInfo)
    ensures
        info.max_leaf == max_leaf,
        max_leaf >= 0x8000_0004 ==> (forall|i: int| 0 <= i < 48 ==> info.brand[i] == brand_byte(brand_words@, i))
            && info.brand_len == brand_length(info.brand@),
        max_leaf < 0x8000_0004 ==> (forall|i: int| 0 <= i < 48 ==> info.brand[i] == 0u8) && info.brand_len == 0,
        info.cores == (if max_leaf >= 1 { core_count(leaf1_ebx) } else { 1 }),
        info.tsc_freq_mhz == tsc_mhz(platform_info),
        info.brand_len <= 48,
{
    let mut info = CpuInfo { brand: [0u8; 48], brand_len: 0, cores: 1, max_leaf, tsc_freq_mhz: 0 };
    if max_leaf >= 0x8000_0004 {
        info.brand = brand_bytes(brand_words);
        info.brand_len = first_zero(&info.brand);
    }
    if max_leaf >= 1 {
        info.cores = (leaf1_ebx / 0x1_0000) % 256;
        if info.cores == 0 {
            info.cores = 1;
        }
    }
    let ratio = (platform_info / 0x100) % 256;
    let bus_freq = (platform_info / 0x1_0000) % 256;
    if ratio > 0 && bus_freq > 0 {
        assert(ratio * bus_freq < 0x1_0000) by (nonlinear_arith)
            requires
                ratio < 256,
                bus_freq < 256,
        ;
        info.tsc_freq_mhz = ratio * bus_freq;
    } else {
        info.tsc_freq_mhz = 2400;
    }
    info
}

/// The frequency as text: "W.FF GHz" (hundredths, truncated) from 1000 MHz
/// on, "N MHz" below.
pub open spec fn freq_text(mhz: nat) -> Seq<char> {
    if mhz >= 1000 {
        dec(mhz / 1000) + seq!['.'] + pad2((mhz % 1000) / 10) + " GHz"@
    } else {
        dec(mhz) + " MHz"@
    }
}

pub fn freq_str(info: &CpuInfo) -> (s: String)
    ensures
        s@ == freq_text(info.tsc_freq_mhz as nat),
{
    let mut s = String::new();
    if info.tsc_freq_mhz >= 1000 {
        let whole = info.tsc_freq_mhz / 1000;
        let frac = (info.tsc_freq_mhz % 1000) / 10;
        push_dec(&mut s, whole);
        s.append(".");
        push_dec_pad2(&mut s, frac);
        s.append(" GHz");
        proof {
            reveal_strlit(".");
        }
    } else {
        push_dec(&mut s, info.tsc_freq_mhz);
        s.append(" MHz");
    }
    assert(s@ =~= freq_text(info.tsc_freq_mhz as nat));
    s
}

/// The brand to show for decoded brand text: the text itself, or
/// "QEMU Virtual CPU" when it is empty or was not valid UTF-8.
pub fn brand_from_decoded(decoded: Option<String>) -> (s: String)
    ensures
        s@ == (match decoded {
            Some(t) => if t@.len() > 0 { t@ } else { "QEMU Virtual CPU"@ },
            None => "QEMU Virtual CPU"@,
        }),
{
    match decoded {
        Some(t) => {
            if t.as_str().unicode_len() > 0 {
                t
            } else {
                String::from_str("QEMU Virtual CPU")
            }
        }
        None => String::from_str("QEMU Virtual CPU"),
    }
}

/// The brand shown for `info`: its brand bytes decoded, or
/// "QEMU Virtual CPU" when they are empty or not valid UTF-8.
pub open spec fn utf8_brand(info: CpuInfo) -> Seq<char> {
    match utf8_text(info.brand@.take(info.brand_len as int)) {
        Some(t) => if t.len() > 0 { t } else { "QEMU Virtual CPU"@ },
        None => "QEMU Virtual CPU"@,
    }
}

/// The processor's brand string, or "QEMU Virtual CPU" when CPUID gave none.
pub fn brand_str(info: &CpuInfo) -> (s: String)
    requires
        info.brand_len <= 48,
    ensures
        s@ == utf8_brand(*info),
{
    let mut bytes: Vec<u8> = Vec::new();
    let mut i: usize = 0;
    while i < info.brand_len
        invariant
            i <= info.brand_len <= 48,
            bytes@ == info.brand@.take(i as int),
        decreases info.brand_len - i,
    {
        bytes.push(info.brand[i]);
        i = i + 1;
        assert(bytes@ =~= info.brand@.take(i as int));
    }
    let decoded = decode_utf8(bytes.as_slice());
    brand_from_decoded(decoded)
}

} // verus!
