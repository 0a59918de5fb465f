//! Boot log: a buffer that keeps the first 32 KiB printed during boot, so
//! that it can be written raw to sector 2 of the first SATA disk before the
//! file system is up, then to log files, and echoed to the serial port.
use vstd::prelude::*;

verus! {

/// Capacity of the boot log buffer.
pub const LOG_SIZE: usize = 32768;

/// Size of the sector the raw copy is written to.
pub const SECTOR_SIZE: usize = 512;

/// Logical block the raw copy is written to: the first one after the boot
/// sector and the FSInfo sector.
pub const RAW_LOG_LBA: u64 = 2;

/// What the buffer holds once `h` has been logged: its first `LOG_SIZE` bytes.
pub open spec fn kept(h: Seq<u8>) -> Seq<u8> {
    if h.len() <= LOG_SIZE { h } else { h.take(LOG_SIZE as int) }
}

/// The raw sector image of log contents `l`: its first 512 bytes, padded
/// with zeros.
pub open spec fn sector_image(l: Seq<u8>) -> Seq<u8> {
    let n: int = if l.len() < SECTOR_SIZE { l.len() as int } else { SECTOR_SIZE as int };
    l.take(n) + Seq::new((SECTOR_SIZE - n) as nat, |i: int| 0u8)
}

/// Bytes that go to the serial port: line breaks and printable ASCII.
pub open spec fn serial_byte(b: u8) -> bool {
    b == 0x0A || b == 0x0D || (0x20 <= b && b < 0x7F)
}

/// The bytes of `l` that go to the serial port, in order.
pub open spec fn serial_filter(l: Seq<u8>) -> Seq<u8>
    decreases l.len(),
{
    if l.len() == 0 {
        Seq::empty()
    } else {
        serial_filter(l.drop_last()) + (if serial_byte(l.last()) { seq![l.last()] } else { Seq::empty() })
    }
}

pub struct BootLog {
    buf: Vec<u8>,
    pos: usize,
    written: bool,
    history: Ghost<Seq<u8>>,
}

impl BootLog {
    /// Every byte logged so far, in order.
    pub closed spec fn logged(&self) -> Seq<u8> {
        self.history@
    }

    /// Whether the raw copy has been written to disk.
    pub closed spec fn is_written(&self) -> bool {
        self.written
    }

    pub closed spec fn wf(&self) -> bool {
        &&& self.pos == self.history@.len()
        &&& self.buf@ == kept(self.history@)
    }

    pub fn new() -> (l: BootLog)
        ensures
            l.wf(),
            l.logged() == Seq::<u8>::empty(),
            !l.is_written(),
    {
        BootLog { buf: Vec::new(), pos: 0, written: false, history: Ghost(Seq::empty()) }
    }

    /// Logs one byte; it is kept while the buffer has room.
    pub fn log_byte(&mut self, b: u8)
        requires
            old(self).wf(),
            old(self).logged().len() < usize::MAX,
        ensures
            final(self).wf(),
            final(self).logged() == old(self).logged().push(b),
            final(self).is_written() == old(self).is_written(),
    {
        let pos = self.pos;
        self.pos = pos + 1;
        if pos < LOG_SIZE {
            self.buf.push(b);
        }
        proof {
            let h = self.history@;
            self.history = Ghost(h.push(b));
            if pos < LOG_SIZE {
                assert(kept(h.push(b)) =~= kept(h).push(b));
            } else {
                assert(kept(h.push(b)) =~= kept(h));
            }
        }
    }

    /// The kept contents of the log.
    pub fn get_log(&self) -> (r: &[u8])
        requires
            self.wf(),
        ensures
            r@ == kept(self.logged()),
    {
        self.buf.as_slice()
    }

    /// Number of bytes logged so far, kept or not.
    pub fn len(&self) -> (r: usize)
        requires
            self.wf(),
        ensures
            r == self.logged().len(),
    {
        self.pos
    }

    /// The sector image to write raw at `RAW_LOG_LBA`, if one is due: not
    /// once the raw copy is on disk, not for an empty log, and not without
    /// a SATA port to write it to.
    pub fn flush_raw(&self, has_port: bool) -> (r: Option<Vec<u8>>)
        requires
            self.wf(),
        ensures
            r is Some <==> (!self.is_written() && self.logged().len() > 0 && has_port),
            r matches Some(v) ==> v@ == sector_image(kept(self.logged())),
    {
        if self.written || self.buf.len() == 0 || !has_port {
            return None;
        }
        let copy_len = if self.buf.len() < SECTOR_SIZE { self.buf.len() } else { SECTOR_SIZE };
        let mut sector: Vec<u8> = Vec::new();
        let mut i: usize = 0;
        while i < SECTOR_SIZE
            invariant
                i <= SECTOR_SIZE,
                copy_len <= self.buf.len(),
                copy_len == (if self.buf@.len() < SECTOR_SIZE { self.buf@.len() as int } else { SECTOR_SIZE as int }),
                sector@.len() == i,
                forall|k: int| 0 <= k < i ==> sector@[k] == (if k < copy_len { self.buf@[k] } else { 0u8 }),
            decreases SECTOR_SIZE - i,
        {
            if i < copy_len {
                sector.push(self.buf[i]);
            } else {
                sector.push(0);
            }
            i = i + 1;
        }
        assert(sector@ =~= sector_image(self.buf@));
        Some(sector)
    }

    /// Records that the raw copy reached the disk.
    pub fn mark_written(&mut self)
        requires
            old(self).wf(),
        ensures
            final(self).wf(),
            final(self).is_written(),
            final(self).logged() == old(self).logged(),
    {
        self.written = true;
    }

    /// The file to write the log to: `path` with the kept contents, or
    /// nothing for an empty log.
    pub fn flush_to_file(&self, path: &str) -> (r: Option<(String, Vec<u8>)>)
        requires
            self.wf(),
        ensures
            r is Some <==> self.logged().len() > 0,
            r matches Some(f) ==> f.0@ == path@ && f.1@ == kept(self.logged()),
    {
        if self.buf.len() == 0 {
            return None;
        }
        let mut contents: Vec<u8> = Vec::new();
        let mut i: usize = 0;
        while i < self.buf.len()
            invariant
                i <= self.buf.len(),
                contents@ == self.buf@.take(i as int),
            decreases self.buf.len() - i,
        {
            contents.push(self.buf[i]);
            i = i + 1;
            assert(contents@ =~= self.buf@.take(i as int));
        }
        assert(contents@ =~= self.buf@);
        Some((String::from_str(path), contents))
    }

    /// What is echoed to the serial port: the kept bytes that are line
    /// breaks or printable ASCII, then two newlines; nothing for an empty log.
    pub fn serial_dump(&self) -> (r: Vec<u8>)
        requires
            self.wf(),
        ensures
            r@ == (if self.logged().len() == 0 {
                Seq::<u8>::empty()
            } else {
                serial_filter(kept(self.logged())) + seq![0x0Au8, 0x0Au8]
            }),
    {
        let mut out: Vec<u8> = Vec::new();
        if self.pos == 0 {
            assert(out@ =~= Seq::<u8>::empty());
            return out;
        }
        let mut i: usize = 0;
        while i < self.buf.len()
            invariant
                i <= self.buf.len(),
                out@ == serial_filter(self.buf@.take(i as int)),
            decreases self.buf.len() - i,
        {
            let b = self.buf[i];
            if b == 0x0A || b == 0x0D || (b >= 0x20 && b < 0x7F) {
                out.push(b);
            }
            proof {
                assert(self.buf@.take(i + 1).drop_last() =~= self.buf@.take(i as int));
            }
            i = i + 1;
        }
        assert(self.buf@.take(self.buf@.len() as int) =~= self.buf@);
        out.push(0x0A);
        out.push(0x0A);
        assert(out@ =~= serial_filter(self.buf@) + seq![0x0Au8, 0x0Au8]);
        out
    }
}

/// The log keeps the first `LOG_SIZE` bytes ever logged: logging more never
/// changes what is already kept, only fills the rest of the buffer, and once
/// the buffer is full further bytes are dropped.
pub proof fn lemma_log_keeps_prefix(h: Seq<u8>, more: Seq<u8>)
    ensures
        kept(h).is_prefix_of(kept(h + more)),
        kept(h + more).len() == (if h.len() + more.len() <= LOG_SIZE { h.len() + more.len() } else { LOG_SIZE as nat }),
        h.len() >= LOG_SIZE ==> kept(h + more) == kept(h),
{
    assert forall|i: int| 0 <= i < kept(h).len() implies kept(h)[i] == kept(h + more)[i] by {
        assert((h + more)[i] == h[i]);
    }
    if h.len() >= LOG_SIZE {
        assert(kept(h + more) =~= kept(h));
    }
}

} // verus!
