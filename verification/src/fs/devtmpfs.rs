//! devtmpfs: the virtual file system of device nodes `null`, `zero`,
//! `random` and `urandom`.
use vstd::prelude::*;
use super::{FileSystem, FsError, FileType, Permissions, DirEntry, FileMetadata, SeekFrom};
use crate::text::{str_eq, trim_slashes, trim_start_slashes};

verus! {

pub struct DevTmpFs {
    pub mounted: bool,
}

/// A device node opened from devtmpfs.
#[derive(PartialEq, Eq, Structural, Clone, Copy, Debug)]
pub enum DevFile {
    /// Reads nothing, swallows writes.
    Null,
    /// Reads zeros.
    Zero,
    /// Reads a fixed byte pattern.
    Random,
}

/// The device node a path names, if any.
pub open spec fn dev_for(path: Seq<char>) -> Option<DevFile> {
    if path == "/null"@ {
        Some(DevFile::Null)
    } else if path == "/zero"@ {
        Some(DevFile::Zero)
    } else if path == "/random"@ || path == "/urandom"@ {
        Some(DevFile::Random)
    } else {
        None
    }
}

/// Whether a name (leading slashes removed) is one of the device nodes.
pub open spec fn is_dev_name(name: Seq<char>) -> bool {
    name == "null"@ || name == "zero"@ || name == "random"@ || name == "urandom"@
}

/// The byte the random device yields at offset `i` of a read.
pub open spec fn pattern_byte(i: int) -> u8 {
    (((i % 256) * 0x9E) % 256) as u8 ^ 0x55u8
}

impl DevTmpFs {
    pub fn new() -> (fs: DevTmpFs)
        ensures
            !fs.mounted,
    {
        DevTmpFs { mounted: false }
    }

    pub fn mount(&mut self) -> (r: Result<(), FsError>)
        ensures
            final(self).mounted,
            r is Ok,
    {
        self.mounted = true;
        Ok(())
    }

    pub fn unmount(&mut self) -> (r: Result<(), FsError>)
        ensures
            !final(self).mounted,
            r is Ok,
    {
        self.mounted = false;
        Ok(())
    }

    /// Opens a device node by its path.
    pub fn open(&self, path: &str) -> (r: Result<DevFile, FsError>)
        ensures
            r == (match dev_for(path@) {
                Some(d) => Ok::<DevFile, FsError>(d),
                None => Err(FsError::NotFound),
            }),
    {
        if str_eq(path, "/null") {
            Ok(DevFile::Null)
        } else if str_eq(path, "/zero") {
            Ok(DevFile::Zero)
        } else if str_eq(path, "/random") || str_eq(path, "/urandom") {
            Ok(DevFile::Random)
        } else {
            Err(FsError::NotFound)
        }
    }

    /// devtmpfs is read-only.
    pub fn create(&mut self, path: &str) -> (r: Result<DevFile, FsError>)
        ensures
            r == Err::<DevFile, FsError>(FsError::ReadOnly),
    {
        Err(FsError::ReadOnly)
    }

    pub fn remove(&mut self, path: &str) -> (r: Result<(), FsError>)
        ensures
            r == Err::<(), FsError>(FsError::ReadOnly),
    {
        Err(FsError::ReadOnly)
    }

    pub fn mkdir(&mut self, path: &str) -> (r: Result<(), FsError>)
        ensures
            r == Err::<(), FsError>(FsError::ReadOnly),
    {
        Err(FsError::ReadOnly)
    }

    pub fn rmdir(&mut self, path: &str) -> (r: Result<(), FsError>)
        ensures
            r == Err::<(), FsError>(FsError::ReadOnly),
    {
        Err(FsError::ReadOnly)
    }

    /// Lists the root: the four device nodes, each a device with mode 0666;
    /// any other directory is empty.
    pub fn readdir(&mut self, path: &str) -> (r: Result<Vec<DirEntry>, FsError>)
        ensures
            r is Ok,
            r matches Ok(v) ==> (if trim_slashes(path@).len() == 0 {
                &&& v@.len() == 4
                &&& v@[0].name@ == "null"@
                &&& v@[1].name@ == "zero"@
                &&& v@[2].name@ == "random"@
                &&& v@[3].name@ == "urandom"@
                &&& forall|i: int| 0 <= i < 4 ==> {
                    let e = #[trigger] v@[i];
                    e.file_type == FileType::Device && e.size == 0 && e.permissions.mode == 0o666 && e.uid == 0 && e.gid == 0
                }
            } else {
                v@.len() == 0
            }),
    {
        let trimmed = trim_start_slashes(path);
        if trimmed.as_str().unicode_len() == 0 {
            let mut v: Vec<DirEntry> = Vec::new();
            v.push(dev_entry("null"));
            v.push(dev_entry("zero"));
            v.push(dev_entry("random"));
            v.push(dev_entry("urandom"));
            Ok(v)
        } else {
            Ok(Vec::new())
        }
    }

    /// Whether the path (leading slashes removed) names a device node.
    pub fn node_exists(&self, path: &str) -> (r: bool)
        ensures
            r == is_dev_name(trim_slashes(path@)),
    {
        let t = trim_start_slashes(path);
        let s = t.as_str();
        str_eq(s, "null") || str_eq(s, "zero") || str_eq(s, "random") || str_eq(s, "urandom")
    }

    /// Every path reports a device of size 0 with mode 0666.
    pub fn stat(&self, path: &str) -> (r: Result<FileMetadata, FsError>)
        ensures
            r matches Ok(m) && m.name@ == path@ && m.file_type == FileType::Device && m.size == 0
                && m.permissions.mode == 0o666 && m.uid == 0 && m.gid == 0 && m.created == 0 && m.modified == 0,
    {
        Ok(FileMetadata {
            name: String::from_str(path),
            file_type: FileType::Device,
            size: 0,
            permissions: Permissions::new(0o666),
            uid: 0,
            gid: 0,
            created: 0,
            modified: 0,
        })
    }
}

fn dev_entry(name: &str) -> (e: DirEntry)
    ensures
        e.name@ == name@,
        e.file_type == FileType::Device,
        e.size == 0,
        e.permissions.mode == 0o666,
        e.uid == 0,
        e.gid == 0,
{
    DirEntry {
        name: String::from_str(name),
        file_type: FileType::Device,
        size: 0,
        permissions: Permissions::new(0o666),
        uid: 0,
        gid: 0,
    }
}

impl FileSystem for DevTmpFs {
    open spec fn spec_name(&self) -> Seq<char> {
        "devtmpfs"@
    }

    fn name(&self) -> (r: &str) {
        "devtmpfs"
    }
}

impl DevFile {
    /// Reads into `buf`: nothing from the null device, zeros from the zero
    /// device, the fixed pattern from the random device; the others fill
    /// the whole buffer.
    pub fn read(&mut self, buf: &mut [u8]) -> (r: Result<usize, FsError>)
        ensures
            *final(self) == *old(self),
            final(buf)@.len() == old(buf)@.len(),
            match *old(self) {
                DevFile::Null => r == Ok::<usize, FsError>(0) && final(buf)@ == old(buf)@,
                DevFile::Zero => r == Ok::<usize, FsError>(old(buf)@.len() as usize)
                    && forall|i: int| 0 <= i < final(buf)@.len() ==> final(buf)@[i] == 0,
                DevFile::Random => r == Ok::<usize, FsError>(old(buf)@.len() as usize)
                    && forall|i: int| 0 <= i < final(buf)@.len() ==> final(buf)@[i] == pattern_byte(i),
            },
    {
        match self {
            DevFile::Null => Ok(0),
            DevFile::Zero => {
                let n = buf.len();
                let mut i: usize = 0;
                while i < n
                    invariant
                        i <= n,
                        n == buf@.len(),
                        buf@.len() == old(buf)@.len(),
                        forall|k: int| 0 <= k < i ==> buf@[k] == 0,
                    decreases n - i,
                {
                    buf[i] = 0;
                    i = i + 1;
                }
                Ok(n)
            }
            DevFile::Random => {
                let n = buf.len();
                let mut i: usize = 0;
                while i < n
                    invariant
                        i <= n,
                        n == buf@.len(),
                        buf@.len() == old(buf)@.len(),
                        forall|k: int| 0 <= k < i ==> buf@[k] == pattern_byte(k),
                    decreases n - i,
                {
                    let low = (i % 256) as u8;
                    buf[i] = low.wrapping_mul(0x9E) ^ 0x55;
                    proof {
                        assert(low.wrapping_mul(0x9E) == ((low as int * 0x9E) % 256) as u8);
                    }
                    i = i + 1;
                }
                Ok(n)
            }
        }
    }

    /// Writes are accepted whole and discarded.
    pub fn write(&mut self, buf: &[u8]) -> (r: Result<usize, FsError>)
        ensures
            r == Ok::<usize, FsError>(buf@.len() as usize),
    {
        Ok(buf.len())
    }

    pub fn seek(&mut self, pos: SeekFrom) -> (r: Result<u64, FsError>)
        ensures
            r == Ok::<u64, FsError>(0),
    {
        Ok(0)
    }

    pub fn position(&self) -> (r: u64)
        ensures
            r == 0,
    {
        0
    }

    pub fn size(&self) -> (r: usize)
        ensures
            r == 0,
    {
        0
    }
}

/// devtmpfs holds exactly four nodes: for a name `n` that does not start
/// with `/`, the path `/n` exists, and opens, exactly when `n` is `null`,
/// `zero`, `random` or `urandom`.
pub proof fn lemma_four_nodes(n: Seq<char>)
    requires
        n.len() == 0 || n[0] != '/',
    ensures
        is_dev_name(trim_slashes("/"@ + n)) <==> is_dev_name(n),
        dev_for("/"@ + n) is Some <==> is_dev_name(n),
{
    reveal_strlit("/");
    reveal_strlit("/null");
    reveal_strlit("/zero");
    reveal_strlit("/random");
    reveal_strlit("/urandom");
    reveal_strlit("null");
    reveal_strlit("zero");
    reveal_strlit("random");
    reveal_strlit("urandom");
    let q = "/"@ + n;
    assert(q.drop_first() =~= n);
    assert(trim_slashes(q) == trim_slashes(n));
    assert(trim_slashes(n) == n);
    if is_dev_name(n) {
        assert(q =~= "/null"@ || q =~= "/zero"@ || q =~= "/random"@ || q =~= "/urandom"@);
    }
    if dev_for(q) is Some {
        if q == "/null"@ { assert(n =~= "null"@); }
        else if q == "/zero"@ { assert(n =~= "zero"@); }
        else if q == "/random"@ { assert(n =~= "random"@); }
        else { assert(q == "/urandom"@); assert(n =~= "urandom"@); }
    }
}

} // verus!
