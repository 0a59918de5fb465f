//! File systems: mount table, device file system, disk manager and the ext2 reader.
pub mod mount;
pub mod devtmpfs;
pub mod disk_manager;
pub mod ext2;


use vstd::prelude::*;

verus! {

/// Errors reported by file systems.
#[derive(PartialEq, Eq, Structural, Clone, Copy, Debug)]
pub enum FsError {
    NotFound,
    AlreadyExists,
    ReadOnly,
    IoError,
    InvalidPath,
    IsADirectory,
    NotADirectory,
}

/// A mountable file system, as far as the mount table needs it.
pub trait FileSystem {
    /// The file system's type name.
    spec fn spec_name(&self) -> Seq<char>;

    fn name(&self) -> (r: &str)
        ensures
            r@ == self.spec_name(),
    ;
}

/// Kind of a directory entry.
#[derive(PartialEq, Eq, Structural, Clone, Copy, Debug)]
pub enum FileType {
    File,
    Directory,
    Device,
}

/// Unix permission bits.
#[derive(PartialEq, Eq, Structural, Clone, Copy, Debug)]
pub struct Permissions {
    pub mode: u16,
}

impl Permissions {
    pub fn new(mode: u16) -> (p: Permissions)
        ensures
            p.mode == mode,
    {
        Permissions { mode }
    }
}

/// One entry of a directory listing.
pub struct DirEntry {
    pub name: String,
    pub file_type: FileType,
    pub size: u64,
    pub permissions: Permissions,
    pub uid: u32,
    pub gid: u32,
}

/// What `stat` reports of a path.
pub struct FileMetadata {
    pub name: String,
    pub file_type: FileType,
    pub size: u64,
    pub permissions: Permissions,
    pub uid: u32,
    pub gid: u32,
    pub created: u64,
    pub modified: u64,
}

/// Where a seek is measured from.
#[derive(PartialEq, Eq, Structural, Clone, Copy, Debug)]
pub enum SeekFrom {
    Start(u64),
    Current(i64),
    End(i64),
}

} // verus!
