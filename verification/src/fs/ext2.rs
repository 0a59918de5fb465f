//! ext2, read only: the superblock, where an inode lives, the inode fields
//! the driver reads, directory records, path lookup within a directory
//! block, and open files.  The blocks themselves are read by the caller
//! from the disk (sector = block times sectors per block) and handed in.
use vstd::prelude::*;
use super::{FileSystem, FsError, FileType, Permissions, DirEntry, FileMetadata, SeekFrom};
use crate::bytes::{le16, le32, read_u16_le, read_u32_le};
use crate::text::{utf8_text, decode_utf8, name_text, eq_ignore_ascii_case, eq_ignore_ascii_case_spec, str_eq};

verus! {

pub const EXT2_SUPER_MAGIC: u16 = 0xEF53;
pub const SECTOR_SIZE: u64 = 512;
/// On-disk size of an inode as this driver reads it.
pub const INODE_SIZE: usize = 128;
/// Inode number of the root directory.
pub const ROOT_INODE: u32 = 2;

pub struct Ext2Superblock {
    pub inodes_count: u32,
    pub blocks_count: u32,
    pub r_blocks_count: u32,
    pub free_blocks_count: u32,
    pub free_inodes_count: u32,
    pub first_data_block: u32,
    pub log_block_size: u32,
    pub blocks_per_group: u32,
    pub inodes_per_group: u32,
    pub magic: u16,
}

/// Offset of the magic number in the buffer the superblock is parsed from.
pub const EXT2_MAGIC_OFFSET: usize = 1080;

/// The superblock the 1024 bytes of `d` describe.
pub open spec fn superblock_of(d: Seq<u8>) -> Ext2Superblock {
    Ext2Superblock {
        inodes_count: le32(d, 0) as u32,
        blocks_count: le32(d, 4) as u32,
        r_blocks_count: le32(d, 8) as u32,
        free_blocks_count: le32(d, 12) as u32,
        free_inodes_count: le32(d, 16) as u32,
        first_data_block: le32(d, 20) as u32,
        log_block_size: le32(d, 24) as u32,
        blocks_per_group: le32(d, 32) as u32,
        inodes_per_group: le32(d, 40) as u32,
        magic: le16(d, EXT2_MAGIC_OFFSET as int) as u16,
    }
}

impl Ext2Superblock {
    /// Decodes the superblock: an I/O error when fewer than 1024 bytes were
    /// read, an invalid path when the magic at byte 1080 of the buffer is not
    /// 0xEF53.  A buffer of 1024 to 1081 bytes has no byte 1081 to read.
    pub fn parse(data: &[u8]) -> (r: Result<Ext2Superblock, FsError>)
        requires
            data@.len() < 1024 || data@.len() >= 1082,
        ensures
            data@.len() < 1024 ==> r == Err::<Ext2Superblock, FsError>(FsError::IoError),
            data@.len() >= 1024 && le16(data@, EXT2_MAGIC_OFFSET as int) != EXT2_SUPER_MAGIC ==> r == Err::<Ext2Superblock, FsError>(FsError::InvalidPath),
            data@.len() >= 1024 && le16(data@, EXT2_MAGIC_OFFSET as int) == EXT2_SUPER_MAGIC ==> r == Ok::<Ext2Superblock, FsError>(superblock_of(data@)),
    {
        if data.len() < 1024 {
            return Err(FsError::IoError);
        }
        let magic = read_u16_le(data, EXT2_MAGIC_OFFSET);
        if magic != EXT2_SUPER_MAGIC {
            return Err(FsError::InvalidPath);
        }
        Ok(Ext2Superblock {
            inodes_count: read_u32_le(data, 0),
            blocks_count: read_u32_le(data, 4),
            r_blocks_count: read_u32_le(data, 8),
            free_blocks_count: read_u32_le(data, 12),
            free_inodes_count: read_u32_le(data, 16),
            first_data_block: read_u32_le(data, 20),
            log_block_size: read_u32_le(data, 24),
            blocks_per_group: read_u32_le(data, 32),
            inodes_per_group: read_u32_le(data, 40),
            magic,
        })
    }
}

/// Block size for `log_block_size` = k: 1024 shifted left by k, in 32 bits.
pub open spec fn block_size_for(k: u32) -> u32 {
    ((1024 * pow2(k as nat)) % 0x1_0000_0000) as u32
}

pub open spec fn pow2(k: nat) -> nat
    decreases k,
{
    if k == 0 { 1 } else { 2 * pow2((k - 1) as nat) }
}

/// An ext2 volume: its superblock and block size.
pub struct Ext2Fs {
    pub superblock: Ext2Superblock,
    pub block_size: u32,
    pub mounted: bool,
}

/// Where inode `n` lives: the inode-table block of its group and the byte
/// offset within that block.
pub open spec fn inode_location(sb: Ext2Superblock, block_size: u32, n: u32) -> (int, int) {
    let group = (n - 1) / sb.inodes_per_group as int;
    let index = (n - 1) % sb.inodes_per_group as int;
    let per_block = block_size as int / INODE_SIZE as int;
    (sb.first_data_block + 1 + group * sb.blocks_per_group / 32, (index % per_block) * INODE_SIZE as int)
}

/// What locating inode `n` needs: a valid inode number, groups of at least
/// one inode, blocks holding at least one inode, and a table block number
/// that fits in 32 bits.
pub open spec fn can_locate(sb: Ext2Superblock, block_size: u32, n: u32) -> bool {
    let group = (n - 1) / sb.inodes_per_group as int;
    &&& n >= 1
    &&& sb.inodes_per_group > 0
    &&& block_size >= INODE_SIZE
    &&& group * sb.blocks_per_group <= u32::MAX
    &&& sb.first_data_block + 1 + group * sb.blocks_per_group / 32 <= u32::MAX
}

impl Ext2Fs {
    /// The volume described by the superblock buffer `data` (magic at byte
    /// 1080 of it, as for `Ext2Superblock::parse`).
    pub fn new(data: &[u8]) -> (r: Result<Ext2Fs, FsError>)
        requires
            data@.len() < 1024 || data@.len() >= 1082,
            data@.len() >= 1082 && le16(data@, EXT2_MAGIC_OFFSET as int) == EXT2_SUPER_MAGIC ==> le32(data@, 24) < 32,
        ensures
            data@.len() < 1024 ==> r == Err::<Ext2Fs, FsError>(FsError::IoError),
            data@.len() >= 1024 && le16(data@, EXT2_MAGIC_OFFSET as int) != EXT2_SUPER_MAGIC ==> r == Err::<Ext2Fs, FsError>(FsError::InvalidPath),
            data@.len() >= 1024 && le16(data@, EXT2_MAGIC_OFFSET as int) == EXT2_SUPER_MAGIC ==> (r matches Ok(fs)
                && fs.superblock == superblock_of(data@)
                && fs.block_size == block_size_for(superblock_of(data@).log_block_size)
                && !fs.mounted),
    {
        let superblock = match Ext2Superblock::parse(data) {
            Ok(sb) => sb,
            Err(e) => return Err(e),
        };
        let block_size = shl_1024(superblock.log_block_size);
        Ok(Ext2Fs { superblock, block_size, mounted: false })
    }

    pub fn mount(&mut self) -> (r: Result<(), FsError>)
        ensures
            r is Ok,
            final(self).mounted,
            final(self).superblock == old(self).superblock,
            final(self).block_size == old(self).block_size,
    {
        self.mounted = true;
        Ok(())
    }

    pub fn unmount(&mut self) -> (r: Result<(), FsError>)
        ensures
            r is Ok,
            !final(self).mounted,
            final(self).superblock == old(self).superblock,
            final(self).block_size == old(self).block_size,
    {
        self.mounted = false;
        Ok(())
    }

    /// The first disk sector of block `block`.
    pub fn block_sector(&self, block: u32) -> (s: u64)
        ensures
            s == block as int * (self.block_size as int / SECTOR_SIZE as int),
    {
        let per = self.block_size as u64 / SECTOR_SIZE;
        assert(block as int * per <= u32::MAX as int * u32::MAX as int) by (nonlinear_arith)
            requires
                per <= u32::MAX,
        ;
        block as u64 * per
    }

    /// The inode-table block holding inode `n` and its byte offset there.
    pub fn inode_location(&self, n: u32) -> (r: (u32, usize))
        requires
            can_locate(self.superblock, self.block_size, n),
        ensures
            r.0 as int == inode_location(self.superblock, self.block_size, n).0,
            r.1 as int == inode_location(self.superblock, self.block_size, n).1,
            r.1 + INODE_SIZE <= self.block_size,
    {
        let ipg = self.superblock.inodes_per_group;
        let group = (n - 1) / ipg;
        let index = (n - 1) % ipg;
        let per_block = self.block_size as usize / INODE_SIZE;
        let table = self.superblock.first_data_block + 1 + group * self.superblock.blocks_per_group / 32;
        let slot = index as usize % per_block;
        assert(slot * 128 + 128 <= per_block * 128) by (nonlinear_arith)
            requires
                slot < per_block,
        ;
        assert(per_block * 128 <= self.block_size);
        (table, slot * INODE_SIZE)
    }

    /// Contents of a file or directory of `size` bytes whose first data
    /// block is `block` (empty when no block was read): the start of the
    /// block, zeros after it.
    pub fn file_contents(&self, block: &[u8], size: usize) -> (r: Vec<u8>)
        ensures
            r@.len() == size,
            forall|i: int| 0 <= i < size ==> #[trigger] r@[i] == (if i < block@.len() && i < self.block_size { block@[i] } else { 0u8 }),
    {
        let limit = if (self.block_size as usize) < block.len() { self.block_size as usize } else { block.len() };
        let mut out: Vec<u8> = Vec::new();
        let mut i: usize = 0;
        while i < size
            invariant
                i <= size,
                limit == (if self.block_size < block@.len() { self.block_size as int } else { block@.len() as int }),
                out@.len() == i,
                forall|k: int| 0 <= k < i ==> #[trigger] out@[k] == (if k < block@.len() && k < self.block_size { block@[k] } else { 0u8 }),
            decreases size - i,
        {
            if i < limit {
                out.push(block[i]);
            } else {
                out.push(0);
            }
            i = i + 1;
        }
        out
    }
}

fn shl_1024(k: u32) -> (r: u32)
    requires
        k < 32,
    ensures
        r == block_size_for(k),
    decreases k,
{
    if k == 0 {
        assert(block_size_for(0) == 1024) by {
            assert(pow2(0) == 1);
        }
        1024
    } else {
        let prev = shl_1024(k - 1);
        proof {
            let p = pow2((k - 1) as nat);
            assert(pow2(k as nat) == 2 * p);
            assert((2 * ((1024 * p) % 0x1_0000_0000)) % 0x1_0000_0000 == (1024 * (2 * p)) % 0x1_0000_0000) by (nonlinear_arith);
        }
        ((prev as u64 * 2) % 0x1_0000_0000) as u32
    }
}

/// First direct block of an inode (offset 40).
pub fn inode_first_block(inode: &[u8]) -> (r: u32)
    requires
        inode@.len() >= INODE_SIZE,
    ensures
        r == le32(inode@, 40),
{
    read_u32_le(inode, 40)
}

/// Size in bytes of an inode's data (offset 4).
pub fn inode_size(inode: &[u8]) -> (r: u32)
    requires
        inode@.len() >= INODE_SIZE,
    ensures
        r == le32(inode@, 4),
{
    read_u32_le(inode, 4)
}

/// Whether an inode is a directory: bit 0x4000 of its mode (offset 0).
pub fn inode_is_dir(inode: &[u8]) -> (r: bool)
    requires
        inode@.len() >= INODE_SIZE,
    ensures
        r == ((le16(inode@, 0) as u16 & 0x4000u16) != 0),
{
    let mode = read_u16_le(inode, 0);
    (mode & 0x4000) != 0
}

/// Measure of the walk over directory records.
pub open spec fn remaining(d: Seq<u8>, pos: int) -> int {
    if pos < d.len() { d.len() - pos } else { 0 }
}

/// Whether every record the walk from `pos` visits has its name inside `d`.
pub open spec fn dir_bounds(d: Seq<u8>, pos: int) -> bool
    decreases remaining(d, pos),
{
    if pos < 0 || pos + 8 > d.len() {
        true
    } else if le32(d, pos) == 0 || le16(d, pos + 4) == 0 {
        true
    } else {
        let name_len = d[pos + 6] as int;
        &&& (name_len == 0 || pos + 8 + name_len <= d.len())
        &&& dir_bounds(d, pos + le16(d, pos + 4))
    }
}

/// The (name, is-directory) pairs of the directory records from `pos`: a
/// record is its inode (4 bytes), record length (2), name length (1), file
/// type (1, 2 for a directory) and the name; the walk ends at a record with
/// inode 0 or length 0, and skips records with an empty name.
pub open spec fn dir_entries(d: Seq<u8>, pos: int) -> Seq<(Seq<char>, bool)>
    decreases remaining(d, pos),
{
    if pos < 0 || pos + 8 > d.len() {
        Seq::empty()
    } else if le32(d, pos) == 0 || le16(d, pos + 4) == 0 {
        Seq::empty()
    } else {
        let name_len = d[pos + 6] as int;
        let head = if name_len > 0 {
            seq![(name_text(d.subrange(pos + 8, pos + 8 + name_len)), d[pos + 7] == 2)]
        } else {
            Seq::empty()
        };
        head + dir_entries(d, pos + le16(d, pos + 4))
    }
}

pub open spec fn entries_view(v: Seq<(String, bool)>) -> Seq<(Seq<char>, bool)> {
    v.map_values(|e: (String, bool)| (e.0@, e.1))
}

fn decode_name(bytes: &[u8]) -> (s: String)
    ensures
        s@ == name_text(bytes@),
{
    match decode_utf8(bytes) {
        Some(s) => s,
        None => String::new(),
    }
}

/// The directory records of `data`, as (name, is-directory) pairs.
pub fn parse_dir_entries(data: &[u8]) -> (r: Vec<(String, bool)>)
    requires
        dir_bounds(data@, 0),
    ensures
        entries_view(r@) == dir_entries(data@, 0),
{
    let mut entries: Vec<(String, bool)> = Vec::new();
    let mut pos: usize = 0;
    let ghost d = data@;
    assert(entries_view(entries@) + dir_entries(d, 0) =~= dir_entries(d, 0));
    while pos < data.len() && data.len() - pos >= 8
        invariant_except_break
            d == data@,
            pos <= data@.len(),
            dir_bounds(d, pos as int),
            entries_view(entries@) + dir_entries(d, pos as int) == dir_entries(d, 0),
        ensures
            entries_view(entries@) == dir_entries(d, 0),
        decreases remaining(d, pos as int),
    {
        let inode = read_u32_le(data, pos);
        let rec_len = read_u16_le(data, pos + 4) as usize;
        let name_len = data[pos + 6] as usize;
        let file_type = data[pos + 7];
        if inode == 0 || rec_len == 0 {
            assert(entries_view(entries@) =~= dir_entries(d, 0));
            break;
        }
        let ghost before = entries@;
        if name_len > 0 {
            let name = decode_name(&data[pos + 8..pos + 8 + name_len]);
            entries.push((name, file_type == 2));
            proof {
                assert(data@.subrange(pos + 8, pos + 8 + name_len) =~= d.subrange(pos + 8, pos + 8 + name_len));
            }
        }
        assert(entries_view(entries@) + dir_entries(d, pos + rec_len) =~= entries_view(before) + dir_entries(d, pos as int));
        if rec_len > data.len() - pos {
            assert(dir_entries(d, pos + rec_len) =~= Seq::<(Seq<char>, bool)>::empty());
            assert(entries_view(entries@) =~= dir_entries(d, 0));
            break;
        }
        pos = pos + rec_len;
    }
    entries
}

/// The inode of the first record, scanning from `pos` up to `limit`, whose
/// name matches `name` ignoring ASCII case; records of length 0 are never
/// passed (the scan needs them not to occur before a match).
pub open spec fn scan_for(d: Seq<u8>, limit: int, pos: int, name: Seq<char>) -> Option<u32>
    decreases remaining(d, pos),
{
    if pos < 0 || pos + 8 > limit || pos + 8 > d.len() {
        None
    } else {
        let name_len = d[pos + 6] as int;
        if name_len > 0 && eq_ignore_ascii_case_spec(name_text(d.subrange(pos + 8, pos + 8 + name_len)), name) {
            Some(le32(d, pos) as u32)
        } else if le16(d, pos + 4) == 0 {
            None
        } else {
            scan_for(d, limit, pos + le16(d, pos + 4), name)
        }
    }
}

/// Whether the scan from `pos` keeps every name it reads inside `d` and
/// never meets a record of length 0 before a match.
pub open spec fn scan_safe(d: Seq<u8>, limit: int, pos: int, name: Seq<char>) -> bool
    decreases remaining(d, pos),
{
    if pos < 0 || pos + 8 > limit || pos + 8 > d.len() {
        true
    } else {
        let name_len = d[pos + 6] as int;
        &&& (name_len == 0 || pos + 8 + name_len <= d.len())
        &&& (if name_len > 0 && eq_ignore_ascii_case_spec(name_text(d.subrange(pos + 8, pos + 8 + name_len)), name) {
            true
        } else {
            le16(d, pos + 4) > 0 && scan_safe(d, limit, pos + le16(d, pos + 4), name)
        })
    }
}

/// Looks `name` up in a directory: `entries` are its records, `block` its
/// first data block and `size` its size.  Not found unless some entry
/// matches ignoring ASCII case; then the block is scanned again, up to the
/// smaller of `size` and the block length, for the matching record's inode.
pub fn find_in_dir(entries: &Vec<(String, bool)>, block: &[u8], size: usize, name: &str) -> (r: Result<u32, FsError>)
    requires
        scan_safe(block@, if size < block@.len() { size as int } else { block@.len() as int }, 0, name@),
    ensures
        !(exists|i: int| 0 <= i < entries@.len() && eq_ignore_ascii_case_spec(#[trigger] entries@[i].0@, name@))
            ==> r == Err::<u32, FsError>(FsError::NotFound),
        (exists|i: int| 0 <= i < entries@.len() && eq_ignore_ascii_case_spec(#[trigger] entries@[i].0@, name@))
            ==> r == (match scan_for(block@, if size < block@.len() { size as int } else { block@.len() as int }, 0, name@) {
                Some(n) => Ok::<u32, FsError>(n),
                None => Err(FsError::NotFound),
            }),
{
    let mut found = false;
    let mut i: usize = 0;
    while i < entries.len()
        invariant
            i <= entries@.len(),
            found <==> (exists|k: int| 0 <= k < i && eq_ignore_ascii_case_spec(#[trigger] entries@[k].0@, name@)),
        decreases entries.len() - i,
    {
        if eq_ignore_ascii_case(entries[i].0.as_str(), name) {
            found = true;
        }
        i = i + 1;
    }
    if !found {
        return Err(FsError::NotFound);
    }
    let limit = if size < block.len() { size } else { block.len() };
    let ghost d = block@;
    let mut pos: usize = 0;
    while pos < limit && limit - pos >= 8
        invariant
            d == block@,
            pos <= limit,
            exists|k: int| 0 <= k < entries@.len() && eq_ignore_ascii_case_spec(#[trigger] entries@[k].0@, name@),
            limit <= block@.len(),
            limit == (if size < block@.len() { size as int } else { block@.len() as int }),
            scan_safe(d, limit as int, pos as int, name@),
            scan_for(d, limit as int, pos as int, name@) == scan_for(d, limit as int, 0, name@),
        decreases remaining(d, pos as int),
    {
        let inode_num = read_u32_le(block, pos);
        let rec_len = read_u16_le(block, pos + 4) as usize;
        let name_len = block[pos + 6] as usize;
        if name_len > 0 {
            let entry_name = decode_name(&block[pos + 8..pos + 8 + name_len]);
            proof {
                assert(block@.subrange(pos + 8, pos + 8 + name_len) =~= d.subrange(pos + 8, pos + 8 + name_len));
            }
            if eq_ignore_ascii_case(entry_name.as_str(), name) {
                return Ok(inode_num);
            }
        }
        if rec_len > limit - pos {
            assert(scan_for(d, limit as int, pos + rec_len, name@) == None::<u32>);
            return Err(FsError::NotFound);
        }
        pos = pos + rec_len;
    }
    Err(FsError::NotFound)
}

/// Whether the lookup scan of `block` up to `limit` for `name` reads only
/// names inside the block and ends (it meets no record of length 0 before
/// a match).
pub fn scan_is_safe(block: &[u8], limit: usize, name: &str) -> (r: bool)
    requires
        limit <= block@.len(),
    ensures
        r == scan_safe(block@, limit as int, 0, name@),
{
    let ghost d = block@;
    let mut pos: usize = 0;
    while pos < limit && limit - pos >= 8
        invariant
            d == block@,
            pos <= limit,
            limit <= block@.len(),
            scan_safe(d, limit as int, pos as int, name@) == scan_safe(d, limit as int, 0, name@),
        decreases remaining(d, pos as int),
    {
        let rec_len = read_u16_le(block, pos + 4) as usize;
        let name_len = block[pos + 6] as usize;
        if name_len > 0 {
            if name_len > block.len() - pos - 8 {
                return false;
            }
            let entry_name = decode_name(&block[pos + 8..pos + 8 + name_len]);
            proof {
                assert(block@.subrange(pos + 8, pos + 8 + name_len) =~= d.subrange(pos + 8, pos + 8 + name_len));
            }
            if eq_ignore_ascii_case(entry_name.as_str(), name) {
                return true;
            }
        }
        if rec_len == 0 {
            return false;
        }
        if rec_len > limit - pos {
            assert(scan_safe(d, limit as int, pos + rec_len, name@));
            return true;
        }
        pos = pos + rec_len;
    }
    true
}

/// Looks `name` up as `find_in_dir` does, when that lookup ends: `None`
/// when the scan of the block would meet a record of length 0 before a
/// match, or read a name past the block.
pub fn find_in_dir_checked(entries: &Vec<(String, bool)>, block: &[u8], size: usize, name: &str) -> (r: Option<Result<u32, FsError>>)
    ensures
        r is None <==> !scan_safe(block@, if size < block@.len() { size as int } else { block@.len() as int }, 0, name@),
        r matches Some(res) ==> {
            let limit = if size < block@.len() { size as int } else { block@.len() as int };
            &&& !(exists|i: int| 0 <= i < entries@.len() && eq_ignore_ascii_case_spec(#[trigger] entries@[i].0@, name@))
                ==> res == Err::<u32, FsError>(FsError::NotFound)
            &&& (exists|i: int| 0 <= i < entries@.len() && eq_ignore_ascii_case_spec(#[trigger] entries@[i].0@, name@))
                ==> res == (match scan_for(block@, limit, 0, name@) {
                    Some(n) => Ok::<u32, FsError>(n),
                    None => Err(FsError::NotFound),
                })
        },
{
    let limit = if size < block.len() { size } else { block.len() };
    if !scan_is_safe(block, limit, name) {
        return None;
    }
    Some(find_in_dir(entries, block, size, name))
}

/// The components of a path: the pieces between `/` that are not empty.
pub open spec fn path_parts(p: Seq<char>) -> Seq<Seq<char>>
    decreases p.len(),
{
    parts_from(p, 0, 0)
}

/// Components of `p` from position `i`, the current piece having started at `start`.
pub open spec fn parts_from(p: Seq<char>, start: int, i: int) -> Seq<Seq<char>>
    decreases p.len() - i,
{
    if i >= p.len() || i < start || start < 0 {
        if start >= 0 && start < p.len() { seq![p.subrange(start, p.len() as int)] } else { Seq::empty() }
    } else if p[i] == '/' {
        (if i > start { seq![p.subrange(start, i)] } else { Seq::empty() }) + parts_from(p, i + 1, i + 1)
    } else {
        parts_from(p, start, i + 1)
    }
}

/// Splits a path into its non-empty components.
pub fn split_path(path: &str) -> (r: Vec<String>)
    ensures
        r@.map_values(|s: String| s@) == path_parts(path@),
{
    let n = path.unicode_len();
    let mut parts: Vec<String> = Vec::new();
    let mut start: usize = 0;
    let mut i: usize = 0;
    while i < n
        invariant
            start <= i <= n,
            n == path@.len(),
            parts@.map_values(|s: String| s@) + parts_from(path@, start as int, i as int) == path_parts(path@),
        decreases n - i,
    {
        if path.get_char(i) == '/' {
            let ghost before = parts@;
            if i > start {
                parts.push(String::from_str(path.substring_char(start, i)));
            }
            assert(parts@.map_values(|s: String| s@) + parts_from(path@, (i + 1) as int, (i + 1) as int)
                =~= before.map_values(|s: String| s@) + parts_from(path@, start as int, i as int));
            start = i + 1;
        }
        i = i + 1;
    }
    let ghost before = parts@;
    if start < n {
        parts.push(String::from_str(path.substring_char(start, n)));
    }
    assert(parts@.map_values(|s: String| s@) =~= before.map_values(|s: String| s@) + parts_from(path@, start as int, n as int));
    parts
}

/// The name `stat` reports for a path: its last component, or `/`.
pub open spec fn stat_name(p: Seq<char>) -> Seq<char> {
    let parts = path_parts(p);
    if parts.len() > 0 { parts.last() } else { "/"@ }
}

pub fn stat_name_of(path: &str) -> (r: String)
    ensures
        r@ == stat_name(path@),
{
    let parts = split_path(path);
    let ghost v = parts@.map_values(|s: String| s@);
    if parts.len() > 0 {
        let last = parts.len() - 1;
        assert(v[last as int] == parts@[last as int]@);
        parts[last].clone()
    } else {
        String::from_str("/")
    }
}

/// The listing of a directory's records: `.` and `..` left out,
/// directories with mode 0755, files with 0644.
pub open spec fn listing(entries: Seq<(Seq<char>, bool)>) -> Seq<(Seq<char>, FileType, u16)>
    decreases entries.len(),
{
    if entries.len() == 0 {
        Seq::empty()
    } else {
        let e = entries.last();
        listing(entries.drop_last()) + (if e.0 == "."@ || e.0 == ".."@ {
            Seq::empty()
        } else if e.1 {
            seq![(e.0, FileType::Directory, 0o755u16)]
        } else {
            seq![(e.0, FileType::File, 0o644u16)]
        })
    }
}

pub open spec fn dir_entry_view(e: DirEntry) -> (Seq<char>, FileType, u16) {
    (e.name@, e.file_type, e.permissions.mode)
}

/// Turns directory records into listing entries (size 0, owned by root).
pub fn list_entries(entries: &Vec<(String, bool)>) -> (r: Vec<DirEntry>)
    ensures
        r@.map_values(|e: DirEntry| dir_entry_view(e)) == listing(entries_view(entries@)),
        forall|i: int| 0 <= i < r@.len() ==> (#[trigger] r@[i]).size == 0 && r@[i].uid == 0 && r@[i].gid == 0,
{
    let mut out: Vec<DirEntry> = Vec::new();
    let mut i: usize = 0;
    while i < entries.len()
        invariant
            i <= entries@.len(),
            out@.map_values(|e: DirEntry| dir_entry_view(e)) == listing(entries_view(entries@.take(i as int))),
            forall|k: int| 0 <= k < out@.len() ==> (#[trigger] out@[k]).size == 0 && out@[k].uid == 0 && out@[k].gid == 0,
        decreases entries.len() - i,
    {
        let name = &entries[i].0;
        let is_dir = entries[i].1;
        let ghost before = out@;
        proof {
            assert(entries_view(entries@.take(i + 1)).drop_last() =~= entries_view(entries@.take(i as int)));
            assert(entries_view(entries@.take(i + 1)).last() == (entries@[i as int].0@, entries@[i as int].1));
        }
        if !(str_eq(name.as_str(), ".") || str_eq(name.as_str(), "..")) {
            let file_type = if is_dir { FileType::Directory } else { FileType::File };
            let perms: u16 = if is_dir { 0o755 } else { 0o644 };
            out.push(DirEntry {
                name: name.clone(),
                file_type,
                size: 0,
                permissions: Permissions::new(perms),
                uid: 0,
                gid: 0,
            });
        }
        assert(out@.map_values(|e: DirEntry| dir_entry_view(e)) =~= listing(entries_view(entries@.take(i + 1))));
        i = i + 1;
    }
    assert(entries@.take(entries@.len() as int) =~= entries@);
    out
}

/// An open ext2 file: its contents and the read position.
pub struct Ext2File {
    pub data: Vec<u8>,
    pub position: u64,
}

impl Ext2File {
    pub open spec fn wf(&self) -> bool {
        &&& self.position <= i64::MAX
        &&& self.data@.len() <= i64::MAX
    }

    pub fn new(data: Vec<u8>) -> (f: Ext2File)
        requires
            data@.len() <= i64::MAX,
        ensures
            f.wf(),
            f.data@ == data@,
            f.position == 0,
    {
        Ext2File { data, position: 0 }
    }

    /// Reads from the current position into `buf`, as many bytes as fit and
    /// remain, and advances the position; 0 at or past the end.
    pub fn read(&mut self, buf: &mut [u8]) -> (r: Result<usize, FsError>)
        requires
            old(self).wf(),
        ensures
            final(self).wf(),
            final(self).data@ == old(self).data@,
            final(buf)@.len() == old(buf)@.len(),
            ({
                let pos = old(self).position as int;
                let len = old(self).data@.len() as int;
                let n = if pos >= len { 0 } else if old(buf)@.len() < len - pos { old(buf)@.len() as int } else { len - pos };
                &&& r == Ok::<usize, FsError>(n as usize)
                &&& final(self).position == pos + n
                &&& forall|i: int| 0 <= i < n ==> final(buf)@[i] == old(self).data@[pos + i]
                &&& forall|i: int| n <= i < old(buf)@.len() ==> final(buf)@[i] == old(buf)@[i]
            }),
    {
        let len = self.data.len();
        if self.position >= len as u64 {
            return Ok(0);
        }
        let pos = self.position as usize;
        assert(pos == self.position);
        let avail = len - pos;
        let to_read = if buf.len() < avail { buf.len() } else { avail };
        let mut i: usize = 0;
        while i < to_read
            invariant
                i <= to_read,
                to_read <= buf@.len(),
                pos + to_read <= self.data@.len(),
                self.data@.len() <= usize::MAX,
                buf@.len() == old(buf)@.len(),
                forall|k: int| 0 <= k < i ==> buf@[k] == self.data@[pos + k],
                forall|k: int| i <= k < buf@.len() ==> buf@[k] == old(buf)@[k],
            decreases to_read - i,
        {
            buf[i] = self.data[pos + i];
            i = i + 1;
        }
        self.position = self.position + to_read as u64;
        Ok(to_read)
    }

    /// ext2 files are read only.
    pub fn write(&mut self, buf: &[u8]) -> (r: Result<usize, FsError>)
        ensures
            r == Err::<usize, FsError>(FsError::ReadOnly),
            *final(self) == *old(self),
    {
        Err(FsError::ReadOnly)
    }

    /// Moves the position; a target before the start is refused.
    pub fn seek(&mut self, pos: SeekFrom) -> (r: Result<u64, FsError>)
        requires
            old(self).wf(),
            pos matches SeekFrom::Current(o) ==> i64::MIN <= old(self).position + o <= i64::MAX,
            pos matches SeekFrom::End(o) ==> i64::MIN <= old(self).data@.len() + o <= i64::MAX,
        ensures
            final(self).wf(),
            final(self).data@ == old(self).data@,
            ({
                let target: int = match pos {
                    SeekFrom::Start(o) => if o <= i64::MAX { o as int } else { o - 0x1_0000_0000_0000_0000 },
                    SeekFrom::Current(o) => old(self).position + o,
                    SeekFrom::End(o) => old(self).data@.len() + o,
                };
                if target < 0 {
                    r == Err::<u64, FsError>(FsError::InvalidPath) && final(self).position == old(self).position
                } else {
                    r == Ok::<u64, FsError>(target as u64) && final(self).position == target
                }
            }),
    {
        let target: i64 = match pos {
            SeekFrom::Start(o) => {
                if o <= i64::MAX as u64 {
                    o as i64
                } else {
                    (o - 0x8000_0000_0000_0000) as i64 - 0x4000_0000_0000_0000 - 0x4000_0000_0000_0000
                }
            }
            SeekFrom::Current(o) => self.position as i64 + o,
            SeekFrom::End(o) => self.data.len() as i64 + o,
        };
        if target < 0 {
            return Err(FsError::InvalidPath);
        }
        self.position = target as u64;
        Ok(self.position)
    }

    pub fn position(&self) -> (r: u64)
        ensures
            r == self.position,
    {
        self.position
    }

    pub fn size(&self) -> (r: usize)
        ensures
            r == self.data@.len(),
    {
        self.data.len()
    }
}

impl Ext2Fs {
    /// Opens the file whose inode is `inode`: a directory cannot be opened;
    /// otherwise the file holds `size` bytes taken from `block`, its first
    /// data block as read from the disk (not read, and not used, when the
    /// file is empty or has no first block).
    pub fn open_inode(&self, inode: &[u8], block: &[u8]) -> (r: Result<Ext2File, FsError>)
        requires
            inode@.len() >= INODE_SIZE,
        ensures
            inode_dir_spec(inode@) ==> r == Err::<Ext2File, FsError>(FsError::IsADirectory),
            !inode_dir_spec(inode@) ==> (r matches Ok(f) && f.wf() && f.position == 0
                && f.data@.len() == le32(inode@, 4)
                && forall|i: int| 0 <= i < f.data@.len() ==> #[trigger] f.data@[i] == (
                    if le32(inode@, 40) != 0 && i < block@.len() && i < self.block_size { block@[i] } else { 0u8 })),
    {
        if inode_is_dir(inode) {
            return Err(FsError::IsADirectory);
        }
        let size = inode_size(inode) as usize;
        let first = inode_first_block(inode);
        let empty: Vec<u8> = Vec::new();
        let src: &[u8] = if size > 0 && first != 0 { block } else { empty.as_slice() };
        let data = self.file_contents(src, size);
        Ok(Ext2File::new(data))
    }

    /// Lists the directory whose inode is `inode` and whose contents are
    /// `data`: not a directory otherwise.
    pub fn readdir_inode(&self, inode: &[u8], data: &[u8]) -> (r: Result<Vec<DirEntry>, FsError>)
        requires
            inode@.len() >= INODE_SIZE,
            dir_bounds(data@, 0),
        ensures
            !inode_dir_spec(inode@) ==> (r matches Err(e) && e == FsError::NotADirectory),
            inode_dir_spec(inode@) ==> (r matches Ok(v)
                && v@.map_values(|e: DirEntry| dir_entry_view(e)) == listing(dir_entries(data@, 0))),
    {
        if !inode_is_dir(inode) {
            return Err(FsError::NotADirectory);
        }
        let entries = parse_dir_entries(data);
        Ok(list_entries(&entries))
    }

    /// What `stat` reports for `path` whose inode is `inode`.
    pub fn stat_inode(&self, path: &str, inode: &[u8]) -> (m: FileMetadata)
        requires
            inode@.len() >= INODE_SIZE,
        ensures
            m.name@ == stat_name(path@),
            m.file_type == (if inode_dir_spec(inode@) { FileType::Directory } else { FileType::File }),
            m.permissions.mode == (if inode_dir_spec(inode@) { 0o755u16 } else { 0o644u16 }),
            m.size == le32(inode@, 4),
            m.uid == 0 && m.gid == 0 && m.created == 0 && m.modified == 0,
    {
        let dir = inode_is_dir(inode);
        FileMetadata {
            name: stat_name_of(path),
            file_type: if dir { FileType::Directory } else { FileType::File },
            size: inode_size(inode) as u64,
            permissions: Permissions::new(if dir { 0o755 } else { 0o644 }),
            uid: 0,
            gid: 0,
            created: 0,
            modified: 0,
        }
    }
}

impl Ext2Fs {
    /// The volume is read only.
    pub fn create(&mut self, path: &str) -> (r: Result<Ext2File, FsError>)
        ensures
            r == Err::<Ext2File, FsError>(FsError::ReadOnly),
    {
        Err(FsError::ReadOnly)
    }

    pub fn remove(&mut self, path: &str) -> (r: Result<(), FsError>)
        ensures
            r == Err::<(), FsError>(FsError::ReadOnly),
    {
        Err(FsError::ReadOnly)
    }

    pub fn mkdir(&mut self, path: &str) -> (r: Result<(), FsError>)
        ensures
            r == Err::<(), FsError>(FsError::ReadOnly),
    {
        Err(FsError::ReadOnly)
    }

    pub fn rmdir(&mut self, path: &str) -> (r: Result<(), FsError>)
        ensures
            r == Err::<(), FsError>(FsError::ReadOnly),
    {
        Err(FsError::ReadOnly)
    }
}

impl FileSystem for Ext2Fs {
    open spec fn spec_name(&self) -> Seq<char> {
        "ext2"@
    }

    fn name(&self) -> (r: &str) {
        "ext2"
    }
}

/// Whether an inode's mode marks a directory.
pub open spec fn inode_dir_spec(inode: Seq<u8>) -> bool {
    (le16(inode, 0) as u16 & 0x4000u16) != 0
}

} // verus!
