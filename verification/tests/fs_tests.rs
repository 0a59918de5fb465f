use kernel::fs::{FsError, FileType, SeekFrom};
use kernel::fs::mount::{normalize_path, MountTable};
use kernel::fs::devtmpfs::{DevTmpFs, DevFile};
use kernel::fs::disk_manager::DiskManager;
use kernel::fs::ext2::{Ext2Superblock, Ext2Fs, Ext2File, parse_dir_entries, find_in_dir, find_in_dir_checked, split_path, stat_name_of, list_entries, inode_first_block, inode_size, inode_is_dir};

#[test]
fn normalize_examples() {
    assert_eq!(normalize_path("/a/./b/../c"), "/a/c");
    assert_eq!(normalize_path("//usr///bin/"), "/usr/bin");
    assert_eq!(normalize_path("/.."), "/");
    assert_eq!(normalize_path(""), "/");
    assert_eq!(normalize_path("x/y"), "/x/y");
}

#[test]
fn normalize_is_idempotent_on_examples() {
    for p in ["/a/./b/../c", "a//b/", "/../..", "/x/y/z/..", "."] {
        let once = normalize_path(p);
        assert_eq!(normalize_path(&once), once);
    }
}

#[test]
fn mount_find_unmount() {
    let mut t: MountTable<DevTmpFs> = MountTable::new();
    assert_eq!(t.mount("/dev/", DevTmpFs::new(), false), Ok(()));
    assert_eq!(t.mount("/dev", DevTmpFs::new(), true), Err(FsError::AlreadyExists));
    assert!(t.is_mounted("/dev"));
    assert_eq!(t.count(), 1);
    let (idx, rel) = t.find_fs("/dev/null").unwrap();
    assert_eq!(idx, 0);
    assert_eq!(rel, "/null");
    assert_eq!(t.list(), vec!["/dev -> devtmpfs (readonly: false)".to_string()]);
    assert_eq!(t.unmount("/dev"), Ok(()));
    assert!(!t.is_mounted("/dev"));
    assert_eq!(t.unmount("/dev"), Err(FsError::NotFound));
    assert_eq!(t.count(), 0);
}

#[test]
fn find_fs_prefers_longest_prefix() {
    let mut t: MountTable<DevTmpFs> = MountTable::new();
    t.mount("/", DevTmpFs::new(), false).unwrap();
    t.mount("/mnt", DevTmpFs::new(), false).unwrap();
    assert_eq!(t.find_fs("/mnt/disk").unwrap().0, 1);
    assert_eq!(t.find_fs("/etc").unwrap().0, 0);
}

#[test]
fn devtmpfs_nodes() {
    let mut fs = DevTmpFs::new();
    assert_eq!(fs.open("/null"), Ok(DevFile::Null));
    assert_eq!(fs.open("/urandom"), Ok(DevFile::Random));
    assert_eq!(fs.open("/nope"), Err(FsError::NotFound));
    assert_eq!(fs.create("/x"), Err(FsError::ReadOnly));
    assert_eq!(fs.mkdir("/x"), Err(FsError::ReadOnly));
    assert!(fs.node_exists("///zero"));
    assert!(!fs.node_exists("/zeros"));
    let root = fs.readdir("/").unwrap();
    let names: Vec<&str> = root.iter().map(|e| e.name.as_str()).collect();
    assert_eq!(names, vec!["null", "zero", "random", "urandom"]);
    assert!(root.iter().all(|e| e.file_type == FileType::Device && e.permissions.mode == 0o666));
    assert!(fs.readdir("/sub").unwrap().is_empty());
    assert!(fs.mount().is_ok());
    assert!(fs.mounted);
}

#[test]
fn device_reads() {
    let mut buf = [7u8; 4];
    assert_eq!(DevFile::Null.read(&mut buf), Ok(0));
    assert_eq!(buf, [7; 4]);
    assert_eq!(DevFile::Zero.read(&mut buf), Ok(4));
    assert_eq!(buf, [0; 4]);
    assert_eq!(DevFile::Random.read(&mut buf), Ok(4));
    assert_eq!(buf, [0x55, 0x9E ^ 0x55, 0x3C ^ 0x55, 0xDA ^ 0x55]);
    assert_eq!(DevFile::Zero.write(&[1, 2, 3]), Ok(3));
}

#[test]
fn disk_manager_indexes() {
    let mut m: DiskManager<u32> = DiskManager::new();
    m.add_disk(10);
    m.add_disk(20);
    assert_eq!(m.count(), 2);
    *m.get_disk(1).unwrap() = 21;
    assert_eq!(m.get_disk(1).copied(), Some(21));
    assert!(m.get_disk(2).is_none());
}

fn superblock_bytes(log_block_size: u32) -> Vec<u8> {
    let mut d = vec![0u8; 1082];
    d[0..4].copy_from_slice(&100u32.to_le_bytes());
    d[4..8].copy_from_slice(&400u32.to_le_bytes());
    d[20..24].copy_from_slice(&1u32.to_le_bytes());
    d[24..28].copy_from_slice(&log_block_size.to_le_bytes());
    d[32..36].copy_from_slice(&8192u32.to_le_bytes());
    d[40..44].copy_from_slice(&64u32.to_le_bytes());
    d[1080] = 0x53;
    d[1081] = 0xEF;
    d
}

#[test]
fn ext2_superblock_parse() {
    let d = superblock_bytes(0);
    let sb = Ext2Superblock::parse(&d).unwrap();
    assert_eq!(sb.inodes_count, 100);
    assert_eq!(sb.blocks_count, 400);
    assert_eq!(sb.first_data_block, 1);
    assert_eq!(sb.inodes_per_group, 64);
    assert_eq!(sb.magic, 0xEF53);
    assert!(matches!(Ext2Superblock::parse(&d[..100]), Err(FsError::IoError)));
    let mut bad = d.clone();
    bad[1080] = 0;
    assert!(matches!(Ext2Superblock::parse(&bad), Err(FsError::InvalidPath)));
    // the magic is looked for at byte 1080 of the buffer, not at offset 56
    bad[56] = 0x53;
    bad[57] = 0xEF;
    assert!(matches!(Ext2Superblock::parse(&bad), Err(FsError::InvalidPath)));
}

#[test]
fn ext2_volume_geometry() {
    let fs = Ext2Fs::new(&superblock_bytes(2)).unwrap();
    assert_eq!(fs.block_size, 4096);
    assert_eq!(fs.block_sector(3), 24);
    // inode 70: group 1, index 5 -> table block 1 + 1 + 8192/32, slot 5
    assert_eq!(fs.inode_location(70), (258, 5 * 128));
    let fs1 = Ext2Fs::new(&superblock_bytes(0)).unwrap();
    assert_eq!(fs1.block_size, 1024);
    // 8 inodes per 1 KiB block
    assert_eq!(fs1.inode_location(12), (2, 3 * 128));
}

#[test]
fn ext2_inode_fields() {
    let mut inode = vec![0u8; 128];
    inode[0..2].copy_from_slice(&0x41EDu16.to_le_bytes());
    inode[4..8].copy_from_slice(&1234u32.to_le_bytes());
    inode[40..44].copy_from_slice(&77u32.to_le_bytes());
    assert!(inode_is_dir(&inode));
    assert_eq!(inode_size(&inode), 1234);
    assert_eq!(inode_first_block(&inode), 77);
    inode[1] = 0x81;
    assert!(!inode_is_dir(&inode));
}

fn dir_record(inode: u32, rec_len: u16, name: &str, ft: u8) -> Vec<u8> {
    let mut r = Vec::new();
    r.extend_from_slice(&inode.to_le_bytes());
    r.extend_from_slice(&rec_len.to_le_bytes());
    r.push(name.len() as u8);
    r.push(ft);
    r.extend_from_slice(name.as_bytes());
    while r.len() < rec_len as usize {
        r.push(0);
    }
    r
}

#[test]
fn ext2_directory_records() {
    let mut d = Vec::new();
    d.extend(dir_record(2, 12, ".", 2));
    d.extend(dir_record(2, 12, "..", 2));
    d.extend(dir_record(11, 16, "Docs", 2));
    d.extend(dir_record(12, 16, "a.txt", 1));
    d.extend(vec![0u8; 8]);
    let entries = parse_dir_entries(&d);
    let names: Vec<(&str, bool)> = entries.iter().map(|(n, b)| (n.as_str(), *b)).collect();
    assert_eq!(names, vec![(".", true), ("..", true), ("Docs", true), ("a.txt", false)]);
    assert_eq!(find_in_dir(&entries, &d, d.len(), "docs"), Ok(11));
    assert_eq!(find_in_dir(&entries, &d, d.len(), "A.TXT"), Ok(12));
    assert_eq!(find_in_dir(&entries, &d, d.len(), "missing"), Err(FsError::NotFound));
    let listed = list_entries(&entries);
    assert_eq!(listed.len(), 2);
    assert_eq!(listed[0].name, "Docs");
    assert_eq!(listed[0].file_type, FileType::Directory);
    assert_eq!(listed[0].permissions.mode, 0o755);
    assert_eq!(listed[1].file_type, FileType::File);
    assert_eq!(listed[1].permissions.mode, 0o644);
}

#[test]
fn ext2_paths() {
    assert_eq!(split_path("/usr//lib/x"), vec!["usr", "lib", "x"]);
    assert!(split_path("///").is_empty());
    assert_eq!(stat_name_of("/usr/lib/"), "lib");
    assert_eq!(stat_name_of("/"), "/");
}

#[test]
fn ext2_file_read_and_seek() {
    let fs = Ext2Fs::new(&superblock_bytes(0)).unwrap();
    let data = fs.file_contents(&[1, 2, 3, 4, 5], 8);
    assert_eq!(data, vec![1, 2, 3, 4, 5, 0, 0, 0]);
    let mut f = Ext2File::new(b"hello world".to_vec());
    let mut buf = [0u8; 5];
    assert_eq!(f.read(&mut buf), Ok(5));
    assert_eq!(&buf, b"hello");
    assert_eq!(f.position(), 5);
    assert_eq!(f.seek(SeekFrom::End(-5)), Ok(6));
    let mut rest = [0u8; 10];
    assert_eq!(f.read(&mut rest), Ok(5));
    assert_eq!(&rest[..5], b"world");
    assert_eq!(f.read(&mut rest), Ok(0));
    assert_eq!(f.seek(SeekFrom::Current(-20)), Err(FsError::InvalidPath));
    assert_eq!(f.position(), 11);
    assert_eq!(f.seek(SeekFrom::Start(u64::MAX)), Err(FsError::InvalidPath));
    assert_eq!(f.seek(SeekFrom::Start(2)), Ok(2));
    assert_eq!(f.write(b"x"), Err(FsError::ReadOnly));
    assert_eq!(f.size(), 11);
}

#[test]
fn ext2_open_and_list_by_inode() {
    let fs = Ext2Fs::new(&superblock_bytes(0)).unwrap();
    let mut file_inode = vec![0u8; 128];
    file_inode[0..2].copy_from_slice(&0x81A4u16.to_le_bytes());
    file_inode[4..8].copy_from_slice(&3u32.to_le_bytes());
    file_inode[40..44].copy_from_slice(&9u32.to_le_bytes());
    let mut f = fs.open_inode(&file_inode, b"abcdef").unwrap();
    assert_eq!(f.size(), 3);
    let mut buf = [0u8; 8];
    assert_eq!(f.read(&mut buf), Ok(3));
    assert_eq!(&buf[..3], b"abc");
    assert!(matches!(fs.readdir_inode(&file_inode, &[]), Err(FsError::NotADirectory)));
    let st = fs.stat_inode("/docs/a.txt", &file_inode);
    assert_eq!(st.name, "a.txt");
    assert_eq!(st.file_type, FileType::File);
    assert_eq!(st.size, 3);

    let mut dir_inode = vec![0u8; 128];
    dir_inode[0..2].copy_from_slice(&0x41EDu16.to_le_bytes());
    assert!(matches!(fs.open_inode(&dir_inode, &[]), Err(FsError::IsADirectory)));
    let mut d = Vec::new();
    d.extend(dir_record(2, 12, ".", 2));
    d.extend(dir_record(13, 12, "b", 1));
    let listed = fs.readdir_inode(&dir_inode, &d).unwrap();
    assert_eq!(listed.len(), 1);
    assert_eq!(listed[0].name, "b");
    assert_eq!(fs.stat_inode("/", &dir_inode).permissions.mode, 0o755);
}

#[test]
fn ext2_lookup_refuses_endless_scan() {
    let mut d = Vec::new();
    d.extend(dir_record(5, 12, "a", 1));
    d[4] = 0;
    d[5] = 0;
    d.extend(dir_record(6, 12, "x", 1));
    let entries = vec![("x".to_string(), false)];
    assert_eq!(find_in_dir_checked(&entries, &d, d.len(), "x"), None);
    let mut ok = Vec::new();
    ok.extend(dir_record(5, 12, "a", 1));
    ok.extend(dir_record(6, 12, "x", 1));
    assert_eq!(find_in_dir_checked(&entries, &ok, ok.len(), "X"), Some(Ok(6)));
    assert_eq!(find_in_dir_checked(&vec![], &ok, ok.len(), "x"), Some(Err(FsError::NotFound)));
}

#[test]
fn find_fs_respects_component_boundaries() {
    let mut t: MountTable<DevTmpFs> = MountTable::new();
    t.mount("/mnt", DevTmpFs::new(), false).unwrap();
    assert_eq!(t.find_fs("/mnt/file"), Some((0, "/file".to_string())));
    assert_eq!(t.find_fs("/mnt"), Some((0, "".to_string())));
    assert_eq!(t.find_fs("/mntdata/file"), None);
    assert_eq!(t.find_fs("/etc"), None);
    t.mount("/", DevTmpFs::new(), false).unwrap();
    assert_eq!(t.find_fs("/mntdata/file"), Some((1, "mntdata/file".to_string())));
}
