use jamos::filesystem::metadata::{FileType, Inode, Metadata};
use jamos::filesystem::vfs::{FileEntry, FsError, VirtualFileSystem, DATA_BLOCK_SIZE, MAX_FILES, MAX_INODES};

fn booted() -> VirtualFileSystem {
    let mut fs = VirtualFileSystem::empty();
    fs.init();
    fs
}

#[test]
fn boot_create_write_read_delete_scenario() {
    let mut fs = booted();
    assert_eq!(fs.create_file("a"), Ok(1));
    assert_eq!(fs.write_file(1, b"hello"), Ok(5));
    let mut buf = [0u8; 16];
    assert_eq!(fs.read_file(1, &mut buf), Ok(5));
    assert_eq!(&buf[0..5], b"hello");
    assert_eq!(fs.delete_file("a"), Ok(()));
    assert_eq!(fs.get_file_metadata("a"), None);
}

#[test]
fn second_create_of_a_name_already_exists() {
    let mut fs = booted();
    assert_eq!(fs.create_file("notes"), Ok(1));
    assert_eq!(fs.create_file("notes"), Err(FsError::AlreadyExists));
    assert_eq!(fs.create_file("notes"), Err(FsError::AlreadyExists));
}

#[test]
fn names_stay_unique_in_listing() {
    let mut fs = booted();
    assert_eq!(fs.create_file("x"), Ok(1));
    assert_eq!(fs.create_file("y"), Ok(2));
    assert_eq!(fs.create_file("x"), Err(FsError::AlreadyExists));
    assert_eq!(fs.list_files(), vec![b"x".to_vec(), b"y".to_vec()]);
}

#[test]
fn write_is_cut_to_block_size_and_reads_back() {
    let mut fs = booted();
    let id = fs.create_file("big").unwrap();
    let data: Vec<u8> = (0..600u32).map(|i| (i % 251) as u8).collect();
    assert_eq!(fs.write_file(id, &data), Ok(DATA_BLOCK_SIZE));
    let mut buf = vec![0xEEu8; 1024];
    assert_eq!(fs.read_file(id, &mut buf), Ok(DATA_BLOCK_SIZE));
    assert_eq!(&buf[..DATA_BLOCK_SIZE], &data[..DATA_BLOCK_SIZE]);
    assert!(buf[DATA_BLOCK_SIZE..].iter().all(|&b| b == 0xEE));
    assert_eq!(fs.get_file_metadata("big").unwrap().size, DATA_BLOCK_SIZE);
}

#[test]
fn read_stops_at_buffer_end() {
    let mut fs = booted();
    let id = fs.create_file("f").unwrap();
    fs.write_file(id, b"abcdef").unwrap();
    let mut buf = [0u8; 3];
    assert_eq!(fs.read_file(id, &mut buf), Ok(3));
    assert_eq!(&buf, b"abc");
}

#[test]
fn rewrite_replaces_whole_contents() {
    let mut fs = booted();
    let id = fs.create_file("f").unwrap();
    fs.write_file(id, b"a long first text").unwrap();
    assert_eq!(fs.write_file(id, b"short"), Ok(5));
    let mut buf = [0u8; 64];
    assert_eq!(fs.read_file(id, &mut buf), Ok(5));
    assert_eq!(&buf[..5], b"short");
}

#[test]
fn deleted_file_has_no_metadata_and_its_block_leaks_nothing() {
    let mut fs = booted();
    let a = fs.create_file("old").unwrap();
    fs.write_file(a, &[b'Z'; 100]).unwrap();
    assert_eq!(fs.delete_file("old"), Ok(()));
    assert_eq!(fs.get_file_metadata("old"), None);
    assert_eq!(fs.find_inode_by_name("old"), None);
    let b = fs.create_file("new").unwrap();
    assert_ne!(a, b);
    let mut buf = [0u8; 128];
    assert_eq!(fs.read_file(b, &mut buf), Ok(0));
    assert_eq!(fs.write_file(b, b"hi"), Ok(2));
    assert_eq!(fs.read_file(b, &mut buf), Ok(2));
    assert_eq!(&buf[..2], b"hi");
    assert_eq!(fs.get_file_metadata("new").unwrap().size, 2);
}

#[test]
fn deleted_inode_id_is_invalid() {
    let mut fs = booted();
    let id = fs.create_file("gone").unwrap();
    fs.delete_file("gone").unwrap();
    let mut buf = [0u8; 4];
    assert_eq!(fs.read_file(id, &mut buf), Err(FsError::InvalidInode));
    assert_eq!(fs.write_file(id, b"x"), Err(FsError::InvalidInode));
    assert_eq!(fs.delete_file("gone"), Err(FsError::NotFound));
}

#[test]
fn two_live_files_keep_separate_contents() {
    let mut fs = booted();
    let a = fs.create_file("a").unwrap();
    let b = fs.create_file("b").unwrap();
    fs.write_file(a, b"first").unwrap();
    fs.write_file(b, b"second").unwrap();
    let mut buf = [0u8; 16];
    assert_eq!(fs.read_file(a, &mut buf), Ok(5));
    assert_eq!(&buf[..5], b"first");
    assert_eq!(fs.read_file(b, &mut buf), Ok(6));
    assert_eq!(&buf[..6], b"second");
}

#[test]
fn directory_fills_up() {
    let mut fs = booted();
    for i in 0..MAX_FILES {
        assert_eq!(fs.create_file(&format!("f{}", i)), Ok(i + 1));
    }
    assert_eq!(fs.create_file("one_more"), Err(FsError::NoDirectorySlot));
    assert_eq!(fs.get_file_metadata("one_more"), None);
    assert_eq!(fs.list_files().len(), MAX_FILES);
    // the rejected call spent an id: the next file after a delete gets a later one
    fs.delete_file("f0").unwrap();
    assert_eq!(fs.create_file("again"), Ok(MAX_FILES + 2));
}

#[test]
fn inode_ids_run_out() {
    let mut fs = booted();
    for i in 1..MAX_INODES {
        let name = format!("t{}", i);
        assert_eq!(fs.create_file(&name), Ok(i));
        fs.delete_file(&name).unwrap();
    }
    assert_eq!(fs.create_file("keep"), Err(FsError::NoInodeSlot));
    assert!(fs.list_files().is_empty());
    assert_eq!(fs.create_file("keep"), Err(FsError::NoInodeSlot));
}

#[test]
fn inode_exhaustion_leaves_existing_files_intact() {
    let mut fs = booted();
    let kept = fs.create_file("kept").unwrap();
    fs.write_file(kept, b"data").unwrap();
    for i in 2..MAX_INODES {
        let name = format!("t{}", i);
        assert_eq!(fs.create_file(&name), Ok(i));
        fs.delete_file(&name).unwrap();
    }
    assert_eq!(fs.create_file("late"), Err(FsError::NoInodeSlot));
    assert_eq!(fs.list_files(), vec![b"kept".to_vec()]);
    let mut buf = [0u8; 8];
    assert_eq!(fs.read_file(kept, &mut buf), Ok(4));
    assert_eq!(&buf[..4], b"data");
}

#[test]
fn timestamps_order_and_advance() {
    let mut fs = booted();
    let id = fs.create_file("t").unwrap();
    let m0 = fs.get_file_metadata("t").unwrap();
    assert_eq!(m0.created_at, m0.modified_at);
    fs.write_file(id, b"1").unwrap();
    let m1 = fs.get_file_metadata("t").unwrap();
    assert!(m1.modified_at > m0.modified_at);
    assert_eq!(m1.created_at, m0.created_at);
    fs.write_file(id, b"2").unwrap();
    let m2 = fs.get_file_metadata("t").unwrap();
    assert!(m2.modified_at > m1.modified_at);
    assert!(m2.created_at <= m2.modified_at);
}

#[test]
fn clock_ticks_once_per_stamp() {
    let mut fs = VirtualFileSystem::empty();
    assert_eq!(fs.timestamp(), 0);
    fs.init();
    assert_eq!(fs.timestamp(), 1);
    let id = fs.create_file("c").unwrap();
    assert_eq!(fs.get_file_metadata("c").unwrap().created_at, 2);
    fs.write_file(id, b"x").unwrap();
    assert_eq!(fs.get_file_metadata("c").unwrap().modified_at, 3);
    assert_eq!(fs.timestamp(), 3);
}

#[test]
fn long_names_are_refused() {
    let mut fs = booted();
    let ok = "n".repeat(32);
    let long = "n".repeat(33);
    assert_eq!(fs.create_file(&long), Err(FsError::NameTooLong));
    assert_eq!(fs.get_file_metadata(&long), None);
    assert_eq!(fs.create_file(&ok), Ok(2));
}

#[test]
fn root_and_unknown_inodes_are_refused() {
    let mut fs = booted();
    let mut buf = [0u8; 4];
    assert_eq!(fs.write_file(0, b"x"), Err(FsError::NotRegularFile));
    assert_eq!(fs.read_file(0, &mut buf), Err(FsError::NotRegularFile));
    assert_eq!(fs.write_file(5, b"x"), Err(FsError::InvalidInode));
    assert_eq!(fs.read_file(MAX_INODES, &mut buf), Err(FsError::InvalidInode));
    assert_eq!(fs.write_file(usize::MAX, b"x"), Err(FsError::InvalidInode));
}

#[test]
fn fresh_file_reads_empty() {
    let mut fs = booted();
    let id = fs.create_file("empty").unwrap();
    let mut buf = [7u8; 4];
    assert_eq!(fs.read_file(id, &mut buf), Ok(0));
    assert_eq!(buf, [7u8; 4]);
}

#[test]
fn empty_write_keeps_file_empty() {
    let mut fs = booted();
    let id = fs.create_file("e").unwrap();
    assert_eq!(fs.write_file(id, b""), Ok(0));
    let mut buf = [1u8; 2];
    assert_eq!(fs.read_file(id, &mut buf), Ok(0));
}

#[test]
fn freed_directory_slot_is_reused_first() {
    let mut fs = booted();
    fs.create_file("a").unwrap();
    fs.create_file("b").unwrap();
    fs.create_file("c").unwrap();
    fs.delete_file("b").unwrap();
    fs.create_file("d").unwrap();
    assert_eq!(fs.list_files(), vec![b"a".to_vec(), b"d".to_vec(), b"c".to_vec()]);
}

#[test]
fn lookup_by_name() {
    let mut fs = booted();
    fs.create_file("one").unwrap();
    fs.create_file("two").unwrap();
    assert_eq!(fs.find_inode_by_name("two"), Some(2));
    assert_eq!(fs.find_inode_by_name("three"), None);
    assert_eq!(fs.find_inode_by_name("tw"), None);
}

#[test]
fn new_file_metadata_defaults() {
    let mut fs = booted();
    fs.create_file("m").unwrap();
    let m = fs.get_file_metadata("m").unwrap();
    assert_eq!(m.size, 0);
    assert_eq!(m.file_type, FileType::Regular);
    assert_eq!(m.permissions, 0o644);
    assert_eq!(m.owner_id, 0);
    assert_eq!(m.group_id, 0);
    let d = Metadata::new(FileType::Directory);
    assert_eq!(d.file_type, FileType::Directory);
    assert_eq!(d.created_at, 0);
}

#[test]
fn empty_listing_after_boot() {
    let fs = booted();
    assert!(fs.list_files().is_empty());
}

#[test]
fn error_texts() {
    assert_eq!(FsError::AlreadyExists.as_str(), "File already exists");
    assert_eq!(FsError::NotFound.as_str(), "File not found");
    assert_eq!(FsError::InvalidInode.as_str(), "Invalid inode");
    assert_eq!(FsError::NotRegularFile.as_str(), "Not a regular file");
    assert_eq!(FsError::NoInodeSlot.as_str(), "No more inodes available");
    assert_eq!(FsError::NoDirectorySlot.as_str(), "No more file entries available");
    assert_eq!(FsError::NoBlockAvailable.as_str(), "No data blocks available");
    assert_eq!(FsError::NameTooLong.as_str(), "File name too long");
}

#[test]
fn file_entry_matching() {
    let e = FileEntry::new("report", 3);
    assert!(e.matches("report"));
    assert!(!e.matches("repor"));
    assert!(!e.matches("reports"));
    assert_eq!(e.inode_id, 3);
    let cut = FileEntry::new(&"q".repeat(40), 4);
    assert_eq!(cut.name_len, 32);
    assert!(!FileEntry::empty().matches(""));
}

#[test]
fn inode_constructors() {
    let i = Inode::new(7, FileType::Regular, 0);
    assert!(i.is_valid);
    assert_eq!(i.id, 7);
    assert_eq!(i.data_block, None);
    assert!(!Inode::empty().is_valid);
}

#[test]
fn empty_tables_before_boot() {
    let mut fs = VirtualFileSystem::empty();
    assert_eq!(fs.timestamp(), 0);
    assert!(fs.list_files().is_empty());
    assert_eq!(fs.find_inode_by_name("a"), None);
    assert_eq!(fs.get_file_metadata("a"), None);
    let mut buf = [0u8; 4];
    assert_eq!(fs.read_file(0, &mut buf), Err(FsError::InvalidInode));
    assert_eq!(fs.read_file(1, &mut buf), Err(FsError::InvalidInode));
    assert_eq!(fs.create_file("a"), Ok(1));
    assert_eq!(fs.write_file(1, b"x"), Ok(1));
    assert_eq!(fs.read_file(1, &mut buf), Ok(1));
}

#[test]
fn new_entry_pads_name_with_zeros() {
    let e = FileEntry::new("ab", 1);
    assert_eq!(&e.name[..2], b"ab");
    assert!(e.name[2..].iter().all(|&b| b == 0));
    assert_eq!(FileEntry::empty().name, [0u8; 32]);
}
