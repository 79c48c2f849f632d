use ext4_lwext4::sys;
use ext4_lwext4::types::{FileExtent, FileType, FsStats, FsType, Metadata, OpenFlags, SeekFrom};

const ALL_TYPES: [FileType; 8] = [
    FileType::RegularFile,
    FileType::Directory,
    FileType::Symlink,
    FileType::BlockDevice,
    FileType::CharDevice,
    FileType::Fifo,
    FileType::Socket,
    FileType::Unknown,
];

#[test]
fn fs_type_raw_values() {
    assert_eq!(FsType::Ext2.to_raw(), 2);
    assert_eq!(FsType::Ext3.to_raw(), 3);
    assert_eq!(FsType::Ext4.to_raw(), 4);
    assert_eq!(FsType::default(), FsType::Ext4);
}

#[test]
fn file_type_raw_roundtrip() {
    for t in ALL_TYPES {
        assert_eq!(FileType::from_raw(t.to_raw()), t);
    }
    for raw in 0u8..=7 {
        assert_eq!(FileType::from_raw(raw).to_raw(), raw);
    }
    assert_eq!(FileType::from_raw(8), FileType::Unknown);
    assert_eq!(FileType::from_raw(255), FileType::Unknown);
    assert_eq!(FileType::Symlink.to_raw(), sys::EXT4_DE_SYMLINK);
    assert_eq!(FileType::from_raw(sys::EXT4_DE_CHRDEV), FileType::CharDevice);
}

#[test]
fn file_type_predicates() {
    assert!(FileType::RegularFile.is_file());
    assert!(!FileType::RegularFile.is_dir());
    assert!(FileType::Directory.is_dir());
    assert!(FileType::Symlink.is_symlink());
    assert!(!FileType::Fifo.is_file() && !FileType::Fifo.is_dir() && !FileType::Fifo.is_symlink());
}

#[test]
fn open_flags_to_raw() {
    assert_eq!(OpenFlags::READ().to_raw(), sys::O_RDONLY);
    assert_eq!(OpenFlags::WRITE().to_raw(), sys::O_WRONLY);
    assert_eq!((OpenFlags::READ() | OpenFlags::WRITE()).to_raw(), sys::O_RDWR);
    assert_eq!(OpenFlags::empty().to_raw(), sys::O_RDONLY);
    assert_eq!(
        (OpenFlags::CREATE() | OpenFlags::WRITE() | OpenFlags::TRUNCATE()).to_raw(),
        sys::O_WRONLY | sys::O_CREAT | sys::O_TRUNC
    );
    assert_eq!(OpenFlags::all().to_raw(), 0o2 | 0o100 | 0o1000 | 0o2000 | 0o200);
    assert_eq!((OpenFlags::APPEND() | OpenFlags::EXCLUSIVE()).to_raw(), 0o2000 | 0o200);
}

#[test]
fn open_flags_set_operations() {
    let f = OpenFlags::CREATE() | OpenFlags::WRITE();
    assert_eq!(f.bits(), 0b110);
    assert!(f.contains(OpenFlags::WRITE()));
    assert!(!f.contains(OpenFlags::READ()));
    assert!(f.intersects(OpenFlags::CREATE()));
    assert_eq!(f.union(OpenFlags::READ()).bits(), 0b111);
    assert_eq!(f.difference(OpenFlags::CREATE()), OpenFlags::WRITE());
    assert_eq!(f.intersection(OpenFlags::CREATE()), OpenFlags::CREATE());
    let mut g = OpenFlags::empty();
    assert!(g.is_empty());
    g.insert(OpenFlags::APPEND());
    assert_eq!(g, OpenFlags::APPEND());
    g.remove(OpenFlags::APPEND());
    assert!(g.is_empty());
    assert_eq!(OpenFlags::from_bits(0b100_0000), None);
    assert_eq!(OpenFlags::from_bits(0b11), Some(OpenFlags::READ() | OpenFlags::WRITE()));
    assert_eq!(OpenFlags::from_bits_truncate(0xff).bits(), 0b11_1111);
    assert_eq!(OpenFlags::from_bits_retain(0xff).bits(), 0xff);
}

#[test]
fn seek_to_raw() {
    assert_eq!(SeekFrom::Start(10).to_raw(), (10, sys::SEEK_SET));
    assert_eq!(SeekFrom::End(-3).to_raw(), (-3, sys::SEEK_END));
    assert_eq!(SeekFrom::Current(7).to_raw(), (7, sys::SEEK_CUR));
    assert_eq!(SeekFrom::Start(u64::MAX).to_raw(), (-1, sys::SEEK_SET));
}

fn sample_metadata(file_type: FileType, size: u64) -> Metadata {
    Metadata {
        file_type,
        size,
        blocks: 0,
        mode: 0o644,
        uid: 0,
        gid: 0,
        atime: 0,
        mtime: 0,
        ctime: 0,
        nlink: 1,
    }
}

#[test]
fn metadata_predicates() {
    let m = sample_metadata(FileType::RegularFile, 12);
    assert!(m.is_file() && !m.is_dir() && !m.is_symlink());
    assert_eq!(m.len(), 12);
    assert!(!m.is_empty());
    let d = sample_metadata(FileType::Directory, 0);
    assert!(d.is_dir());
    assert!(d.is_empty());
    assert!(sample_metadata(FileType::Symlink, 3).is_symlink());
}

#[test]
fn fs_stats_sizes() {
    let s = FsStats {
        block_size: 4096,
        total_blocks: 1000,
        free_blocks: 250,
        total_inodes: 64,
        free_inodes: 60,
        block_group_count: 1,
        blocks_per_group: 32768,
        inodes_per_group: 64,
        volume_name: String::new(),
    };
    assert_eq!(s.total_size(), 4_096_000);
    assert_eq!(s.free_size(), 1_024_000);
    assert_eq!(s.used_size(), 3_072_000);
    assert_eq!(s.used_size() + s.free_size(), s.total_size());
}

#[test]
fn file_extent_is_plain_data() {
    let e = FileExtent { logical_byte: 0, image_byte: 8192, len_bytes: 4096 };
    let f = e;
    assert_eq!(e, f);
}

#[test]
fn open_flags_operators() {
    let rw = OpenFlags::READ() | OpenFlags::WRITE();
    assert_eq!(rw & OpenFlags::WRITE(), OpenFlags::WRITE());
    assert_eq!(rw ^ OpenFlags::READ(), OpenFlags::WRITE());
    assert_eq!(rw - OpenFlags::READ(), OpenFlags::WRITE());
    assert_eq!((!rw).bits(), 0b11_1100);
    assert_eq!(rw.complement(), !rw);
    assert_eq!(rw.symmetric_difference(OpenFlags::all()).bits(), 0b11_1100);
    let mut f = OpenFlags::READ();
    f |= OpenFlags::APPEND();
    assert_eq!(f.bits(), 0b1_0001);
    f &= OpenFlags::APPEND();
    assert_eq!(f, OpenFlags::APPEND());
    f ^= OpenFlags::CREATE();
    assert_eq!(f.bits(), 0b1_0100);
    f -= OpenFlags::APPEND();
    assert_eq!(f, OpenFlags::CREATE());
    f.toggle(OpenFlags::CREATE());
    assert!(f.is_empty());
    f.set(OpenFlags::EXCLUSIVE(), true);
    assert_eq!(f, OpenFlags::EXCLUSIVE());
    f.set(OpenFlags::EXCLUSIVE(), false);
    assert!(f.is_empty());
    assert!(OpenFlags::all().is_all());
    assert!(!rw.is_all());
    assert!(OpenFlags::from_bits_retain(0xff).is_all());
    assert_eq!(
        (OpenFlags::WRITE() | OpenFlags::APPEND()).iter(),
        vec![OpenFlags::WRITE(), OpenFlags::APPEND()]
    );
    assert_eq!(
        OpenFlags::from_bits_retain(0x101).iter(),
        vec![OpenFlags::READ(), OpenFlags::from_bits_retain(0x100)]
    );
    assert!(OpenFlags::empty().iter().is_empty());
}
