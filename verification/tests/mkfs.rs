use ext4_lwext4::mkfs::{mkfs_info, MkfsInfo, MkfsOptions};
use ext4_lwext4::sys;
use ext4_lwext4::types::FsType;

#[test]
fn test_mkfs_options_builder() {
    let opts = MkfsOptions::ext4()
        .with_label("test_disk")
        .with_block_size(4096)
        .with_journal(true);

    assert_eq!(opts.fs_type, FsType::Ext4);
    assert_eq!(opts.label, Some("test_disk".to_string()));
    assert_eq!(opts.block_size, 4096);
    assert!(opts.journal);
}

#[test]
fn default_options_are_ext4_with_journal() {
    let opts = MkfsOptions::default();
    assert_eq!(opts.fs_type, FsType::Ext4);
    assert_eq!(opts.block_size, 4096);
    assert_eq!(opts.inode_size, 256);
    assert!(opts.journal);
    assert_eq!(opts.label, None);
    assert_eq!(opts.uuid, None);
}

#[test]
fn ext2_and_ext3_presets() {
    let e2 = MkfsOptions::ext2();
    assert_eq!(e2.fs_type, FsType::Ext2);
    assert!(!e2.journal);
    assert_eq!(e2.block_size, 4096);
    let e3 = MkfsOptions::ext3();
    assert_eq!(e3.fs_type, FsType::Ext3);
    assert!(e3.journal);
    assert_eq!(e3.inode_size, 256);
}

#[test]
fn builders_touch_only_their_field() {
    let uuid = [7u8; 16];
    let opts = MkfsOptions::ext3().with_uuid(uuid).with_journal(false).with_block_size(1024);
    assert_eq!(opts.fs_type, FsType::Ext3);
    assert_eq!(opts.uuid, Some(uuid));
    assert!(!opts.journal);
    assert_eq!(opts.block_size, 1024);
    assert_eq!(opts.inode_size, 256);
    assert_eq!(opts.label, None);
}

#[test]
fn mkfs_info_from_options() {
    let opts = MkfsOptions::ext4().with_label("root").with_uuid([1u8; 16]);
    let (info, fs_type) = mkfs_info(&opts, 64 * 1024 * 1024);
    assert_eq!(info.len, 64 * 1024 * 1024);
    assert_eq!(info.block_size, 4096);
    assert_eq!(info.inode_size, 256);
    assert_eq!(info.blocks_per_group, 0);
    assert_eq!(info.inodes_per_group, 0);
    assert_eq!(info.inodes, 0);
    assert_eq!(info.journal_blocks, 0);
    assert_eq!(info.dsc_size, 0);
    assert_eq!(info.uuid, [1u8; 16]);
    assert!(info.journal);
    assert_eq!(info.label, Some("root".to_string()));
    assert_eq!(fs_type, sys::F_SET_EXT4);
}

#[test]
fn mkfs_info_ext2_never_journals_and_uuid_defaults_to_zero() {
    let opts = MkfsOptions::ext2().with_journal(true);
    let (info, fs_type) = mkfs_info(&opts, 1 << 20);
    assert!(!info.journal);
    assert_eq!(info.uuid, [0u8; 16]);
    assert_eq!(info.label, None);
    assert_eq!(fs_type, sys::F_SET_EXT2);
    let (info3, t3) = mkfs_info(&MkfsOptions::ext3().with_journal(false), 0);
    assert!(!info3.journal);
    assert_eq!(t3, sys::F_SET_EXT3);
}

#[test]
fn mkfs_info_default_values() {
    let info = MkfsInfo::default();
    assert_eq!(info.len, 0);
    assert_eq!(info.block_size, 4096);
    assert_eq!(info.inode_size, 256);
    assert!(info.journal);
    assert_eq!(info.uuid, [0u8; sys::UUID_SIZE]);
    assert_eq!(info.label, None);
}
