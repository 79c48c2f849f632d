//! Raw lwext4 constants and the plain C structures that carry no pointers.
use vstd::prelude::*;

verus! {

// File open flags (lwext4 with its own open-flag values).
/// Open for reading only.
pub const O_RDONLY: i32 = 0o0;
/// Open for writing only.
pub const O_WRONLY: i32 = 0o1;
/// Open for reading and writing.
pub const O_RDWR: i32 = 0o2;
/// Create the file if it does not exist.
pub const O_CREAT: i32 = 0o100;
/// Fail if the file exists (with `O_CREAT`).
pub const O_EXCL: i32 = 0o200;
/// Truncate the file to zero length.
pub const O_TRUNC: i32 = 0o1000;
/// Append to the end of the file.
pub const O_APPEND: i32 = 0o2000;

/// Seek from the start of the file.
pub const SEEK_SET: u32 = 0;
/// Seek from the current position.
pub const SEEK_CUR: u32 = 1;
/// Seek from the end of the file.
pub const SEEK_END: u32 = 2;

/// Directory entry type: unknown.
pub const EXT4_DE_UNKNOWN: u8 = 0;
/// Directory entry type: regular file.
pub const EXT4_DE_REG_FILE: u8 = 1;
/// Directory entry type: directory.
pub const EXT4_DE_DIR: u8 = 2;
/// Directory entry type: character device.
pub const EXT4_DE_CHRDEV: u8 = 3;
/// Directory entry type: block device.
pub const EXT4_DE_BLKDEV: u8 = 4;
/// Directory entry type: FIFO.
pub const EXT4_DE_FIFO: u8 = 5;
/// Directory entry type: socket.
pub const EXT4_DE_SOCK: u8 = 6;
/// Directory entry type: symbolic link.
pub const EXT4_DE_SYMLINK: u8 = 7;

/// `mkfs` filesystem type: ext2.
pub const F_SET_EXT2: i32 = 2;
/// `mkfs` filesystem type: ext3.
pub const F_SET_EXT3: i32 = 3;
/// `mkfs` filesystem type: ext4.
pub const F_SET_EXT4: i32 = 4;

/// Size of a filesystem UUID in bytes.
pub const UUID_SIZE: usize = 16;

/// One run of contiguous file data blocks mapped to a contiguous run of image
/// (block-device) blocks, as lwext4 reports it.
#[derive(Debug, Clone, Copy)]
pub struct ext4_file_extent {
    pub logical_block: u64,
    pub physical_block: u64,
    pub block_count: u64,
}

impl ext4_file_extent {
    /// The extent's three fields as a triple of block numbers and count.
    pub open spec fn blocks(self) -> (u64, u64, u64) {
        (self.logical_block, self.physical_block, self.block_count)
    }
}

/// Directory entry descriptor.
#[derive(Debug, Clone, Copy)]
pub struct ext4_direntry {
    /// Inode number.
    pub inode: u32,
    /// Distance to the next entry.
    pub entry_length: u16,
    /// Name length.
    pub name_length: u8,
    /// Inode type (one of the `EXT4_DE_*` constants).
    pub inode_type: u8,
    /// Entry name (not NUL-terminated; `name_length` bytes are meaningful).
    pub name: [u8; 255],
}

impl Default for ext4_direntry {
    fn default() -> (r: Self)
        ensures
            r.inode == 0,
            r.entry_length == 0,
            r.name_length == 0,
            r.inode_type == 0,
            r.name@ == Seq::new(255, |_i: int| 0u8),
    {
        let r = ext4_direntry {
            inode: 0,
            entry_length: 0,
            name_length: 0,
            inode_type: 0,
            name: [0u8; 255],
        };
        assert(r.name@ =~= Seq::new(255, |_i: int| 0u8));
        r
    }
}

/// Filesystem mount statistics as lwext4 reports them.
#[derive(Debug, Clone, Copy)]
pub struct ext4_mount_stats {
    pub inodes_count: u32,
    pub free_inodes_count: u32,
    pub blocks_count: u64,
    pub free_blocks_count: u64,
    pub block_size: u32,
    pub block_group_count: u32,
    pub blocks_per_group: u32,
    pub inodes_per_group: u32,
    /// Volume name, NUL-terminated unless all sixteen bytes are used.
    pub volume_name: [u8; 16],
}

impl Default for ext4_mount_stats {
    fn default() -> (r: Self)
        ensures
            r.inodes_count == 0,
            r.free_inodes_count == 0,
            r.blocks_count == 0,
            r.free_blocks_count == 0,
            r.block_size == 0,
            r.block_group_count == 0,
            r.blocks_per_group == 0,
            r.inodes_per_group == 0,
            r.volume_name@ == Seq::new(16, |_i: int| 0u8),
    {
        let r = ext4_mount_stats {
            inodes_count: 0,
            free_inodes_count: 0,
            blocks_count: 0,
            free_blocks_count: 0,
            block_size: 0,
            block_group_count: 0,
            blocks_per_group: 0,
            inodes_per_group: 0,
            volume_name: [0u8; 16],
        };
        assert(r.volume_name@ =~= Seq::new(16, |_i: int| 0u8));
        r
    }
}

/// The filesystem structure that lwext4 keeps private; only its size is known
/// to the C side, so it has no fields that can be read.
pub struct ext4_fs {
    _private: [u8; 0],
}

} // verus!
