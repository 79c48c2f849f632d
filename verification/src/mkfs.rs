//! Filesystem creation (mkfs): options and the parameters handed to lwext4.
use crate::sys;
use crate::types::{fs_type_raw, FsType};
use vstd::prelude::*;

verus! {

/// Options for creating a new ext2/3/4 filesystem.
#[derive(Debug, Clone)]
pub struct MkfsOptions {
    /// Filesystem type (ext2, ext3, or ext4)
    pub fs_type: FsType,
    /// Block size in bytes (1024, 2048, or 4096)
    pub block_size: u32,
    /// Inode size in bytes (128 or 256)
    pub inode_size: u32,
    /// Enable journaling (ext3/ext4 only)
    pub journal: bool,
    /// Filesystem label (max 16 characters)
    pub label: Option<String>,
    /// UUID for the filesystem
    pub uuid: Option<[u8; 16]>,
}

/// The characters of an optional label, if there is one.
pub open spec fn label_view(label: Option<String>) -> Option<Seq<char>> {
    match label {
        Some(l) => Some(l@),
        None => None,
    }
}

impl MkfsOptions {
    /// The default options: ext4, 4096-byte blocks, 256-byte inodes, a
    /// journal, no label and no UUID.
    pub open spec fn is_default_ext4(&self) -> bool {
        &&& self.fs_type == FsType::Ext4
        &&& self.block_size == 4096
        &&& self.inode_size == 256
        &&& self.journal
        &&& self.label is None
        &&& self.uuid is None
    }

    /// Whether `self` equals `other` in every field but the ones a builder
    /// method sets: the type, sizes, journal flag, label and UUID
    /// respectively, chosen by the five flags.
    pub open spec fn same_except(
        &self,
        other: &MkfsOptions,
        fs_type: bool,
        block_size: bool,
        journal: bool,
        label: bool,
        uuid: bool,
    ) -> bool {
        &&& (!fs_type ==> self.fs_type == other.fs_type)
        &&& (!block_size ==> self.block_size == other.block_size)
        &&& self.inode_size == other.inode_size
        &&& (!journal ==> self.journal == other.journal)
        &&& (!label ==> label_view(self.label) == label_view(other.label))
        &&& (!uuid ==> self.uuid == other.uuid)
    }
}

impl Default for MkfsOptions {
    fn default() -> (r: Self)
        ensures
            r.is_default_ext4(),
    {
        MkfsOptions {
            fs_type: FsType::Ext4,
            block_size: 4096,
            inode_size: 256,
            journal: true,
            label: None,
            uuid: None,
        }
    }
}

impl MkfsOptions {
    /// Create options for ext2 filesystem (no journal).
    pub fn ext2() -> (r: Self)
        ensures
            r.fs_type == FsType::Ext2,
            r.block_size == 4096,
            r.inode_size == 256,
            !r.journal,
            r.label is None,
            r.uuid is None,
    {
        let d = Self::default();
        MkfsOptions { fs_type: FsType::Ext2, journal: false, ..d }
    }

    /// Create options for ext3 filesystem.
    pub fn ext3() -> (r: Self)
        ensures
            r.fs_type == FsType::Ext3,
            r.block_size == 4096,
            r.inode_size == 256,
            r.journal,
            r.label is None,
            r.uuid is None,
    {
        let d = Self::default();
        MkfsOptions { fs_type: FsType::Ext3, ..d }
    }

    /// Create options for ext4 filesystem.
    pub fn ext4() -> (r: Self)
        ensures
            r.is_default_ext4(),
    {
        Self::default()
    }

    /// Set the filesystem label.
    pub fn with_label(self, label: &str) -> (r: Self)
        ensures
            label_view(r.label) == Some(label@),
            r.same_except(&self, false, false, false, true, false),
    {
        let mut s = self;
        s.label = Some(label.to_owned());
        s
    }

    /// Set the UUID.
    pub fn with_uuid(self, uuid: [u8; 16]) -> (r: Self)
        ensures
            r.uuid == Some(uuid),
            r.same_except(&self, false, false, false, false, true),
    {
        let mut s = self;
        s.uuid = Some(uuid);
        s
    }

    /// Set the block size.
    pub fn with_block_size(self, size: u32) -> (r: Self)
        ensures
            r.block_size == size,
            r.same_except(&self, false, true, false, false, false),
    {
        let mut s = self;
        s.block_size = size;
        s
    }

    /// Enable or disable journaling.
    pub fn with_journal(self, enabled: bool) -> (r: Self)
        ensures
            r.journal == enabled,
            r.same_except(&self, false, false, true, false, false),
    {
        let mut s = self;
        s.journal = enabled;
        s
    }
}

/// The filesystem-creation parameters that lwext4's `mkfs` takes, with the
/// label held as a string (the caller passes it to C NUL-terminated).
#[derive(Debug, Clone)]
pub struct MkfsInfo {
    /// Total filesystem length in bytes
    pub len: u64,
    /// Block size (1024, 2048, or 4096)
    pub block_size: u32,
    /// Blocks per group (0: lwext4 chooses)
    pub blocks_per_group: u32,
    /// Inodes per group (0: lwext4 chooses)
    pub inodes_per_group: u32,
    /// Inode size (128 or 256)
    pub inode_size: u32,
    /// Total number of inodes (0: lwext4 chooses)
    pub inodes: u32,
    /// Number of journal blocks (0: lwext4 chooses)
    pub journal_blocks: u32,
    /// Read-only compatible features
    pub feat_ro_compat: u32,
    /// Compatible features
    pub feat_compat: u32,
    /// Incompatible features
    pub feat_incompat: u32,
    /// Reserved blocks for group descriptors
    pub bg_desc_reserve_blocks: u32,
    /// Group descriptor size
    pub dsc_size: u16,
    /// UUID (16 bytes)
    pub uuid: [u8; 16],
    /// Enable journaling
    pub journal: bool,
    /// Filesystem label
    pub label: Option<String>,
}

impl MkfsInfo {
    /// Every count and feature field that lwext4 computes for itself is zero.
    pub open spec fn derived_fields_zero(&self) -> bool {
        &&& self.blocks_per_group == 0
        &&& self.inodes_per_group == 0
        &&& self.inodes == 0
        &&& self.journal_blocks == 0
        &&& self.feat_ro_compat == 0
        &&& self.feat_compat == 0
        &&& self.feat_incompat == 0
        &&& self.bg_desc_reserve_blocks == 0
        &&& self.dsc_size == 0
    }
}

impl Default for MkfsInfo {
    fn default() -> (r: Self)
        ensures
            r.len == 0,
            r.block_size == 4096,
            r.inode_size == 256,
            r.derived_fields_zero(),
            r.uuid@ == Seq::new(sys::UUID_SIZE as nat, |_i: int| 0u8),
            r.journal,
            r.label is None,
    {
        let r = MkfsInfo {
            len: 0,
            block_size: 4096,
            blocks_per_group: 0,
            inodes_per_group: 0,
            inode_size: 256,
            inodes: 0,
            journal_blocks: 0,
            feat_ro_compat: 0,
            feat_compat: 0,
            feat_incompat: 0,
            bg_desc_reserve_blocks: 0,
            dsc_size: 0,
            uuid: [0u8; 16],
            journal: true,
            label: None,
        };
        assert(r.uuid@ =~= Seq::new(sys::UUID_SIZE as nat, |_i: int| 0u8));
        r
    }
}

/// Whether a string can be handed to C as a NUL-terminated string.
pub open spec fn has_no_nul(s: Seq<char>) -> bool {
    !s.contains('\0')
}

/// The parameters for lwext4's `mkfs` on a device of `part_size` bytes with
/// the given options, and the lwext4 filesystem type to create.
///
/// A journal is requested only when the options ask for one and the type is
/// not ext2; a missing UUID is passed as all zeros; every count that lwext4
/// can compute is left zero for it to compute.
pub fn mkfs_info(options: &MkfsOptions, part_size: u64) -> (r: (MkfsInfo, i32))
    requires
        options.label matches Some(l) ==> has_no_nul(l@),
    ensures
        r.0.len == part_size,
        r.0.block_size == options.block_size,
        r.0.inode_size == options.inode_size,
        r.0.derived_fields_zero(),
        options.uuid matches Some(u) ==> r.0.uuid == u,
        options.uuid is None ==> r.0.uuid@ == Seq::new(sys::UUID_SIZE as nat, |_i: int| 0u8),
        r.0.journal == (options.journal && options.fs_type != FsType::Ext2),
        label_view(r.0.label) == label_view(options.label),
        r.1 == fs_type_raw(options.fs_type),
{
    let label = match &options.label {
        Some(l) => Some(l.clone()),
        None => None,
    };
    let uuid = match options.uuid {
        Some(u) => u,
        None => [0u8; 16],
    };
    assert(options.uuid is None ==> uuid@ =~= Seq::new(sys::UUID_SIZE as nat, |_i: int| 0u8));
    let info = MkfsInfo {
        len: part_size,
        block_size: options.block_size,
        blocks_per_group: 0,
        inodes_per_group: 0,
        inode_size: options.inode_size,
        inodes: 0,
        journal_blocks: 0,
        feat_ro_compat: 0,
        feat_compat: 0,
        feat_incompat: 0,
        bg_desc_reserve_blocks: 0,
        dsc_size: 0,
        uuid,
        journal: options.journal && options.fs_type != FsType::Ext2,
        label,
    };
    (info, options.fs_type.to_raw())
}

} // verus!
