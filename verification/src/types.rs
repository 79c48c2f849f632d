//! Common types: filesystem and file types, open flags, seek positions,
//! metadata and filesystem statistics.
use crate::sys;
use vstd::prelude::*;

verus! {

/// Filesystem type for creation.
#[derive(Debug, Clone, Copy, PartialEq, Eq, Structural)]
pub enum FsType {
    /// ext2 filesystem (no journaling)
    Ext2,
    /// ext3 filesystem (with journaling)
    Ext3,
    /// ext4 filesystem (with extents and journaling)
    Ext4,
}

impl Default for FsType {
    fn default() -> (r: Self)
        ensures
            r == FsType::Ext4,
    {
        FsType::Ext4
    }
}

/// The lwext4 `mkfs` type constant of a filesystem type.
pub open spec fn fs_type_raw(t: FsType) -> i32 {
    match t {
        FsType::Ext2 => sys::F_SET_EXT2,
        FsType::Ext3 => sys::F_SET_EXT3,
        FsType::Ext4 => sys::F_SET_EXT4,
    }
}

impl FsType {
    /// Convert to the lwext4 filesystem type constant.
    pub fn to_raw(self) -> (r: i32)
        ensures
            r == fs_type_raw(self),
    {
        match self {
            FsType::Ext2 => sys::F_SET_EXT2,
            FsType::Ext3 => sys::F_SET_EXT3,
            FsType::Ext4 => sys::F_SET_EXT4,
        }
    }
}

/// File type enumeration.
#[derive(Debug, Clone, Copy, PartialEq, Eq, Structural)]
pub enum FileType {
    /// Regular file
    RegularFile,
    /// Directory
    Directory,
    /// Symbolic link
    Symlink,
    /// Block device
    BlockDevice,
    /// Character device
    CharDevice,
    /// FIFO (named pipe)
    Fifo,
    /// Socket
    Socket,
    /// Unknown file type
    Unknown,
}

/// The lwext4 directory-entry type code of a file type.
pub open spec fn file_type_raw(t: FileType) -> u8 {
    match t {
        FileType::RegularFile => sys::EXT4_DE_REG_FILE,
        FileType::Directory => sys::EXT4_DE_DIR,
        FileType::Symlink => sys::EXT4_DE_SYMLINK,
        FileType::BlockDevice => sys::EXT4_DE_BLKDEV,
        FileType::CharDevice => sys::EXT4_DE_CHRDEV,
        FileType::Fifo => sys::EXT4_DE_FIFO,
        FileType::Socket => sys::EXT4_DE_SOCK,
        FileType::Unknown => sys::EXT4_DE_UNKNOWN,
    }
}

/// The file type that an lwext4 directory-entry type code denotes; codes that
/// name no type denote `Unknown`.
pub open spec fn file_type_of_raw(raw: u8) -> FileType {
    if raw == sys::EXT4_DE_REG_FILE {
        FileType::RegularFile
    } else if raw == sys::EXT4_DE_DIR {
        FileType::Directory
    } else if raw == sys::EXT4_DE_SYMLINK {
        FileType::Symlink
    } else if raw == sys::EXT4_DE_BLKDEV {
        FileType::BlockDevice
    } else if raw == sys::EXT4_DE_CHRDEV {
        FileType::CharDevice
    } else if raw == sys::EXT4_DE_FIFO {
        FileType::Fifo
    } else if raw == sys::EXT4_DE_SOCK {
        FileType::Socket
    } else {
        FileType::Unknown
    }
}

impl FileType {
    /// Convert from an lwext4 directory entry type.
    pub fn from_raw(raw: u8) -> (r: Self)
        ensures
            r == file_type_of_raw(raw),
    {
        match raw {
            sys::EXT4_DE_REG_FILE => FileType::RegularFile,
            sys::EXT4_DE_DIR => FileType::Directory,
            sys::EXT4_DE_SYMLINK => FileType::Symlink,
            sys::EXT4_DE_BLKDEV => FileType::BlockDevice,
            sys::EXT4_DE_CHRDEV => FileType::CharDevice,
            sys::EXT4_DE_FIFO => FileType::Fifo,
            sys::EXT4_DE_SOCK => FileType::Socket,
            _ => FileType::Unknown,
        }
    }

    /// Convert to an lwext4 directory entry type.
    pub fn to_raw(self) -> (r: u8)
        ensures
            r == file_type_raw(self),
    {
        match self {
            FileType::RegularFile => sys::EXT4_DE_REG_FILE,
            FileType::Directory => sys::EXT4_DE_DIR,
            FileType::Symlink => sys::EXT4_DE_SYMLINK,
            FileType::BlockDevice => sys::EXT4_DE_BLKDEV,
            FileType::CharDevice => sys::EXT4_DE_CHRDEV,
            FileType::Fifo => sys::EXT4_DE_FIFO,
            FileType::Socket => sys::EXT4_DE_SOCK,
            FileType::Unknown => sys::EXT4_DE_UNKNOWN,
        }
    }

    /// Check if this is a regular file.
    pub fn is_file(&self) -> (r: bool)
        ensures
            r == (*self == FileType::RegularFile),
    {
        matches!(self, FileType::RegularFile)
    }

    /// Check if this is a directory.
    pub fn is_dir(&self) -> (r: bool)
        ensures
            r == (*self == FileType::Directory),
    {
        matches!(self, FileType::Directory)
    }

    /// Check if this is a symbolic link.
    pub fn is_symlink(&self) -> (r: bool)
        ensures
            r == (*self == FileType::Symlink),
    {
        matches!(self, FileType::Symlink)
    }
}

/// Every file type survives the trip to its lwext4 code and back.
pub proof fn lemma_file_type_raw_roundtrip(t: FileType)
    ensures
        file_type_of_raw(file_type_raw(t)) == t,
{
}

/// A directory-entry code comes back unchanged from the trip through
/// `FileType` exactly when it is one of the eight codes lwext4 defines
/// (`0..=7`); every other code reads as `Unknown`, whose code is `0`.
pub proof fn lemma_raw_file_type_roundtrip(raw: u8)
    ensures
        (file_type_raw(file_type_of_raw(raw)) == raw) <==> raw <= 7,
        raw > 7 ==> file_type_of_raw(raw) == FileType::Unknown,
{
}

/// Distinct file types have distinct lwext4 codes.
pub proof fn lemma_file_type_raw_injective(a: FileType, b: FileType)
    ensures
        file_type_raw(a) == file_type_raw(b) ==> a == b,
{
    lemma_file_type_raw_roundtrip(a);
    lemma_file_type_raw_roundtrip(b);
}

/// Flags for opening files, a set of bits of which six have a meaning.
#[derive(Debug, Clone, Copy, PartialEq, Eq, Structural)]
pub struct OpenFlags {
    bits: u32,
}

impl View for OpenFlags {
    type V = u32;

    closed spec fn view(&self) -> u32 {
        self.bits
    }
}

/// Whether every bit of `flag` is set in `bits`.
pub open spec fn has_flags(bits: u32, flag: u32) -> bool {
    bits & flag == flag
}

/// The bits that have a meaning as open flags.
pub open spec fn open_flags_all_bits() -> u32 {
    0b0011_1111
}

impl OpenFlags {
    /// Open for reading only
    #[allow(non_snake_case)]
    pub fn READ() -> (r: Self)
        ensures
            r@ == 0b0000_0001,
    {
        OpenFlags { bits: 0b0000_0001 }
    }
    /// Open for writing only
    #[allow(non_snake_case)]
    pub fn WRITE() -> (r: Self)
        ensures
            r@ == 0b0000_0010,
    {
        OpenFlags { bits: 0b0000_0010 }
    }
    /// Create file if it doesn't exist
    #[allow(non_snake_case)]
    pub fn CREATE() -> (r: Self)
        ensures
            r@ == 0b0000_0100,
    {
        OpenFlags { bits: 0b0000_0100 }
    }
    /// Truncate file to zero length
    #[allow(non_snake_case)]
    pub fn TRUNCATE() -> (r: Self)
        ensures
            r@ == 0b0000_1000,
    {
        OpenFlags { bits: 0b0000_1000 }
    }
    /// Append to end of file
    #[allow(non_snake_case)]
    pub fn APPEND() -> (r: Self)
        ensures
            r@ == 0b0001_0000,
    {
        OpenFlags { bits: 0b0001_0000 }
    }
    /// Fail if file already exists (requires CREATE)
    #[allow(non_snake_case)]
    pub fn EXCLUSIVE() -> (r: Self)
        ensures
            r@ == 0b0010_0000,
    {
        OpenFlags { bits: 0b0010_0000 }
    }

    /// The empty set of flags.
    pub fn empty() -> (r: Self)
        ensures
            r@ == 0,
    {
        OpenFlags { bits: 0 }
    }

    /// The set of all six defined flags.
    pub fn all() -> (r: Self)
        ensures
            r@ == open_flags_all_bits(),
    {
        OpenFlags { bits: 0b0011_1111 }
    }

    /// The raw bits of the set.
    pub fn bits(&self) -> (r: u32)
        ensures
            r == self@,
    {
        self.bits
    }

    /// The set with exactly the given bits, if every one of them is a
    /// defined flag.
    pub fn from_bits(bits: u32) -> (r: Option<Self>)
        ensures
            r is Some <==> bits & !open_flags_all_bits() == 0,
            r matches Some(f) ==> f@ == bits,
    {
        if bits & !0b0011_1111u32 == 0 {
            Some(OpenFlags { bits })
        } else {
            None
        }
    }

    /// The set of the defined flags among the given bits.
    pub fn from_bits_truncate(bits: u32) -> (r: Self)
        ensures
            r@ == bits & open_flags_all_bits(),
    {
        OpenFlags { bits: bits & 0b0011_1111 }
    }

    /// The set with exactly the given bits, defined or not.
    pub fn from_bits_retain(bits: u32) -> (r: Self)
        ensures
            r@ == bits,
    {
        OpenFlags { bits }
    }

    /// Whether the set holds no bit.
    pub fn is_empty(&self) -> (r: bool)
        ensures
            r == (self@ == 0),
    {
        self.bits == 0
    }

    /// Whether every flag of `other` is in this set.
    pub fn contains(&self, other: OpenFlags) -> (r: bool)
        ensures
            r == has_flags(self@, other@),
    {
        self.bits & other.bits == other.bits
    }

    /// Whether this set and `other` share a flag.
    pub fn intersects(&self, other: OpenFlags) -> (r: bool)
        ensures
            r == (self@ & other@ != 0),
    {
        self.bits & other.bits != 0
    }

    /// The flags in either set.
    pub fn union(self, other: OpenFlags) -> (r: Self)
        ensures
            r@ == self@ | other@,
    {
        OpenFlags { bits: self.bits | other.bits }
    }

    /// The flags in both sets.
    pub fn intersection(self, other: OpenFlags) -> (r: Self)
        ensures
            r@ == self@ & other@,
    {
        OpenFlags { bits: self.bits & other.bits }
    }

    /// The flags of this set that are not in `other`.
    pub fn difference(self, other: OpenFlags) -> (r: Self)
        ensures
            r@ == self@ & !other@,
    {
        OpenFlags { bits: self.bits & !other.bits }
    }

    /// Add the flags of `other` to this set.
    pub fn insert(&mut self, other: OpenFlags)
        ensures
            final(self)@ == old(self)@ | other@,
    {
        self.bits = self.bits | other.bits;
    }

    /// The flags in exactly one of the two sets.
    pub fn symmetric_difference(self, other: OpenFlags) -> (r: Self)
        ensures
            r@ == self@ ^ other@,
    {
        OpenFlags { bits: self.bits ^ other.bits }
    }

    /// The defined flags that are not in this set.
    pub fn complement(self) -> (r: Self)
        ensures
            r@ == !self@ & open_flags_all_bits(),
    {
        OpenFlags { bits: !self.bits & 0b0011_1111 }
    }

    /// Whether every defined flag is in this set.
    pub fn is_all(&self) -> (r: bool)
        ensures
            r == (open_flags_all_bits() | self@ == self@),
    {
        0b0011_1111u32 | self.bits == self.bits
    }

    /// Flip the flags of `other` in this set.
    pub fn toggle(&mut self, other: OpenFlags)
        ensures
            final(self)@ == old(self)@ ^ other@,
    {
        self.bits = self.bits ^ other.bits;
    }

    /// Add the flags of `other` if `value` holds, else remove them.
    pub fn set(&mut self, other: OpenFlags, value: bool)
        ensures
            value ==> final(self)@ == old(self)@ | other@,
            !value ==> final(self)@ == old(self)@ & !other@,
    {
        if value {
            self.insert(other);
        } else {
            self.remove(other);
        }
    }

    /// Remove the flags of `other` from this set.
    pub fn remove(&mut self, other: OpenFlags)
        ensures
            final(self)@ == old(self)@ & !other@,
    {
        self.bits = self.bits & !other.bits;
    }
}

impl core::ops::BitOr for OpenFlags {
    type Output = OpenFlags;

    fn bitor(self, rhs: OpenFlags) -> (r: OpenFlags)
        ensures
            r@ == self@ | rhs@,
    {
        OpenFlags { bits: self.bits | rhs.bits }
    }
}

impl core::ops::BitAnd for OpenFlags {
    type Output = OpenFlags;

    fn bitand(self, rhs: OpenFlags) -> (r: OpenFlags)
        ensures
            r@ == self@ & rhs@,
    {
        OpenFlags { bits: self.bits & rhs.bits }
    }
}

impl vstd::std_specs::ops::BitAndSpecImpl for OpenFlags {
    open spec fn obeys_bitand_spec() -> bool {
        true
    }

    open spec fn bitand_req(self, rhs: OpenFlags) -> bool {
        true
    }

    open spec fn bitand_spec(self, rhs: OpenFlags) -> OpenFlags {
        OpenFlags::from_bits_spec(self@ & rhs@)
    }
}

impl core::ops::BitXor for OpenFlags {
    type Output = OpenFlags;

    fn bitxor(self, rhs: OpenFlags) -> (r: OpenFlags)
        ensures
            r@ == self@ ^ rhs@,
    {
        OpenFlags { bits: self.bits ^ rhs.bits }
    }
}

impl vstd::std_specs::ops::BitXorSpecImpl for OpenFlags {
    open spec fn obeys_bitxor_spec() -> bool {
        true
    }

    open spec fn bitxor_req(self, rhs: OpenFlags) -> bool {
        true
    }

    open spec fn bitxor_spec(self, rhs: OpenFlags) -> OpenFlags {
        OpenFlags::from_bits_spec(self@ ^ rhs@)
    }
}

impl core::ops::Sub for OpenFlags {
    type Output = OpenFlags;

    /// The flags of `self` that are not in `rhs` (the difference).
    fn sub(self, rhs: OpenFlags) -> (r: OpenFlags)
        ensures
            r@ == self@ & !rhs@,
    {
        OpenFlags { bits: self.bits & !rhs.bits }
    }
}

impl vstd::std_specs::ops::SubSpecImpl for OpenFlags {
    open spec fn obeys_sub_spec() -> bool {
        true
    }

    open spec fn sub_req(self, rhs: OpenFlags) -> bool {
        true
    }

    open spec fn sub_spec(self, rhs: OpenFlags) -> OpenFlags {
        OpenFlags::from_bits_spec(self@ & !rhs@)
    }
}

impl core::ops::Not for OpenFlags {
    type Output = OpenFlags;

    /// The defined flags that are not in `self` (the complement).
    fn not(self) -> (r: OpenFlags)
        ensures
            r@ == !self@ & open_flags_all_bits(),
    {
        OpenFlags { bits: !self.bits & 0b0011_1111 }
    }
}

impl vstd::std_specs::ops::NotSpecImpl for OpenFlags {
    open spec fn obeys_not_spec() -> bool {
        true
    }

    open spec fn not_req(self) -> bool {
        true
    }

    open spec fn not_spec(self) -> OpenFlags {
        OpenFlags::from_bits_spec(!self@ & open_flags_all_bits())
    }
}

impl core::ops::BitOrAssign for OpenFlags {
    fn bitor_assign(&mut self, rhs: OpenFlags)
        ensures
            final(self)@ == old(self)@ | rhs@,
    {
        self.bits = self.bits | rhs.bits;
    }
}

impl core::ops::BitAndAssign for OpenFlags {
    fn bitand_assign(&mut self, rhs: OpenFlags)
        ensures
            final(self)@ == old(self)@ & rhs@,
    {
        self.bits = self.bits & rhs.bits;
    }
}

impl core::ops::BitXorAssign for OpenFlags {
    fn bitxor_assign(&mut self, rhs: OpenFlags)
        ensures
            final(self)@ == old(self)@ ^ rhs@,
    {
        self.bits = self.bits ^ rhs.bits;
    }
}

impl core::ops::SubAssign for OpenFlags {
    fn sub_assign(&mut self, rhs: OpenFlags)
        ensures
            final(self)@ == old(self)@ & !rhs@,
    {
        self.bits = self.bits & !rhs.bits;
    }
}

impl vstd::std_specs::ops::BitOrSpecImpl for OpenFlags {
    open spec fn obeys_bitor_spec() -> bool {
        true
    }

    open spec fn bitor_req(self, rhs: OpenFlags) -> bool {
        true
    }

    open spec fn bitor_spec(self, rhs: OpenFlags) -> OpenFlags {
        OpenFlags::from_bits_spec(self@ | rhs@)
    }
}

impl OpenFlags {
    /// The set with exactly the given bits.
    pub closed spec fn from_bits_spec(bits: u32) -> OpenFlags {
        OpenFlags { bits }
    }

    /// `from_bits_spec` yields a set with the given bits, and every set is
    /// the one made from its bits.
    pub proof fn lemma_from_bits_spec(bits: u32, f: OpenFlags)
        ensures
            OpenFlags::from_bits_spec(bits)@ == bits,
            OpenFlags::from_bits_spec(f@) == f,
    {
    }
}

/// A one-element sequence when `b` holds, else the empty one.
pub open spec fn seq_if(b: bool, x: u32) -> Seq<u32> {
    if b {
        seq![x]
    } else {
        Seq::empty()
    }
}

/// The bits of the flags values a set yields one by one: each defined flag
/// it contains, in the order the flags are declared, then all its undefined
/// bits together, if it has any.
pub open spec fn flag_values(bits: u32) -> Seq<u32> {
    seq_if(has_flags(bits, 0b0000_0001), 0b0000_0001) + seq_if(has_flags(bits, 0b0000_0010), 0b0000_0010)
        + seq_if(has_flags(bits, 0b0000_0100), 0b0000_0100) + seq_if(
        has_flags(bits, 0b0000_1000),
        0b0000_1000,
    ) + seq_if(has_flags(bits, 0b0001_0000), 0b0001_0000) + seq_if(
        has_flags(bits, 0b0010_0000),
        0b0010_0000,
    ) + seq_if(bits & !open_flags_all_bits() != 0, bits & !open_flags_all_bits())
}

impl OpenFlags {
    /// The flags values of this set one by one: each defined flag it
    /// contains, in declaration order, then its undefined bits together.
    pub fn iter(&self) -> (r: Vec<OpenFlags>)
        ensures
            r@.len() == flag_values(self@).len(),
            forall|i: int| 0 <= i < r@.len() ==> #[trigger] r@[i]@ == flag_values(self@)[i],
    {
        let b = self.bits;
        let mut out: Vec<OpenFlags> = Vec::new();
        let ghost mut want: Seq<u32> = Seq::empty();
        if b & 0b0000_0001 == 0b0000_0001 {
            out.push(OpenFlags { bits: 0b0000_0001 });
        }
        proof { want = want + seq_if(has_flags(b, 0b0000_0001), 0b0000_0001); }
        if b & 0b0000_0010 == 0b0000_0010 {
            out.push(OpenFlags { bits: 0b0000_0010 });
        }
        proof { want = want + seq_if(has_flags(b, 0b0000_0010), 0b0000_0010); }
        if b & 0b0000_0100 == 0b0000_0100 {
            out.push(OpenFlags { bits: 0b0000_0100 });
        }
        proof { want = want + seq_if(has_flags(b, 0b0000_0100), 0b0000_0100); }
        if b & 0b0000_1000 == 0b0000_1000 {
            out.push(OpenFlags { bits: 0b0000_1000 });
        }
        proof { want = want + seq_if(has_flags(b, 0b0000_1000), 0b0000_1000); }
        if b & 0b0001_0000 == 0b0001_0000 {
            out.push(OpenFlags { bits: 0b0001_0000 });
        }
        proof { want = want + seq_if(has_flags(b, 0b0001_0000), 0b0001_0000); }
        if b & 0b0010_0000 == 0b0010_0000 {
            out.push(OpenFlags { bits: 0b0010_0000 });
        }
        proof { want = want + seq_if(has_flags(b, 0b0010_0000), 0b0010_0000); }
        let rest = b & !0b0011_1111u32;
        if rest != 0 {
            out.push(OpenFlags { bits: rest });
        }
        proof {
            want = want + seq_if(rest != 0, rest);
            assert(want =~= flag_values(b));
        }
        out
    }
}

/// The lwext4 access mode that a set of open flags asks for.
pub open spec fn open_access_raw(bits: u32) -> i32 {
    if has_flags(bits, 0b0001) && has_flags(bits, 0b0010) {
        sys::O_RDWR
    } else if has_flags(bits, 0b0010) {
        sys::O_WRONLY
    } else {
        sys::O_RDONLY
    }
}

/// The lwext4 open-flag word for a set of open flags: the access mode plus
/// one lwext4 bit for each of CREATE, TRUNCATE, APPEND and EXCLUSIVE that is
/// set. (The five parts occupy disjoint bits, so their sum is their union.)
pub open spec fn open_flags_raw(bits: u32) -> int {
    open_access_raw(bits)
        + (if has_flags(bits, 0b0000_0100) { sys::O_CREAT } else { 0 })
        + (if has_flags(bits, 0b0000_1000) { sys::O_TRUNC } else { 0 })
        + (if has_flags(bits, 0b0001_0000) { sys::O_APPEND } else { 0 })
        + (if has_flags(bits, 0b0010_0000) { sys::O_EXCL } else { 0 })
}

proof fn lemma_disjoint_or_is_sum(a: i32, c: i32, t: i32, p: i32, e: i32)
    requires
        0 <= a <= 2,
        c == 0 || c == 0o100,
        t == 0 || t == 0o1000,
        p == 0 || p == 0o2000,
        e == 0 || e == 0o200,
    ensures
        a | c | t | p | e == a + c + t + p + e,
{
    assert(0 <= a <= 2 && (c == 0 || c == 0o100) && (t == 0 || t == 0o1000) && (p == 0 || p
        == 0o2000) && (e == 0 || e == 0o200) ==> a | c | t | p | e == a + c + t + p + e)
        by (bit_vector);
}

impl OpenFlags {
    /// Convert to lwext4 open flags.
    pub fn to_raw(self) -> (r: i32)
        ensures
            r == open_flags_raw(self@),
    {
        let mut flags = 0i32;
        let access: i32 = if self.contains(OpenFlags::READ()) && self.contains(OpenFlags::WRITE()) {
            sys::O_RDWR
        } else if self.contains(OpenFlags::WRITE()) {
            sys::O_WRONLY
        } else {
            sys::O_RDONLY
        };
        flags = flags | access;
        let creat: i32 = if self.contains(OpenFlags::CREATE()) {
            sys::O_CREAT
        } else {
            0
        };
        let trunc: i32 = if self.contains(OpenFlags::TRUNCATE()) {
            sys::O_TRUNC
        } else {
            0
        };
        let append: i32 = if self.contains(OpenFlags::APPEND()) {
            sys::O_APPEND
        } else {
            0
        };
        let excl: i32 = if self.contains(OpenFlags::EXCLUSIVE()) {
            sys::O_EXCL
        } else {
            0
        };
        assert(0i32 | access == access) by (bit_vector);
        flags = flags | creat;
        flags = flags | trunc;
        flags = flags | append;
        flags = flags | excl;
        proof {
            lemma_disjoint_or_is_sum(access, creat, trunc, append, excl);
        }
        flags
    }
}

/// What the lwext4 open-flag word says, bit by bit: its access-mode field
/// (the low two bits) is `O_RDWR` exactly when both READ and WRITE are set,
/// `O_WRONLY` when only WRITE is, and `O_RDONLY` otherwise; each of the
/// creation bits is set exactly when its flag is; no other bit is set.
pub proof fn lemma_open_flags_raw_bits(bits: u32)
    ensures
        ({
            let r = open_flags_raw(bits) as i32;
            &&& r == open_flags_raw(bits)
            &&& (r & 3 == sys::O_RDWR) <==> (has_flags(bits, 1) && has_flags(bits, 2))
            &&& (r & 3 == sys::O_WRONLY) <==> (!has_flags(bits, 1) && has_flags(bits, 2))
            &&& (r & 3 == sys::O_RDONLY) <==> !has_flags(bits, 2)
            &&& (r & sys::O_CREAT != 0) <==> has_flags(bits, 0b0000_0100)
            &&& (r & sys::O_TRUNC != 0) <==> has_flags(bits, 0b0000_1000)
            &&& (r & sys::O_APPEND != 0) <==> has_flags(bits, 0b0001_0000)
            &&& (r & sys::O_EXCL != 0) <==> has_flags(bits, 0b0010_0000)
            &&& r & !(3i32 | sys::O_CREAT | sys::O_TRUNC | sys::O_APPEND | sys::O_EXCL) == 0
        }),
{
    let a = open_access_raw(bits);
    let c: i32 = if has_flags(bits, 0b0000_0100) { sys::O_CREAT } else { 0 };
    let t: i32 = if has_flags(bits, 0b0000_1000) { sys::O_TRUNC } else { 0 };
    let p: i32 = if has_flags(bits, 0b0001_0000) { sys::O_APPEND } else { 0 };
    let e: i32 = if has_flags(bits, 0b0010_0000) { sys::O_EXCL } else { 0 };
    lemma_disjoint_or_is_sum(a, c, t, p, e);
    let r = a | c | t | p | e;
    assert(r == open_flags_raw(bits));
    assert(0 <= a <= 2 && (c == 0 || c == 0o100) && (t == 0 || t == 0o1000) && (p == 0 || p
        == 0o2000) && (e == 0 || e == 0o200) ==> {
        let r = a | c | t | p | e;
        &&& r & 3 == a
        &&& (r & 0o100 != 0) == (c != 0)
        &&& (r & 0o1000 != 0) == (t != 0)
        &&& (r & 0o2000 != 0) == (p != 0)
        &&& (r & 0o200 != 0) == (e != 0)
        &&& r & !(3i32 | 0o100i32 | 0o1000i32 | 0o2000i32 | 0o200i32) == 0
    }) by (bit_vector);
}

/// Seek position for file operations.
#[derive(Debug, Clone, Copy, PartialEq, Eq, Structural)]
pub enum SeekFrom {
    /// Seek from the beginning of the file
    Start(u64),
    /// Seek from the end of the file
    End(i64),
    /// Seek from the current position
    Current(i64),
}

/// The lwext4 offset and origin of a seek position. A start offset is
/// reinterpreted as a signed 64-bit value, as lwext4's offset parameter is.
pub open spec fn seek_raw(s: SeekFrom) -> (i64, u32) {
    match s {
        SeekFrom::Start(pos) => (pos as i64, sys::SEEK_SET),
        SeekFrom::End(pos) => (pos, sys::SEEK_END),
        SeekFrom::Current(pos) => (pos, sys::SEEK_CUR),
    }
}

impl SeekFrom {
    /// Convert to lwext4 seek offset and origin.
    pub fn to_raw(self) -> (r: (i64, u32))
        ensures
            r == seek_raw(self),
    {
        match self {
            SeekFrom::Start(pos) => (pos as i64, sys::SEEK_SET),
            SeekFrom::End(pos) => (pos, sys::SEEK_END),
            SeekFrom::Current(pos) => (pos, sys::SEEK_CUR),
        }
    }
}

/// A start offset that fits in a signed 64-bit value is passed to lwext4
/// unchanged, and the three kinds of position have three distinct origins.
pub proof fn lemma_seek_raw(s: SeekFrom)
    ensures
        s matches SeekFrom::Start(pos) ==> (pos <= i64::MAX ==> seek_raw(s).0 == pos),
        s matches SeekFrom::End(pos) ==> seek_raw(s).0 == pos,
        s matches SeekFrom::Current(pos) ==> seek_raw(s).0 == pos,
        (seek_raw(s).1 == sys::SEEK_SET) <==> s is Start,
        (seek_raw(s).1 == sys::SEEK_END) <==> s is End,
        (seek_raw(s).1 == sys::SEEK_CUR) <==> s is Current,
{
}

/// File metadata.
#[derive(Debug, Clone)]
pub struct Metadata {
    /// File type
    pub file_type: FileType,
    /// File size in bytes
    pub size: u64,
    /// Number of blocks allocated
    pub blocks: u64,
    /// File mode (permissions)
    pub mode: u32,
    /// Owner user ID
    pub uid: u32,
    /// Owner group ID
    pub gid: u32,
    /// Access time (Unix timestamp)
    pub atime: u64,
    /// Modification time (Unix timestamp)
    pub mtime: u64,
    /// Change time (Unix timestamp)
    pub ctime: u64,
    /// Number of hard links
    pub nlink: u32,
}

impl Metadata {
    /// Check if this is a regular file.
    pub fn is_file(&self) -> (r: bool)
        ensures
            r == (self.file_type == FileType::RegularFile),
    {
        self.file_type.is_file()
    }

    /// Check if this is a directory.
    pub fn is_dir(&self) -> (r: bool)
        ensures
            r == (self.file_type == FileType::Directory),
    {
        self.file_type.is_dir()
    }

    /// Check if this is a symbolic link.
    pub fn is_symlink(&self) -> (r: bool)
        ensures
            r == (self.file_type == FileType::Symlink),
    {
        self.file_type.is_symlink()
    }

    /// Get the file size.
    pub fn len(&self) -> (r: u64)
        ensures
            r == self.size,
    {
        self.size
    }

    /// Check if the file is empty.
    pub fn is_empty(&self) -> (r: bool)
        ensures
            r == (self.size == 0),
    {
        self.size == 0
    }
}

/// Filesystem statistics.
#[derive(Debug, Clone)]
pub struct FsStats {
    /// Block size in bytes
    pub block_size: u32,
    /// Total number of blocks
    pub total_blocks: u64,
    /// Number of free blocks
    pub free_blocks: u64,
    /// Total number of inodes
    pub total_inodes: u64,
    /// Number of free inodes
    pub free_inodes: u64,
    /// Number of block groups
    pub block_group_count: u32,
    /// Blocks per group
    pub blocks_per_group: u32,
    /// Inodes per group
    pub inodes_per_group: u32,
    /// Volume name
    pub volume_name: String,
}

impl FsStats {
    /// Total filesystem size in bytes, as a mathematical integer.
    pub open spec fn total_bytes(&self) -> int {
        self.total_blocks * self.block_size
    }

    /// Free space in bytes, as a mathematical integer.
    pub open spec fn free_bytes(&self) -> int {
        self.free_blocks * self.block_size
    }

    /// Used space in bytes, as a mathematical integer.
    pub open spec fn used_bytes(&self) -> int {
        (self.total_blocks - self.free_blocks) * self.block_size
    }

    /// Calculate total filesystem size in bytes.
    pub fn total_size(&self) -> (r: u64)
        requires
            self.total_bytes() <= u64::MAX,
        ensures
            r == self.total_bytes(),
    {
        self.total_blocks * self.block_size as u64
    }

    /// Calculate free space in bytes.
    pub fn free_size(&self) -> (r: u64)
        requires
            self.free_bytes() <= u64::MAX,
        ensures
            r == self.free_bytes(),
    {
        self.free_blocks * self.block_size as u64
    }

    /// Calculate used space in bytes.
    pub fn used_size(&self) -> (r: u64)
        requires
            self.free_blocks <= self.total_blocks,
            self.used_bytes() <= u64::MAX,
        ensures
            r == self.used_bytes(),
    {
        (self.total_blocks - self.free_blocks) * self.block_size as u64
    }

    /// Used and free space add up to the total size, and neither exceeds it.
    pub proof fn lemma_used_plus_free_is_total(&self)
        requires
            self.free_blocks <= self.total_blocks,
        ensures
            self.used_bytes() + self.free_bytes() == self.total_bytes(),
            0 <= self.used_bytes() <= self.total_bytes(),
            0 <= self.free_bytes() <= self.total_bytes(),
    {
        let t = self.total_blocks as int;
        let f = self.free_blocks as int;
        let b = self.block_size as int;
        assert((t - f) * b + f * b == t * b) by (nonlinear_arith);
        assert(0 <= (t - f) * b) by (nonlinear_arith)
            requires
                f <= t,
                0 <= b,
        ;
        assert(0 <= f * b) by (nonlinear_arith)
            requires
                0 <= f,
                0 <= b,
        ;
    }
}

/// One run of a regular file's stored data, in image (block-device) bytes.
///
/// `logical_byte` is the offset within the file's stored content (extent
/// order, holes excluded); `image_byte` is where that run lives in the
/// underlying image; `len_bytes` is the run length. All three are multiples
/// of the filesystem block size.
#[derive(Debug, Clone, Copy, PartialEq, Eq, Structural)]
pub struct FileExtent {
    /// Offset within the file's stored content (extent order).
    pub logical_byte: u64,
    /// Byte offset in the underlying image.
    pub image_byte: u64,
    /// Run length in bytes.
    pub len_bytes: u64,
}

} // verus!
