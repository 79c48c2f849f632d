//! A mounted ext4 filesystem: the decisions of each filesystem operation.
//!
//! Each operation checks what it can check on its own (a read-only mount,
//! paths and names that no C string can carry), composes the full lwext4
//! paths, and hands back the lwext4 call to make; the caller makes the call
//! and gives its results back for interpretation.
use crate::calls::{request_result_view, CallView, FsCall, Request, RequestView, TimeField};
use crate::error::{check_errno, check_errno_with_path, errno_error, Error, ErrorView};
use crate::names::{
    compose_path, device_name_of, has_nul, make_path_of, mount_point_of,
};
use crate::sys;
use crate::text::{string_from_utf8, string_from_utf8_lossy, utf8_lossy};
use crate::types::{file_type_raw, open_flags_raw, FileType, FsStats, Metadata, OpenFlags};
use vstd::prelude::*;
use vstd::utf8::{decode_utf8, valid_utf8};

verus! {

/// A mounted filesystem: its mount number, which fixes the names under which
/// its device is registered and it is mounted, whether it is mounted
/// read-only, and whether its journal was started.
pub struct Ext4Fs {
    id: u64,
    device_name: String,
    mount_point: String,
    read_only: bool,
    journal_active: bool,
}

/// The mathematical value of a mounted filesystem.
pub ghost struct FsView {
    pub id: u64,
    pub read_only: bool,
    pub journal_active: bool,
}

impl View for Ext4Fs {
    type V = FsView;

    closed spec fn view(&self) -> FsView {
        FsView { id: self.id, read_only: self.read_only, journal_active: self.journal_active }
    }
}

/// The view of a result that holds a string.
pub open spec fn string_result_view(r: Result<String, Error>) -> Result<Seq<char>, ErrorView> {
    match r {
        Ok(s) => Ok(s@),
        Err(e) => Err(e@),
    }
}

/// The request of an operation that writes at one path: refused on a
/// read-only mount; otherwise the call that `call` makes of the full path,
/// with errors reported against `path`.
pub open spec fn write_request(
    fs: FsView,
    path: Seq<char>,
    call: spec_fn(Seq<char>) -> CallView,
) -> Result<RequestView, ErrorView> {
    if fs.read_only {
        Err(ErrorView::ReadOnly)
    } else {
        match make_path_of(fs.id, path) {
            Ok(full) => Ok(RequestView { call: call(full), path }),
            Err(e) => Err(e),
        }
    }
}

/// The request of an operation that writes at two paths: refused on a
/// read-only mount; otherwise the call that `call` makes of both full paths
/// (the first path's error, if any, comes first), with errors reported
/// against the first path.
pub open spec fn write_request2(
    fs: FsView,
    p1: Seq<char>,
    p2: Seq<char>,
    call: spec_fn(Seq<char>, Seq<char>) -> CallView,
) -> Result<RequestView, ErrorView> {
    if fs.read_only {
        Err(ErrorView::ReadOnly)
    } else {
        match make_path_of(fs.id, p1) {
            Err(e) => Err(e),
            Ok(f1) => match make_path_of(fs.id, p2) {
                Err(e) => Err(e),
                Ok(f2) => Ok(RequestView { call: call(f1, f2), path: p1 }),
            },
        }
    }
}

/// The request of an operation that writes an extended attribute `name` at
/// `path`: refused on a read-only mount; then the path is composed, then a
/// name holding a NUL is rejected with an invalid-argument error naming it.
pub open spec fn xattr_write_request(
    fs: FsView,
    path: Seq<char>,
    name: Seq<char>,
    call: spec_fn(Seq<char>) -> CallView,
) -> Result<RequestView, ErrorView> {
    if fs.read_only {
        Err(ErrorView::ReadOnly)
    } else {
        match make_path_of(fs.id, path) {
            Err(e) => Err(e),
            Ok(full) => if name.contains('\0') {
                Err(ErrorView::InvalidArgument(name))
            } else {
                Ok(RequestView { call: call(full), path })
            },
        }
    }
}

/// On a read-only mount every operation that writes at a path is refused
/// with the read-only error, before its path is even looked at.
pub proof fn lemma_read_only_refuses_writes(
    fs: FsView,
    path: Seq<char>,
    other: Seq<char>,
    name: Seq<char>,
    call: spec_fn(Seq<char>) -> CallView,
    call2: spec_fn(Seq<char>, Seq<char>) -> CallView,
)
    requires
        fs.read_only,
    ensures
        write_request(fs, path, call) == Err::<RequestView, ErrorView>(ErrorView::ReadOnly),
        write_request2(fs, path, other, call2) == Err::<RequestView, ErrorView>(ErrorView::ReadOnly),
        xattr_write_request(fs, path, name, call) == Err::<RequestView, ErrorView>(ErrorView::ReadOnly),
{
}

/// The view of a result that holds a call.
pub open spec fn call_result_view(r: Result<FsCall, Error>) -> Result<CallView, ErrorView> {
    match r {
        Ok(c) => Ok(c@),
        Err(e) => Err(e@),
    }
}

/// The call of an operation that reads at one path: the call that `call`
/// makes of the full path, or the error of composing it.
pub open spec fn read_call(
    fs: FsView,
    path: Seq<char>,
    call: spec_fn(Seq<char>) -> CallView,
) -> Result<CallView, ErrorView> {
    match make_path_of(fs.id, path) {
        Ok(full) => Ok(call(full)),
        Err(e) => Err(e),
    }
}

/// The size of the buffer that a symbolic link's target is read into.
pub const READLINK_BUF_SIZE: usize = 4096;

/// Mode bits that give a file's type.
pub const S_IFMT: u32 = 0o170000;

/// The file type that the type bits of an inode mode denote.
pub open spec fn file_type_of_mode(mode: u32) -> FileType {
    let t = mode & S_IFMT;
    if t == 0o100000 {
        FileType::RegularFile
    } else if t == 0o040000 {
        FileType::Directory
    } else if t == 0o120000 {
        FileType::Symlink
    } else if t == 0o060000 {
        FileType::BlockDevice
    } else if t == 0o020000 {
        FileType::CharDevice
    } else if t == 0o010000 {
        FileType::Fifo
    } else if t == 0o140000 {
        FileType::Socket
    } else {
        FileType::Unknown
    }
}

/// The type of a file from its inode mode.
pub fn file_type_from_mode(mode: u32) -> (r: FileType)
    ensures
        r == file_type_of_mode(mode),
{
    match mode & S_IFMT {
        0o100000 => FileType::RegularFile,
        0o040000 => FileType::Directory,
        0o120000 => FileType::Symlink,
        0o060000 => FileType::BlockDevice,
        0o020000 => FileType::CharDevice,
        0o010000 => FileType::Fifo,
        0o140000 => FileType::Socket,
        _ => FileType::Unknown,
    }
}

/// The length of a NUL-terminated name in a fixed buffer: the position of
/// its first NUL byte, or the whole buffer if it has none.
pub open spec fn nul_terminated_len(bytes: Seq<u8>) -> int {
    if exists|i: int| 0 <= i < bytes.len() && bytes[i] == 0 {
        choose|i: int|
            0 <= i < bytes.len() && bytes[i] == 0 && forall|j: int| 0 <= j < i ==> bytes[j] != 0
    } else {
        bytes.len() as int
    }
}

/// The volume name that a filesystem statistics record holds: its bytes up to
/// the first NUL, decoded as UTF-8 with invalid sequences replaced.
pub open spec fn volume_name_of(stats: sys::ext4_mount_stats) -> Seq<char> {
    utf8_lossy(stats.volume_name@.subrange(0, nul_terminated_len(stats.volume_name@)))
}

/// The filesystem statistics that a statistics record reports.
pub open spec fn fs_stats_match(r: FsStats, stats: sys::ext4_mount_stats) -> bool {
    &&& r.block_size == stats.block_size
    &&& r.total_blocks == stats.blocks_count
    &&& r.free_blocks == stats.free_blocks_count
    &&& r.total_inodes == stats.inodes_count as u64
    &&& r.free_inodes == stats.free_inodes_count as u64
    &&& r.block_group_count == stats.block_group_count
    &&& r.blocks_per_group == stats.blocks_per_group
    &&& r.inodes_per_group == stats.inodes_per_group
    &&& r.volume_name@ == volume_name_of(stats)
}

/// The metadata assembled from what lwext4 reports of an inode: the type and
/// permission bits of its mode, its owner, its three times, its link count
/// and allocated block count, and its size (zero when none was read).
pub open spec fn metadata_value(
    mode: u32,
    uid: u32,
    gid: u32,
    atime: u32,
    mtime: u32,
    ctime: u32,
    nlink: u32,
    blocks: u64,
    size: Option<u64>,
) -> Metadata {
    Metadata {
        file_type: file_type_of_mode(mode),
        size: match size {
            Some(s) => s,
            None => 0,
        },
        blocks,
        mode: mode & 0o7777,
        uid,
        gid,
        atime: atime as u64,
        mtime: mtime as u64,
        ctime: ctime as u64,
        nlink,
    }
}

/// The number of bytes of an on-disk ext4 inode that hold its link count and
/// allocated block count (those fields end at byte 118).
pub const INODE_COUNTS_LEN: usize = 118;

/// The size of lwext4's in-memory copy of an on-disk inode.
pub const INODE_RAW_SIZE: usize = 160;

/// The little-endian 16-bit value at byte `at`.
pub open spec fn le_u16(b: Seq<u8>, at: int) -> int {
    b[at] + 256 * b[at + 1]
}

/// The little-endian 32-bit value at byte `at`.
pub open spec fn le_u32(b: Seq<u8>, at: int) -> int {
    le_u16(b, at) + 65536 * le_u16(b, at + 2)
}

/// The hard-link count of an on-disk ext4 inode (`i_links_count`, bytes
/// 26..28).
pub open spec fn inode_links(raw: Seq<u8>) -> int {
    le_u16(raw, 26)
}

/// The allocated block count of an on-disk ext4 inode, in the units the
/// inode stores it: `i_blocks_lo` (bytes 28..32) plus `l_i_blocks_high`
/// (bytes 116..118) shifted by 32 bits.
pub open spec fn inode_blocks(raw: Seq<u8>) -> int {
    le_u32(raw, 28) + 0x1_0000_0000 * le_u16(raw, 116)
}

/// Read the link count and allocated block count from an on-disk inode.
pub fn inode_counts(raw: &[u8]) -> (r: (u32, u64))
    requires
        raw@.len() >= INODE_COUNTS_LEN,
    ensures
        r.0 == inode_links(raw@),
        r.1 == inode_blocks(raw@),
{
    let links: u32 = raw[26] as u32 + 256 * raw[27] as u32;
    let lo: u64 = raw[28] as u64 + 256 * raw[29] as u64 + 65536 * (raw[30] as u64 + 256
        * raw[31] as u64);
    let hi: u64 = raw[116] as u64 + 256 * raw[117] as u64;
    (links, lo + 0x1_0000_0000 * hi)
}

impl Ext4Fs {
    /// The device name and mount point agree with the mount number.
    #[verifier::type_invariant]
    spec fn names_match(self) -> bool {
        &&& self.device_name@ == device_name_of(self.id)
        &&& self.mount_point@ == mount_point_of(self.id)
    }

    /// The mounted filesystem of mount number `id`.
    pub(crate) fn from_parts(id: u64, device_name: String, mount_point: String, read_only: bool, journal_active: bool) -> (r: Ext4Fs)
        requires
            device_name@ == device_name_of(id),
            mount_point@ == mount_point_of(id),
        ensures
            r@ == (FsView { id, read_only, journal_active }),
    {
        Ext4Fs { id, device_name, mount_point, read_only, journal_active }
    }

    /// The mount point path used internally.
    pub fn mount_point(&self) -> (r: &str)
        ensures
            r@ == mount_point_of(self@.id),
    {
        proof {
            use_type_invariant(self);
        }
        self.mount_point.as_str()
    }

    /// The name under which the device is registered.
    pub fn device_name(&self) -> (r: &str)
        ensures
            r@ == device_name_of(self@.id),
    {
        proof {
            use_type_invariant(self);
        }
        self.device_name.as_str()
    }

    /// The mount number.
    pub fn id(&self) -> (r: u64)
        ensures
            r == self@.id,
    {
        self.id
    }

    /// Check if filesystem is mounted read-only.
    pub fn is_read_only(&self) -> (r: bool)
        ensures
            r == self@.read_only,
    {
        self.read_only
    }

    /// Whether the journal was started at mount.
    pub fn journal_active(&self) -> (r: bool)
        ensures
            r == self@.journal_active,
    {
        self.journal_active
    }

    /// Create a full path by prepending the mount point (after removing a
    /// leading `/`).
    pub fn make_path(&self, path: &str) -> (r: Result<String, Error>)
        ensures
            string_result_view(r) == make_path_of(self@.id, path@),
    {
        proof {
            use_type_invariant(self);
        }
        compose_path(Ghost(self.id), &self.mount_point, path)
    }

    /// Remove a file.
    pub fn remove(&self, path: &str) -> (r: Result<Request, Error>)
        ensures
            request_result_view(r) == write_request(
                self@,
                path@,
                |full: Seq<char>| CallView::FRemove { path: full },
            ),
    {
        if self.read_only {
            return Err(Error::ReadOnly);
        }
        let full = self.make_path(path)?;
        Ok(Request { call: FsCall::FRemove { path: full }, path: path.to_owned() })
    }

    /// Remove a directory (recursively).
    pub fn rmdir(&self, path: &str) -> (r: Result<Request, Error>)
        ensures
            request_result_view(r) == write_request(
                self@,
                path@,
                |full: Seq<char>| CallView::DirRm { path: full },
            ),
    {
        if self.read_only {
            return Err(Error::ReadOnly);
        }
        let full = self.make_path(path)?;
        Ok(Request { call: FsCall::DirRm { path: full }, path: path.to_owned() })
    }

    /// Rename a file or directory.
    pub fn rename(&self, from: &str, to: &str) -> (r: Result<Request, Error>)
        ensures
            request_result_view(r) == write_request2(
                self@,
                from@,
                to@,
                |f: Seq<char>, t: Seq<char>| CallView::FRename { path: f, new_path: t },
            ),
    {
        if self.read_only {
            return Err(Error::ReadOnly);
        }
        let from_path = self.make_path(from)?;
        let to_path = self.make_path(to)?;
        Ok(Request {
            call: FsCall::FRename { path: from_path, new_path: to_path },
            path: from.to_owned(),
        })
    }

    /// Create a hard link.
    pub fn link(&self, src: &str, dst: &str) -> (r: Result<Request, Error>)
        ensures
            request_result_view(r) == write_request2(
                self@,
                src@,
                dst@,
                |s: Seq<char>, d: Seq<char>| CallView::FLink { path: s, hardlink_path: d },
            ),
    {
        if self.read_only {
            return Err(Error::ReadOnly);
        }
        let src_path = self.make_path(src)?;
        let dst_path = self.make_path(dst)?;
        Ok(Request {
            call: FsCall::FLink { path: src_path, hardlink_path: dst_path },
            path: src.to_owned(),
        })
    }

    /// Create a symbolic link at `path` that points to `target`.
    ///
    /// The target is passed as given (it is not a path under the mount point);
    /// one that holds a NUL is rejected before the link's path is composed.
    pub fn symlink(&self, target: &str, path: &str) -> (r: Result<Request, Error>)
        ensures
            request_result_view(r) == if self@.read_only {
                Err(ErrorView::ReadOnly)
            } else if target@.contains('\0') {
                Err(ErrorView::InvalidArgument(target@))
            } else {
                match make_path_of(self@.id, path@) {
                    Ok(full) => Ok(
                        RequestView {
                            call: CallView::FSymlink { target: target@, path: full },
                            path: path@,
                        },
                    ),
                    Err(e) => Err(e),
                }
            },
    {
        if self.read_only {
            return Err(Error::ReadOnly);
        }
        if has_nul(target) {
            return Err(Error::InvalidArgument(target.to_owned()));
        }
        let full = self.make_path(path)?;
        Ok(Request {
            call: FsCall::FSymlink { target: target.to_owned(), path: full },
            path: path.to_owned(),
        })
    }

    /// Set file permissions.
    pub fn set_permissions(&self, path: &str, mode: u32) -> (r: Result<Request, Error>)
        ensures
            request_result_view(r) == write_request(
                self@,
                path@,
                |full: Seq<char>| CallView::ModeSet { path: full, mode },
            ),
    {
        if self.read_only {
            return Err(Error::ReadOnly);
        }
        let full = self.make_path(path)?;
        Ok(Request { call: FsCall::ModeSet { path: full, mode }, path: path.to_owned() })
    }

    /// Set file owner.
    pub fn set_owner(&self, path: &str, uid: u32, gid: u32) -> (r: Result<Request, Error>)
        ensures
            request_result_view(r) == write_request(
                self@,
                path@,
                |full: Seq<char>| CallView::OwnerSet { path: full, uid, gid },
            ),
    {
        if self.read_only {
            return Err(Error::ReadOnly);
        }
        let full = self.make_path(path)?;
        Ok(Request { call: FsCall::OwnerSet { path: full, uid, gid }, path: path.to_owned() })
    }

    fn set_time(&self, path: &str, field: TimeField, time: u32) -> (r: Result<Request, Error>)
        ensures
            request_result_view(r) == write_request(
                self@,
                path@,
                |full: Seq<char>| CallView::TimeSet { path: full, field, time },
            ),
    {
        if self.read_only {
            return Err(Error::ReadOnly);
        }
        let full = self.make_path(path)?;
        Ok(Request { call: FsCall::TimeSet { path: full, field, time }, path: path.to_owned() })
    }

    /// Set the modification time (seconds since the Unix epoch).
    pub fn set_mtime(&self, path: &str, mtime: u32) -> (r: Result<Request, Error>)
        ensures
            request_result_view(r) == write_request(
                self@,
                path@,
                |full: Seq<char>|
                    CallView::TimeSet { path: full, field: TimeField::Modification, time: mtime },
            ),
    {
        self.set_time(path, TimeField::Modification, mtime)
    }

    /// Set the access time (seconds since the Unix epoch).
    pub fn set_atime(&self, path: &str, atime: u32) -> (r: Result<Request, Error>)
        ensures
            request_result_view(r) == write_request(
                self@,
                path@,
                |full: Seq<char>|
                    CallView::TimeSet { path: full, field: TimeField::Access, time: atime },
            ),
    {
        self.set_time(path, TimeField::Access, atime)
    }

    /// Set the inode change time (seconds since the Unix epoch).
    pub fn set_ctime(&self, path: &str, ctime: u32) -> (r: Result<Request, Error>)
        ensures
            request_result_view(r) == write_request(
                self@,
                path@,
                |full: Seq<char>|
                    CallView::TimeSet { path: full, field: TimeField::Change, time: ctime },
            ),
    {
        self.set_time(path, TimeField::Change, ctime)
    }

    /// Flush all pending writes to disk. Errors name no path.
    pub fn sync(&self) -> (r: Request)
        ensures
            r@ == (RequestView {
                call: CallView::CacheFlush { mount_point: mount_point_of(self@.id) },
                path: Seq::empty(),
            }),
    {
        proof {
            use_type_invariant(self);
        }
        let empty = "";
        proof {
            reveal_strlit("");
            assert(empty@ =~= Seq::<char>::empty());
        }
        Request {
            call: FsCall::CacheFlush { mount_point: self.mount_point.clone() },
            path: empty.to_owned(),
        }
    }

    /// Set an extended attribute on `path`.
    ///
    /// `name` is the full xattr name including the namespace prefix
    /// (e.g. `system.posix_acl_access`, `security.capability`, `user.mykey`).
    pub fn set_xattr(&self, path: &str, name: &str, value: &[u8]) -> (r: Result<Request, Error>)
        ensures
            request_result_view(r) == xattr_write_request(
                self@,
                path@,
                name@,
                |full: Seq<char>| CallView::SetXattr { path: full, name: name@, value: value@ },
            ),
    {
        if self.read_only {
            return Err(Error::ReadOnly);
        }
        let full = self.make_path(path)?;
        if has_nul(name) {
            return Err(Error::InvalidArgument(name.to_owned()));
        }
        Ok(Request {
            call: FsCall::SetXattr {
                path: full,
                name: name.to_owned(),
                value: vstd::slice::slice_to_vec(value),
            },
            path: path.to_owned(),
        })
    }

    /// Remove an extended attribute from `path`.
    pub fn remove_xattr(&self, path: &str, name: &str) -> (r: Result<Request, Error>)
        ensures
            request_result_view(r) == xattr_write_request(
                self@,
                path@,
                name@,
                |full: Seq<char>| CallView::RemoveXattr { path: full, name: name@ },
            ),
    {
        if self.read_only {
            return Err(Error::ReadOnly);
        }
        let full = self.make_path(path)?;
        if has_nul(name) {
            return Err(Error::InvalidArgument(name.to_owned()));
        }
        Ok(Request {
            call: FsCall::RemoveXattr { path: full, name: name.to_owned() },
            path: path.to_owned(),
        })
    }

    /// Read the target of a symbolic link: the call that reads it into a
    /// buffer of `READLINK_BUF_SIZE` bytes.
    pub fn readlink(&self, path: &str) -> (r: Result<FsCall, Error>)
        ensures
            call_result_view(r) == read_call(
                self@,
                path@,
                |full: Seq<char>| CallView::Readlink { path: full, buf_size: READLINK_BUF_SIZE },
            ),
    {
        let full = self.make_path(path)?;
        Ok(FsCall::Readlink { path: full, buf_size: READLINK_BUF_SIZE })
    }

    /// The call that asks whether a path exists and is a regular file, or
    /// `None` (the answer being no) if the path cannot be composed. The path
    /// is a regular file exactly when the call returns zero.
    pub fn is_file(&self, path: &str) -> (r: Option<FsCall>)
        ensures
            match make_path_of(self@.id, path@) {
                Ok(full) => r matches Some(c) && c@ == (CallView::InodeExist {
                    path: full,
                    inode_type: file_type_raw(FileType::RegularFile) as i32,
                }),
                Err(_) => r is None,
            },
    {
        match self.make_path(path) {
            Ok(full) => Some(
                FsCall::InodeExist { path: full, inode_type: FileType::RegularFile.to_raw() as i32 },
            ),
            Err(_) => None,
        }
    }

    /// The call that asks whether a path exists and is a directory, or `None`
    /// (the answer being no) if the path cannot be composed. The path is a
    /// directory exactly when the call returns zero.
    pub fn is_dir(&self, path: &str) -> (r: Option<FsCall>)
        ensures
            match make_path_of(self@.id, path@) {
                Ok(full) => r matches Some(c) && c@ == (CallView::InodeExist {
                    path: full,
                    inode_type: file_type_raw(FileType::Directory) as i32,
                }),
                Err(_) => r is None,
            },
    {
        match self.make_path(path) {
            Ok(full) => Some(
                FsCall::InodeExist { path: full, inode_type: FileType::Directory.to_raw() as i32 },
            ),
            Err(_) => None,
        }
    }

    /// Get filesystem statistics: the call that reads them.
    pub fn stat(&self) -> (r: FsCall)
        ensures
            r@ == (CallView::MountPointStats { mount_point: mount_point_of(self@.id) }),
    {
        proof {
            use_type_invariant(self);
        }
        FsCall::MountPointStats { mount_point: self.mount_point.clone() }
    }
}

/// Statistics that match a record copy each count from the record's field of
/// the same meaning: block size, block and inode totals and free counts, and
/// the group geometry (group count, blocks per group, inodes per group).
pub proof fn lemma_stats_fields_copied(r: FsStats, stats: sys::ext4_mount_stats)
    requires
        fs_stats_match(r, stats),
    ensures
        r.block_size == stats.block_size,
        r.total_blocks == stats.blocks_count,
        r.free_blocks == stats.free_blocks_count,
        r.total_inodes == stats.inodes_count,
        r.free_inodes == stats.free_inodes_count,
        r.block_group_count == stats.block_group_count,
        r.blocks_per_group == stats.blocks_per_group,
        r.inodes_per_group == stats.inodes_per_group,
{
}

/// Metadata reports the permission bits of the inode mode unchanged: its
/// mode is below `0o10000` and agrees with the inode mode in each of the low
/// twelve bits, so the setuid (`0o4000`), setgid (`0o2000`) and sticky
/// (`0o1000`) bits and the nine access bits all come through; and every other
/// value read lands in its own field.
pub proof fn lemma_metadata_fields(
    mode: u32,
    uid: u32,
    gid: u32,
    atime: u32,
    mtime: u32,
    ctime: u32,
    nlink: u32,
    blocks: u64,
    size: Option<u64>,
)
    ensures
        ({
            let m = metadata_value(mode, uid, gid, atime, mtime, ctime, nlink, blocks, size);
            &&& m.mode < 4096
            &&& m.mode % 4096 == mode % 4096
            &&& (m.mode & 0o4000 != 0) == (mode & 0o4000 != 0)
            &&& (m.mode & 0o2000 != 0) == (mode & 0o2000 != 0)
            &&& (m.mode & 0o1000 != 0) == (mode & 0o1000 != 0)
            &&& m.mode & 0o777 == mode & 0o777
            &&& m.uid == uid
            &&& m.gid == gid
            &&& m.atime == atime
            &&& m.mtime == mtime
            &&& m.ctime == ctime
            &&& m.nlink == nlink
            &&& m.blocks == blocks
            &&& (size matches Some(n) ==> m.size == n)
            &&& (size is None ==> m.size == 0)
        }),
{
    let m = metadata_value(mode, uid, gid, atime, mtime, ctime, nlink, blocks, size);
    let p = m.mode;
    assert(p == mode & 0o7777);
    assert(p == mode & 0o7777 ==> {
        &&& p < 4096
        &&& p % 4096 == mode % 4096
        &&& (p & 0o4000 != 0) == (mode & 0o4000 != 0)
        &&& (p & 0o2000 != 0) == (mode & 0o2000 != 0)
        &&& (p & 0o1000 != 0) == (mode & 0o1000 != 0)
        &&& p & 0o777 == mode & 0o777
    }) by (bit_vector);
}

/// The answer to whether a path exists with the asked type, given the
/// return code of the existence call, or `None` when no call was made
/// because the path cannot be composed: yes exactly when the call returned
/// zero.
pub fn inode_exist_answer(ret: Option<i32>) -> (r: bool)
    ensures
        r == (ret == Some(0i32)),
{
    match ret {
        Some(code) => code == 0,
        None => false,
    }
}

/// The answer to whether a path exists, given the outcome of reading its
/// metadata: yes exactly when the reading succeeded.
pub fn exists_answer(metadata: &Result<Metadata, Error>) -> (r: bool)
    ensures
        r == metadata is Ok,
{
    metadata.is_ok()
}

/// Interpret the reading of a symbolic link: the first `rcnt` bytes of the
/// buffer (all of it if `rcnt` is larger) decoded as UTF-8.
pub fn readlink_result(ret: i32, buf: Vec<u8>, rcnt: usize, path: &str) -> (r: Result<String, Error>)
    ensures
        ({
            let target = if rcnt < buf@.len() {
                buf@.subrange(0, rcnt as int)
            } else {
                buf@
            };
            string_result_view(r) == if ret != 0 {
                Err(errno_error(ret, path@))
            } else if valid_utf8(target) {
                Ok(decode_utf8(target))
            } else {
                Err(ErrorView::InvalidArgument("invalid UTF-8 in symlink"@))
            }
        }),
{
    if ret != 0 {
        return Err(Error::from_errno_with_path(ret, path));
    }
    let mut buf = buf;
    let ghost whole = buf@;
    buf.truncate(rcnt);
    assert(buf@ =~= if rcnt < whole.len() {
        whole.subrange(0, rcnt as int)
    } else {
        whole
    });
    match string_from_utf8(buf) {
        Some(s) => Ok(s),
        None => Err(Error::InvalidArgument("invalid UTF-8 in symlink".to_owned())),
    }
}

/// The length of the NUL-terminated name in a buffer.
pub fn nul_terminated_length(bytes: &[u8]) -> (r: usize)
    ensures
        r == nul_terminated_len(bytes@),
        r <= bytes@.len(),
        forall|j: int| 0 <= j < r ==> bytes@[j] != 0,
        r < bytes@.len() ==> bytes@[r as int] == 0,
{
    let mut i: usize = 0;
    while i < bytes.len()
        invariant
            i <= bytes@.len(),
            forall|j: int| 0 <= j < i ==> bytes@[j] != 0,
        decreases bytes.len() - i,
    {
        if bytes[i] == 0 {
            assert(bytes@[i as int] == 0);
            let ghost k = choose|k: int|
                0 <= k < bytes@.len() && bytes@[k] == 0 && forall|j: int|
                    0 <= j < k ==> bytes@[j] != 0;
            assert(k == i) by {
                if k < i {
                    assert(bytes@[k] != 0);
                }
                if k > i {
                    assert(bytes@[i as int] != 0);
                }
            }
            return i;
        }
        i = i + 1;
    }
    i
}

/// Interpret the reading of filesystem statistics.
pub fn stat_result(ret: i32, stats: &sys::ext4_mount_stats) -> (r: Result<FsStats, Error>)
    ensures
        match r {
            Ok(s) => ret == 0 && fs_stats_match(s, *stats),
            Err(e) => ret != 0 && e@ == errno_error(ret, Seq::empty()),
        },
        ret == 0 ==> (r matches Ok(s) && s.block_size == stats.block_size && s.total_blocks
            == stats.blocks_count && s.free_blocks == stats.free_blocks_count && s.total_inodes
            == stats.inodes_count && s.free_inodes == stats.free_inodes_count
            && s.block_group_count == stats.block_group_count && s.blocks_per_group
            == stats.blocks_per_group && s.inodes_per_group == stats.inodes_per_group),
{
    check_errno(ret)?;
    let len = nul_terminated_length(&stats.volume_name);
    let mut name_bytes: Vec<u8> = Vec::new();
    let mut i: usize = 0;
    while i < len
        invariant
            len <= stats.volume_name@.len(),
            i <= len,
            name_bytes@ == stats.volume_name@.subrange(0, i as int),
        decreases len - i,
    {
        name_bytes.push(stats.volume_name[i]);
        i = i + 1;
        assert(name_bytes@ =~= stats.volume_name@.subrange(0, i as int));
    }
    let volume_name = string_from_utf8_lossy(name_bytes.as_slice());
    Ok(FsStats {
        block_size: stats.block_size,
        total_blocks: stats.blocks_count,
        free_blocks: stats.free_blocks_count,
        total_inodes: stats.inodes_count as u64,
        free_inodes: stats.free_inodes_count as u64,
        block_group_count: stats.block_group_count,
        blocks_per_group: stats.blocks_per_group,
        inodes_per_group: stats.inodes_per_group,
        volume_name,
    })
}

impl Metadata {
    /// Assemble metadata from what lwext4 reported of an inode.
    pub fn from_raw(
        mode: u32,
        uid: u32,
        gid: u32,
        atime: u32,
        mtime: u32,
        ctime: u32,
        nlink: u32,
        blocks: u64,
        size: Option<u64>,
    ) -> (r: Metadata)
        ensures
            r == metadata_value(mode, uid, gid, atime, mtime, ctime, nlink, blocks, size),
    {
        Metadata {
            file_type: file_type_from_mode(mode),
            size: match size {
                Some(s) => s,
                None => 0,
            },
            blocks,
            mode: mode & 0o7777,
            uid,
            gid,
            atime: atime as u64,
            mtime: mtime as u64,
            ctime: ctime as u64,
            nlink,
        }
    }
}

} // verus!
