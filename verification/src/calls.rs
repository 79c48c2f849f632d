//! The lwext4 calls that the filesystem operations ask their caller to make,
//! and single-call requests with the path their errors report.
use crate::error::{check_errno_with_path, errno_result, unit_result_view, Error, ErrorView};
use vstd::prelude::*;

verus! {

/// Which of an inode's three timestamps a call reads or writes.
#[derive(Debug, Clone, Copy, PartialEq, Eq, Structural)]
pub enum TimeField {
    /// Access time
    Access,
    /// Modification time
    Modification,
    /// Inode change time
    Change,
}

/// A call into lwext4, with the arguments to pass. Paths are full lwext4
/// paths (under the mount point) and hold no NUL character; names hold no
/// NUL character either, so each can be passed as a C string.
#[derive(Debug, Clone, PartialEq, Eq)]
pub enum FsCall {
    /// `ext4_device_register(bdev, device_name)`
    DeviceRegister { device_name: String },
    /// `ext4_mount(device_name, mount_point, read_only)`
    Mount { device_name: String, mount_point: String, read_only: bool },
    /// `ext4_device_unregister(device_name)`
    DeviceUnregister { device_name: String },
    /// `ext4_recover(mount_point)`
    Recover { mount_point: String },
    /// `ext4_journal_start(mount_point)`
    JournalStart { mount_point: String },
    /// `ext4_journal_stop(mount_point)`
    JournalStop { mount_point: String },
    /// `ext4_cache_flush(mount_point)`
    CacheFlush { mount_point: String },
    /// `ext4_umount(mount_point)`
    Umount { mount_point: String },
    /// `ext4_mount_point_stats(mount_point, &stats)`
    MountPointStats { mount_point: String },
    /// `ext4_dir_mk(path)`
    DirMk { path: String },
    /// `ext4_fremove(path)`
    FRemove { path: String },
    /// `ext4_dir_rm(path)`
    DirRm { path: String },
    /// `ext4_frename(path, new_path)`
    FRename { path: String, new_path: String },
    /// `ext4_flink(path, hardlink_path)`
    FLink { path: String, hardlink_path: String },
    /// `ext4_fsymlink(target, path)`
    FSymlink { target: String, path: String },
    /// `ext4_readlink(path, buf, buf_size, &rcnt)` into a buffer of `buf_size` bytes
    Readlink { path: String, buf_size: usize },
    /// `ext4_inode_exist(path, inode_type)`
    InodeExist { path: String, inode_type: i32 },
    /// `ext4_mode_get(path, &mode)`
    ModeGet { path: String },
    /// `ext4_mode_set(path, mode)`
    ModeSet { path: String, mode: u32 },
    /// `ext4_owner_get(path, &uid, &gid)`
    OwnerGet { path: String },
    /// `ext4_owner_set(path, uid, gid)`
    OwnerSet { path: String, uid: u32, gid: u32 },
    /// `ext4_{a,m,c}time_get(path, &time)`
    TimeGet { path: String, field: TimeField },
    /// `ext4_{a,m,c}time_set(path, time)`
    TimeSet { path: String, field: TimeField, time: u32 },
    /// `ext4_raw_inode_fill(path, &ino, &inode)`: copy the path's on-disk
    /// inode into a buffer of `INODE_RAW_SIZE` bytes
    InodeRaw { path: String },
    /// Open the file with `ext4_fopen2(&file, path, flags)`; on success read
    /// `ext4_fsize(&file)` and close it.
    FileSize { path: String, flags: i32 },
    /// `ext4_file_get_extents(path, out, cap, &count, &block_size)` with room
    /// for `cap` extents (no buffer when `cap` is zero)
    GetExtents { path: String, cap: u32 },
    /// `ext4_setxattr(path, name, name_len, value, value_len)`
    SetXattr { path: String, name: String, value: Vec<u8> },
    /// `ext4_getxattr(path, name, name_len, buf, buf_size, &data_size)` into a
    /// buffer of `buf_size` bytes (no buffer when it is zero)
    GetXattr { path: String, name: String, buf_size: usize },
    /// `ext4_listxattr(path, buf, buf_size, &ret_size)` into a buffer of
    /// `buf_size` bytes (no buffer when it is zero)
    ListXattr { path: String, buf_size: usize },
    /// `ext4_removexattr(path, name, name_len)`
    RemoveXattr { path: String, name: String },
}

/// The mathematical value of a call: strings as character sequences and
/// byte vectors as byte sequences.
pub ghost enum CallView {
    DeviceRegister { device_name: Seq<char> },
    Mount { device_name: Seq<char>, mount_point: Seq<char>, read_only: bool },
    DeviceUnregister { device_name: Seq<char> },
    Recover { mount_point: Seq<char> },
    JournalStart { mount_point: Seq<char> },
    JournalStop { mount_point: Seq<char> },
    CacheFlush { mount_point: Seq<char> },
    Umount { mount_point: Seq<char> },
    MountPointStats { mount_point: Seq<char> },
    DirMk { path: Seq<char> },
    FRemove { path: Seq<char> },
    DirRm { path: Seq<char> },
    FRename { path: Seq<char>, new_path: Seq<char> },
    FLink { path: Seq<char>, hardlink_path: Seq<char> },
    FSymlink { target: Seq<char>, path: Seq<char> },
    Readlink { path: Seq<char>, buf_size: usize },
    InodeExist { path: Seq<char>, inode_type: i32 },
    ModeGet { path: Seq<char> },
    ModeSet { path: Seq<char>, mode: u32 },
    OwnerGet { path: Seq<char> },
    OwnerSet { path: Seq<char>, uid: u32, gid: u32 },
    TimeGet { path: Seq<char>, field: TimeField },
    TimeSet { path: Seq<char>, field: TimeField, time: u32 },
    InodeRaw { path: Seq<char> },
    FileSize { path: Seq<char>, flags: i32 },
    GetExtents { path: Seq<char>, cap: u32 },
    SetXattr { path: Seq<char>, name: Seq<char>, value: Seq<u8> },
    GetXattr { path: Seq<char>, name: Seq<char>, buf_size: usize },
    ListXattr { path: Seq<char>, buf_size: usize },
    RemoveXattr { path: Seq<char>, name: Seq<char> },
}

impl View for FsCall {
    type V = CallView;

    open spec fn view(&self) -> CallView {
        match self {
            FsCall::DeviceRegister { device_name } => CallView::DeviceRegister {
                device_name: device_name@,
            },
            FsCall::Mount { device_name, mount_point, read_only } => CallView::Mount {
                device_name: device_name@,
                mount_point: mount_point@,
                read_only: *read_only,
            },
            FsCall::DeviceUnregister { device_name } => CallView::DeviceUnregister {
                device_name: device_name@,
            },
            FsCall::Recover { mount_point } => CallView::Recover { mount_point: mount_point@ },
            FsCall::JournalStart { mount_point } => CallView::JournalStart {
                mount_point: mount_point@,
            },
            FsCall::JournalStop { mount_point } => CallView::JournalStop {
                mount_point: mount_point@,
            },
            FsCall::CacheFlush { mount_point } => CallView::CacheFlush {
                mount_point: mount_point@,
            },
            FsCall::Umount { mount_point } => CallView::Umount { mount_point: mount_point@ },
            FsCall::MountPointStats { mount_point } => CallView::MountPointStats {
                mount_point: mount_point@,
            },
            FsCall::DirMk { path } => CallView::DirMk { path: path@ },
            FsCall::FRemove { path } => CallView::FRemove { path: path@ },
            FsCall::DirRm { path } => CallView::DirRm { path: path@ },
            FsCall::FRename { path, new_path } => CallView::FRename {
                path: path@,
                new_path: new_path@,
            },
            FsCall::FLink { path, hardlink_path } => CallView::FLink {
                path: path@,
                hardlink_path: hardlink_path@,
            },
            FsCall::FSymlink { target, path } => CallView::FSymlink {
                target: target@,
                path: path@,
            },
            FsCall::Readlink { path, buf_size } => CallView::Readlink {
                path: path@,
                buf_size: *buf_size,
            },
            FsCall::InodeExist { path, inode_type } => CallView::InodeExist {
                path: path@,
                inode_type: *inode_type,
            },
            FsCall::ModeGet { path } => CallView::ModeGet { path: path@ },
            FsCall::ModeSet { path, mode } => CallView::ModeSet { path: path@, mode: *mode },
            FsCall::OwnerGet { path } => CallView::OwnerGet { path: path@ },
            FsCall::OwnerSet { path, uid, gid } => CallView::OwnerSet {
                path: path@,
                uid: *uid,
                gid: *gid,
            },
            FsCall::TimeGet { path, field } => CallView::TimeGet { path: path@, field: *field },
            FsCall::TimeSet { path, field, time } => CallView::TimeSet {
                path: path@,
                field: *field,
                time: *time,
            },
            FsCall::InodeRaw { path } => CallView::InodeRaw { path: path@ },
            FsCall::FileSize { path, flags } => CallView::FileSize { path: path@, flags: *flags },
            FsCall::GetExtents { path, cap } => CallView::GetExtents { path: path@, cap: *cap },
            FsCall::SetXattr { path, name, value } => CallView::SetXattr {
                path: path@,
                name: name@,
                value: value@,
            },
            FsCall::GetXattr { path, name, buf_size } => CallView::GetXattr {
                path: path@,
                name: name@,
                buf_size: *buf_size,
            },
            FsCall::ListXattr { path, buf_size } => CallView::ListXattr {
                path: path@,
                buf_size: *buf_size,
            },
            FsCall::RemoveXattr { path, name } => CallView::RemoveXattr {
                path: path@,
                name: name@,
            },
        }
    }
}

/// A single lwext4 call that completes an operation, together with the user
/// path that an error of the call is reported against (empty when the
/// operation names no path).
#[derive(Debug, Clone, PartialEq, Eq)]
pub struct Request {
    /// The call to make
    pub call: FsCall,
    /// The path an error is reported against
    pub path: String,
}

/// The mathematical value of a request.
pub ghost struct RequestView {
    pub call: CallView,
    pub path: Seq<char>,
}

impl View for Request {
    type V = RequestView;

    open spec fn view(&self) -> RequestView {
        RequestView { call: self.call@, path: self.path@ }
    }
}

/// The view of a result that holds a request.
pub open spec fn request_result_view(r: Result<Request, Error>) -> Result<RequestView, ErrorView> {
    match r {
        Ok(q) => Ok(q@),
        Err(e) => Err(e@),
    }
}

impl Request {
    /// The outcome of the operation, given the return code of its call: zero
    /// is success, anything else the error it stands for, about the
    /// request's path.
    pub fn complete(&self, ret: i32) -> (r: Result<(), Error>)
        ensures
            unit_result_view(r) == errno_result(ret, self.path@),
    {
        check_errno_with_path(ret, self.path.as_str())
    }
}

} // verus!
