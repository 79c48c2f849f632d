//! Operations of several lwext4 calls: creating a directory, enumerating a
//! file's extents, and reading extended attributes, as state machines that
//! say which call to make next given the results of the last one.
use crate::calls::{CallView, FsCall};
use crate::error::{
    check_errno_with_path, errno_error, errno_result, unit_result_view, Error, ErrorView,
};
use crate::fs::{FsView, file_type_of_mode, inode_blocks, inode_counts, inode_links, metadata_value, Ext4Fs, INODE_COUNTS_LEN};
use crate::names::{has_nul, make_path_of};
use crate::sys::ext4_file_extent;
use crate::calls::TimeField;
use crate::types::{open_flags_raw, FileExtent, FileType, Metadata, OpenFlags};
use crate::xattr::{all_valid_utf8, not_utf8_message, nul_chunks, parse_xattr_names};
use vstd::prelude::*;
use vstd::utf8::decode_utf8;

verus! {

/// Where a directory creation stands.
#[derive(Debug, Clone, Copy, PartialEq, Eq, Structural)]
pub enum MkdirStage {
    /// The directory is being created.
    Creating,
    /// Its permissions are being set.
    SettingMode,
}

/// A directory creation in progress.
pub struct MkdirOp {
    path: String,
    full: String,
    mode: u32,
    stage: MkdirStage,
}

/// The mathematical value of a directory creation in progress.
pub ghost struct MkdirOpView {
    pub path: Seq<char>,
    pub full: Seq<char>,
    pub mode: u32,
    pub stage: MkdirStage,
}

impl View for MkdirOp {
    type V = MkdirOpView;

    closed spec fn view(&self) -> MkdirOpView {
        MkdirOpView { path: self.path@, full: self.full@, mode: self.mode, stage: self.stage }
    }
}

/// What a directory creation does next.
pub enum MkdirStep {
    /// Make the call, then resume with its return code.
    Call(MkdirOp, FsCall),
    /// The creation is over, with this outcome.
    Done(Result<(), Error>),
}

/// The mathematical value of what a directory creation does next.
pub ghost enum MkdirOutcome {
    Call(MkdirOpView, CallView),
    Done(Result<(), ErrorView>),
}

/// The view of a directory-creation step.
pub open spec fn mkdir_step_view(s: MkdirStep) -> MkdirOutcome {
    match s {
        MkdirStep::Call(m, c) => MkdirOutcome::Call(m@, c@),
        MkdirStep::Done(r) => MkdirOutcome::Done(unit_result_view(r)),
    }
}

/// The protocol of a directory creation: create the directory, failing if
/// that fails; then, unless the mode is zero, set it as the directory's
/// permissions. Errors are reported against the user path.
pub open spec fn mkdir_next(v: MkdirOpView, ret: i32) -> MkdirOutcome {
    match v.stage {
        MkdirStage::Creating => if ret != 0 {
            MkdirOutcome::Done(Err(errno_error(ret, v.path)))
        } else if v.mode != 0 {
            MkdirOutcome::Call(
                MkdirOpView { stage: MkdirStage::SettingMode, ..v },
                CallView::ModeSet { path: v.full, mode: v.mode },
            )
        } else {
            MkdirOutcome::Done(Ok(()))
        },
        MkdirStage::SettingMode => MkdirOutcome::Done(errno_result(ret, v.path)),
    }
}

/// After the directory is created, a nonzero mode is set exactly as given,
/// on the directory's full path, with the very call that `set_permissions`
/// asks for that path and mode; a zero mode sets nothing; a failed creation
/// ends with its error about the user path.
pub proof fn lemma_mkdir_sets_requested_mode(fs: FsView, v: MkdirOpView, ret: i32)
    requires
        v.stage == MkdirStage::Creating,
        !fs.read_only,
        make_path_of(fs.id, v.path) == Ok::<Seq<char>, ErrorView>(v.full),
    ensures
        ret == 0 && v.mode != 0 ==> (mkdir_next(v, ret) matches MkdirOutcome::Call(w, c) && c == (
        CallView::ModeSet { path: v.full, mode: v.mode }) && w.stage == MkdirStage::SettingMode
            && crate::fs::write_request(
            fs,
            v.path,
            |full: Seq<char>| CallView::ModeSet { path: full, mode: v.mode },
        ) == Ok::<crate::calls::RequestView, ErrorView>(
            crate::calls::RequestView { call: c, path: v.path },
        )),
        ret == 0 && v.mode == 0 ==> mkdir_next(v, ret) == MkdirOutcome::Done(Ok(())),
        ret != 0 ==> mkdir_next(v, ret) == MkdirOutcome::Done(Err(errno_error(ret, v.path))),
{
}

impl MkdirOp {
    /// Continue with the return code of the call asked for.
    pub fn resume(self, ret: i32) -> (r: MkdirStep)
        ensures
            mkdir_step_view(r) == mkdir_next(self@, ret),
    {
        let MkdirOp { path, full, mode, stage } = self;
        match stage {
            MkdirStage::Creating => {
                if ret != 0 {
                    return MkdirStep::Done(Err(Error::from_errno_with_path(ret, path.as_str())));
                }
                if mode != 0 {
                    let call = FsCall::ModeSet { path: full.clone(), mode };
                    MkdirStep::Call(MkdirOp { path, full, mode, stage: MkdirStage::SettingMode }, call)
                } else {
                    MkdirStep::Done(Ok(()))
                }
            },
            MkdirStage::SettingMode => MkdirStep::Done(check_errno_with_path(ret, path.as_str())),
        }
    }
}

/// A file's extent enumeration in progress: the capacity of the buffer of the
/// last call.
pub struct ExtentsQuery {
    path: String,
    full: String,
    cap: u32,
}

/// The mathematical value of an extent enumeration in progress.
pub ghost struct ExtentsQueryView {
    pub path: Seq<char>,
    pub full: Seq<char>,
    pub cap: u32,
}

impl View for ExtentsQuery {
    type V = ExtentsQueryView;

    closed spec fn view(&self) -> ExtentsQueryView {
        ExtentsQueryView { path: self.path@, full: self.full@, cap: self.cap }
    }
}

/// What an extent enumeration does next.
pub enum ExtentsStep {
    /// Make the call, then resume with its results.
    Call(ExtentsQuery, FsCall),
    /// The enumeration is over, with this outcome.
    Done(Result<Vec<FileExtent>, Error>),
}

/// The extent in image bytes of an extent in blocks of `block_size` bytes.
pub open spec fn byte_extent(e: ext4_file_extent, block_size: u32) -> FileExtent {
    FileExtent {
        logical_byte: (e.logical_block * block_size) as u64,
        image_byte: (e.physical_block * block_size) as u64,
        len_bytes: (e.block_count * block_size) as u64,
    }
}

/// Whether every extent's byte offsets and length fit in 64 bits.
pub open spec fn extents_fit(extents: Seq<ext4_file_extent>, block_size: u32) -> bool {
    forall|i: int|
        0 <= i < extents.len() ==> {
            &&& #[trigger] extents[i].logical_block * block_size <= u64::MAX
            &&& extents[i].physical_block * block_size <= u64::MAX
            &&& extents[i].block_count * block_size <= u64::MAX
        }
}

/// The byte extents of extents in blocks of `block_size` bytes.
pub open spec fn byte_extents_match(
    r: Seq<FileExtent>,
    extents: Seq<ext4_file_extent>,
    block_size: u32,
) -> bool {
    &&& r.len() == extents.len()
    &&& forall|i: int| 0 <= i < r.len() ==> #[trigger] r[i] == byte_extent(extents[i], block_size)
}

/// Convert extents in blocks to extents in bytes.
pub fn byte_extents(extents: &[ext4_file_extent], block_size: u32) -> (r: Vec<FileExtent>)
    requires
        extents_fit(extents@, block_size),
    ensures
        byte_extents_match(r@, extents@, block_size),
{
    let bs = block_size as u64;
    let mut out: Vec<FileExtent> = Vec::new();
    let mut i: usize = 0;
    while i < extents.len()
        invariant
            i <= extents@.len(),
            bs == block_size,
            extents_fit(extents@, block_size),
            out@.len() == i,
            forall|j: int| 0 <= j < i ==> #[trigger] out@[j] == byte_extent(extents@[j], block_size),
        decreases extents.len() - i,
    {
        let e = extents[i];
        assert(extents_fit(extents@, block_size));
        out.push(
            FileExtent {
                logical_byte: e.logical_block * bs,
                image_byte: e.physical_block * bs,
                len_bytes: e.block_count * bs,
            },
        );
        i = i + 1;
    }
    out
}

/// Every byte offset and length of a byte extent is a multiple of the block
/// size.
pub proof fn lemma_byte_extent_block_aligned(e: ext4_file_extent, block_size: u32)
    requires
        block_size > 0,
        e.logical_block * block_size <= u64::MAX,
        e.physical_block * block_size <= u64::MAX,
        e.block_count * block_size <= u64::MAX,
    ensures
        (byte_extent(e, block_size).logical_byte as int) % (block_size as int) == 0,
        (byte_extent(e, block_size).image_byte as int) % (block_size as int) == 0,
        (byte_extent(e, block_size).len_bytes as int) % (block_size as int) == 0,
{
    let b = block_size as int;
    vstd::arithmetic::div_mod::lemma_mod_multiples_basic(e.logical_block as int, b);
    vstd::arithmetic::div_mod::lemma_mod_multiples_basic(e.physical_block as int, b);
    vstd::arithmetic::div_mod::lemma_mod_multiples_basic(e.block_count as int, b);
}

impl ExtentsQuery {
    /// Continue with the results of the call asked for: its return code, the
    /// true number of extents, the block size, and the extents it wrote into
    /// its buffer.
    ///
    /// An error code ends the enumeration with that error about the path.
    /// A count larger than the buffer asks for the call again with a buffer
    /// of that count. Otherwise the enumeration ends with the extents in
    /// bytes.
    pub fn resume(self, ret: i32, count: u32, block_size: u32, extents: &[ext4_file_extent]) -> (r: ExtentsStep)
        requires
            ret == 0 && count <= self@.cap ==> extents@.len() == count && extents_fit(
                extents@,
                block_size,
            ),
        ensures
            ret != 0 ==> (r matches ExtentsStep::Done(Err(e)) && e@ == errno_error(ret, self@.path)),
            ret == 0 && count > self@.cap ==> (r matches ExtentsStep::Call(q, c) && q@ == (
            ExtentsQueryView { cap: count, ..self@ }) && c@ == (CallView::GetExtents {
                path: self@.full,
                cap: count,
            })),
            ret == 0 && count <= self@.cap ==> (r matches ExtentsStep::Done(Ok(v)) && byte_extents_match(
                v@,
                extents@,
                block_size,
            )),
    {
        let ExtentsQuery { path, full, cap } = self;
        if ret != 0 {
            return ExtentsStep::Done(Err(Error::from_errno_with_path(ret, path.as_str())));
        }
        if count > cap {
            let call = FsCall::GetExtents { path: full.clone(), cap: count };
            return ExtentsStep::Call(ExtentsQuery { path, full, cap: count }, call);
        }
        ExtentsStep::Done(Ok(byte_extents(extents, block_size)))
    }
}

/// Where the reading of an extended attribute stands.
#[derive(Debug, Clone, Copy, PartialEq, Eq, Structural)]
pub enum XattrStage {
    /// The size of the value (or list) is being asked for.
    Probing,
    /// The value (or list) is being read into a buffer of that size.
    Fetching,
}

/// The reading of an extended attribute's value in progress.
pub struct XattrRead {
    path: String,
    full: String,
    name: String,
    stage: XattrStage,
}

/// The mathematical value of an attribute reading in progress.
pub ghost struct XattrReadView {
    pub path: Seq<char>,
    pub full: Seq<char>,
    pub name: Seq<char>,
    pub stage: XattrStage,
}

impl View for XattrRead {
    type V = XattrReadView;

    closed spec fn view(&self) -> XattrReadView {
        XattrReadView { path: self.path@, full: self.full@, name: self.name@, stage: self.stage }
    }
}

/// What an attribute reading does next.
pub enum XattrReadStep {
    /// Make the call, then resume with its results.
    Call(XattrRead, FsCall),
    /// The reading is over, with this outcome.
    Done(Result<Vec<u8>, Error>),
}

impl XattrRead {
    /// Continue with the results of the call asked for: its return code, the
    /// size it reported, and the buffer it filled (empty when probing).
    ///
    /// An error code ends the reading with that error about the path. After
    /// the probe the value is read into a buffer of the reported size; after
    /// that the value is the buffer cut to the reported size.
    pub fn resume(self, ret: i32, data_size: usize, buf: Vec<u8>) -> (r: XattrReadStep)
        ensures
            ret != 0 ==> (r matches XattrReadStep::Done(Err(e)) && e@ == errno_error(ret, self@.path)),
            ret == 0 && self@.stage == XattrStage::Probing ==> (r matches XattrReadStep::Call(q, c)
                && q@ == (XattrReadView { stage: XattrStage::Fetching, ..self@ }) && c@ == (
            CallView::GetXattr { path: self@.full, name: self@.name, buf_size: data_size })),
            ret == 0 && self@.stage == XattrStage::Fetching ==> (r matches XattrReadStep::Done(Ok(v))
                && v@ == if data_size < buf@.len() {
                buf@.subrange(0, data_size as int)
            } else {
                buf@
            }),
    {
        let XattrRead { path, full, name, stage } = self;
        if ret != 0 {
            return XattrReadStep::Done(Err(Error::from_errno_with_path(ret, path.as_str())));
        }
        match stage {
            XattrStage::Probing => {
                let call = FsCall::GetXattr { path: full.clone(), name: name.clone(), buf_size: data_size };
                XattrReadStep::Call(XattrRead { path, full, name, stage: XattrStage::Fetching }, call)
            },
            XattrStage::Fetching => {
                let mut buf = buf;
                let ghost whole = buf@;
                buf.truncate(data_size);
                assert(buf@ =~= if data_size < whole.len() {
                    whole.subrange(0, data_size as int)
                } else {
                    whole
                });
                XattrReadStep::Done(Ok(buf))
            },
        }
    }
}

/// The listing of a file's extended-attribute names in progress.
pub struct XattrList {
    path: String,
    full: String,
    stage: XattrStage,
}

/// The mathematical value of a listing in progress.
pub ghost struct XattrListView {
    pub path: Seq<char>,
    pub full: Seq<char>,
    pub stage: XattrStage,
}

impl View for XattrList {
    type V = XattrListView;

    closed spec fn view(&self) -> XattrListView {
        XattrListView { path: self.path@, full: self.full@, stage: self.stage }
    }
}

/// What a listing does next.
pub enum XattrListStep {
    /// Make the call, then resume with its results.
    Call(XattrList, FsCall),
    /// The listing is over, with this outcome.
    Done(Result<Vec<String>, Error>),
}

/// Whether `names` are the decoded NUL-separated names in `bytes`.
pub open spec fn names_of(names: Seq<String>, bytes: Seq<u8>) -> bool {
    &&& all_valid_utf8(nul_chunks(bytes))
    &&& names.len() == nul_chunks(bytes).len()
    &&& forall|i: int|
        0 <= i < names.len() ==> #[trigger] names[i]@ == decode_utf8(nul_chunks(bytes)[i])
}

impl XattrList {
    /// Continue with the results of the call asked for: its return code, the
    /// size it reported, and the buffer it filled (empty when probing).
    ///
    /// An error code ends the listing with that error about the path. A probe
    /// that reports size zero ends it with no names; otherwise the list is
    /// read into a buffer of the reported size, which, cut to the size then
    /// reported, is split into names at its NUL bytes.
    pub fn resume(self, ret: i32, ret_size: usize, buf: Vec<u8>) -> (r: XattrListStep)
        ensures
            ret != 0 ==> (r matches XattrListStep::Done(Err(e)) && e@ == errno_error(ret, self@.path)),
            ret == 0 && self@.stage == XattrStage::Probing && ret_size == 0 ==> (r matches XattrListStep::Done(Ok(v)) && v@.len() == 0),
            ret == 0 && self@.stage == XattrStage::Probing && ret_size != 0 ==> (r matches XattrListStep::Call(q, c)
                && q@ == (XattrListView { stage: XattrStage::Fetching, ..self@ }) && c@ == (
            CallView::ListXattr { path: self@.full, buf_size: ret_size })),
            ret == 0 && self@.stage == XattrStage::Fetching ==> ({
                let bytes = if ret_size < buf@.len() {
                    buf@.subrange(0, ret_size as int)
                } else {
                    buf@
                };
                match r {
                    XattrListStep::Done(Ok(v)) => names_of(v@, bytes),
                    XattrListStep::Done(Err(e)) => !all_valid_utf8(nul_chunks(bytes)) && e@
                        == ErrorView::InvalidArgument(not_utf8_message(self@.path)),
                    _ => false,
                }
            }),
    {
        let XattrList { path, full, stage } = self;
        if ret != 0 {
            return XattrListStep::Done(Err(Error::from_errno_with_path(ret, path.as_str())));
        }
        match stage {
            XattrStage::Probing => {
                if ret_size == 0 {
                    return XattrListStep::Done(Ok(Vec::new()));
                }
                let call = FsCall::ListXattr { path: full.clone(), buf_size: ret_size };
                XattrListStep::Call(XattrList { path, full, stage: XattrStage::Fetching }, call)
            },
            XattrStage::Fetching => {
                let mut buf = buf;
                let ghost whole = buf@;
                buf.truncate(ret_size);
                assert(buf@ =~= if ret_size < whole.len() {
                    whole.subrange(0, ret_size as int)
                } else {
                    whole
                });
                XattrListStep::Done(parse_xattr_names(buf.as_slice(), path.as_str()))
            },
        }
    }
}

/// Where the reading of a file's metadata stands: the call whose results it
/// waits for.
#[derive(Debug, Clone, Copy, PartialEq, Eq, Structural)]
pub enum MetadataStage {
    /// The inode's mode is being read.
    Mode,
    /// Its owner is being read.
    Owner,
    /// Its access time is being read.
    AccessTime,
    /// Its modification time is being read.
    ModificationTime,
    /// Its change time is being read.
    ChangeTime,
    /// The on-disk inode is being read for its link and block counts.
    Inode,
    /// The size of a regular file is being read.
    Size,
}

/// The results of a call made for a metadata reading.
#[derive(Debug, Clone, PartialEq, Eq)]
pub enum MetadataReply {
    /// `ext4_mode_get`: its return code and the mode it wrote.
    Mode { ret: i32, mode: u32 },
    /// `ext4_owner_get`: the owner it wrote (its return code is not used).
    Owner { uid: u32, gid: u32 },
    /// `ext4_{a,m,c}time_get`: the time it wrote (its return code is not used).
    Time { time: u32 },
    /// `ext4_raw_inode_fill`: its return code and the inode buffer.
    Inode { ret: i32, raw: Vec<u8> },
    /// The file size, or `None` if the file could not be opened.
    Size { size: Option<u64> },
}

/// The mathematical value of a metadata reply.
pub ghost enum MetadataReplyView {
    Mode { ret: i32, mode: u32 },
    Owner { uid: u32, gid: u32 },
    Time { time: u32 },
    Inode { ret: i32, raw: Seq<u8> },
    Size { size: Option<u64> },
}

impl View for MetadataReply {
    type V = MetadataReplyView;

    open spec fn view(&self) -> MetadataReplyView {
        match self {
            MetadataReply::Mode { ret, mode } => MetadataReplyView::Mode { ret: *ret, mode: *mode },
            MetadataReply::Owner { uid, gid } => MetadataReplyView::Owner { uid: *uid, gid: *gid },
            MetadataReply::Time { time } => MetadataReplyView::Time { time: *time },
            MetadataReply::Inode { ret, raw } => MetadataReplyView::Inode { ret: *ret, raw: raw@ },
            MetadataReply::Size { size } => MetadataReplyView::Size { size: *size },
        }
    }
}

/// Whether a reply is the kind of results the stage's call gives (an inode
/// buffer reaching at least to the counts when the read succeeded).
pub open spec fn reply_fits(stage: MetadataStage, reply: MetadataReplyView) -> bool {
    match stage {
        MetadataStage::Mode => reply is Mode,
        MetadataStage::Owner => reply is Owner,
        MetadataStage::AccessTime => reply is Time,
        MetadataStage::ModificationTime => reply is Time,
        MetadataStage::ChangeTime => reply is Time,
        MetadataStage::Inode => reply matches MetadataReplyView::Inode { ret, raw } && (ret == 0
            ==> raw.len() >= INODE_COUNTS_LEN),
        MetadataStage::Size => reply is Size,
    }
}

/// A metadata reading in progress, with what has been read so far.
pub struct MetadataQuery {
    path: String,
    full: String,
    stage: MetadataStage,
    mode: u32,
    uid: u32,
    gid: u32,
    atime: u32,
    mtime: u32,
    ctime: u32,
    nlink: u32,
    blocks: u64,
}

/// The mathematical value of a metadata reading in progress.
pub ghost struct MetadataQueryView {
    pub path: Seq<char>,
    pub full: Seq<char>,
    pub stage: MetadataStage,
    pub mode: u32,
    pub uid: u32,
    pub gid: u32,
    pub atime: u32,
    pub mtime: u32,
    pub ctime: u32,
    pub nlink: u32,
    pub blocks: u64,
}

impl View for MetadataQuery {
    type V = MetadataQueryView;

    closed spec fn view(&self) -> MetadataQueryView {
        MetadataQueryView {
            path: self.path@,
            full: self.full@,
            stage: self.stage,
            mode: self.mode,
            uid: self.uid,
            gid: self.gid,
            atime: self.atime,
            mtime: self.mtime,
            ctime: self.ctime,
            nlink: self.nlink,
            blocks: self.blocks,
        }
    }
}

/// What a metadata reading does next.
pub enum MetadataStep {
    /// Make the call, then resume with its results.
    Call(MetadataQuery, FsCall),
    /// The reading is over, with this outcome.
    Done(Result<Metadata, Error>),
}

/// The mathematical value of what a metadata reading does next.
pub ghost enum MetadataOutcome {
    Call(MetadataQueryView, CallView),
    Done(Result<Metadata, ErrorView>),
}

/// The view of a metadata step.
pub open spec fn metadata_step_view(s: MetadataStep) -> MetadataOutcome {
    match s {
        MetadataStep::Call(q, c) => MetadataOutcome::Call(q@, c@),
        MetadataStep::Done(Ok(m)) => MetadataOutcome::Done(Ok(m)),
        MetadataStep::Done(Err(e)) => MetadataOutcome::Done(Err(e@)),
    }
}

/// The metadata of what a reading `v` has read, with the given size.
pub open spec fn metadata_of(v: MetadataQueryView, size: Option<u64>) -> Metadata {
    metadata_value(v.mode, v.uid, v.gid, v.atime, v.mtime, v.ctime, v.nlink, v.blocks, size)
}

/// The protocol of a metadata reading: read the mode, failing with its error
/// about the path if that fails; read the owner and the access, modification
/// and change times, whatever those calls return; read the on-disk inode for
/// its link and block counts (if that read fails, the counts are one link
/// and no blocks, the values reported when the inode cannot be read); then,
/// for a regular
/// file only, read its size by opening it for reading (a file that cannot be
/// opened has size zero). The outcome is the metadata of all that was read.
pub open spec fn metadata_next(v: MetadataQueryView, reply: MetadataReplyView) -> MetadataOutcome {
    match reply {
        MetadataReplyView::Mode { ret, mode } => if ret != 0 {
            MetadataOutcome::Done(Err(errno_error(ret, v.path)))
        } else {
            MetadataOutcome::Call(
                MetadataQueryView { stage: MetadataStage::Owner, mode, ..v },
                CallView::OwnerGet { path: v.full },
            )
        },
        MetadataReplyView::Owner { uid, gid } => MetadataOutcome::Call(
            MetadataQueryView { stage: MetadataStage::AccessTime, uid, gid, ..v },
            CallView::TimeGet { path: v.full, field: TimeField::Access },
        ),
        MetadataReplyView::Time { time } => if v.stage == MetadataStage::AccessTime {
            MetadataOutcome::Call(
                MetadataQueryView { stage: MetadataStage::ModificationTime, atime: time, ..v },
                CallView::TimeGet { path: v.full, field: TimeField::Modification },
            )
        } else if v.stage == MetadataStage::ModificationTime {
            MetadataOutcome::Call(
                MetadataQueryView { stage: MetadataStage::ChangeTime, mtime: time, ..v },
                CallView::TimeGet { path: v.full, field: TimeField::Change },
            )
        } else {
            MetadataOutcome::Call(
                MetadataQueryView { stage: MetadataStage::Inode, ctime: time, ..v },
                CallView::InodeRaw { path: v.full },
            )
        },
        MetadataReplyView::Inode { ret, raw } => {
            let w = if ret != 0 {
                MetadataQueryView { stage: MetadataStage::Size, nlink: 1, blocks: 0, ..v }
            } else {
                MetadataQueryView {
                    stage: MetadataStage::Size,
                    nlink: inode_links(raw) as u32,
                    blocks: inode_blocks(raw) as u64,
                    ..v
                }
            };
            if file_type_of_mode(v.mode) == FileType::RegularFile {
                MetadataOutcome::Call(
                    w,
                    CallView::FileSize { path: v.full, flags: open_flags_raw(1) as i32 },
                )
            } else {
                MetadataOutcome::Done(Ok(metadata_of(w, None)))
            }
        },
        MetadataReplyView::Size { size } => MetadataOutcome::Done(Ok(metadata_of(v, size))),
    }
}

impl MetadataQuery {
    /// Continue with the results of the call asked for.
    pub fn resume(self, reply: MetadataReply) -> (r: MetadataStep)
        requires
            reply_fits(self@.stage, reply@),
        ensures
            metadata_step_view(r) == metadata_next(self@, reply@),
    {
        let MetadataQuery { path, full, stage, mode, uid, gid, atime, mtime, ctime, nlink, blocks } =
            self;
        match reply {
            MetadataReply::Mode { ret, mode } => {
                if ret != 0 {
                    return MetadataStep::Done(Err(Error::from_errno_with_path(ret, path.as_str())));
                }
                let call = FsCall::OwnerGet { path: full.clone() };
                MetadataStep::Call(
                    MetadataQuery {
                        path,
                        full,
                        stage: MetadataStage::Owner,
                        mode,
                        uid,
                        gid,
                        atime,
                        mtime,
                        ctime,
                        nlink,
                        blocks,
                    },
                    call,
                )
            },
            MetadataReply::Owner { uid, gid } => {
                let call = FsCall::TimeGet { path: full.clone(), field: TimeField::Access };
                MetadataStep::Call(
                    MetadataQuery {
                        path,
                        full,
                        stage: MetadataStage::AccessTime,
                        mode,
                        uid,
                        gid,
                        atime,
                        mtime,
                        ctime,
                        nlink,
                        blocks,
                    },
                    call,
                )
            },
            MetadataReply::Time { time } => {
                if stage == MetadataStage::AccessTime {
                    let call = FsCall::TimeGet { path: full.clone(), field: TimeField::Modification };
                    MetadataStep::Call(
                        MetadataQuery {
                            path,
                            full,
                            stage: MetadataStage::ModificationTime,
                            mode,
                            uid,
                            gid,
                            atime: time,
                            mtime,
                            ctime,
                            nlink,
                            blocks,
                        },
                        call,
                    )
                } else if stage == MetadataStage::ModificationTime {
                    let call = FsCall::TimeGet { path: full.clone(), field: TimeField::Change };
                    MetadataStep::Call(
                        MetadataQuery {
                            path,
                            full,
                            stage: MetadataStage::ChangeTime,
                            mode,
                            uid,
                            gid,
                            atime,
                            mtime: time,
                            ctime,
                            nlink,
                            blocks,
                        },
                        call,
                    )
                } else {
                    let call = FsCall::InodeRaw { path: full.clone() };
                    MetadataStep::Call(
                        MetadataQuery {
                            path,
                            full,
                            stage: MetadataStage::Inode,
                            mode,
                            uid,
                            gid,
                            atime,
                            mtime,
                            ctime: time,
                            nlink,
                            blocks,
                        },
                        call,
                    )
                }
            },
            MetadataReply::Inode { ret, raw } => {
                let (nlink, blocks) = if ret != 0 {
                    (1u32, 0u64)
                } else {
                    inode_counts(raw.as_slice())
                };
                if crate::fs::file_type_from_mode(mode) == FileType::RegularFile {
                    let call = FsCall::FileSize { path: full.clone(), flags: OpenFlags::READ().to_raw() };
                    MetadataStep::Call(
                        MetadataQuery {
                            path,
                            full,
                            stage: MetadataStage::Size,
                            mode,
                            uid,
                            gid,
                            atime,
                            mtime,
                            ctime,
                            nlink,
                            blocks,
                        },
                        call,
                    )
                } else {
                    MetadataStep::Done(
                        Ok(Metadata::from_raw(mode, uid, gid, atime, mtime, ctime, nlink, blocks, None)),
                    )
                }
            },
            MetadataReply::Size { size } => MetadataStep::Done(
                Ok(Metadata::from_raw(mode, uid, gid, atime, mtime, ctime, nlink, blocks, size)),
            ),
        }
    }
}

impl Ext4Fs {
    /// Get file metadata: the reading in progress and its first call, which
    /// reads the inode's mode.
    pub fn metadata(&self, path: &str) -> (r: Result<(MetadataQuery, FsCall), Error>)
        ensures
            match make_path_of(self@.id, path@) {
                Ok(full) => r matches Ok((q, c)) && q@ == (MetadataQueryView {
                    path: path@,
                    full,
                    stage: MetadataStage::Mode,
                    mode: 0,
                    uid: 0,
                    gid: 0,
                    atime: 0,
                    mtime: 0,
                    ctime: 0,
                    nlink: 0,
                    blocks: 0,
                }) && c@ == (CallView::ModeGet { path: full }),
                Err(e) => r matches Err(e2) && e2@ == e,
            },
    {
        let full = self.make_path(path)?;
        let call = FsCall::ModeGet { path: full.clone() };
        Ok((
            MetadataQuery {
                path: path.to_owned(),
                full,
                stage: MetadataStage::Mode,
                mode: 0,
                uid: 0,
                gid: 0,
                atime: 0,
                mtime: 0,
                ctime: 0,
                nlink: 0,
                blocks: 0,
            },
            call,
        ))
    }

    /// Create a directory with the given permissions (none are set when the
    /// mode is zero): the creation in progress and its first call.
    pub fn mkdir(&self, path: &str, mode: u32) -> (r: Result<(MkdirOp, FsCall), Error>)
        ensures
            self@.read_only ==> (r matches Err(e) && e@ == ErrorView::ReadOnly),
            !self@.read_only ==> match make_path_of(self@.id, path@) {
                Ok(full) => r matches Ok((m, c)) && m@ == (MkdirOpView {
                    path: path@,
                    full,
                    mode,
                    stage: MkdirStage::Creating,
                }) && c@ == (CallView::DirMk { path: full }),
                Err(e) => r matches Err(e2) && e2@ == e,
            },
    {
        if self.is_read_only() {
            return Err(Error::ReadOnly);
        }
        let full = self.make_path(path)?;
        let call = FsCall::DirMk { path: full.clone() };
        Ok((MkdirOp { path: path.to_owned(), full, mode, stage: MkdirStage::Creating }, call))
    }

    /// Enumerate a regular file's on-disk data extents: the enumeration in
    /// progress and its first call, which asks for the number of extents
    /// with no buffer.
    pub fn file_extents(&self, path: &str) -> (r: Result<(ExtentsQuery, FsCall), Error>)
        ensures
            match make_path_of(self@.id, path@) {
                Ok(full) => r matches Ok((q, c)) && q@ == (ExtentsQueryView {
                    path: path@,
                    full,
                    cap: 0,
                }) && c@ == (CallView::GetExtents { path: full, cap: 0 }),
                Err(e) => r matches Err(e2) && e2@ == e,
            },
    {
        let full = self.make_path(path)?;
        let call = FsCall::GetExtents { path: full.clone(), cap: 0 };
        Ok((ExtentsQuery { path: path.to_owned(), full, cap: 0 }, call))
    }

    /// Read an extended attribute from `path`: the reading in progress and
    /// its first call, which asks for the value's size with no buffer. A
    /// name holding a NUL is rejected.
    pub fn get_xattr(&self, path: &str, name: &str) -> (r: Result<(XattrRead, FsCall), Error>)
        ensures
            match make_path_of(self@.id, path@) {
                Ok(full) => if name@.contains('\0') {
                    r matches Err(e) && e@ == ErrorView::InvalidArgument(name@)
                } else {
                    r matches Ok((q, c)) && q@ == (XattrReadView {
                        path: path@,
                        full,
                        name: name@,
                        stage: XattrStage::Probing,
                    }) && c@ == (CallView::GetXattr { path: full, name: name@, buf_size: 0 })
                },
                Err(e) => r matches Err(e2) && e2@ == e,
            },
    {
        let full = self.make_path(path)?;
        if has_nul(name) {
            return Err(Error::InvalidArgument(name.to_owned()));
        }
        let call = FsCall::GetXattr { path: full.clone(), name: name.to_owned(), buf_size: 0 };
        Ok((
            XattrRead {
                path: path.to_owned(),
                full,
                name: name.to_owned(),
                stage: XattrStage::Probing,
            },
            call,
        ))
    }

    /// List all extended-attribute names set on `path`: the listing in
    /// progress and its first call, which asks for the list's size with no
    /// buffer.
    pub fn list_xattr(&self, path: &str) -> (r: Result<(XattrList, FsCall), Error>)
        ensures
            match make_path_of(self@.id, path@) {
                Ok(full) => r matches Ok((q, c)) && q@ == (XattrListView {
                    path: path@,
                    full,
                    stage: XattrStage::Probing,
                }) && c@ == (CallView::ListXattr { path: full, buf_size: 0 }),
                Err(e) => r matches Err(e2) && e2@ == e,
            },
    {
        let full = self.make_path(path)?;
        let call = FsCall::ListXattr { path: full.clone(), buf_size: 0 };
        Ok((XattrList { path: path.to_owned(), full, stage: XattrStage::Probing }, call))
    }
}

} // verus!
