//! Mounting and unmounting, as state machines that say which lwext4 call to
//! make next given the return code of the last one.
use crate::calls::{CallView, FsCall};
use crate::error::{check_errno, errno_error, errno_result, unit_result_view, Error, ErrorView};
use crate::fs::{Ext4Fs, FsView};
use crate::names::{device_name, device_name_of, mount_point, mount_point_of};
use vstd::prelude::*;

verus! {

/// Where a mount stands: the call whose return code it waits for.
#[derive(Debug, Clone, Copy, PartialEq, Eq, Structural)]
pub enum MountStage {
    /// The device is being registered.
    Registering,
    /// The filesystem is being mounted.
    Mounting,
    /// The mount failed and the device is being unregistered.
    Unregistering,
    /// The journal is being recovered.
    Recovering,
    /// The journal is being started.
    StartingJournal,
}

/// A mount in progress.
pub struct MountOp {
    id: u64,
    read_only: bool,
    stage: MountStage,
    mount_ret: i32,
    device_name: String,
    mount_point: String,
}

/// The mathematical value of a mount in progress; `mount_ret` is the return
/// code of a failed mount call, kept while the device is unregistered.
pub ghost struct MountOpView {
    pub id: u64,
    pub read_only: bool,
    pub stage: MountStage,
    pub mount_ret: i32,
}

impl View for MountOp {
    type V = MountOpView;

    closed spec fn view(&self) -> MountOpView {
        MountOpView {
            id: self.id,
            read_only: self.read_only,
            stage: self.stage,
            mount_ret: self.mount_ret,
        }
    }
}

/// What a mount does next.
pub enum MountStep {
    /// Make the call, then resume the mount with its return code.
    Call(MountOp, FsCall),
    /// The filesystem is mounted.
    Mounted(Ext4Fs),
    /// The mount failed.
    Failed(Error),
}

/// The mathematical value of what a mount does next.
pub ghost enum MountOutcome {
    Call(MountOpView, CallView),
    Mounted(FsView),
    Failed(ErrorView),
}

/// The view of a mount step.
pub open spec fn mount_step_view(s: MountStep) -> MountOutcome {
    match s {
        MountStep::Call(m, c) => MountOutcome::Call(m@, c@),
        MountStep::Mounted(fs) => MountOutcome::Mounted(fs@),
        MountStep::Failed(e) => MountOutcome::Failed(e@),
    }
}

/// The mount's protocol: register the device, mount it (unregistering it
/// again if that fails), recover the journal whatever that returns, and on a
/// writable mount start the journal, which is active if that succeeded.
pub open spec fn mount_next(v: MountOpView, ret: i32) -> MountOutcome {
    let dev = device_name_of(v.id);
    let mp = mount_point_of(v.id);
    match v.stage {
        MountStage::Registering => if ret != 0 {
            MountOutcome::Failed(errno_error(ret, Seq::empty()))
        } else {
            MountOutcome::Call(
                MountOpView { stage: MountStage::Mounting, ..v },
                CallView::Mount { device_name: dev, mount_point: mp, read_only: v.read_only },
            )
        },
        MountStage::Mounting => if ret != 0 {
            MountOutcome::Call(
                MountOpView { stage: MountStage::Unregistering, mount_ret: ret, ..v },
                CallView::DeviceUnregister { device_name: dev },
            )
        } else {
            MountOutcome::Call(
                MountOpView { stage: MountStage::Recovering, ..v },
                CallView::Recover { mount_point: mp },
            )
        },
        MountStage::Unregistering => MountOutcome::Failed(errno_error(v.mount_ret, Seq::empty())),
        MountStage::Recovering => if v.read_only {
            MountOutcome::Mounted(FsView { id: v.id, read_only: true, journal_active: false })
        } else {
            MountOutcome::Call(
                MountOpView { stage: MountStage::StartingJournal, ..v },
                CallView::JournalStart { mount_point: mp },
            )
        },
        MountStage::StartingJournal => MountOutcome::Mounted(
            FsView { id: v.id, read_only: v.read_only, journal_active: ret == 0 },
        ),
    }
}

impl MountOp {
    /// The names agree with the mount number.
    #[verifier::type_invariant]
    spec fn names_match(self) -> bool {
        &&& self.device_name@ == device_name_of(self.id)
        &&& self.mount_point@ == mount_point_of(self.id)
    }

    /// Continue the mount with the return code of the call it asked for.
    pub fn resume(self, ret: i32) -> (r: MountStep)
        ensures
            mount_step_view(r) == mount_next(self@, ret),
    {
        proof {
            use_type_invariant(&self);
        }
        let MountOp { id, read_only, stage, mount_ret, device_name, mount_point } = self;
        match stage {
            MountStage::Registering => {
                if ret != 0 {
                    return MountStep::Failed(Error::from_errno(ret));
                }
                let call = FsCall::Mount {
                    device_name: device_name.clone(),
                    mount_point: mount_point.clone(),
                    read_only,
                };
                MountStep::Call(
                    MountOp {
                        id,
                        read_only,
                        stage: MountStage::Mounting,
                        mount_ret,
                        device_name,
                        mount_point,
                    },
                    call,
                )
            },
            MountStage::Mounting => {
                if ret != 0 {
                    let call = FsCall::DeviceUnregister { device_name: device_name.clone() };
                    return MountStep::Call(
                        MountOp {
                            id,
                            read_only,
                            stage: MountStage::Unregistering,
                            mount_ret: ret,
                            device_name,
                            mount_point,
                        },
                        call,
                    );
                }
                let call = FsCall::Recover { mount_point: mount_point.clone() };
                MountStep::Call(
                    MountOp {
                        id,
                        read_only,
                        stage: MountStage::Recovering,
                        mount_ret,
                        device_name,
                        mount_point,
                    },
                    call,
                )
            },
            MountStage::Unregistering => MountStep::Failed(Error::from_errno(mount_ret)),
            MountStage::Recovering => {
                if read_only {
                    return MountStep::Mounted(
                        Ext4Fs::from_parts(id, device_name, mount_point, true, false),
                    );
                }
                let call = FsCall::JournalStart { mount_point: mount_point.clone() };
                MountStep::Call(
                    MountOp {
                        id,
                        read_only,
                        stage: MountStage::StartingJournal,
                        mount_ret,
                        device_name,
                        mount_point,
                    },
                    call,
                )
            },
            MountStage::StartingJournal => MountStep::Mounted(
                Ext4Fs::from_parts(id, device_name, mount_point, read_only, ret == 0),
            ),
        }
    }
}

impl Ext4Fs {
    /// Mount the filesystem on the device that the caller registers, as
    /// mount number `id` (each mount needs a number of its own): the mount in
    /// progress and its first call, which registers the device.
    pub fn mount(id: u64, read_only: bool) -> (r: (MountOp, FsCall))
        ensures
            r.0@ == (MountOpView { id, read_only, stage: MountStage::Registering, mount_ret: 0 }),
            r.1@ == (CallView::DeviceRegister { device_name: device_name_of(id) }),
    {
        let dev = device_name(id);
        let mp = mount_point(id);
        let call = FsCall::DeviceRegister { device_name: dev.clone() };
        (
            MountOp {
                id,
                read_only,
                stage: MountStage::Registering,
                mount_ret: 0,
                device_name: dev,
                mount_point: mp,
            },
            call,
        )
    }
}

/// A mount whose mount call fails unregisters its device next, and then
/// fails with the mount call's error.
pub proof fn lemma_failed_mount_unregisters(v: MountOpView, ret: i32, ret2: i32)
    requires
        v.stage == MountStage::Mounting,
        ret != 0,
    ensures
        mount_next(v, ret) matches MountOutcome::Call(w, c) && c == (CallView::DeviceUnregister {
            device_name: device_name_of(v.id),
        }) && mount_next(w, ret2) == MountOutcome::Failed(errno_error(ret, Seq::empty())),
{
}

/// Once the device is registered, the mount call asked for mounts that device
/// at the mount number's mount point, read-only exactly when the mount was
/// started read-only; every later stage keeps the mount's read-only flag, and
/// the mounted filesystem is read-only exactly when the mount was.
pub proof fn lemma_mount_keeps_read_only(v: MountOpView, ret: i32)
    ensures
        v.stage == MountStage::Registering && ret == 0 ==> (mount_next(v, ret) matches MountOutcome::Call(
            w,
            CallView::Mount { device_name, mount_point, read_only },
        ) && read_only == v.read_only && device_name == device_name_of(v.id) && mount_point
            == mount_point_of(v.id) && w.read_only == v.read_only),
        mount_next(v, ret) matches MountOutcome::Call(w, _) ==> w.read_only == v.read_only && w.id
            == v.id,
        mount_next(v, ret) matches MountOutcome::Mounted(fs) ==> fs.read_only == v.read_only
            && fs.id == v.id,
{
}

/// A read-only mount never starts the journal and never ends with an active
/// journal, whatever the calls return.
pub proof fn lemma_read_only_mount_has_no_journal(v: MountOpView, ret: i32)
    requires
        v.read_only,
        v.stage != MountStage::StartingJournal,
    ensures
        !(mount_next(v, ret) matches MountOutcome::Call(_, CallView::JournalStart { .. })),
        mount_next(v, ret) matches MountOutcome::Call(w, _) ==> w.read_only
            && w.stage != MountStage::StartingJournal,
        mount_next(v, ret) matches MountOutcome::Mounted(fs) ==> fs.read_only && !fs.journal_active,
{
}

/// Where an unmount stands: the call whose return code it waits for.
#[derive(Debug, Clone, Copy, PartialEq, Eq, Structural)]
pub enum UmountStage {
    /// The journal is being stopped.
    StoppingJournal,
    /// The cache is being flushed.
    Flushing,
    /// The filesystem is being unmounted.
    Unmounting,
    /// The device is being unregistered.
    Unregistering,
}

/// An unmount in progress.
pub struct UmountOp {
    id: u64,
    stage: UmountStage,
    device_name: String,
    mount_point: String,
}

/// The mathematical value of an unmount in progress.
pub ghost struct UmountOpView {
    pub id: u64,
    pub stage: UmountStage,
}

impl View for UmountOp {
    type V = UmountOpView;

    closed spec fn view(&self) -> UmountOpView {
        UmountOpView { id: self.id, stage: self.stage }
    }
}

/// What an unmount does next.
pub enum UmountStep {
    /// Make the call, then resume the unmount with its return code.
    Call(UmountOp, FsCall),
    /// The unmount is over, with this outcome.
    Done(Result<(), Error>),
}

/// The mathematical value of what an unmount does next.
pub ghost enum UmountOutcome {
    Call(UmountOpView, CallView),
    Done(Result<(), ErrorView>),
}

/// The view of an unmount step.
pub open spec fn umount_step_view(s: UmountStep) -> UmountOutcome {
    match s {
        UmountStep::Call(m, c) => UmountOutcome::Call(m@, c@),
        UmountStep::Done(r) => UmountOutcome::Done(unit_result_view(r)),
    }
}

/// The unmount's protocol: stop the journal (when it is active) and flush
/// the cache, whatever those return; unmount, failing if that fails; then
/// unregister the device, failing if that fails.
pub open spec fn umount_next(v: UmountOpView, ret: i32) -> UmountOutcome {
    let mp = mount_point_of(v.id);
    match v.stage {
        UmountStage::StoppingJournal => UmountOutcome::Call(
            UmountOpView { stage: UmountStage::Flushing, ..v },
            CallView::CacheFlush { mount_point: mp },
        ),
        UmountStage::Flushing => UmountOutcome::Call(
            UmountOpView { stage: UmountStage::Unmounting, ..v },
            CallView::Umount { mount_point: mp },
        ),
        UmountStage::Unmounting => if ret != 0 {
            UmountOutcome::Done(Err(errno_error(ret, Seq::empty())))
        } else {
            UmountOutcome::Call(
                UmountOpView { stage: UmountStage::Unregistering, ..v },
                CallView::DeviceUnregister { device_name: device_name_of(v.id) },
            )
        },
        UmountStage::Unregistering => UmountOutcome::Done(errno_result(ret, Seq::empty())),
    }
}

impl UmountOp {
    /// The names agree with the mount number.
    #[verifier::type_invariant]
    spec fn names_match(self) -> bool {
        &&& self.device_name@ == device_name_of(self.id)
        &&& self.mount_point@ == mount_point_of(self.id)
    }

    /// Continue the unmount with the return code of the call it asked for.
    pub fn resume(self, ret: i32) -> (r: UmountStep)
        ensures
            umount_step_view(r) == umount_next(self@, ret),
    {
        proof {
            use_type_invariant(&self);
        }
        let UmountOp { id, stage, device_name, mount_point } = self;
        match stage {
            UmountStage::StoppingJournal => {
                let call = FsCall::CacheFlush { mount_point: mount_point.clone() };
                UmountStep::Call(
                    UmountOp { id, stage: UmountStage::Flushing, device_name, mount_point },
                    call,
                )
            },
            UmountStage::Flushing => {
                let call = FsCall::Umount { mount_point: mount_point.clone() };
                UmountStep::Call(
                    UmountOp { id, stage: UmountStage::Unmounting, device_name, mount_point },
                    call,
                )
            },
            UmountStage::Unmounting => {
                if ret != 0 {
                    return UmountStep::Done(Err(Error::from_errno(ret)));
                }
                let call = FsCall::DeviceUnregister { device_name: device_name.clone() };
                UmountStep::Call(
                    UmountOp { id, stage: UmountStage::Unregistering, device_name, mount_point },
                    call,
                )
            },
            UmountStage::Unregistering => UmountStep::Done(check_errno(ret)),
        }
    }
}

/// The calls that release a mounted filesystem when it goes away, their
/// return codes all ignored: stop the journal if it is active, flush the
/// cache, unmount, and unregister the device.
pub open spec fn shutdown_calls_of(fs: FsView) -> Seq<CallView> {
    let mp = mount_point_of(fs.id);
    let rest = seq![
        CallView::CacheFlush { mount_point: mp },
        CallView::Umount { mount_point: mp },
        CallView::DeviceUnregister { device_name: device_name_of(fs.id) },
    ];
    if fs.journal_active {
        seq![CallView::JournalStop { mount_point: mp }] + rest
    } else {
        rest
    }
}

impl Ext4Fs {
    /// Unmount the filesystem: the unmount in progress and its first call,
    /// which stops the journal if it is active and flushes the cache
    /// otherwise.
    pub fn umount(&self) -> (r: (UmountOp, FsCall))
        ensures
            r.0@.id == self@.id,
            self@.journal_active ==> r.0@.stage == UmountStage::StoppingJournal && r.1@ == (
            CallView::JournalStop { mount_point: mount_point_of(self@.id) }),
            !self@.journal_active ==> r.0@.stage == UmountStage::Flushing && r.1@ == (
            CallView::CacheFlush { mount_point: mount_point_of(self@.id) }),
    {
        let dev = self.device_name().to_owned();
        let mp = self.mount_point().to_owned();
        if self.journal_active() {
            let call = FsCall::JournalStop { mount_point: mp.clone() };
            (
                UmountOp {
                    id: self.id(),
                    stage: UmountStage::StoppingJournal,
                    device_name: dev,
                    mount_point: mp,
                },
                call,
            )
        } else {
            let call = FsCall::CacheFlush { mount_point: mp.clone() };
            (
                UmountOp { id: self.id(), stage: UmountStage::Flushing, device_name: dev, mount_point: mp },
                call,
            )
        }
    }

    /// The calls that release the filesystem when it is dropped.
    pub fn shutdown_calls(&self) -> (r: Vec<FsCall>)
        ensures
            r@.len() == shutdown_calls_of(self@).len(),
            forall|i: int| 0 <= i < r@.len() ==> #[trigger] r@[i]@ == shutdown_calls_of(self@)[i],
    {
        let dev = self.device_name().to_owned();
        let mp = self.mount_point().to_owned();
        let mut calls: Vec<FsCall> = Vec::new();
        if self.journal_active() {
            calls.push(FsCall::JournalStop { mount_point: mp.clone() });
        }
        calls.push(FsCall::CacheFlush { mount_point: mp.clone() });
        calls.push(FsCall::Umount { mount_point: mp });
        calls.push(FsCall::DeviceUnregister { device_name: dev });
        calls
    }
}

/// An unmount that succeeds has made the unmount call and the unregister
/// call, each returning zero: from the unmount call, a zero return leads to
/// unregistering, and only a zero return from that ends in success.
pub proof fn lemma_umount_success(v: UmountOpView, ret: i32, ret2: i32)
    requires
        v.stage == UmountStage::Unmounting,
    ensures
        ret != 0 ==> umount_next(v, ret) == UmountOutcome::Done(Err(errno_error(ret, Seq::empty()))),
        ret == 0 ==> (umount_next(v, ret) matches UmountOutcome::Call(w, _) && (umount_next(w, ret2)
            == UmountOutcome::Done(Ok(())) <==> ret2 == 0)),
{
}

} // verus!
