use ext4_lwext4::calls::{FsCall, TimeField};
use ext4_lwext4::error::{check_errno, check_errno_with_path, Error};
use ext4_lwext4::fs::{
    exists_answer, file_type_from_mode, inode_counts, inode_exist_answer, nul_terminated_length,
    readlink_result, stat_result, Ext4Fs, INODE_RAW_SIZE,
};
use ext4_lwext4::mount::{MountStep, UmountStep};
use ext4_lwext4::ops::{
    byte_extents, ExtentsStep, MetadataReply, MetadataStep, MkdirStep, XattrListStep,
    XattrReadStep,
};
use ext4_lwext4::sys::{ext4_direntry, ext4_file_extent, ext4_mount_stats};
use ext4_lwext4::types::{FileExtent, FileType, Metadata, OpenFlags};
use ext4_lwext4::xattr::parse_xattr_names;

/// Drive a mount, answering each call with the next return code.
fn drive_mount(id: u64, read_only: bool, rets: &[i32]) -> (Vec<FsCall>, Result<Ext4Fs, Error>) {
    let (mut op, first) = Ext4Fs::mount(id, read_only);
    let mut calls = vec![first];
    for &ret in rets {
        match op.resume(ret) {
            MountStep::Call(next, call) => {
                op = next;
                calls.push(call);
            }
            MountStep::Mounted(fs) => return (calls, Ok(fs)),
            MountStep::Failed(e) => return (calls, Err(e)),
        }
    }
    panic!("mount did not finish");
}

fn mounted(id: u64) -> Ext4Fs {
    drive_mount(id, false, &[0, 0, 0, 0]).1.unwrap()
}

#[test]
fn writable_mount_protocol() {
    let (calls, fs) = drive_mount(5, false, &[0, 0, 0, 0]);
    let fs = fs.unwrap();
    assert_eq!(
        calls,
        vec![
            FsCall::DeviceRegister { device_name: "ext4dev5".to_string() },
            FsCall::Mount {
                device_name: "ext4dev5".to_string(),
                mount_point: "/mp5/".to_string(),
                read_only: false
            },
            FsCall::Recover { mount_point: "/mp5/".to_string() },
            FsCall::JournalStart { mount_point: "/mp5/".to_string() },
        ]
    );
    assert!(fs.journal_active());
    assert!(!fs.is_read_only());
    assert_eq!(fs.id(), 5);
}

#[test]
fn read_only_mount_skips_journal_and_ignores_recovery_failure() {
    let (calls, fs) = drive_mount(6, true, &[0, 0, 5]);
    let fs = fs.unwrap();
    assert_eq!(calls.len(), 3);
    assert!(fs.is_read_only());
    assert!(!fs.journal_active());
}

#[test]
fn journal_start_failure_leaves_journal_inactive() {
    let (_, fs) = drive_mount(7, false, &[0, 0, 0, 22]);
    assert!(!fs.unwrap().journal_active());
}

#[test]
fn register_failure_fails_mount() {
    let (calls, fs) = drive_mount(8, false, &[12]);
    assert_eq!(calls.len(), 1);
    assert!(matches!(fs, Err(Error::Io(12))));
}

#[test]
fn mount_failure_unregisters_device() {
    let (calls, fs) = drive_mount(8, false, &[0, 22, 0]);
    assert_eq!(calls[2], FsCall::DeviceUnregister { device_name: "ext4dev8".to_string() });
    assert!(matches!(fs, Err(Error::InvalidArgument(ref p)) if p.is_empty()));
}

fn drive_umount(fs: &Ext4Fs, rets: &[i32]) -> (Vec<FsCall>, Result<(), Error>) {
    let (mut op, first) = fs.umount();
    let mut calls = vec![first];
    for &ret in rets {
        match op.resume(ret) {
            UmountStep::Call(next, call) => {
                op = next;
                calls.push(call);
            }
            UmountStep::Done(r) => return (calls, r),
        }
    }
    panic!("umount did not finish");
}

#[test]
fn umount_protocol() {
    let fs = mounted(1);
    let (calls, r) = drive_umount(&fs, &[5, 5, 0, 0]);
    assert_eq!(r, Ok(()));
    assert_eq!(
        calls,
        vec![
            FsCall::JournalStop { mount_point: "/mp1/".to_string() },
            FsCall::CacheFlush { mount_point: "/mp1/".to_string() },
            FsCall::Umount { mount_point: "/mp1/".to_string() },
            FsCall::DeviceUnregister { device_name: "ext4dev1".to_string() },
        ]
    );
    let (calls, r) = drive_umount(&fs, &[0, 0, 16]);
    assert_eq!(calls.len(), 3);
    assert_eq!(r, Err(Error::Io(16)));
    let (_, r) = drive_umount(&fs, &[0, 0, 0, 2]);
    assert_eq!(r, Err(Error::NotFound(String::new())));
    let ro = drive_mount(2, true, &[0, 0, 0]).1.unwrap();
    let (calls, _) = drive_umount(&ro, &[0, 0, 0]);
    assert_eq!(calls[0], FsCall::CacheFlush { mount_point: "/mp2/".to_string() });
}

#[test]
fn shutdown_calls_list() {
    let fs = mounted(3);
    assert_eq!(
        fs.shutdown_calls(),
        vec![
            FsCall::JournalStop { mount_point: "/mp3/".to_string() },
            FsCall::CacheFlush { mount_point: "/mp3/".to_string() },
            FsCall::Umount { mount_point: "/mp3/".to_string() },
            FsCall::DeviceUnregister { device_name: "ext4dev3".to_string() },
        ]
    );
    let ro = drive_mount(4, true, &[0, 0, 0]).1.unwrap();
    assert_eq!(ro.shutdown_calls().len(), 3);
}

#[test]
fn mkdir_sets_mode_unless_zero() {
    let fs = mounted(1);
    let (op, call) = fs.mkdir("/data", 0o755).unwrap();
    assert_eq!(call, FsCall::DirMk { path: "/mp1/data".to_string() });
    let op = match op.resume(0) {
        MkdirStep::Call(op, call) => {
            assert_eq!(call, FsCall::ModeSet { path: "/mp1/data".to_string(), mode: 0o755 });
            op
        }
        MkdirStep::Done(_) => panic!("mode not set"),
    };
    assert!(matches!(op.resume(0), MkdirStep::Done(Ok(()))));

    let (op, _) = fs.mkdir("/plain", 0).unwrap();
    assert!(matches!(op.resume(0), MkdirStep::Done(Ok(()))));

    let (op, _) = fs.mkdir("/exists", 0o700).unwrap();
    assert!(matches!(op.resume(17), MkdirStep::Done(Err(Error::AlreadyExists(ref p))) if p == "/exists"));
}

#[test]
fn file_extents_retry_then_convert() {
    let fs = mounted(1);
    let (q, call) = fs.file_extents("/data.bin").unwrap();
    assert_eq!(call, FsCall::GetExtents { path: "/mp1/data.bin".to_string(), cap: 0 });
    let q = match q.resume(0, 2, 4096, &[]) {
        ExtentsStep::Call(q, call) => {
            assert_eq!(call, FsCall::GetExtents { path: "/mp1/data.bin".to_string(), cap: 2 });
            q
        }
        ExtentsStep::Done(_) => panic!("expected retry"),
    };
    let raw = [
        ext4_file_extent { logical_block: 0, physical_block: 100, block_count: 3 },
        ext4_file_extent { logical_block: 3, physical_block: 500, block_count: 1 },
    ];
    match q.resume(0, 2, 4096, &raw) {
        ExtentsStep::Done(Ok(v)) => {
            assert_eq!(
                v,
                vec![
                    FileExtent { logical_byte: 0, image_byte: 409_600, len_bytes: 12_288 },
                    FileExtent { logical_byte: 12_288, image_byte: 2_048_000, len_bytes: 4096 },
                ]
            );
            for e in &v {
                assert_eq!(e.image_byte % 4096, 0);
                assert_eq!(e.len_bytes % 4096, 0);
                assert_eq!(e.logical_byte % 4096, 0);
            }
        }
        _ => panic!("expected extents"),
    }
    let (q, _) = fs.file_extents("/nope").unwrap();
    assert!(matches!(q.resume(2, 0, 0, &[]), ExtentsStep::Done(Err(Error::NotFound(ref p))) if p == "/nope"));
    assert_eq!(byte_extents(&[], 1024), vec![]);
}

#[test]
fn get_xattr_probe_then_fetch() {
    let fs = mounted(1);
    let (r, call) = fs.get_xattr("/cap.bin", "security.capability").unwrap();
    assert_eq!(
        call,
        FsCall::GetXattr {
            path: "/mp1/cap.bin".to_string(),
            name: "security.capability".to_string(),
            buf_size: 0
        }
    );
    let r = match r.resume(0, 4, vec![]) {
        XattrReadStep::Call(r, call) => {
            assert_eq!(
                call,
                FsCall::GetXattr {
                    path: "/mp1/cap.bin".to_string(),
                    name: "security.capability".to_string(),
                    buf_size: 4
                }
            );
            r
        }
        XattrReadStep::Done(_) => panic!("expected fetch"),
    };
    match r.resume(0, 3, vec![1, 2, 3, 0]) {
        XattrReadStep::Done(Ok(v)) => assert_eq!(v, vec![1, 2, 3]),
        _ => panic!("expected value"),
    }
    assert!(fs.get_xattr("/x", "a\0").is_err());
    let (r, _) = fs.get_xattr("/x", "user.a").unwrap();
    assert!(matches!(r.resume(61, 0, vec![]), XattrReadStep::Done(Err(Error::Io(61)))));
}

#[test]
fn list_xattr_protocol() {
    let fs = mounted(1);
    let (l, call) = fs.list_xattr("/cap.bin").unwrap();
    assert_eq!(call, FsCall::ListXattr { path: "/mp1/cap.bin".to_string(), buf_size: 0 });
    let l = match l.resume(0, 44, vec![]) {
        XattrListStep::Call(l, call) => {
            assert_eq!(call, FsCall::ListXattr { path: "/mp1/cap.bin".to_string(), buf_size: 44 });
            l
        }
        XattrListStep::Done(_) => panic!("expected fetch"),
    };
    let mut buf = b"security.capability\0system.posix_acl_access\0".to_vec();
    buf.extend_from_slice(&[0xAA; 4]);
    match l.resume(0, 44, buf) {
        XattrListStep::Done(Ok(names)) => {
            assert_eq!(names, vec!["security.capability", "system.posix_acl_access"])
        }
        _ => panic!("expected names"),
    }
    let (l, _) = fs.list_xattr("/empty").unwrap();
    assert!(matches!(l.resume(0, 0, vec![]), XattrListStep::Done(Ok(ref v)) if v.is_empty()));
}

#[test]
fn xattr_name_parsing() {
    assert_eq!(parse_xattr_names(b"a\0bc\0", "/p").unwrap(), vec!["a", "bc"]);
    assert_eq!(parse_xattr_names(b"\0\0a\0\0b", "/p").unwrap(), vec!["a", "b"]);
    assert_eq!(parse_xattr_names(b"", "/p").unwrap(), Vec::<String>::new());
    assert_eq!(
        parse_xattr_names(b"ok\0\xff\xfe\0", "/f"),
        Err(Error::InvalidArgument("xattr name on /f is not UTF-8".to_string()))
    );
    let names = ["user.one", "trusted.two", "security.ü"];
    let mut joined = Vec::new();
    for n in names {
        joined.extend_from_slice(n.as_bytes());
        joined.push(0);
    }
    assert_eq!(parse_xattr_names(&joined, "/p").unwrap(), names.to_vec());
}

#[test]
fn readlink_results() {
    let mut buf = vec![0u8; 4096];
    buf[..6].copy_from_slice(b"target");
    assert_eq!(readlink_result(0, buf.clone(), 6, "/l"), Ok("target".to_string()));
    assert_eq!(readlink_result(2, buf.clone(), 6, "/l"), Err(Error::NotFound("/l".to_string())));
    assert_eq!(
        readlink_result(0, vec![0xff, 0xfe], 2, "/l"),
        Err(Error::InvalidArgument("invalid UTF-8 in symlink".to_string()))
    );
    assert_eq!(readlink_result(0, b"ab".to_vec(), 10, "/l"), Ok("ab".to_string()));
}

#[test]
fn stat_results() {
    let mut raw = ext4_mount_stats::default();
    raw.inodes_count = 2048;
    raw.free_inodes_count = 2000;
    raw.blocks_count = 16384;
    raw.free_blocks_count = 15000;
    raw.block_size = 4096;
    raw.block_group_count = 1;
    raw.blocks_per_group = 32768;
    raw.inodes_per_group = 2048;
    raw.volume_name[..4].copy_from_slice(b"root");
    let s = stat_result(0, &raw).unwrap();
    assert_eq!(s.block_size, 4096);
    assert_eq!(s.total_blocks, 16384);
    assert_eq!(s.free_blocks, 15000);
    assert_eq!(s.total_inodes, 2048);
    assert_eq!(s.free_inodes, 2000);
    assert_eq!(s.volume_name, "root");
    raw.volume_name = [b'x'; 16];
    assert_eq!(stat_result(0, &raw).unwrap().volume_name, "x".repeat(16));
    raw.volume_name = [0; 16];
    raw.volume_name[0] = 0xff;
    assert_eq!(stat_result(0, &raw).unwrap().volume_name, "\u{fffd}");
    assert!(matches!(stat_result(5, &raw), Err(Error::Io(5))));
    assert_eq!(nul_terminated_length(b"ab\0cd"), 2);
    assert_eq!(nul_terminated_length(b"abc"), 3);
}

/// An on-disk inode image with the given link and block counts.
fn raw_inode(links: u16, blocks: u64) -> Vec<u8> {
    let mut raw = vec![0u8; INODE_RAW_SIZE];
    raw[26..28].copy_from_slice(&links.to_le_bytes());
    raw[28..32].copy_from_slice(&(blocks as u32).to_le_bytes());
    raw[116..118].copy_from_slice(&((blocks >> 32) as u16).to_le_bytes());
    raw
}

/// Drive a metadata reading, answering each call from the given inode
/// values; returns the calls made and the outcome.
fn drive_metadata(
    fs: &Ext4Fs,
    path: &str,
    mode_ret: i32,
    mode: u32,
    owner: (u32, u32),
    times: (u32, u32, u32),
    inode: (i32, Vec<u8>),
    size: Option<u64>,
) -> (Vec<FsCall>, Result<Metadata, Error>) {
    let (mut q, first) = fs.metadata(path).unwrap();
    let mut calls = vec![first];
    loop {
        let reply = match calls.last().unwrap() {
            FsCall::ModeGet { .. } => MetadataReply::Mode { ret: mode_ret, mode },
            FsCall::OwnerGet { .. } => MetadataReply::Owner { uid: owner.0, gid: owner.1 },
            FsCall::TimeGet { field: TimeField::Access, .. } => MetadataReply::Time { time: times.0 },
            FsCall::TimeGet { field: TimeField::Modification, .. } => {
                MetadataReply::Time { time: times.1 }
            }
            FsCall::TimeGet { field: TimeField::Change, .. } => MetadataReply::Time { time: times.2 },
            FsCall::InodeRaw { .. } => MetadataReply::Inode { ret: inode.0, raw: inode.1.clone() },
            FsCall::FileSize { .. } => MetadataReply::Size { size },
            other => panic!("unexpected call {:?}", other),
        };
        match q.resume(reply) {
            MetadataStep::Call(next, call) => {
                q = next;
                calls.push(call);
            }
            MetadataStep::Done(r) => return (calls, r),
        }
    }
}

#[test]
fn metadata_protocol() {
    let fs = mounted(1);
    let (calls, m) = drive_metadata(
        &fs,
        "/f",
        0,
        0o104755,
        (1000, 100),
        (1_700_000_001, 1_700_000_000, 1_700_000_002),
        (0, raw_inode(2, 8)),
        Some(42),
    );
    assert_eq!(
        calls,
        vec![
            FsCall::ModeGet { path: "/mp1/f".to_string() },
            FsCall::OwnerGet { path: "/mp1/f".to_string() },
            FsCall::TimeGet { path: "/mp1/f".to_string(), field: TimeField::Access },
            FsCall::TimeGet { path: "/mp1/f".to_string(), field: TimeField::Modification },
            FsCall::TimeGet { path: "/mp1/f".to_string(), field: TimeField::Change },
            FsCall::InodeRaw { path: "/mp1/f".to_string() },
            FsCall::FileSize { path: "/mp1/f".to_string(), flags: OpenFlags::READ().to_raw() },
        ]
    );
    let m = m.unwrap();
    assert_eq!(m.file_type, FileType::RegularFile);
    assert_eq!(m.mode, 0o4755);
    assert_eq!(m.size, 42);
    assert_eq!((m.uid, m.gid), (1000, 100));
    assert_eq!(m.atime, 1_700_000_001);
    assert_eq!(m.mtime, 1_700_000_000);
    assert_eq!(m.ctime, 1_700_000_002);
    assert_eq!(m.nlink, 2);
    assert_eq!(m.blocks, 8);

    // A directory's size is not read.
    let (calls, d) = drive_metadata(&fs, "/d", 0, 0o040700, (0, 0), (0, 0, 0), (0, raw_inode(3, 1 << 33)), None);
    assert_eq!(calls.len(), 6);
    let d = d.unwrap();
    assert!(d.is_dir());
    assert_eq!(d.size, 0);
    assert_eq!(d.nlink, 3);
    assert_eq!(d.blocks, 1 << 33);

    // A regular file that cannot be opened has size zero.
    let (_, f) = drive_metadata(&fs, "/f", 0, 0o100600, (0, 0), (0, 0, 0), (0, raw_inode(1, 0)), None);
    assert_eq!(f.unwrap().size, 0);

    // Errors of the mode read and of the inode read.
    let (calls, e) = drive_metadata(&fs, "/gone", 2, 0, (0, 0), (0, 0, 0), (0, vec![]), None);
    assert_eq!(calls.len(), 1);
    assert!(matches!(e, Err(Error::NotFound(ref p)) if p == "/gone"));
    assert!(!exists_answer(&e));
    // An inode that cannot be read gives one link and no blocks.
    let (_, u) = drive_metadata(&fs, "/io", 0, 0o100600, (0, 0), (0, 0, 0), (5, vec![]), Some(9));
    let u = u.unwrap();
    assert_eq!((u.nlink, u.blocks, u.size), (1, 0, 9));
    assert!(exists_answer(&Ok(d)));
}

#[test]
fn inode_counts_and_answers() {
    assert_eq!(inode_counts(&raw_inode(7, 0x1_2345_6789)), (7, 0x1_2345_6789));
    assert_eq!(inode_counts(&raw_inode(0xffff, 0xffff_ffff_ffff)), (0xffff, 0xffff_ffff_ffff));
    assert_eq!(file_type_from_mode(0o100644), FileType::RegularFile);
    assert_eq!(file_type_from_mode(0o040755), FileType::Directory);
    assert_eq!(file_type_from_mode(0o120777), FileType::Symlink);
    assert_eq!(file_type_from_mode(0o060600), FileType::BlockDevice);
    assert_eq!(file_type_from_mode(0o020600), FileType::CharDevice);
    assert_eq!(file_type_from_mode(0o010600), FileType::Fifo);
    assert_eq!(file_type_from_mode(0o140600), FileType::Socket);
    assert_eq!(file_type_from_mode(0o644), FileType::Unknown);
    assert!(inode_exist_answer(Some(0)));
    assert!(!inode_exist_answer(Some(2)));
    assert!(!inode_exist_answer(None));
    let m = Metadata::from_raw(0o100644, 1, 2, 3, 4, 5, 6, 7, Some(8));
    assert_eq!((m.nlink, m.blocks, m.size), (6, 7, 8));
}

#[test]
fn timestamp_setters_roundtrip() {
    let fs = mounted(1);
    let r = fs.set_mtime("/ts.bin", 1_700_000_000).unwrap();
    assert_eq!(r.complete(0), Ok(()));
    let r = fs.set_atime("/ts.bin", 1_700_000_001).unwrap();
    assert_eq!(r.complete(0), Ok(()));
    let r = fs.set_ctime("/ts.bin", 1_700_000_002).unwrap();
    assert_eq!(r.complete(0), Ok(()));
    // lwext4 reports back the times it was given.
    let (_, md) = drive_metadata(
        &fs,
        "/ts.bin",
        0,
        0o100644,
        (0, 0),
        (1_700_000_001, 1_700_000_000, 1_700_000_002),
        (0, raw_inode(1, 0)),
        Some(0),
    );
    let md = md.expect("stat");
    assert_eq!(md.mtime, 1_700_000_000);
    assert_eq!(md.atime, 1_700_000_001);
    assert_eq!(md.ctime, 1_700_000_002);
}

#[test]
fn xattr_set_get_list_remove_roundtrip() {
    let fs = mounted(1);
    let cap_value: &[u8] = &[
        0x00, 0x00, 0x00, 0x02, 0x00, 0x04, 0x00, 0x00, 0x00, 0x04, 0x00, 0x00, 0x00, 0x00, 0x00,
        0x00, 0x00, 0x00, 0x00, 0x00,
    ];
    let set = fs.set_xattr("/cap.bin", "security.capability", cap_value).expect("set_xattr");
    assert_eq!(
        set.call,
        FsCall::SetXattr {
            path: "/mp1/cap.bin".to_string(),
            name: "security.capability".to_string(),
            value: cap_value.to_vec()
        }
    );
    assert_eq!(set.complete(0), Ok(()));

    // lwext4 hands back the stored value.
    let read = |name: &str, value: &[u8]| -> Vec<u8> {
        let (r, _) = fs.get_xattr("/cap.bin", name).expect("get_xattr");
        let r = match r.resume(0, value.len(), vec![]) {
            XattrReadStep::Call(r, _) => r,
            XattrReadStep::Done(_) => panic!("expected fetch"),
        };
        match r.resume(0, value.len(), value.to_vec()) {
            XattrReadStep::Done(Ok(v)) => v,
            _ => panic!("expected value"),
        }
    };
    let got = read("security.capability", cap_value);
    assert_eq!(got, cap_value);

    let (l, _) = fs.list_xattr("/cap.bin").expect("list_xattr");
    let stored = b"security.capability\0".to_vec();
    let l = match l.resume(0, stored.len(), vec![]) {
        XattrListStep::Call(l, _) => l,
        XattrListStep::Done(_) => panic!("expected fetch"),
    };
    let names = match l.resume(0, stored.len(), stored) {
        XattrListStep::Done(Ok(names)) => names,
        _ => panic!("expected names"),
    };
    assert!(names.iter().any(|n| n == "security.capability"), "list returned {:?}", names);

    let acl_value: &[u8] = &[0x02, 0x00, 0x00, 0x00, 0x01, 0x00, 0x07, 0x00, 0xff, 0xff, 0xff, 0xff];
    let set = fs
        .set_xattr("/cap.bin", "system.posix_acl_access", acl_value)
        .expect("set_xattr posix_acl_access");
    assert_eq!(set.complete(0), Ok(()));
    let got = read("system.posix_acl_access", acl_value);
    assert_eq!(got, acl_value);

    let remove = fs.remove_xattr("/cap.bin", "security.capability").unwrap();
    assert_eq!(
        remove.call,
        FsCall::RemoveXattr { path: "/mp1/cap.bin".to_string(), name: "security.capability".to_string() }
    );
}

#[test]
fn time_fields_and_errno_checks() {
    let fs = mounted(1);
    let r = fs.set_ctime("/t", 5).unwrap();
    assert_eq!(r.call, FsCall::TimeSet { path: "/mp1/t".to_string(), field: TimeField::Change, time: 5 });
    let r = fs.set_atime("t", 6).unwrap();
    assert_eq!(r.call, FsCall::TimeSet { path: "/mp1/t".to_string(), field: TimeField::Access, time: 6 });
    assert_eq!(check_errno(0), Ok(()));
    assert_eq!(check_errno(28), Err(Error::NoSpace));
    assert_eq!(check_errno_with_path(21, "/d"), Err(Error::IsADirectory("/d".to_string())));
}

#[test]
fn raw_struct_defaults() {
    let d = ext4_direntry::default();
    assert_eq!(d.inode, 0);
    assert_eq!(d.name_length, 0);
    assert!(d.name.iter().all(|&b| b == 0));
    let s = ext4_mount_stats::default();
    assert_eq!(s.blocks_count, 0);
    assert_eq!(s.volume_name, [0; 16]);
}
