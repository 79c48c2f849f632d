use ext4_lwext4::calls::{FsCall, Request, TimeField};
use ext4_lwext4::error::Error;
use ext4_lwext4::fs::Ext4Fs;
use ext4_lwext4::mount::MountStep;
use ext4_lwext4::names::{device_name, has_nul, mount_point};

fn mounted(id: u64, read_only: bool) -> Ext4Fs {
    let (mut op, _) = Ext4Fs::mount(id, read_only);
    loop {
        match op.resume(0) {
            MountStep::Call(next, _) => op = next,
            MountStep::Mounted(fs) => return fs,
            MountStep::Failed(e) => panic!("mount failed: {:?}", e),
        }
    }
}

#[test]
fn device_and_mount_point_names() {
    assert_eq!(device_name(0), "ext4dev0");
    assert_eq!(device_name(42), "ext4dev42");
    assert_eq!(mount_point(7), "/mp7/");
    assert_eq!(mount_point(1234567890), "/mp1234567890/");
    assert_eq!(mount_point(u64::MAX), "/mp18446744073709551615/");
    assert_ne!(mount_point(1), mount_point(11));
    assert_ne!(device_name(12), device_name(21));
}

#[test]
fn make_path_strips_one_leading_slash() {
    let fs = mounted(3, false);
    assert_eq!(fs.mount_point(), "/mp3/");
    assert_eq!(fs.device_name(), "ext4dev3");
    assert_eq!(fs.make_path("/data/hello.txt").unwrap(), "/mp3/data/hello.txt");
    assert_eq!(fs.make_path("data/hello.txt").unwrap(), "/mp3/data/hello.txt");
    assert_eq!(fs.make_path("//x").unwrap(), "/mp3//x");
    assert_eq!(fs.make_path("").unwrap(), "/mp3/");
    assert_eq!(fs.make_path("/").unwrap(), "/mp3/");
    assert_eq!(fs.make_path("/é").unwrap(), "/mp3/é");
}

#[test]
fn make_path_rejects_nul() {
    let fs = mounted(3, false);
    assert_eq!(fs.make_path("/a\0b"), Err(Error::InvalidArgument("/a\0b".to_string())));
    assert!(has_nul("x\0"));
    assert!(!has_nul("plain"));
}

#[test]
fn write_operations_refused_when_read_only() {
    let fs = mounted(4, true);
    assert!(fs.is_read_only());
    assert_eq!(fs.remove("/a"), Err(Error::ReadOnly));
    assert_eq!(fs.rmdir("/a"), Err(Error::ReadOnly));
    assert_eq!(fs.rename("/a", "/b"), Err(Error::ReadOnly));
    assert_eq!(fs.link("/a", "/b"), Err(Error::ReadOnly));
    assert_eq!(fs.symlink("/a", "/b"), Err(Error::ReadOnly));
    assert_eq!(fs.set_permissions("/a", 0o644), Err(Error::ReadOnly));
    assert_eq!(fs.set_owner("/a", 1, 2), Err(Error::ReadOnly));
    assert_eq!(fs.set_mtime("/a", 1), Err(Error::ReadOnly));
    assert_eq!(fs.set_atime("/a", 1), Err(Error::ReadOnly));
    assert_eq!(fs.set_ctime("/a", 1), Err(Error::ReadOnly));
    assert_eq!(fs.set_xattr("/a", "user.k", b"v"), Err(Error::ReadOnly));
    assert_eq!(fs.remove_xattr("/a", "user.k"), Err(Error::ReadOnly));
    assert!(matches!(fs.mkdir("/d", 0o755), Err(Error::ReadOnly)));
    // Reads are still allowed.
    assert!(fs.readlink("/a").is_ok());
    assert!(fs.metadata("/a").is_ok());
}

#[test]
fn single_call_requests() {
    let fs = mounted(9, false);
    let r = fs.remove("/f").unwrap();
    assert_eq!(r, Request { call: FsCall::FRemove { path: "/mp9/f".to_string() }, path: "/f".to_string() });
    let r = fs.rename("/a", "b").unwrap();
    assert_eq!(
        r.call,
        FsCall::FRename { path: "/mp9/a".to_string(), new_path: "/mp9/b".to_string() }
    );
    assert_eq!(r.path, "/a");
    let r = fs.link("/src", "/dst").unwrap();
    assert_eq!(r.path, "/src");
    let r = fs.symlink("../target", "/ln").unwrap();
    assert_eq!(
        r.call,
        FsCall::FSymlink { target: "../target".to_string(), path: "/mp9/ln".to_string() }
    );
    assert_eq!(fs.symlink("bad\0", "/ln"), Err(Error::InvalidArgument("bad\0".to_string())));
    let r = fs.set_mtime("/ts.bin", 1_700_000_000).unwrap();
    assert_eq!(
        r.call,
        FsCall::TimeSet {
            path: "/mp9/ts.bin".to_string(),
            field: TimeField::Modification,
            time: 1_700_000_000
        }
    );
    let r = fs.set_owner("/o", 10, 20).unwrap();
    assert_eq!(r.call, FsCall::OwnerSet { path: "/mp9/o".to_string(), uid: 10, gid: 20 });
    let r = fs.sync();
    assert_eq!(r.call, FsCall::CacheFlush { mount_point: "/mp9/".to_string() });
    assert_eq!(r.path, "");
    let r = fs.set_xattr("/cap.bin", "security.capability", &[0, 0, 0, 2]).unwrap();
    assert_eq!(
        r.call,
        FsCall::SetXattr {
            path: "/mp9/cap.bin".to_string(),
            name: "security.capability".to_string(),
            value: vec![0, 0, 0, 2]
        }
    );
    assert_eq!(
        fs.remove_xattr("/cap.bin", "a\0b"),
        Err(Error::InvalidArgument("a\0b".to_string()))
    );
}

#[test]
fn request_completion_maps_return_codes() {
    let fs = mounted(9, false);
    let r = fs.remove("/missing").unwrap();
    assert_eq!(r.complete(0), Ok(()));
    assert_eq!(r.complete(2), Err(Error::NotFound("/missing".to_string())));
    assert_eq!(r.complete(17), Err(Error::AlreadyExists("/missing".to_string())));
    assert_eq!(r.complete(13), Err(Error::PermissionDenied("/missing".to_string())));
    assert_eq!(r.complete(1), Err(Error::PermissionDenied("/missing".to_string())));
    assert_eq!(r.complete(20), Err(Error::NotADirectory("/missing".to_string())));
    assert_eq!(r.complete(21), Err(Error::IsADirectory("/missing".to_string())));
    assert_eq!(r.complete(39), Err(Error::DirectoryNotEmpty("/missing".to_string())));
    assert_eq!(r.complete(28), Err(Error::NoSpace));
    assert_eq!(r.complete(30), Err(Error::ReadOnly));
    assert_eq!(r.complete(22), Err(Error::InvalidArgument("/missing".to_string())));
    assert_eq!(r.complete(5), Err(Error::Io(5)));
    assert_eq!(fs.sync().complete(2), Err(Error::NotFound(String::new())));
}

#[test]
fn inode_type_queries() {
    let fs = mounted(2, false);
    assert_eq!(
        fs.is_file("/f"),
        Some(FsCall::InodeExist { path: "/mp2/f".to_string(), inode_type: 1 })
    );
    assert_eq!(
        fs.is_dir("d"),
        Some(FsCall::InodeExist { path: "/mp2/d".to_string(), inode_type: 2 })
    );
    assert_eq!(fs.is_file("/\0"), None);
    assert_eq!(fs.stat(), FsCall::MountPointStats { mount_point: "/mp2/".to_string() });
    assert_eq!(
        fs.readlink("/l").unwrap(),
        FsCall::Readlink { path: "/mp2/l".to_string(), buf_size: 4096 }
    );
}
