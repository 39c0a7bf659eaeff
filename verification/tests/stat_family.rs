use axerrno::AxError;
use starry_api::abi::{AT_EMPTY_PATH, AT_FDCWD, R_OK, W_OK, X_OK};
use starry_api::errno::{SysError, BACKEND_IS_A_DIRECTORY};
use starry_api::file::{
    FdTable, FileAttr, FileLike, Kstat, Stat, Statx, Timestamp, S_IFDIR, S_IFMT, S_IFREG,
};
use starry_api::path::{canonicalize, handle_file_path, resolve_target, Target};
use starry_api::ptr::{UserPtr, UserStr};
use starry_api::stat::{
    open_at_path, stat_at_path, sys_access, sys_faccessat2, sys_fstat, sys_fstatat, sys_lstat, sys_stat,
    sys_statfs, sys_statx, AccessFlags, FsType, OpenOutcome, PathProbe, StatFs,
};

fn attr(perm: u16, size: u64) -> FileAttr {
    FileAttr {
        perm,
        size,
        blocks: (size + 511) / 512,
        atime: Timestamp { sec: 1_700_000_000, nsec: 1 },
        mtime: Timestamp { sec: 1_700_000_100, nsec: 2 },
        ctime: Timestamp { sec: 1_700_000_200, nsec: 3 },
    }
}

fn text(s: &str) -> UserStr {
    UserStr::Text(s.to_string())
}

fn regular(perm: u16, size: u64) -> PathProbe {
    PathProbe {
        as_file: OpenOutcome::Opened(attr(perm, size)),
        as_dir: OpenOutcome::Failed(AxError::NotADirectory.code()),
    }
}

fn directory(perm: u16) -> PathProbe {
    PathProbe {
        as_file: OpenOutcome::Failed(AxError::IsADirectory.code()),
        as_dir: OpenOutcome::Opened(attr(perm, 4096)),
    }
}

fn missing() -> PathProbe {
    PathProbe {
        as_file: OpenOutcome::Failed(AxError::NotFound.code()),
        as_dir: OpenOutcome::Failed(AxError::NotFound.code()),
    }
}

fn stat_buf() -> UserPtr<Stat> {
    UserPtr::Mapped(Stat::zeroed())
}

fn written<T>(buf: UserPtr<T>) -> T {
    match buf {
        UserPtr::Mapped(v) => v,
        _ => panic!("nothing was written"),
    }
}

#[test]
fn stat_of_busybox_reports_size_and_regular_file() {
    let mut buf = stat_buf();
    let r = sys_stat(&text("/musl/busybox"), &regular(0o755, 500000), &mut buf);
    assert_eq!(r, Ok(0));
    let s = written(buf);
    assert_eq!(s.st_size, 500000);
    assert_eq!(s.st_mode & S_IFMT, S_IFREG);
    assert_eq!(s.st_mode, 0o100755);
    assert_eq!(s.st_blocks, 977);
    assert_eq!(s.st_blksize, 512);
    assert_eq!(s.st_nlink, 1);
    assert_eq!(s.st_mtime, 1_700_000_100);
    assert_eq!(s.st_mtime_nsec, 2);
}

#[test]
fn stat_falls_back_to_directory() {
    let mut buf = stat_buf();
    assert_eq!(sys_stat(&text("/musl"), &directory(0o755), &mut buf), Ok(0));
    let s = written(buf);
    assert_eq!(s.st_mode & S_IFMT, S_IFDIR);
    assert_eq!(s.st_mode, 0o040755);
    assert_eq!(s.st_size, 4096);
}

#[test]
fn stat_does_not_fall_back_on_other_failures() {
    let probe = PathProbe {
        as_file: OpenOutcome::Failed(AxError::NotFound.code()),
        as_dir: OpenOutcome::Opened(attr(0o755, 4096)),
    };
    assert_eq!(stat_at_path("/x", &probe), Err(SysError::NoSuchEntry));
}

#[test]
fn stat_reports_backend_failures_by_errno() {
    let mut probe = missing();
    assert_eq!(stat_at_path("/x", &probe), Err(SysError::NoSuchEntry));
    probe.as_file = OpenOutcome::Failed(AxError::PermissionDenied.code());
    assert_eq!(stat_at_path("/x", &probe), Err(SysError::PermissionDenied));
    probe.as_file = OpenOutcome::Failed(AxError::Io.code());
    assert_eq!(stat_at_path("/x", &probe), Err(SysError::Other(5)));
    probe.as_file = OpenOutcome::AttrFailed(AxError::BadFileDescriptor.code());
    assert_eq!(stat_at_path("/x", &probe), Err(SysError::BadDescriptor));
    probe.as_file = OpenOutcome::Failed(AxError::IsADirectory.code());
    probe.as_dir = OpenOutcome::Failed(AxError::IsADirectory.code());
    assert_eq!(stat_at_path("/x", &probe), Err(SysError::IsADirectory));
    probe.as_file = OpenOutcome::Failed(0);
    assert_eq!(stat_at_path("/x", &probe), Err(SysError::InvalidArgument));
    probe.as_file = OpenOutcome::Failed(i32::MIN);
    assert_eq!(stat_at_path("/x", &probe), Err(SysError::InvalidArgument));
    probe.as_file = OpenOutcome::AttrFailed(i32::MIN);
    assert_eq!(stat_at_path("/x", &probe), Err(SysError::InvalidArgument));
    probe.as_file = OpenOutcome::Failed(i32::MAX);
    assert_eq!(stat_at_path("/x", &probe), Err(SysError::InvalidArgument));
}

#[test]
fn backend_errors_given_as_linux_errors_keep_their_errno() {
    let code = AxError::from(axerrno::LinuxError::ESRCH).code();
    assert_eq!(SysError::from_backend(code), SysError::NoSuchProcess);
    assert_eq!(SysError::from_backend(AxError::InvalidInput.code()), SysError::InvalidArgument);
    assert_eq!(SysError::from_backend(AxError::BadAddress.code()), SysError::InvalidAddress);
    assert_eq!(SysError::from_backend(AxError::IllegalBytes.code()), SysError::InvalidEncoding);
    assert_eq!(
        SysError::from_backend(AxError::OperationNotPermitted.code()),
        SysError::NotPermitted
    );
    assert_eq!(SysError::from_backend(AxError::NotADirectory.code()), SysError::NotADirectory);
}

#[test]
fn stat_path_must_be_readable_text() {
    let probe = regular(0o644, 10);
    let mut buf = stat_buf();
    assert_eq!(sys_stat(&UserStr::Null, &probe, &mut buf), Err(SysError::InvalidAddress));
    assert_eq!(sys_stat(&UserStr::Unmapped, &probe, &mut buf), Err(SysError::InvalidAddress));
    assert_eq!(sys_stat(&UserStr::Malformed, &probe, &mut buf), Err(SysError::InvalidEncoding));
    assert_eq!(written(buf), Stat::zeroed());
}

#[test]
fn lstat_is_stat() {
    let mut a = stat_buf();
    let mut b = stat_buf();
    let probe = regular(0o600, 42);
    assert_eq!(sys_lstat(&text("/link"), &probe, &mut a), sys_stat(&text("/link"), &probe, &mut b));
    assert_eq!(written(a), written(b));
}

#[test]
fn stat_and_fstat_agree_on_a_regular_file() {
    let a = attr(0o644, 1234);
    let mut table = FdTable::new();
    let fd = table.add_file_like(FileLike::new_file(a, "/etc/passwd")).unwrap();
    assert_eq!(fd, 0);
    let probe = PathProbe { as_file: OpenOutcome::Opened(a), as_dir: OpenOutcome::Failed(AxError::NotADirectory.code()) };
    let mut by_path = stat_buf();
    let mut by_fd = stat_buf();
    assert_eq!(sys_stat(&text("/etc/passwd"), &probe, &mut by_path), Ok(0));
    assert_eq!(sys_fstat(&table, fd, &mut by_fd), Ok(0));
    let (p, f) = (written(by_path), written(by_fd));
    assert_eq!(p, f);
    assert_eq!(p.st_size, 1234);
    assert_eq!(p.st_atime, 1_700_000_000);
    assert_eq!(p.st_ctime, 1_700_000_200);
}

#[test]
fn fstat_on_a_closed_descriptor() {
    let mut table = FdTable::new();
    let mut buf = stat_buf();
    assert_eq!(sys_fstat(&table, 0, &mut buf), Err(SysError::BadDescriptor));
    assert_eq!(sys_fstat(&table, -1, &mut buf), Err(SysError::BadDescriptor));
    let fd = table.add_file_like(FileLike::new_directory(attr(0o755, 0), "/tmp")).unwrap();
    assert_eq!(sys_fstat(&table, fd, &mut buf), Ok(0));
    assert!(table.close(fd));
    assert!(!table.close(fd));
    assert_eq!(sys_fstat(&table, fd, &mut buf), Err(SysError::BadDescriptor));
}

#[test]
fn fstatat_empty_path_without_flag_is_no_such_entry() {
    let mut table = FdTable::new();
    let fd = table.add_file_like(FileLike::new_file(attr(0o644, 1), "/a")).unwrap();
    let probe = regular(0o644, 1);
    for dirfd in [fd, 77, -1, AT_FDCWD] {
        let mut buf = stat_buf();
        assert_eq!(
            sys_fstatat(&table, "/", dirfd, &text(""), &probe, &mut buf, 0),
            Err(SysError::NoSuchEntry)
        );
        assert_eq!(
            sys_fstatat(&table, "/", dirfd, &UserStr::Null, &probe, &mut buf, 0x100),
            Err(SysError::NoSuchEntry)
        );
        assert_eq!(written(buf), Stat::zeroed());
    }
}

#[test]
fn fstatat_empty_path_with_flag_is_fstat() {
    let mut table = FdTable::new();
    let fd = table.add_file_like(FileLike::new_file(attr(0o640, 99), "/a")).unwrap();
    let probe = missing();
    let mut at = stat_buf();
    let mut plain = stat_buf();
    assert_eq!(sys_fstatat(&table, "/", fd, &text(""), &probe, &mut at, AT_EMPTY_PATH), Ok(0));
    assert_eq!(sys_fstat(&table, fd, &mut plain), Ok(0));
    let s = written(at);
    assert_eq!(s, written(plain));
    assert_eq!(s.st_size, 99);
    assert_eq!(s.st_mode, 0o100640);
    let mut buf = stat_buf();
    assert_eq!(
        sys_fstatat(&table, "/", 5, &UserStr::Null, &probe, &mut buf, AT_EMPTY_PATH),
        Err(SysError::BadDescriptor)
    );
}

#[test]
fn fstatat_resolves_then_asks_the_backend() {
    let mut table = FdTable::new();
    let file = table.add_file_like(FileLike::new_file(attr(0o644, 1), "/a")).unwrap();
    let dir = table.add_file_like(FileLike::new_directory(attr(0o755, 0), "/usr")).unwrap();
    let probe = regular(0o755, 7);
    let mut buf = stat_buf();
    assert_eq!(sys_fstatat(&table, "/", dir, &text("bin"), &probe, &mut buf, 0), Ok(0));
    assert_eq!(written(buf).st_size, 7);
    let mut buf = stat_buf();
    assert_eq!(
        sys_fstatat(&table, "/", file, &text("bin"), &probe, &mut buf, 0),
        Err(SysError::NotADirectory)
    );
    assert_eq!(
        sys_fstatat(&table, "/", 9, &text("bin"), &probe, &mut buf, 0),
        Err(SysError::BadDescriptor)
    );
    assert_eq!(sys_fstatat(&table, "/", 9, &text("/bin"), &probe, &mut buf, 0), Ok(0));
    assert_eq!(
        sys_fstatat(&table, "/", AT_FDCWD, &text("gone"), &missing(), &mut buf, 0),
        Err(SysError::NoSuchEntry)
    );
}

#[test]
fn statx_writes_the_extended_layout() {
    let table = FdTable::new();
    let mut buf = UserPtr::Mapped(Statx::zeroed());
    let r = sys_statx(
        &table,
        "/",
        AT_FDCWD,
        &text("/musl/busybox"),
        &regular(0o755, 500000),
        0,
        0,
        &mut buf,
    );
    assert_eq!(r, Ok(0));
    let s = written(buf);
    assert_eq!(s.stx_size, 500000);
    assert_eq!(s.stx_mode, 0o100755);
    assert_eq!(s.stx_mask, 0x7ff);
    assert_eq!(s.stx_blksize, 512);
    assert_eq!(s.stx_blocks, 977);
    assert_eq!(s.stx_mtime, Timestamp { sec: 1_700_000_100, nsec: 2 });
    let mut buf = UserPtr::Mapped(Statx::zeroed());
    let r = sys_statx(&table, "/", 3, &text(""), &missing(), 0, 0, &mut buf);
    assert_eq!(r, Err(SysError::NoSuchEntry));
}

#[test]
fn layouts_keep_what_both_hold() {
    let k = Kstat {
        dev: (8 << 32) | 1,
        ino: 77,
        mode: 0o100644,
        nlink: 2,
        uid: 1000,
        gid: 100,
        rdev: (4 << 32) | 64,
        size: u64::MAX,
        blksize: 4096,
        blocks: 16,
        atime: Timestamp { sec: 1, nsec: 2 },
        mtime: Timestamp { sec: 3, nsec: 4 },
        ctime: Timestamp { sec: -5, nsec: 6 },
    };
    let s = k.to_stat();
    let x = k.to_statx();
    assert_eq!(s.st_dev, (8 << 32) | 1);
    assert_eq!((x.stx_dev_major, x.stx_dev_minor), (8, 1));
    assert_eq!((x.stx_rdev_major, x.stx_rdev_minor), (4, 64));
    assert_eq!(s.st_ino, x.stx_ino);
    assert_eq!(s.st_nlink, 2);
    assert_eq!(x.stx_nlink, 2);
    assert_eq!(s.st_size, -1);
    assert_eq!(x.stx_size, u64::MAX);
    assert_eq!(s.st_mode, 0o100644);
    assert_eq!(x.stx_mode, 0o100644);
    assert_eq!(s.st_ctime, -5);
    assert_eq!(s.st_ctime_nsec, 6);
    assert_eq!(x.stx_ctime, Timestamp { sec: -5, nsec: 6 });
    assert_eq!((s.st_uid, s.st_gid), (x.stx_uid, x.stx_gid));
}

#[test]
fn unwritable_buffer_is_invalid_address() {
    let mut table = FdTable::new();
    let fd = table.add_file_like(FileLike::new_file(attr(0o644, 1), "/a")).unwrap();
    let probe = regular(0o644, 1);
    for make in [|| UserPtr::<Stat>::Unmapped, || UserPtr::<Stat>::Null] {
        let mut buf = make();
        assert_eq!(sys_stat(&text("/a"), &probe, &mut buf), Err(SysError::InvalidAddress));
        assert_eq!(sys_lstat(&text("/a"), &probe, &mut buf), Err(SysError::InvalidAddress));
        assert_eq!(sys_fstat(&table, fd, &mut buf), Err(SysError::InvalidAddress));
        assert_eq!(
            sys_fstatat(&table, "/", fd, &text(""), &probe, &mut buf, AT_EMPTY_PATH),
            Err(SysError::InvalidAddress)
        );
        assert!(!matches!(buf, UserPtr::Mapped(_)));
    }
    let mut xbuf: UserPtr<Statx> = UserPtr::Unmapped;
    assert_eq!(
        sys_statx(&table, "/", AT_FDCWD, &text("/a"), &probe, 0, 0, &mut xbuf),
        Err(SysError::InvalidAddress)
    );
    let mut fbuf: UserPtr<StatFs> = UserPtr::Unmapped;
    assert_eq!(sys_statfs(&table, "/", &text("/a"), &mut fbuf), Err(SysError::InvalidAddress));
    // an earlier failure is reported first
    let mut buf: UserPtr<Stat> = UserPtr::Unmapped;
    assert_eq!(sys_stat(&text("/gone"), &missing(), &mut buf), Err(SysError::NoSuchEntry));
}

#[test]
fn statfs_reports_fixed_statistics() {
    let table = FdTable::new();
    let mut buf = UserPtr::Mapped(StatFs::placeholder());
    assert_eq!(sys_statfs(&table, "/", &text("/anything"), &mut buf), Ok(0));
    let s = written(buf);
    assert_eq!(s.f_type, 0xEF53);
    assert_eq!(s.f_type, FsType::EXT4_SUPER_MAGIC as isize);
    assert_eq!(s.f_bsize, 4096);
    assert_eq!(s.f_blocks, 100000);
    assert_eq!(s.f_bfree, 50000);
    assert_eq!(s.f_bavail, 40000);
    assert_eq!(s.f_files, 1000);
    assert_eq!(s.f_ffree, 500);
    assert_eq!(s.f_fsid.val, [0, 0]);
    assert_eq!(s.f_namelen, 255);
    assert_eq!(s.f_frsize, 4096);
    assert_eq!(s.f_flags, 0);
    assert_eq!(s.f_spare, [0; 5]);
}

#[test]
fn statfs_needs_a_path_that_resolves() {
    let table = FdTable::new();
    let mut buf = UserPtr::Mapped(StatFs::placeholder());
    assert_eq!(sys_statfs(&table, "/", &text("rel"), &mut buf), Err(SysError::BadDescriptor));
    assert_eq!(sys_statfs(&table, "/", &text(""), &mut buf), Err(SysError::NoSuchEntry));
    assert_eq!(sys_statfs(&table, "/", &UserStr::Null, &mut buf), Err(SysError::InvalidAddress));
}

#[test]
fn access_with_mode_zero_succeeds_without_a_look() {
    let table = FdTable::new();
    assert_eq!(sys_access(&table, "/", &text("/no/such/file"), 0, &missing()), Ok(0));
    assert_eq!(sys_access(&table, "/", &UserStr::Null, 0, &missing()), Ok(0));
    assert_eq!(sys_faccessat2(&table, "/", 42, &text("rel"), 0, 0, &missing()), Ok(0));
    assert_eq!(
        sys_access(&table, "/", &UserStr::Unmapped, 0, &missing()),
        Err(SysError::InvalidAddress)
    );
}

#[test]
fn faccessat2_on_a_missing_file_is_no_such_entry() {
    let table = FdTable::new();
    let r = sys_faccessat2(&table, "/", AT_FDCWD, &text("/no/such/file"), R_OK, 0, &missing());
    assert_eq!(r, Err(SysError::NoSuchEntry));
}

#[test]
fn faccessat2_tests_the_owner_bits() {
    let table = FdTable::new();
    let p = text("/f");
    let check = |mode: u32, perm: u16| {
        sys_faccessat2(&table, "/", AT_FDCWD, &p, mode, 0, &regular(perm, 1))
    };
    assert_eq!(check(R_OK, 0o400), Ok(0));
    assert_eq!(check(R_OK, 0o200), Err(SysError::PermissionDenied));
    assert_eq!(check(W_OK, 0o200), Ok(0));
    assert_eq!(check(X_OK, 0o100), Ok(0));
    assert_eq!(check(X_OK, 0o677), Err(SysError::PermissionDenied));
    assert_eq!(check(R_OK, 0o044), Err(SysError::PermissionDenied));
    // one granted mode is enough
    assert_eq!(check(R_OK | W_OK, 0o400), Ok(0));
    assert_eq!(check(R_OK | W_OK | X_OK, 0o100), Ok(0));
    assert_eq!(check(R_OK | W_OK | X_OK, 0), Err(SysError::PermissionDenied));
    assert_eq!(check(8, 0o777), Err(SysError::InvalidArgument));
    assert_eq!(check(R_OK | 0x10, 0o777), Err(SysError::InvalidArgument));
    assert_eq!(
        sys_faccessat2(&table, "/", AT_FDCWD, &text("/d"), X_OK, 0, &directory(0o700)),
        Ok(0)
    );
    assert_eq!(
        sys_faccessat2(&table, "/", AT_FDCWD, &UserStr::Null, R_OK, 0, &regular(0o700, 1)),
        Err(SysError::NoSuchEntry)
    );
    assert_eq!(
        sys_faccessat2(&table, "/", 3, &text("rel"), R_OK, 0, &regular(0o700, 1)),
        Err(SysError::BadDescriptor)
    );
    let failing = PathProbe {
        as_file: OpenOutcome::AttrFailed(AxError::Io.code()),
        as_dir: OpenOutcome::Failed(AxError::NotFound.code()),
    };
    assert_eq!(
        sys_faccessat2(&table, "/", AT_FDCWD, &p, R_OK, 0, &failing),
        Err(SysError::Other(5))
    );
}

#[test]
fn access_flags_follow_the_mode_bits() {
    assert_eq!(AccessFlags::readable().bits(), 4);
    assert_eq!(AccessFlags::writable().bits(), 2);
    assert_eq!(AccessFlags::executable().bits(), 1);
    assert_eq!((R_OK, W_OK, X_OK), (4, 2, 1));
    assert!(AccessFlags::from_bits(8).is_none());
    let rw = AccessFlags::from_bits(6).unwrap();
    assert!(rw.contains(&AccessFlags::readable()));
    assert!(rw.contains(&AccessFlags::writable()));
    assert!(!rw.contains(&AccessFlags::executable()));
    assert_eq!(AccessFlags::from_bits(0).unwrap().bits(), 0);
}

#[test]
fn paths_resolve_by_the_four_situations() {
    let mut table = FdTable::new();
    let file = table.add_file_like(FileLike::new_file(attr(0o644, 1), "/a")).unwrap();
    let dir = table.add_file_like(FileLike::new_directory(attr(0o755, 0), "/usr")).unwrap();
    let slash = table.add_file_like(FileLike::new_directory(attr(0o755, 0), "/opt/")).unwrap();
    assert_eq!(handle_file_path(&table, "/home", 99, "/etc/hosts").unwrap(), "/etc/hosts");
    assert_eq!(handle_file_path(&table, "/home", AT_FDCWD, "me").unwrap(), "/home/me");
    assert_eq!(handle_file_path(&table, "/", AT_FDCWD, "me").unwrap(), "/me");
    assert_eq!(handle_file_path(&table, "", AT_FDCWD, "me").unwrap(), "/me");
    assert_eq!(handle_file_path(&table, "/", dir, "bin/sh").unwrap(), "/usr/bin/sh");
    assert_eq!(handle_file_path(&table, "/", slash, "x").unwrap(), "/opt/x");
    assert_eq!(handle_file_path(&table, "/", file, "x"), Err(SysError::NotADirectory));
    assert_eq!(handle_file_path(&table, "/", 17, "x"), Err(SysError::BadDescriptor));
    assert_eq!(handle_file_path(&table, "/", AT_FDCWD, ""), Err(SysError::NoSuchEntry));
    match resolve_target(&table, "/", dir, None, AT_EMPTY_PATH) {
        Ok(Target::Descriptor(fd)) => assert_eq!(fd, dir),
        other => panic!("{:?}", other),
    }
    match resolve_target(&table, "/", dir, Some(""), AT_EMPTY_PATH | 0x100) {
        Ok(Target::Descriptor(fd)) => assert_eq!(fd, dir),
        other => panic!("{:?}", other),
    }
    assert!(matches!(
        resolve_target(&table, "/", dir, Some(""), 0),
        Err(SysError::NoSuchEntry)
    ));
    match resolve_target(&table, "/", dir, Some("lib"), AT_EMPTY_PATH) {
        Ok(Target::Path(p)) => assert_eq!(p, "/usr/lib"),
        other => panic!("{:?}", other),
    }
}

#[test]
fn file_like_reports_what_it_was_made_of() {
    let a = attr(0o7777, 3);
    let f = FileLike::new_file(a, "/f");
    assert_eq!(f.attributes(), a);
    assert_eq!(f.stat().mode, 0o100777);
    let d = FileLike::new_directory(a, "/d");
    assert_eq!(d.stat().mode, 0o040777);
    assert_eq!(d.stat().size, 3);
    assert_eq!((d.stat().ino, d.stat().nlink, d.stat().uid, d.stat().gid), (1, 1, 1, 1));
}

#[test]
fn strings_are_read_up_to_the_terminator() {
    assert!(matches!(UserStr::from_window(None), UserStr::Null));
    match UserStr::from_window(Some(b"/musl/busybox\0junk\0")) {
        UserStr::Text(t) => assert_eq!(t, "/musl/busybox"),
        _ => panic!("no text"),
    }
    match UserStr::from_window(Some(b"\0")) {
        UserStr::Text(t) => assert_eq!(t, ""),
        _ => panic!("no text"),
    }
    match UserStr::from_window(Some("/\u{e9}t\u{e9}\0".as_bytes())) {
        UserStr::Text(t) => assert_eq!(t, "/\u{e9}t\u{e9}"),
        _ => panic!("no text"),
    }
    assert!(matches!(UserStr::from_window(Some(b"no terminator")), UserStr::Unmapped));
    assert!(matches!(UserStr::from_window(Some(b"")), UserStr::Unmapped));
    assert!(matches!(UserStr::from_window(Some(&[b'a', 0xff, 0])), UserStr::Malformed));
    assert!(matches!(UserStr::from_window(Some(&[0xc3, 0])), UserStr::Malformed));
}

#[test]
fn fstat_after_open_is_stat() {
    let mut table = FdTable::new();
    for (path, probe) in [("/musl/busybox", regular(0o755, 500000)), ("/musl", directory(0o700))] {
        let fd = open_at_path(&mut table, path, &probe).unwrap();
        let mut by_path = stat_buf();
        let mut by_fd = stat_buf();
        assert_eq!(sys_stat(&text(path), &probe, &mut by_path), Ok(0));
        assert_eq!(sys_fstat(&table, fd, &mut by_fd), Ok(0));
        assert_eq!(written(by_path), written(by_fd));
    }
    assert_eq!(open_at_path(&mut table, "/gone", &missing()), Err(SysError::NoSuchEntry));
    assert_eq!(open_at_path(&mut table, "/next", &regular(0o600, 1)), Ok(2));
    // a directory that was opened is a base for relative paths
    assert_eq!(handle_file_path(&table, "/", 1, "bin").unwrap(), "/musl/bin");
    assert_eq!(handle_file_path(&table, "/", 0, "bin"), Err(SysError::NotADirectory));
}

#[test]
fn paths_are_brought_to_canonical_form() {
    assert_eq!(canonicalize("/"), "/");
    assert_eq!(canonicalize(""), "/");
    assert_eq!(canonicalize("/usr/bin/sh"), "/usr/bin/sh");
    assert_eq!(canonicalize("/usr/../bin/./sh//"), "/bin/sh");
    assert_eq!(canonicalize("//a///b/"), "/a/b");
    assert_eq!(canonicalize("/.."), "/");
    assert_eq!(canonicalize("/../../x"), "/x");
    assert_eq!(canonicalize("/a/b/../../.."), "/");
    assert_eq!(canonicalize("/a/.b/..c/..."), "/a/.b/..c/...");
    assert_eq!(canonicalize("/\u{e9}t\u{e9}/./x"), "/\u{e9}t\u{e9}/x");
    assert_eq!(canonicalize("rel/x"), "/rel/x");
    let table = FdTable::new();
    assert_eq!(handle_file_path(&table, "/a/b", AT_FDCWD, "../x").unwrap(), "/a/x");
    assert_eq!(handle_file_path(&table, "/a/b", AT_FDCWD, "./x/").unwrap(), "/a/b/x");
    assert_eq!(handle_file_path(&table, "/a/b", 5, "/c/../d").unwrap(), "/d");
    assert_eq!(handle_file_path(&table, "/", AT_FDCWD, ".").unwrap(), "/");
}

#[test]
fn is_a_directory_code_is_the_error_crates() {
    assert_eq!(BACKEND_IS_A_DIRECTORY, AxError::IsADirectory.code());
    assert_eq!(BACKEND_IS_A_DIRECTORY, axerrno::AxErrorKind::IsADirectory.code());
    assert_eq!(BACKEND_IS_A_DIRECTORY, 21);
    assert_eq!(SysError::from_backend(BACKEND_IS_A_DIRECTORY), SysError::IsADirectory);
}

#[test]
fn only_is_a_directory_falls_back_to_the_directory() {
    let dir = attr(0o750, 4096);
    // every backend code but "is a directory" is handed on, though the
    // directory would open
    for code in 1..=43 {
        let probe = PathProbe {
            as_file: OpenOutcome::Failed(code),
            as_dir: OpenOutcome::Opened(dir),
        };
        let found = stat_at_path("/d", &probe);
        if code == AxError::IsADirectory.code() {
            let k = found.unwrap();
            assert_eq!(k.mode & S_IFMT, S_IFDIR);
            assert_eq!(k.mode, 0o040750);
            assert_eq!(k.size, 4096);
        } else {
            assert_eq!(found, Err(SysError::from_backend(code)));
        }
    }
    let name_too_long = PathProbe {
        as_file: OpenOutcome::Failed(AxError::NameTooLong.code()),
        as_dir: OpenOutcome::Opened(dir),
    };
    assert_eq!(stat_at_path("/d", &name_too_long), Err(SysError::Other(36)));
    let not_found = PathProbe {
        as_file: OpenOutcome::Failed(AxError::NotFound.code()),
        as_dir: OpenOutcome::Opened(dir),
    };
    assert_eq!(stat_at_path("/d", &not_found), Err(SysError::NoSuchEntry));
    let denied = PathProbe {
        as_file: OpenOutcome::Failed(AxError::PermissionDenied.code()),
        as_dir: OpenOutcome::Opened(dir),
    };
    assert_eq!(stat_at_path("/d", &denied), Err(SysError::PermissionDenied));
}

#[test]
fn the_smallest_number_is_no_backend_code() {
    assert_eq!(SysError::from_backend(i32::MIN), SysError::InvalidArgument);
    assert_eq!(SysError::from_backend(i32::MIN + 1), SysError::InvalidArgument);
    assert_eq!(SysError::from_backend(-2), SysError::NoSuchEntry);
    let probe = PathProbe {
        as_file: OpenOutcome::Failed(i32::MIN),
        as_dir: OpenOutcome::AttrFailed(i32::MIN),
    };
    let mut buf = stat_buf();
    assert_eq!(sys_stat(&text("/x"), &probe, &mut buf), Err(SysError::InvalidArgument));
    let table = FdTable::new();
    assert_eq!(
        sys_faccessat2(&table, "/", AT_FDCWD, &text("/x"), R_OK, 0, &probe),
        Err(SysError::InvalidArgument)
    );
    let attr_failed = PathProbe {
        as_file: OpenOutcome::AttrFailed(i32::MIN),
        as_dir: OpenOutcome::Failed(i32::MIN),
    };
    assert_eq!(
        sys_faccessat2(&table, "/", AT_FDCWD, &text("/x"), R_OK, 0, &attr_failed),
        Err(SysError::InvalidArgument)
    );
}
