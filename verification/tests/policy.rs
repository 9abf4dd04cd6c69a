use fsmeta::{
    cut_at_nul, dirfd_or_cwd, faccessat, fchown, get_accmode, get_path, open_flags, openat,
    syscall_result, AccessCall, ChownCall, Error, ErrorKind, OpenCall, Os, PathQuery, Platform,
    Symlink,
};

fn platform_of(os: Os) -> Platform {
    let mut p = Platform::native();
    p.os = os;
    p
}

#[test]
fn syscall_result_reads_minus_one_as_failure() {
    assert_eq!(syscall_result(3, 0), Ok(3));
    assert_eq!(syscall_result(0, libc::ENOENT), Ok(0));
    assert_eq!(syscall_result(-2, libc::ENOENT), Ok(-2));
    assert_eq!(syscall_result(-1, libc::ENOENT), Err(Error::Sys(libc::ENOENT)));
    assert_eq!(syscall_result(-1, 0), Err(Error::Sys(0)));
}

#[test]
fn error_kinds() {
    let codes = Platform::native().errno;
    assert_eq!(Error::Sys(libc::ENOENT).kind(codes), ErrorKind::NotFound);
    assert_eq!(Error::Sys(libc::EEXIST).kind(codes), ErrorKind::AlreadyExists);
    assert_eq!(Error::Sys(libc::EACCES).kind(codes), ErrorKind::PermissionDenied);
    assert_eq!(Error::Sys(libc::ELOOP).kind(codes), ErrorKind::TooManySymlinks);
    assert_eq!(Error::Sys(libc::EIO).kind(codes), ErrorKind::Os(libc::EIO));
    assert_eq!(Error::Sys(libc::EFAULT).kind(codes), ErrorKind::Os(libc::EFAULT));
    assert_eq!(Error::InvalidPath.kind(codes), ErrorKind::InvalidArgument);
    assert_eq!(Error::InvalidUtf8.kind(codes), ErrorKind::InvalidArgument);
    assert_eq!(Error::UnsupportedOperation.kind(codes), ErrorKind::UnsupportedOperation);
}

#[test]
fn error_numbers() {
    assert_eq!(Error::from_errno(13), Error::Sys(13));
    assert_eq!(Error::Sys(13).as_errno(), Some(13));
    assert_eq!(Error::InvalidPath.as_errno(), None);
    assert_eq!(Error::InvalidUtf8.as_errno(), None);
    assert_eq!(Error::UnsupportedOperation.as_errno(), None);
    assert!(Error::Sys(17).is_errno(17));
    assert!(!Error::Sys(17).is_errno(2));
    assert!(!Error::InvalidPath.is_errno(0));
}

#[test]
fn dirfd_defaults_to_the_current_directory() {
    let p = Platform::native();
    assert_eq!(dirfd_or_cwd(p, None), libc::AT_FDCWD);
    assert_eq!(dirfd_or_cwd(p, Some(7)), 7);
}

#[test]
fn open_flags_on_linux() {
    let p = Platform::native();
    let base = libc::O_RDONLY | libc::O_CLOEXEC;
    assert_eq!(open_flags(p, base, Symlink::Follow), Ok(base));
    assert_eq!(open_flags(p, base, Symlink::Open), Ok(base | libc::O_PATH | libc::O_NOFOLLOW));
    assert_eq!(open_flags(p, base, Symlink::Fail), Ok(base | libc::O_NOFOLLOW));
}

#[test]
fn open_flags_elsewhere() {
    let mac = platform_of(Os::MacOs { minor: 12 });
    assert_eq!(open_flags(mac, 1, Symlink::Open), Ok(1 | 0x20_0000));
    assert_eq!(open_flags(mac, 1, Symlink::Fail), Ok(1 | mac.open.nofollow));
    for os in [Os::NetBsd, Os::Bsd, Os::Other] {
        let p = platform_of(os);
        assert_eq!(open_flags(p, 1, Symlink::Open), Err(Error::UnsupportedOperation));
        assert_eq!(open_flags(p, 1, Symlink::Follow), Ok(1));
        assert_eq!(open_flags(p, 1, Symlink::Fail), Ok(1 | p.open.nofollow));
    }
}

#[test]
fn openat_prepares_the_call() {
    let p = Platform::native();
    assert_eq!(
        openat(p, None, libc::O_WRONLY, 0o644, Symlink::Fail),
        Ok(OpenCall { dirfd: libc::AT_FDCWD, flags: libc::O_WRONLY | libc::O_NOFOLLOW, mode: 0o644 })
    );
    assert_eq!(
        openat(p, Some(5), libc::O_RDONLY, 0, Symlink::Follow),
        Ok(OpenCall { dirfd: 5, flags: libc::O_RDONLY, mode: 0 })
    );
    assert_eq!(
        openat(platform_of(Os::Other), Some(5), libc::O_RDONLY, 0, Symlink::Open),
        Err(Error::UnsupportedOperation)
    );
}

#[test]
fn faccessat_by_policy() {
    let p = Platform::native();
    assert_eq!(
        faccessat(p, None, libc::R_OK, Symlink::Follow),
        Ok(AccessCall { dirfd: libc::AT_FDCWD, mode: libc::R_OK, flag: 0, refuse_link: false })
    );
    assert_eq!(
        faccessat(p, Some(4), libc::W_OK, Symlink::Open),
        Ok(AccessCall { dirfd: 4, mode: libc::W_OK, flag: libc::AT_SYMLINK_NOFOLLOW, refuse_link: false })
    );
    assert_eq!(
        faccessat(p, Some(4), libc::F_OK, Symlink::Fail),
        Ok(AccessCall { dirfd: 4, mode: libc::F_OK, flag: libc::AT_SYMLINK_NOFOLLOW, refuse_link: true })
    );
}

#[test]
fn faccessat_on_old_macos() {
    let old = platform_of(Os::MacOs { minor: 14 });
    assert_eq!(faccessat(old, None, libc::F_OK, Symlink::Open), Err(Error::UnsupportedOperation));
    assert_eq!(
        faccessat(old, None, libc::F_OK, Symlink::Fail),
        Ok(AccessCall { dirfd: old.at.fdcwd, mode: libc::F_OK, flag: 0, refuse_link: true })
    );
    let new = platform_of(Os::MacOs { minor: 15 });
    assert_eq!(
        faccessat(new, None, libc::F_OK, Symlink::Open),
        Ok(AccessCall { dirfd: new.at.fdcwd, mode: libc::F_OK, flag: new.at.symlink_nofollow, refuse_link: false })
    );
}

#[test]
fn accmode_of_a_descriptor() {
    let p = Platform::native();
    assert_eq!(get_accmode(p, libc::O_RDONLY, 0, true, false), Ok(true));
    assert_eq!(get_accmode(p, libc::O_RDONLY, 0, false, true), Ok(false));
    assert_eq!(get_accmode(p, libc::O_RDONLY, 0, true, true), Ok(false));
    assert_eq!(get_accmode(p, libc::O_WRONLY, 0, true, false), Ok(false));
    assert_eq!(get_accmode(p, libc::O_WRONLY, 0, false, true), Ok(true));
    assert_eq!(get_accmode(p, libc::O_WRONLY | libc::O_APPEND, 0, false, true), Ok(true));
    assert_eq!(get_accmode(p, libc::O_RDWR, 0, true, true), Ok(true));
    assert_eq!(get_accmode(p, libc::O_RDONLY, 0, false, false), Ok(true));
    assert_eq!(get_accmode(p, -1, libc::EBADF, true, false), Err(Error::Sys(libc::EBADF)));
}

#[test]
fn accmode_of_a_path_descriptor() {
    let p = Platform::native();
    assert_eq!(get_accmode(p, libc::O_PATH, 0, false, false), Ok(true));
    assert_eq!(get_accmode(p, libc::O_PATH, 0, true, false), Ok(false));
    assert_eq!(get_accmode(p, libc::O_PATH | libc::O_RDWR, 0, false, true), Ok(false));
    // Where descriptors for a name alone are unknown, the bit means nothing.
    let mac = platform_of(Os::MacOs { minor: 15 });
    assert_eq!(get_accmode(mac, libc::O_PATH | libc::O_RDWR, 0, true, true), Ok(true));
}

#[test]
fn path_of_a_descriptor() {
    let p = Platform::native();
    assert_eq!(get_path(p, libc::AT_FDCWD), PathQuery::Cwd);
    assert_eq!(get_path(p, 5), PathQuery::ReadLink("/proc/self/fd/5".to_string()));
    assert_eq!(get_path(p, 1234567), PathQuery::ReadLink("/proc/self/fd/1234567".to_string()));
    assert_eq!(get_path(p, 0), PathQuery::ReadLink("/proc/self/fd/0".to_string()));
    assert_eq!(get_path(p, -7), PathQuery::ReadLink("/proc/self/fd/-7".to_string()));
    assert_eq!(get_path(platform_of(Os::MacOs { minor: 15 }), 5), PathQuery::FcntlGetPath);
    assert_eq!(get_path(platform_of(Os::NetBsd), 5), PathQuery::FcntlGetPath);
    assert_eq!(get_path(platform_of(Os::Bsd), 5), PathQuery::Unknown);
    assert_eq!(get_path(platform_of(Os::Other), libc::AT_FDCWD), PathQuery::Cwd);
}

#[test]
fn path_of_a_descriptor_can_be_read() {
    let p = Platform::native();
    let fd = nix::fcntl::open("/tmp", nix::fcntl::OFlag::O_RDONLY, nix::sys::stat::Mode::empty()).unwrap();
    let link = match get_path(p, fd) {
        PathQuery::ReadLink(link) => link,
        other => panic!("unexpected {:?}", other),
    };
    let target = nix::fcntl::readlink(link.as_str()).unwrap();
    nix::unistd::close(fd).unwrap();
    assert!(!target.is_empty());
}

#[test]
fn buffer_is_cut_at_the_first_nul() {
    assert_eq!(cut_at_nul(b"/tmp/x\0\0\0\0"), Some(&b"/tmp/x"[..]));
    assert_eq!(cut_at_nul(b"\0abc"), Some(&b""[..]));
    assert_eq!(cut_at_nul(b"a\0b\0"), Some(&b"a"[..]));
    assert_eq!(cut_at_nul(b"abc"), None);
    assert_eq!(cut_at_nul(b""), None);
}

#[test]
fn test_fchown() {
    // Testing for anything other than our own UID/GID is hard.
    let uid = Some(nix::unistd::getuid().as_raw());
    let gid = Some(nix::unistd::getgid().as_raw());
    assert_eq!(fchown(uid, gid), ChownCall { uid: uid.unwrap(), gid: gid.unwrap() });
    assert_eq!(fchown(uid, None), ChownCall { uid: uid.unwrap(), gid: u32::MAX });
    assert_eq!(fchown(None, gid), ChownCall { uid: u32::MAX, gid: gid.unwrap() });
    assert_eq!(fchown(None, None), ChownCall { uid: u32::MAX, gid: u32::MAX });

    let path = format!("/tmp/fsmeta_chown_{}", nix::unistd::getpid());
    let fd = nix::fcntl::open(
        path.as_str(),
        nix::fcntl::OFlag::O_CREAT | nix::fcntl::OFlag::O_WRONLY,
        nix::sys::stat::Mode::S_IRUSR | nix::sys::stat::Mode::S_IWUSR,
    )
    .unwrap();
    for call in [fchown(uid, gid), fchown(uid, None), fchown(None, gid)] {
        nix::unistd::chown(
            path.as_str(),
            Some(nix::unistd::Uid::from_raw(call.uid)),
            Some(nix::unistd::Gid::from_raw(call.gid)),
        )
        .unwrap();
        let info = nix::sys::stat::fstat(fd).unwrap();
        assert_eq!(Some(info.st_uid), uid);
        assert_eq!(Some(info.st_gid), gid);
    }
    nix::unistd::close(fd).unwrap();
    nix::unistd::unlink(path.as_str()).unwrap();
}
