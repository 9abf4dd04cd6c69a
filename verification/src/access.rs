//! Access checks: what a descriptor was opened for, what name is behind it,
//! and what `faccessat` is asked for.

use vstd::prelude::*;
use vstd::slice::slice_subrange;
use vstd::string::*;
use crate::error::{spec_syscall_result, syscall_result, Error};
use crate::open::{dirfd_or_cwd, spec_dirfd_or_cwd, Symlink};
use crate::platform::{FdPathSource, Platform};

verus! {

/// Whether a descriptor with the status flags `flags` can be used as wanted.
///
/// A descriptor that stands for a name alone allows neither reading nor
/// writing. Otherwise one opened for writing only does not allow reading,
/// and one opened for reading only does not allow writing.
pub open spec fn spec_accmode_allows(p: Platform, flags: i32, want_read: bool, want_write: bool) -> bool {
    if p.os.has_path_descriptors() && flags & p.open.path != 0 {
        !want_read && !want_write
    } else if p.open.accmode & flags == p.open.wronly && want_read {
        false
    } else if p.open.accmode & flags == p.open.rdonly && want_write {
        false
    } else {
        true
    }
}

pub open spec fn spec_get_accmode(p: Platform, ret: i32, errno: i32, want_read: bool, want_write: bool) -> Result<bool, Error> {
    match spec_syscall_result(ret, errno) {
        Err(e) => Err(e),
        Ok(flags) => Ok(spec_accmode_allows(p, flags, want_read, want_write)),
    }
}

/// Reads the answer `ret` of `fcntl(fd, F_GETFL)`: whether the descriptor
/// allows reading, if `want_read`, and writing, if `want_write`.
pub fn get_accmode(p: Platform, ret: i32, errno: i32, want_read: bool, want_write: bool) -> (r: Result<bool, Error>)
    ensures
        r == spec_get_accmode(p, ret, errno, want_read, want_write),
{
    match syscall_result(ret, errno) {
        Err(e) => Err(e),
        Ok(flags) => {
            if p.os.has_path_descriptors() && flags & p.open.path != 0 {
                return Ok(!want_read && !want_write);
            }
            let mode: i32 = p.open.accmode & flags;
            if mode == p.open.wronly && want_read {
                Ok(false)
            } else if mode == p.open.rdonly && want_write {
                Ok(false)
            } else {
                Ok(true)
            }
        },
    }
}

/// A call of `faccessat`, ready to be made:
/// `faccessat(dirfd, path, mode, flag)`.
#[derive(Clone, Copy, Debug, PartialEq, Eq, Structural)]
pub struct AccessCall {
    pub dirfd: i32,
    pub mode: i32,
    pub flag: i32,
    /// The caller first asks for the kind of the file, with
    /// [`filetypeat`](crate::stat::filetypeat) under [`Symlink::Fail`], and
    /// makes the access call only if that succeeds.
    pub refuse_link: bool,
}

pub open spec fn spec_faccessat(p: Platform, dirfd: Option<i32>, mode: i32, links: Symlink) -> Result<AccessCall, Error> {
    let fd = spec_dirfd_or_cwd(p, dirfd);
    match links {
        Symlink::Follow => Ok(AccessCall { dirfd: fd, mode, flag: 0, refuse_link: false }),
        Symlink::Open => if p.os.access_nofollow() {
            Ok(AccessCall { dirfd: fd, mode, flag: p.at.symlink_nofollow, refuse_link: false })
        } else {
            Err(Error::UnsupportedOperation)
        },
        Symlink::Fail => Ok(
            AccessCall {
                dirfd: fd,
                mode,
                flag: if p.os.access_nofollow() {
                    p.at.symlink_nofollow
                } else {
                    0
                },
                refuse_link: true,
            },
        ),
    }
}

/// Prepares the check whether the path relative to `dirfd` (the current
/// directory for `None`) can be accessed in the ways `mode`.
///
/// Under `Open` the link itself is checked, which fails with
/// `UnsupportedOperation` where the platform cannot. Under `Fail` a trailing
/// link is refused before the check is made.
pub fn faccessat(p: Platform, dirfd: Option<i32>, mode: i32, links: Symlink) -> (r: Result<AccessCall, Error>)
    ensures
        r == spec_faccessat(p, dirfd, mode, links),
{
    let fd: i32 = dirfd_or_cwd(p, dirfd);
    match links {
        Symlink::Follow => Ok(AccessCall { dirfd: fd, mode, flag: 0, refuse_link: false }),
        Symlink::Open => if p.os.access_nofollow() {
            Ok(AccessCall { dirfd: fd, mode, flag: p.at.symlink_nofollow, refuse_link: false })
        } else {
            Err(Error::UnsupportedOperation)
        },
        Symlink::Fail => {
            let flag: i32 = if p.os.access_nofollow() {
                p.at.symlink_nofollow
            } else {
                0
            };
            Ok(AccessCall { dirfd: fd, mode, flag, refuse_link: true })
        },
    }
}

/// How to learn the path behind a descriptor.
#[derive(Debug, PartialEq, Eq)]
pub enum PathQuery {
    /// It is the current directory: ask for that.
    Cwd,
    /// Read where this symbolic link points.
    ReadLink(String),
    /// `fcntl(fd, F_GETPATH, buf)`, then [`cut_at_nul`] on the buffer.
    FcntlGetPath,
    /// The platform does not tell.
    Unknown,
}

/// The decimal digits of `n`, with a minus sign before them where `n` is
/// negative, as `to_string` writes them.
pub uninterp spec fn decimal_text(n: int) -> Seq<char>;

/// `i32::to_string` of the standard library: the number in decimal.
#[verifier::external_body]
fn decimal(n: i32) -> (s: String)
    ensures
        s@ == decimal_text(n as int),
{
    n.to_string()
}

/// Says how the path of the open file `fd` is found: for the pseudo
/// descriptor of the current directory by asking for that directory; on
/// Linux by reading the link `/proc/self/fd/<fd>`; on macOS and NetBSD by
/// `fcntl`; elsewhere not at all.
pub fn get_path(p: Platform, fd: i32) -> (q: PathQuery)
    ensures
        fd == p.at.fdcwd ==> q is Cwd,
        fd != p.at.fdcwd ==> match p.os.fd_path_source() {
            FdPathSource::ProcSelfFd => q matches PathQuery::ReadLink(link) && link@
                == "/proc/self/fd/"@ + decimal_text(fd as int),
            FdPathSource::FcntlGetPath => q is FcntlGetPath,
            FdPathSource::Nowhere => q is Unknown,
        },
{
    if fd == p.at.fdcwd {
        return PathQuery::Cwd;
    }
    match p.os.fd_path_source() {
        FdPathSource::ProcSelfFd => {
            let digits: String = decimal(fd);
            let link: String = "/proc/self/fd/".to_owned().concat(digits.as_str());
            PathQuery::ReadLink(link)
        },
        FdPathSource::FcntlGetPath => PathQuery::FcntlGetPath,
        FdPathSource::Nowhere => PathQuery::Unknown,
    }
}

/// The bytes of `buf` before its first NUL byte, if it has one.
pub fn cut_at_nul(buf: &[u8]) -> (r: Option<&[u8]>)
    ensures
        match r {
            Some(name) => exists|n: int|
                0 <= n < buf@.len() && buf@[n] == 0 && name@ == buf@.subrange(0, n) && !name@.contains(
                    0u8,
                ),
            None => !buf@.contains(0u8),
        },
{
    let mut n: usize = 0;
    while n < buf.len()
        invariant
            0 <= n <= buf@.len(),
            forall|k: int| 0 <= k < n ==> buf@[k] != 0,
        decreases buf@.len() - n,
    {
        if buf[n] == 0 {
            let name: &[u8] = slice_subrange(buf, 0, n);
            return Some(name);
        }
        n += 1;
    }
    None
}

/// Under the policy `Fail` an access check always asks for a trailing link
/// to be refused first; under `Open` it checks the link itself or is
/// unsupported, and never follows; under `Follow` it passes no flag.
pub proof fn lemma_access_policy(p: Platform, dirfd: Option<i32>, mode: i32)
    ensures
        spec_faccessat(p, dirfd, mode, Symlink::Fail) matches Ok(call) && call.refuse_link,
        spec_faccessat(p, dirfd, mode, Symlink::Open) is Err <==> !p.os.access_nofollow(),
        spec_faccessat(p, dirfd, mode, Symlink::Open) matches Err(e) ==> e == Error::UnsupportedOperation,
        spec_faccessat(p, dirfd, mode, Symlink::Open) matches Ok(call) ==> (call.flag == p.at.symlink_nofollow
            && !call.refuse_link),
        spec_faccessat(p, dirfd, mode, Symlink::Follow) matches Ok(call) && call.flag == 0 && !call.refuse_link,
{
}

} // verus!
