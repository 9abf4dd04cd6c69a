//! The policy on a trailing symbolic link, and what `open` is asked for.

use vstd::prelude::*;
use crate::error::Error;
use crate::platform::{LinkOpen, Platform};

verus! {

/// What an operation does when the last component of its path is a symbolic
/// link.
#[derive(Clone, Copy, Debug, PartialEq, Eq, Structural)]
pub enum Symlink {
    /// Go through the link to what it names.
    Follow,
    /// Act on the link itself.
    Open,
    /// Refuse.
    Fail,
}

/// A call of `openat`, ready to be made: `openat(dirfd, path, flags, mode)`.
#[derive(Clone, Copy, Debug, PartialEq, Eq, Structural)]
pub struct OpenCall {
    pub dirfd: i32,
    pub flags: i32,
    pub mode: u32,
}

/// The descriptor that a directory-relative call is given: `dirfd` itself,
/// or the current directory where there is none.
pub open spec fn spec_dirfd_or_cwd(p: Platform, dirfd: Option<i32>) -> i32 {
    match dirfd {
        Some(fd) => fd,
        None => p.at.fdcwd,
    }
}

#[verifier::when_used_as_spec(spec_dirfd_or_cwd)]
pub fn dirfd_or_cwd(p: Platform, dirfd: Option<i32>) -> (fd: i32)
    ensures
        fd == spec_dirfd_or_cwd(p, dirfd),
{
    match dirfd {
        Some(fd) => fd,
        None => p.at.fdcwd,
    }
}

/// The flags that `open` gets for the caller's `oflags` under the policy
/// `links`, or the refusal where the platform cannot open a link itself.
pub open spec fn spec_open_flags(p: Platform, oflags: i32, links: Symlink) -> Result<i32, Error> {
    match links {
        Symlink::Follow => Ok(oflags),
        Symlink::Open => match p.os.link_open() {
            LinkOpen::PathNoFollow => Ok(oflags | p.open.path | p.open.nofollow),
            LinkOpen::Direct(flag) => Ok(oflags | flag),
            LinkOpen::Unsupported => Err(Error::UnsupportedOperation),
        },
        Symlink::Fail => Ok(oflags | p.open.nofollow),
    }
}

/// Adds to `oflags` what the policy `links` asks of `open`.
///
/// `Follow` adds nothing. `Fail` adds the no-follow flag, with which the
/// system itself refuses a trailing link. `Open` adds what opens the link
/// itself, and fails with `UnsupportedOperation` where nothing does: it never
/// falls back to following.
pub fn open_flags(p: Platform, oflags: i32, links: Symlink) -> (r: Result<i32, Error>)
    ensures
        r == spec_open_flags(p, oflags, links),
{
    match links {
        Symlink::Follow => Ok(oflags),
        Symlink::Open => match p.os.link_open() {
            LinkOpen::PathNoFollow => Ok(oflags | p.open.path | p.open.nofollow),
            LinkOpen::Direct(flag) => Ok(oflags | flag),
            LinkOpen::Unsupported => Err(Error::UnsupportedOperation),
        },
        Symlink::Fail => Ok(oflags | p.open.nofollow),
    }
}

pub open spec fn spec_openat(p: Platform, dirfd: Option<i32>, oflags: i32, mode: u32, links: Symlink) -> Result<
    OpenCall,
    Error,
> {
    match spec_open_flags(p, oflags, links) {
        Ok(flags) => Ok(OpenCall { dirfd: spec_dirfd_or_cwd(p, dirfd), flags, mode }),
        Err(e) => Err(e),
    }
}

/// Prepares the call that opens a path relative to `dirfd` (the current
/// directory for `None`) with the flags `oflags`, the permission bits `mode`
/// and the link policy `links`.
///
/// The caller makes the call and reads its result with
/// [`syscall_result`](crate::error::syscall_result).
pub fn openat(p: Platform, dirfd: Option<i32>, oflags: i32, mode: u32, links: Symlink) -> (r:
    Result<OpenCall, Error>)
    ensures
        r == spec_openat(p, dirfd, oflags, mode, links),
{
    match open_flags(p, oflags, links) {
        Ok(flags) => Ok(OpenCall { dirfd: dirfd_or_cwd(p, dirfd), flags, mode }),
        Err(e) => Err(e),
    }
}

/// Under the policy `Fail`, `open` is always asked not to follow a trailing
/// link, so that the system refuses one; the call is never refused here.
pub proof fn lemma_fail_opens_without_following(p: Platform, dirfd: Option<i32>, oflags: i32, mode: u32)
    ensures
        spec_open_flags(p, oflags, Symlink::Fail) == Ok::<i32, Error>(oflags | p.open.nofollow),
        spec_openat(p, dirfd, oflags, mode, Symlink::Fail) is Ok,
{
}

/// The policy `Open` is never turned into `Follow`: where the platform
/// cannot open a link itself, and only there, the operation is unsupported;
/// everywhere else the flags that open the link are added.
pub proof fn lemma_open_link_or_unsupported(p: Platform, oflags: i32)
    ensures
        spec_open_flags(p, oflags, Symlink::Open) is Err <==> p.os.link_open() is Unsupported,
        spec_open_flags(p, oflags, Symlink::Open) matches Err(e) ==> e == Error::UnsupportedOperation,
        p.os.link_open() is PathNoFollow ==> spec_open_flags(p, oflags, Symlink::Open) == Ok::<i32, Error>(
            oflags | p.open.path | p.open.nofollow,
        ),
        p.os.link_open() matches LinkOpen::Direct(flag) ==> spec_open_flags(p, oflags, Symlink::Open) == Ok::<
            i32,
            Error,
        >(oflags | flag),
        spec_open_flags(p, oflags, Symlink::Follow) == Ok::<i32, Error>(oflags),
{
}

} // verus!
