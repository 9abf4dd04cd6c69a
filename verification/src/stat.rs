//! File metadata: which stat call to make, and what its answer becomes.
//!
//! Linux has two calls. The extended one, `statx`, also reports when a file
//! was created, but older kernels lack it. Whether it is there is found out
//! once, by a call that must fail in a known way, and remembered in a
//! [`CapabilityState`] that the caller keeps for the process. Either answer
//! is brought into one record, [`NodeEntry`].

use vstd::prelude::*;
use crate::error::{spec_syscall_result, syscall_result, Error};
use crate::open::{dirfd_or_cwd, spec_dirfd_or_cwd, Symlink};
use crate::platform::Platform;

verus! {

/// A timestamp as `statx` reports it.
#[allow(non_camel_case_types)]
#[derive(Clone, Copy, Debug, PartialEq, Eq, Structural)]
pub struct statx_timestamp {
    pub tv_sec: i64,
    pub tv_nsec: u32,
}

/// The record that `statx` fills.
#[allow(non_camel_case_types)]
#[derive(Clone, Copy, Debug, PartialEq, Eq, Structural)]
pub struct statx {
    pub stx_mask: u32,
    pub stx_blksize: u32,
    pub stx_attributes: u64,
    pub stx_nlink: u32,
    pub stx_uid: u32,
    pub stx_gid: u32,
    pub stx_mode: u16,
    pub stx_ino: u64,
    pub stx_size: u64,
    pub stx_blocks: u64,
    pub stx_attributes_mask: u64,
    pub stx_atime: statx_timestamp,
    pub stx_btime: statx_timestamp,
    pub stx_ctime: statx_timestamp,
    pub stx_mtime: statx_timestamp,
    pub stx_rdev_major: u32,
    pub stx_rdev_minor: u32,
    pub stx_dev_major: u32,
    pub stx_dev_minor: u32,
}

/// The record that the classic stat calls fill.
#[derive(Clone, Copy, Debug, PartialEq, Eq, Structural)]
pub struct Stat {
    pub st_dev: u64,
    pub st_ino: u64,
    pub st_nlink: u64,
    pub st_mode: u32,
    pub st_uid: u32,
    pub st_gid: u32,
    pub st_rdev: u64,
    pub st_size: i64,
    pub st_blksize: i64,
    pub st_blocks: i64,
    pub st_atime: i64,
    pub st_atime_nsec: i64,
    pub st_mtime: i64,
    pub st_mtime_nsec: i64,
    pub st_ctime: i64,
    pub st_ctime_nsec: i64,
}

/// When a file was created, where the classic record of the platform tells.
#[derive(Clone, Copy, Debug, PartialEq, Eq, Structural)]
pub struct Birthtime {
    pub sec: i64,
    pub nsec: i64,
}

/// The metadata of a file: the classic record, and the time of creation,
/// which is zero in both parts where the platform does not tell it.
#[derive(Clone, Copy, Debug, PartialEq, Eq, Structural)]
pub struct NodeEntry {
    pub head: Stat,
    pub st_birthtime: i64,
    pub st_birthtime_nsec: i64,
}

/// What is known of the extended stat call in this process.
#[derive(Clone, Copy, Debug, PartialEq, Eq, Structural)]
pub enum CapabilityState {
    /// Not tried yet.
    Unknown,
    /// The kernel does not have it, or does not let this process use it.
    Unavailable,
    /// It works.
    Available,
}

/// The stat call to make next.
#[derive(Clone, Copy, Debug, PartialEq, Eq, Structural)]
pub enum StatCall {
    /// `statx(0, NULL, 0, mask, NULL)`: the call that shows, by how it fails,
    /// whether `statx` is there. Its result goes to [`probe_outcome`].
    Probe { mask: u32 },
    /// `statx(dirfd, path, flags, mask, buf)`.
    Extended { dirfd: i32, flags: i32, mask: u32 },
    /// `fstatat(dirfd, path, buf, flags)`.
    Classic { dirfd: i32, flags: i32 },
    /// `fstat(fd, buf)`.
    ClassicFd { fd: i32 },
}

/// The device number that Linux makes of a major and a minor number.
pub open spec fn spec_makedev(major: u32, minor: u32) -> u64 {
    (((major as u64) & 0x0000_0fff) << 8) | (((major as u64) & 0xffff_f000) << 32) | ((minor as u64)
        & 0x0000_00ff) | (((minor as u64) & 0xffff_ff00) << 12)
}

/// `libc::makedev`, which on Linux spreads the two numbers over the 64 bits
/// of a device number: the low 12 bits of `major` from bit 8, its upper 20
/// from bit 44, the low 8 bits of `minor` from bit 0, its upper 24 from bit
/// 20. The contract is that formula.
#[verifier::external_body]
fn makedev(major: u32, minor: u32) -> (dev: u64)
    ensures
        dev == spec_makedev(major, minor),
{
    libc::makedev(major, minor)
}

impl CapabilityState {
    pub open spec fn spec_advance(self, probed: CapabilityState) -> CapabilityState {
        if self is Unknown {
            probed
        } else {
            self
        }
    }

    /// The state after a probe came back with `probed`: knowledge, once had,
    /// stays as it is.
    #[verifier::when_used_as_spec(spec_advance)]
    pub fn advance(self, probed: CapabilityState) -> (r: CapabilityState)
        ensures
            r == self.spec_advance(probed),
    {
        match self {
            CapabilityState::Unknown => probed,
            _ => self,
        }
    }

    pub open spec fn spec_code(self) -> u8 {
        match self {
            CapabilityState::Unknown => 0,
            CapabilityState::Unavailable => 1,
            CapabilityState::Available => 2,
        }
    }

    /// The number under which the state is kept in one atomic byte.
    #[verifier::when_used_as_spec(spec_code)]
    pub fn code(self) -> (c: u8)
        ensures
            c == self.spec_code(),
    {
        match self {
            CapabilityState::Unknown => 0,
            CapabilityState::Unavailable => 1,
            CapabilityState::Available => 2,
        }
    }

    pub open spec fn spec_from_code(code: u8) -> CapabilityState {
        if code == 0 {
            CapabilityState::Unknown
        } else if code == 1 {
            CapabilityState::Unavailable
        } else {
            CapabilityState::Available
        }
    }

    /// The state kept under `code`: 0 is unknown, 1 unavailable, anything
    /// else available.
    #[verifier::when_used_as_spec(spec_from_code)]
    pub fn from_code(code: u8) -> (s: CapabilityState)
        ensures
            s == Self::spec_from_code(code),
    {
        if code == 0 {
            CapabilityState::Unknown
        } else if code == 1 {
            CapabilityState::Unavailable
        } else {
            CapabilityState::Available
        }
    }
}

pub open spec fn spec_probe_outcome(p: Platform, ret: i32, errno: i32) -> CapabilityState {
    if ret == -1 && errno == p.errno.efault {
        CapabilityState::Available
    } else {
        CapabilityState::Unavailable
    }
}

/// Reads the result of the probe. A kernel that has `statx` must refuse the
/// probe's null pointers with "bad address". Anything else, success and any
/// other error alike, means that the call cannot be used.
pub fn probe_outcome(p: Platform, ret: i32, errno: i32) -> (r: CapabilityState)
    ensures
        r == spec_probe_outcome(p, ret, errno),
{
    if ret == -1 && errno == p.errno.efault {
        CapabilityState::Available
    } else {
        CapabilityState::Unavailable
    }
}

/// The flag that makes a stat call look at a trailing link itself: set
/// unless links are followed.
pub open spec fn spec_stat_flag(p: Platform, links: Symlink) -> i32 {
    match links {
        Symlink::Follow => 0,
        _ => p.at.symlink_nofollow,
    }
}

#[verifier::when_used_as_spec(spec_stat_flag)]
pub fn stat_flag(p: Platform, links: Symlink) -> (flag: i32)
    ensures
        flag == spec_stat_flag(p, links),
{
    match links {
        Symlink::Follow => 0,
        _ => p.at.symlink_nofollow,
    }
}

/// The call that [`fstatat`] asks for.
pub open spec fn spec_fstatat(p: Platform, cap: CapabilityState, dirfd: Option<i32>, links: Symlink) -> StatCall {
    if !p.os.has_statx() || cap is Unavailable {
        StatCall::Classic { dirfd: spec_dirfd_or_cwd(p, dirfd), flags: spec_stat_flag(p, links) }
    } else if cap is Unknown {
        StatCall::Probe { mask: p.at.statx_all }
    } else {
        StatCall::Extended {
            dirfd: spec_dirfd_or_cwd(p, dirfd),
            flags: spec_stat_flag(p, links) | p.at.statx_sync_as_stat,
            mask: p.at.statx_all,
        }
    }
}

/// Says which call gets the metadata of a path relative to `dirfd` (the
/// current directory for `None`) under the link policy `links`, given what
/// is known of `statx`.
///
/// While nothing is known, the probe comes first; call again with the state
/// that [`CapabilityState::advance`] makes of its outcome. The answer of an
/// extended or classic call goes to [`stat_extended`] or [`stat_classic`].
pub fn fstatat(p: Platform, cap: CapabilityState, dirfd: Option<i32>, links: Symlink) -> (call: StatCall)
    ensures
        call == spec_fstatat(p, cap, dirfd, links),
{
    if !p.os.has_statx() {
        return StatCall::Classic { dirfd: dirfd_or_cwd(p, dirfd), flags: stat_flag(p, links) };
    }
    match cap {
        CapabilityState::Unavailable => StatCall::Classic {
            dirfd: dirfd_or_cwd(p, dirfd),
            flags: stat_flag(p, links),
        },
        CapabilityState::Unknown => StatCall::Probe { mask: p.at.statx_all },
        CapabilityState::Available => StatCall::Extended {
            dirfd: dirfd_or_cwd(p, dirfd),
            flags: stat_flag(p, links) | p.at.statx_sync_as_stat,
            mask: p.at.statx_all,
        },
    }
}

/// The call that [`fstat`] asks for.
pub open spec fn spec_fstat(p: Platform, cap: CapabilityState, fd: i32) -> StatCall {
    if !p.os.has_statx() || cap is Unavailable {
        StatCall::ClassicFd { fd }
    } else if cap is Unknown {
        StatCall::Probe { mask: p.at.statx_all }
    } else {
        StatCall::Extended {
            dirfd: fd,
            flags: p.at.statx_sync_as_stat | p.at.empty_path,
            mask: p.at.statx_all,
        }
    }
}

/// Says which call gets the metadata of the open file `fd`, given what is
/// known of `statx`. The extended call is made on `fd` with an empty path.
pub fn fstat(p: Platform, cap: CapabilityState, fd: i32) -> (call: StatCall)
    ensures
        call == spec_fstat(p, cap, fd),
{
    if !p.os.has_statx() {
        return StatCall::ClassicFd { fd };
    }
    match cap {
        CapabilityState::Unavailable => StatCall::ClassicFd { fd },
        CapabilityState::Unknown => StatCall::Probe { mask: p.at.statx_all },
        CapabilityState::Available => StatCall::Extended {
            dirfd: fd,
            flags: p.at.statx_sync_as_stat | p.at.empty_path,
            mask: p.at.statx_all,
        },
    }
}

/// Whether the mode bits `mode` are those of a symbolic link.
pub open spec fn spec_is_symlink(p: Platform, mode: u32) -> bool {
    mode & p.mode.ifmt == p.mode.iflnk
}

#[verifier::when_used_as_spec(spec_is_symlink)]
pub fn is_symlink(p: Platform, mode: u32) -> (r: bool)
    ensures
        r == spec_is_symlink(p, mode),
{
    mode & p.mode.ifmt == p.mode.iflnk
}

impl NodeEntry {
    pub open spec fn spec_initialize(head: Stat, born: Option<Birthtime>) -> NodeEntry {
        match born {
            Some(b) => NodeEntry { head, st_birthtime: b.sec, st_birthtime_nsec: b.nsec },
            None => NodeEntry { head, st_birthtime: 0, st_birthtime_nsec: 0 },
        }
    }

    /// Makes the record of a classic stat answer. `born` is the time of
    /// creation where the platform's classic record carries one; without it
    /// both parts of the creation time are zero.
    pub fn initialize(head: Stat, born: Option<Birthtime>) -> (e: NodeEntry)
        ensures
            e == Self::spec_initialize(head, born),
    {
        match born {
            Some(b) => NodeEntry { head, st_birthtime: b.sec, st_birthtime_nsec: b.nsec },
            None => NodeEntry { head, st_birthtime: 0, st_birthtime_nsec: 0 },
        }
    }

    pub open spec fn spec_from_statx(buf: statx) -> NodeEntry {
        NodeEntry {
            head: Stat {
                st_dev: spec_makedev(buf.stx_dev_major, buf.stx_dev_minor),
                st_ino: buf.stx_ino,
                st_nlink: buf.stx_nlink as u64,
                st_mode: buf.stx_mode as u32,
                st_uid: buf.stx_uid,
                st_gid: buf.stx_gid,
                st_rdev: spec_makedev(buf.stx_rdev_major, buf.stx_rdev_minor),
                st_size: buf.stx_size as i64,
                st_blksize: buf.stx_blksize as i64,
                st_blocks: buf.stx_blocks as i64,
                st_atime: buf.stx_atime.tv_sec,
                st_atime_nsec: buf.stx_atime.tv_nsec as i64,
                st_mtime: buf.stx_mtime.tv_sec,
                st_mtime_nsec: buf.stx_mtime.tv_nsec as i64,
                st_ctime: buf.stx_ctime.tv_sec,
                st_ctime_nsec: buf.stx_ctime.tv_nsec as i64,
            },
            st_birthtime: buf.stx_btime.tv_sec,
            st_birthtime_nsec: buf.stx_btime.tv_nsec as i64,
        }
    }

    /// Makes the record of an extended stat answer: each field of the
    /// classic record from its counterpart, the device numbers put together
    /// from their halves, and the time of creation as reported. Sizes beyond
    /// the signed range wrap, as the C types do.
    pub fn from_statx(buf: &statx) -> (e: NodeEntry)
        ensures
            e == Self::spec_from_statx(*buf),
    {
        NodeEntry {
            head: Stat {
                st_dev: makedev(buf.stx_dev_major, buf.stx_dev_minor),
                st_ino: buf.stx_ino,
                st_nlink: buf.stx_nlink as u64,
                st_mode: buf.stx_mode as u32,
                st_uid: buf.stx_uid,
                st_gid: buf.stx_gid,
                st_rdev: makedev(buf.stx_rdev_major, buf.stx_rdev_minor),
                st_size: #[verifier::truncate] (buf.stx_size as i64),
                st_blksize: buf.stx_blksize as i64,
                st_blocks: #[verifier::truncate] (buf.stx_blocks as i64),
                st_atime: buf.stx_atime.tv_sec,
                st_atime_nsec: buf.stx_atime.tv_nsec as i64,
                st_mtime: buf.stx_mtime.tv_sec,
                st_mtime_nsec: buf.stx_mtime.tv_nsec as i64,
                st_ctime: buf.stx_ctime.tv_sec,
                st_ctime_nsec: buf.stx_ctime.tv_nsec as i64,
            },
            st_birthtime: buf.stx_btime.tv_sec,
            st_birthtime_nsec: buf.stx_btime.tv_nsec as i64,
        }
    }
}

/// What becomes of a record under the link policy: refused as one symbolic
/// link too many where links are to fail and the record is that of a link.
pub open spec fn spec_check_link(p: Platform, links: Symlink, entry: NodeEntry) -> Result<NodeEntry, Error> {
    if links is Fail && spec_is_symlink(p, entry.head.st_mode) {
        Err(Error::Sys(p.errno.eloop))
    } else {
        Ok(entry)
    }
}

/// Applies the link policy to a record that a stat call has filled.
pub fn check_link(p: Platform, links: Symlink, entry: NodeEntry) -> (r: Result<NodeEntry, Error>)
    ensures
        r == spec_check_link(p, links, entry),
{
    match links {
        Symlink::Fail => if is_symlink(p, entry.head.st_mode) {
            Err(Error::Sys(p.errno.eloop))
        } else {
            Ok(entry)
        },
        _ => Ok(entry),
    }
}

pub open spec fn spec_stat_extended(p: Platform, links: Symlink, ret: i32, errno: i32, buf: statx) -> Result<NodeEntry, Error> {
    match spec_syscall_result(ret, errno) {
        Err(e) => Err(e),
        Ok(_) => spec_check_link(p, links, NodeEntry::spec_from_statx(buf)),
    }
}

/// Reads the answer of an extended stat call that returned `ret` and, if it
/// succeeded, filled `buf`. A failure is final: there is no second try with
/// the classic call.
pub fn stat_extended(p: Platform, links: Symlink, ret: i32, errno: i32, buf: &statx) -> (r: Result<NodeEntry, Error>)
    ensures
        r == spec_stat_extended(p, links, ret, errno, *buf),
{
    match syscall_result(ret, errno) {
        Err(e) => Err(e),
        Ok(_) => check_link(p, links, NodeEntry::from_statx(buf)),
    }
}

/// The time of creation that counts: the one that the classic record tells,
/// on a platform whose classic record tells one.
pub open spec fn spec_native_birthtime(p: Platform, born: Option<Birthtime>) -> Option<Birthtime> {
    if p.os.stat_has_birthtime() {
        born
    } else {
        None
    }
}

pub open spec fn spec_stat_classic(
    p: Platform,
    links: Symlink,
    ret: i32,
    errno: i32,
    head: Stat,
    born: Option<Birthtime>,
) -> Result<NodeEntry, Error> {
    match spec_syscall_result(ret, errno) {
        Err(e) => Err(e),
        Ok(_) => spec_check_link(p, links, NodeEntry::spec_initialize(head, spec_native_birthtime(p, born))),
    }
}

/// Reads the answer of a classic stat call that returned `ret` and, if it
/// succeeded, filled `head`. `born` is what the record tells of the time of
/// creation; it counts only on a platform whose classic record tells it.
pub fn stat_classic(p: Platform, links: Symlink, ret: i32, errno: i32, head: Stat, born: Option<Birthtime>) -> (r: Result<NodeEntry, Error>)
    ensures
        r == spec_stat_classic(p, links, ret, errno, head, born),
{
    match syscall_result(ret, errno) {
        Err(e) => Err(e),
        Ok(_) => {
            let born: Option<Birthtime> = if p.os.stat_has_birthtime() {
                born
            } else {
                None
            };
            check_link(p, links, NodeEntry::initialize(head, born))
        },
    }
}

pub open spec fn spec_filetype(p: Platform, links: Symlink, ret: i32, errno: i32, mode: u32) -> Result<u32, Error> {
    match spec_syscall_result(ret, errno) {
        Err(e) => Err(e),
        Ok(_) => if links is Fail && spec_is_symlink(p, mode) {
            Err(Error::Sys(p.errno.eloop))
        } else {
            Ok(mode & p.mode.ifmt)
        },
    }
}

/// The classic stat call that tells the kind of the file at a path relative
/// to `dirfd`. Its answer goes to [`filetype`].
pub fn filetypeat(p: Platform, dirfd: i32, links: Symlink) -> (call: StatCall)
    ensures
        call == (StatCall::Classic { dirfd, flags: spec_stat_flag(p, links) }),
{
    StatCall::Classic { dirfd, flags: stat_flag(p, links) }
}

/// Reads the kind of a file, the high bits of its mode, from the answer of
/// the call of [`filetypeat`] that returned `ret` and filled in `mode`.
pub fn filetype(p: Platform, links: Symlink, ret: i32, errno: i32, mode: u32) -> (r: Result<u32, Error>)
    ensures
        r == spec_filetype(p, links, ret, errno, mode),
{
    match syscall_result(ret, errno) {
        Err(e) => Err(e),
        Ok(_) => {
            let kind: u32 = mode & p.mode.ifmt;
            match links {
                Symlink::Fail => if kind == p.mode.iflnk {
                    Err(Error::Sys(p.errno.eloop))
                } else {
                    Ok(kind)
                },
                _ => Ok(kind),
            }
        },
    }
}

/// What is known of the extended call is never forgotten: a state other
/// than `Unknown` stays as it is whatever a later probe says, and no probe
/// outcome leads back to `Unknown`.
pub proof fn lemma_capability_never_regresses(s: CapabilityState, p: Platform, ret: i32, errno: i32)
    ensures
        !(s is Unknown) ==> s.spec_advance(spec_probe_outcome(p, ret, errno)) == s,
        !(s.spec_advance(spec_probe_outcome(p, ret, errno)) is Unknown),
{
}

/// The probe is made at most once: with its outcome taken in, neither
/// `fstatat` nor `fstat` asks for it again.
pub proof fn lemma_probe_is_made_once(
    p: Platform,
    s: CapabilityState,
    ret: i32,
    errno: i32,
    dirfd: Option<i32>,
    links: Symlink,
    fd: i32,
)
    ensures
        !(spec_fstatat(p, s.spec_advance(spec_probe_outcome(p, ret, errno)), dirfd, links) is Probe),
        !(spec_fstat(p, s.spec_advance(spec_probe_outcome(p, ret, errno)), fd) is Probe),
        spec_fstatat(p, s, dirfd, links) is Probe <==> p.os.has_statx() && s is Unknown,
{
}

/// Only "bad address" shows that the extended call is there: a probe that
/// succeeds, or fails in any other way, makes it unavailable.
pub proof fn lemma_probe_needs_bad_address(p: Platform, ret: i32, errno: i32)
    ensures
        spec_probe_outcome(p, ret, errno) is Available <==> ret == -1 && errno == p.errno.efault,
        !(spec_probe_outcome(p, ret, errno) is Available) ==> spec_probe_outcome(p, ret, errno) is Unavailable,
{
}

/// Under the policy `Fail`, a stat call that succeeded on a symbolic link
/// comes to "too many levels of symbolic links", whichever call it was, and
/// so does the query for the kind of the file.
pub proof fn lemma_fail_refuses_links(
    p: Platform,
    ret: i32,
    errno: i32,
    buf: statx,
    head: Stat,
    born: Option<Birthtime>,
)
    requires
        p.wf(),
        ret != -1,
    ensures
        spec_is_symlink(p, buf.stx_mode as u32) ==> spec_stat_extended(p, Symlink::Fail, ret, errno, buf) == Err::<
            NodeEntry,
            Error,
        >(Error::Sys(p.errno.eloop)),
        spec_is_symlink(p, head.st_mode) ==> spec_stat_classic(p, Symlink::Fail, ret, errno, head, born) == Err::<
            NodeEntry,
            Error,
        >(Error::Sys(p.errno.eloop)),
        spec_is_symlink(p, head.st_mode) ==> spec_filetype(p, Symlink::Fail, ret, errno, head.st_mode) == Err::<
            u32,
            Error,
        >(Error::Sys(p.errno.eloop)),
        Error::Sys(p.errno.eloop).spec_kind(p.errno) == crate::error::ErrorKind::TooManySymlinks,
{
}

/// Under the policies `Follow` and `Open`, a stat call that succeeded gives
/// the record as the system filled it: under `Open` that of a trailing link
/// itself, the call having been made with the no-follow flag.
pub proof fn lemma_open_describes_the_link(
    p: Platform,
    links: Symlink,
    ret: i32,
    errno: i32,
    buf: statx,
    head: Stat,
    born: Option<Birthtime>,
    dirfd: Option<i32>,
)
    requires
        !(links is Fail),
        ret != -1,
    ensures
        spec_stat_extended(p, links, ret, errno, buf) == Ok::<NodeEntry, Error>(NodeEntry::spec_from_statx(buf)),
        spec_stat_classic(p, links, ret, errno, head, born) == Ok::<NodeEntry, Error>(
            NodeEntry::spec_initialize(head, spec_native_birthtime(p, born)),
        ),
        spec_filetype(p, links, ret, errno, head.st_mode) == Ok::<u32, Error>(head.st_mode & p.mode.ifmt),
        links is Open ==> spec_stat_flag(p, links) == p.at.symlink_nofollow,
        links is Follow ==> spec_stat_flag(p, links) == 0,
{
}

/// A failed stat call is final, and its error is the system's: the classic
/// call is not tried after the extended one.
pub proof fn lemma_stat_failure_is_passed_on(
    p: Platform,
    links: Symlink,
    errno: i32,
    buf: statx,
    head: Stat,
    born: Option<Birthtime>,
)
    ensures
        spec_stat_extended(p, links, -1i32, errno, buf) == Err::<NodeEntry, Error>(Error::Sys(errno)),
        spec_stat_classic(p, links, -1i32, errno, head, born) == Err::<NodeEntry, Error>(Error::Sys(errno)),
{
}

/// The time of creation is never half there: a record from a classic answer
/// that tells none has zero in both parts, one from any other answer has
/// both parts as they were told. And where the classic record of the
/// platform tells none, none is taken from it.
pub proof fn lemma_birthtime_is_whole(p: Platform, links: Symlink, head: Stat, born: Option<Birthtime>, buf: statx)
    ensures
        !p.os.stat_has_birthtime() ==> (spec_stat_classic(p, links, 0, 0, head, born) matches Ok(e) ==> e.st_birthtime
            == 0 && e.st_birthtime_nsec == 0),
        born is None ==> NodeEntry::spec_initialize(head, born).st_birthtime == 0 && NodeEntry::spec_initialize(
            head,
            born,
        ).st_birthtime_nsec == 0,
        born matches Some(b) ==> NodeEntry::spec_initialize(head, born).st_birthtime == b.sec
            && NodeEntry::spec_initialize(head, born).st_birthtime_nsec == b.nsec,
        NodeEntry::spec_from_statx(buf).st_birthtime == buf.stx_btime.tv_sec,
        NodeEntry::spec_from_statx(buf).st_birthtime_nsec == buf.stx_btime.tv_nsec,
        NodeEntry::spec_initialize(head, born).head == head,
{
}

/// Both calls give the same record of the same file: where an extended
/// answer and a classic answer agree field by field, the records made of
/// them have the same classic part.
pub proof fn lemma_both_calls_agree(buf: statx, head: Stat, born: Option<Birthtime>)
    requires
        head.st_dev == spec_makedev(buf.stx_dev_major, buf.stx_dev_minor),
        head.st_rdev == spec_makedev(buf.stx_rdev_major, buf.stx_rdev_minor),
        head.st_ino == buf.stx_ino,
        head.st_nlink == buf.stx_nlink,
        head.st_mode == buf.stx_mode,
        head.st_uid == buf.stx_uid,
        head.st_gid == buf.stx_gid,
        head.st_size == buf.stx_size,
        head.st_blksize == buf.stx_blksize,
        head.st_blocks == buf.stx_blocks,
        head.st_atime == buf.stx_atime.tv_sec,
        head.st_atime_nsec == buf.stx_atime.tv_nsec,
        head.st_mtime == buf.stx_mtime.tv_sec,
        head.st_mtime_nsec == buf.stx_mtime.tv_nsec,
        head.st_ctime == buf.stx_ctime.tv_sec,
        head.st_ctime_nsec == buf.stx_ctime.tv_nsec,
    ensures
        NodeEntry::spec_from_statx(buf).head == NodeEntry::spec_initialize(head, born).head,
{
}

} // verus!
