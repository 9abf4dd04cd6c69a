//! The numbers and capabilities of the system that the library runs on.
//!
//! Every decision in this crate that ends in a flag word, an error number or a
//! timestamp sentinel takes those values from a [`Platform`]. The values
//! differ from one system to the next, so the functions are exact about how
//! they combine them and claim nothing about what they are;
//! [`Platform::native`] reads them from `libc`.

use vstd::prelude::*;

verus! {

/// The `O_*` words that `open` takes.
#[derive(Clone, Copy, Debug, PartialEq, Eq, Structural)]
pub struct OpenFlags {
    /// `O_NOFOLLOW`: fail if the last component is a symbolic link.
    pub nofollow: i32,
    /// `O_PATH`: open the name itself, without access to its contents.
    pub path: i32,
    /// `O_ACCMODE`: the mask of the access mode.
    pub accmode: i32,
    /// `O_RDONLY`.
    pub rdonly: i32,
    /// `O_WRONLY`.
    pub wronly: i32,
}

/// The `AT_*` words of the directory-relative calls, and the `statx` mask.
#[derive(Clone, Copy, Debug, PartialEq, Eq, Structural)]
pub struct AtFlags {
    /// `AT_FDCWD`: the pseudo-descriptor of the current directory.
    pub fdcwd: i32,
    /// `AT_SYMLINK_NOFOLLOW`: act on a trailing symbolic link itself.
    pub symlink_nofollow: i32,
    /// `AT_EMPTY_PATH`: act on the descriptor when the path is empty.
    pub empty_path: i32,
    /// `AT_STATX_SYNC_AS_STAT`: be as consistent as classic `stat`.
    pub statx_sync_as_stat: i32,
    /// `STATX_ALL`: the request mask that asks for every field.
    pub statx_all: u32,
}

/// The bits of `st_mode` that tell the kind of a file.
#[derive(Clone, Copy, Debug, PartialEq, Eq, Structural)]
pub struct ModeBits {
    /// `S_IFMT`: the mask of the file kind.
    pub ifmt: u32,
    /// `S_IFLNK`: the kind of a symbolic link.
    pub iflnk: u32,
}

/// The values that stand in the nanosecond field of a `timespec` in place of
/// a time.
#[derive(Clone, Copy, Debug, PartialEq, Eq, Structural)]
pub struct TimeSentinels {
    /// `UTIME_NOW`: set the timestamp to the time of the call.
    pub now: i64,
    /// `UTIME_OMIT`: leave the timestamp as it is.
    pub omit: i64,
}

/// The error numbers that the library tells apart.
#[derive(Clone, Copy, Debug, PartialEq, Eq, Structural)]
pub struct Errnos {
    /// `ENOENT`.
    pub enoent: i32,
    /// `EEXIST`.
    pub eexist: i32,
    /// `EACCES`.
    pub eacces: i32,
    /// `ELOOP`.
    pub eloop: i32,
    /// `EFAULT`.
    pub efault: i32,
}

/// The family of operating system, as far as the library's behaviour depends
/// on it.
#[derive(Clone, Copy, Debug, PartialEq, Eq, Structural)]
pub enum Os {
    /// Linux with glibc or musl.
    Linux,
    /// macOS 10.`minor`.
    MacOs { minor: u32 },
    /// NetBSD.
    NetBsd,
    /// FreeBSD or OpenBSD.
    Bsd,
    /// Any other POSIX system.
    Other,
}

/// How `open` is asked for a symbolic link itself.
#[derive(Clone, Copy, Debug, PartialEq, Eq, Structural)]
pub enum LinkOpen {
    /// With `O_PATH` and `O_NOFOLLOW`.
    PathNoFollow,
    /// With one flag of its own (`O_SYMLINK`), whose value is carried here.
    Direct(i32),
    /// Not at all.
    Unsupported,
}

/// Where the name behind a descriptor can be asked for.
#[derive(Clone, Copy, Debug, PartialEq, Eq, Structural)]
pub enum FdPathSource {
    /// The link `/proc/self/fd/<fd>`.
    ProcSelfFd,
    /// `fcntl` with `F_GETPATH`.
    FcntlGetPath,
    /// Nowhere.
    Nowhere,
}

/// `O_SYMLINK` of macOS, which `libc` does not export.
pub const MACOS_O_SYMLINK: i32 = 0x20_0000;

impl Os {
    /// Whether the extended stat call exists at all.
    pub open spec fn spec_has_statx(self) -> bool {
        self is Linux
    }

    /// Whether `futimens` and `utimensat`, with their `now` and `omit`
    /// sentinels, are there: everywhere but on macOS 10.10 to 10.12.
    pub open spec fn spec_has_utimens(self) -> bool {
        !(self matches Os::MacOs { minor } && 10 <= minor < 13)
    }

    /// Whether `faccessat` takes `AT_SYMLINK_NOFOLLOW`: everywhere but on
    /// macOS before 10.15.
    pub open spec fn spec_access_nofollow(self) -> bool {
        !(self matches Os::MacOs { minor } && minor < 15)
    }

    /// How a symbolic link itself is opened.
    pub open spec fn spec_link_open(self) -> LinkOpen {
        match self {
            Os::Linux => LinkOpen::PathNoFollow,
            Os::MacOs { .. } => LinkOpen::Direct(MACOS_O_SYMLINK),
            _ => LinkOpen::Unsupported,
        }
    }

    /// Whether a descriptor can be open for its name alone (`O_PATH`).
    pub open spec fn spec_has_path_descriptors(self) -> bool {
        self is Linux
    }

    /// Where the name behind a descriptor is found.
    pub open spec fn spec_fd_path_source(self) -> FdPathSource {
        match self {
            Os::Linux => FdPathSource::ProcSelfFd,
            Os::MacOs { .. } | Os::NetBsd => FdPathSource::FcntlGetPath,
            _ => FdPathSource::Nowhere,
        }
    }

    /// Whether the classic stat record itself tells when a file was
    /// created: on macOS and the BSDs.
    pub open spec fn spec_stat_has_birthtime(self) -> bool {
        self is MacOs || self is NetBsd || self is Bsd
    }

    /// Whether the system clock counts in microseconds.
    pub open spec fn spec_clock_in_micros(self) -> bool {
        self is MacOs
    }

    #[verifier::when_used_as_spec(spec_has_statx)]
    pub fn has_statx(self) -> (r: bool)
        ensures
            r == self.spec_has_statx(),
    {
        match self {
            Os::Linux => true,
            _ => false,
        }
    }

    #[verifier::when_used_as_spec(spec_has_utimens)]
    pub fn has_utimens(self) -> (r: bool)
        ensures
            r == self.spec_has_utimens(),
    {
        match self {
            Os::MacOs { minor } => !(10 <= minor && minor < 13),
            _ => true,
        }
    }

    #[verifier::when_used_as_spec(spec_access_nofollow)]
    pub fn access_nofollow(self) -> (r: bool)
        ensures
            r == self.spec_access_nofollow(),
    {
        match self {
            Os::MacOs { minor } => minor >= 15,
            _ => true,
        }
    }

    #[verifier::when_used_as_spec(spec_link_open)]
    pub fn link_open(self) -> (r: LinkOpen)
        ensures
            r == self.spec_link_open(),
    {
        match self {
            Os::Linux => LinkOpen::PathNoFollow,
            Os::MacOs { .. } => LinkOpen::Direct(MACOS_O_SYMLINK),
            _ => LinkOpen::Unsupported,
        }
    }

    #[verifier::when_used_as_spec(spec_has_path_descriptors)]
    pub fn has_path_descriptors(self) -> (r: bool)
        ensures
            r == self.spec_has_path_descriptors(),
    {
        match self {
            Os::Linux => true,
            _ => false,
        }
    }

    #[verifier::when_used_as_spec(spec_fd_path_source)]
    pub fn fd_path_source(self) -> (r: FdPathSource)
        ensures
            r == self.spec_fd_path_source(),
    {
        match self {
            Os::Linux => FdPathSource::ProcSelfFd,
            Os::MacOs { .. } => FdPathSource::FcntlGetPath,
            Os::NetBsd => FdPathSource::FcntlGetPath,
            _ => FdPathSource::Nowhere,
        }
    }

    #[verifier::when_used_as_spec(spec_stat_has_birthtime)]
    pub fn stat_has_birthtime(self) -> (r: bool)
        ensures
            r == self.spec_stat_has_birthtime(),
    {
        match self {
            Os::MacOs { .. } => true,
            Os::NetBsd => true,
            Os::Bsd => true,
            _ => false,
        }
    }

    #[verifier::when_used_as_spec(spec_clock_in_micros)]
    pub fn clock_in_micros(self) -> (r: bool)
        ensures
            r == self.spec_clock_in_micros(),
    {
        match self {
            Os::MacOs { .. } => true,
            _ => false,
        }
    }
}

impl OpenFlags {
    /// Reads `O_NOFOLLOW`, `O_PATH`, `O_ACCMODE`, `O_RDONLY` and `O_WRONLY`
    /// of `libc`. Their values depend on the system, and nothing is claimed
    /// of them.
    #[verifier::external_body]
    pub(crate) fn native() -> (r: OpenFlags) {
        OpenFlags {
            nofollow: libc::O_NOFOLLOW,
            path: libc::O_PATH,
            accmode: libc::O_ACCMODE,
            rdonly: libc::O_RDONLY,
            wronly: libc::O_WRONLY,
        }
    }
}

impl AtFlags {
    /// Reads `AT_FDCWD`, `AT_SYMLINK_NOFOLLOW`, `AT_EMPTY_PATH`,
    /// `AT_STATX_SYNC_AS_STAT` and `STATX_ALL` of `libc`. Their values
    /// depend on the system, and nothing is claimed of them.
    #[verifier::external_body]
    pub(crate) fn native() -> (r: AtFlags) {
        AtFlags {
            fdcwd: libc::AT_FDCWD,
            symlink_nofollow: libc::AT_SYMLINK_NOFOLLOW,
            empty_path: libc::AT_EMPTY_PATH,
            statx_sync_as_stat: libc::AT_STATX_SYNC_AS_STAT,
            statx_all: libc::STATX_ALL,
        }
    }
}

impl ModeBits {
    /// Reads `S_IFMT` and `S_IFLNK` of `libc`. Their values depend on the
    /// system, and nothing is claimed of them.
    #[verifier::external_body]
    pub(crate) fn native() -> (r: ModeBits) {
        ModeBits { ifmt: libc::S_IFMT, iflnk: libc::S_IFLNK }
    }
}

impl TimeSentinels {
    /// The two sentinels differ, and neither is a count of nanoseconds within
    /// one second.
    pub open spec fn wf(self) -> bool {
        &&& self.now != self.omit
        &&& !(0 <= self.now < 1_000_000_000)
        &&& !(0 <= self.omit < 1_000_000_000)
    }

    /// Reads `UTIME_NOW` and `UTIME_OMIT` of `libc`. Their values depend on
    /// the system. The contract claims of them what the interface of every
    /// system rests on: they differ from each other and from every count of
    /// nanoseconds within one second.
    #[verifier::external_body]
    pub(crate) fn native() -> (r: TimeSentinels)
        ensures
            r.wf(),
    {
        TimeSentinels { now: libc::UTIME_NOW, omit: libc::UTIME_OMIT }
    }
}

impl Errnos {
    /// No two of the five numbers are equal.
    pub open spec fn wf(self) -> bool {
        &&& self.enoent != self.eexist
        &&& self.enoent != self.eacces
        &&& self.enoent != self.eloop
        &&& self.enoent != self.efault
        &&& self.eexist != self.eacces
        &&& self.eexist != self.eloop
        &&& self.eexist != self.efault
        &&& self.eacces != self.eloop
        &&& self.eacces != self.efault
        &&& self.eloop != self.efault
    }

    /// Reads `ENOENT`, `EEXIST`, `EACCES`, `ELOOP` and `EFAULT` of `libc`.
    /// Their values depend on the system. The contract claims only that the
    /// five numbers are distinct.
    #[verifier::external_body]
    pub(crate) fn native() -> (r: Errnos)
        ensures
            r.wf(),
    {
        Errnos {
            enoent: libc::ENOENT,
            eexist: libc::EEXIST,
            eacces: libc::EACCES,
            eloop: libc::ELOOP,
            efault: libc::EFAULT,
        }
    }
}

/// Everything the library needs to know of the system it runs on.
#[derive(Clone, Copy, Debug, PartialEq, Eq, Structural)]
pub struct Platform {
    pub os: Os,
    pub open: OpenFlags,
    pub at: AtFlags,
    pub mode: ModeBits,
    pub utime: TimeSentinels,
    pub errno: Errnos,
}

impl Platform {
    /// What the library's functions ask of a platform: distinct error numbers
    /// and usable timestamp sentinels.
    pub open spec fn wf(self) -> bool {
        self.errno.wf() && self.utime.wf()
    }

    /// The platform that this build of `libc` describes, which is Linux.
    pub fn native() -> (p: Platform)
        ensures
            p.wf(),
            p.os == Os::Linux,
    {
        Platform {
            os: Os::Linux,
            open: OpenFlags::native(),
            at: AtFlags::native(),
            mode: ModeBits::native(),
            utime: TimeSentinels::native(),
            errno: Errnos::native(),
        }
    }
}

} // verus!
