//! Decisions behind POSIX file metadata calls, taken apart from the calls.
//!
//! Nothing in this crate touches a file. For each operation it says which
//! system call to make, with which flags and values, and what the answer of
//! the system means. The caller makes the calls. What depends on the
//! platform comes in through a [`Platform`].

pub mod access;
pub mod bytes;
pub mod chown;
pub mod error;
pub mod mkdir;
pub mod open;
pub mod platform;
pub mod stat;
pub mod temp;
pub mod time;

pub use access::{cut_at_nul, faccessat, get_accmode, get_path, AccessCall, PathQuery};
pub use bytes::{get_word, get_words, pop_newline, strip_newline, strip_quotes, trim_start};
pub use chown::{fchown, ChownCall};
pub use error::{syscall_result, Error, ErrorKind};
pub use mkdir::{mkdirat, MkdirAll, MkdirStep, Phase};
pub use open::{dirfd_or_cwd, open_flags, openat, OpenCall, Symlink};
pub use platform::{
    AtFlags, Errnos, FdPathSource, LinkOpen, ModeBits, OpenFlags, Os, Platform, TimeSentinels,
};
pub use stat::{
    check_link, filetype, filetypeat, fstat, fstatat, is_symlink, probe_outcome, stat_classic,
    stat_extended, stat_flag, statx, statx_timestamp, Birthtime, CapabilityState, NodeEntry, Stat,
    StatCall,
};
pub use temp::{candidate, letter, next_random, with_mkstempat, with_mkstempat_seeded};
pub use time::{
    close_outcome, futime, futime_with_stat, micros_of_nanos, timespec, timeval, utimeat,
    ClockLike, Duration, Now, Omit, TimeCall, TimeLike, TimeLikeKind, TimeSpec, TimeVal, UtimeCall,
};
