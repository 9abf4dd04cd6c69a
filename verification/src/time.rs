//! Times to set on a file, and how they are handed to the system.
//!
//! The system takes a pair of timestamps in one of two encodings: seconds
//! with microseconds ([`timeval`]), or seconds with nanoseconds
//! ([`timespec`]). Only the second can also say "now" and "leave as it is",
//! by a sentinel in its nanosecond field. A [`TimeLike`] is anything that
//! can be written in both.

use vstd::prelude::*;
use crate::error::{spec_syscall_result, syscall_result, Error};
use crate::open::{openat, spec_dirfd_or_cwd, dirfd_or_cwd, spec_openat, OpenCall, Symlink};
use crate::platform::{Os, Platform, TimeSentinels};
use crate::stat::NodeEntry;

verus! {

/// Seconds and microseconds, as `futimes` takes them.
#[allow(non_camel_case_types)]
#[derive(Clone, Copy, Debug, PartialEq, Eq, Structural)]
pub struct timeval {
    pub tv_sec: i64,
    pub tv_usec: i64,
}

/// Seconds and nanoseconds, as `futimens` and `utimensat` take them. The
/// nanosecond field may hold a sentinel of [`TimeSentinels`] instead.
#[allow(non_camel_case_types)]
#[derive(Clone, Copy, Debug, PartialEq, Eq, Structural)]
pub struct timespec {
    pub tv_sec: i64,
    pub tv_nsec: i64,
}

/// A point in time in seconds and microseconds since the epoch. The
/// microseconds are within one second.
#[derive(Clone, Copy, Debug, PartialEq, Eq, Structural)]
pub struct TimeVal {
    sec: i64,
    usec: i64,
}

/// A point in time in seconds and nanoseconds since the epoch. The
/// nanoseconds are within one second.
#[derive(Clone, Copy, Debug, PartialEq, Eq, Structural)]
pub struct TimeSpec {
    sec: i64,
    nsec: i64,
}

/// A span of time in whole seconds and nanoseconds within one second; as a
/// time, the span since the epoch.
#[derive(Clone, Copy, Debug, PartialEq, Eq, Structural)]
pub struct Duration {
    secs: u64,
    nanos: u32,
}

/// The time of the call that sets it.
#[derive(Clone, Copy, Debug, PartialEq, Eq, Structural)]
pub struct Now;

/// No time: the timestamp stays as it is.
#[derive(Clone, Copy, Debug, PartialEq, Eq, Structural)]
pub struct Omit;

/// What kind of time a [`TimeLike`] is.
#[derive(Clone, Copy, Debug, PartialEq, Eq, Structural)]
pub enum TimeLikeKind {
    Omit,
    Now,
    /// Kept in seconds and microseconds.
    TimeVal,
    /// Any other concrete time.
    Other,
}

pub const MICROS_PER_SEC: i64 = 1_000_000;

pub const NANOS_PER_SEC: i64 = 1_000_000_000;

/// Reads the wall clock with `SystemTime::elapsed` of the standard library,
/// asked of the epoch: the seconds since the epoch and the nanoseconds
/// within the second, or `None` where the clock stands before the epoch.
/// The contract claims only that the nanoseconds are within one second.
#[verifier::external_body]
fn since_epoch() -> (t: Option<(u64, u32)>)
    ensures
        t matches Some((_, nanos)) ==> nanos < 1_000_000_000,
{
    match std::time::UNIX_EPOCH.elapsed() {
        Ok(elapsed) => Some((elapsed.as_secs(), elapsed.subsec_nanos())),
        Err(_) => None,
    }
}

impl TimeVal {
    #[verifier::type_invariant]
    spec fn inv(self) -> bool {
        0 <= self.usec < MICROS_PER_SEC
    }

    pub closed spec fn spec_tv_sec(self) -> i64 {
        self.sec
    }

    pub closed spec fn spec_tv_usec(self) -> i64 {
        self.usec
    }

    /// The time `sec` seconds and `usec` microseconds after the epoch, if
    /// `usec` is within one second.
    pub fn new(sec: i64, usec: i64) -> (r: Option<TimeVal>)
        ensures
            r is Some <==> 0 <= usec < MICROS_PER_SEC,
            r matches Some(t) ==> t.tv_sec() == sec && t.tv_usec() == usec,
    {
        if 0 <= usec && usec < MICROS_PER_SEC {
            Some(TimeVal { sec, usec })
        } else {
            None
        }
    }

    #[verifier::when_used_as_spec(spec_tv_sec)]
    pub fn tv_sec(self) -> (r: i64)
        ensures
            r == self.tv_sec(),
    {
        self.sec
    }

    #[verifier::when_used_as_spec(spec_tv_usec)]
    pub fn tv_usec(self) -> (r: i64)
        ensures
            r == self.tv_usec(),
            0 <= r < MICROS_PER_SEC,
    {
        proof {
            use_type_invariant(self);
        }
        self.usec
    }
}

impl TimeSpec {
    #[verifier::type_invariant]
    spec fn inv(self) -> bool {
        0 <= self.nsec < NANOS_PER_SEC
    }

    pub closed spec fn spec_tv_sec(self) -> i64 {
        self.sec
    }

    pub closed spec fn spec_tv_nsec(self) -> i64 {
        self.nsec
    }

    /// The time `sec` seconds and `nsec` nanoseconds after the epoch, if
    /// `nsec` is within one second.
    pub fn new(sec: i64, nsec: i64) -> (r: Option<TimeSpec>)
        ensures
            r is Some <==> 0 <= nsec < NANOS_PER_SEC,
            r matches Some(t) ==> t.tv_sec() == sec && t.tv_nsec() == nsec,
    {
        if 0 <= nsec && nsec < NANOS_PER_SEC {
            Some(TimeSpec { sec, nsec })
        } else {
            None
        }
    }

    #[verifier::when_used_as_spec(spec_tv_sec)]
    pub fn tv_sec(self) -> (r: i64)
        ensures
            r == self.tv_sec(),
    {
        self.sec
    }

    #[verifier::when_used_as_spec(spec_tv_nsec)]
    pub fn tv_nsec(self) -> (r: i64)
        ensures
            r == self.tv_nsec(),
            0 <= r < NANOS_PER_SEC,
    {
        proof {
            use_type_invariant(self);
        }
        self.nsec
    }
}

impl Duration {
    #[verifier::type_invariant]
    spec fn inv(self) -> bool {
        self.nanos < NANOS_PER_SEC
    }

    pub closed spec fn spec_as_secs(self) -> u64 {
        self.secs
    }

    pub closed spec fn spec_subsec_nanos(self) -> u32 {
        self.nanos
    }

    /// The span of `secs` seconds and `nanos` nanoseconds, if `nanos` is
    /// within one second.
    pub fn new(secs: u64, nanos: u32) -> (r: Option<Duration>)
        ensures
            r is Some <==> nanos < NANOS_PER_SEC,
            r matches Some(d) ==> d.as_secs() == secs && d.subsec_nanos() == nanos,
    {
        if nanos < 1_000_000_000 {
            Some(Duration { secs, nanos })
        } else {
            None
        }
    }

    /// The whole seconds.
    #[verifier::when_used_as_spec(spec_as_secs)]
    pub fn as_secs(self) -> (r: u64)
        ensures
            r == self.as_secs(),
    {
        self.secs
    }

    /// The nanoseconds beyond the whole seconds.
    #[verifier::when_used_as_spec(spec_subsec_nanos)]
    pub fn subsec_nanos(self) -> (r: u32)
        ensures
            r == self.subsec_nanos(),
            r < NANOS_PER_SEC,
    {
        proof {
            use_type_invariant(self);
        }
        self.nanos
    }

    /// The microseconds beyond the whole seconds, the rest cut off.
    pub fn subsec_micros(self) -> (r: u32)
        ensures
            r == self.subsec_nanos() / 1000,
            r < MICROS_PER_SEC,
    {
        proof {
            use_type_invariant(self);
        }
        self.nanos / 1000
    }

    /// The span since the epoch that a reading of the clock stands for: the
    /// seconds and nanoseconds that were read, or no time at all where the
    /// clock gave nothing, standing before the epoch, or gave nanoseconds
    /// beyond one second.
    pub fn from_clock(reading: Option<(u64, u32)>) -> (d: Duration)
        ensures
            match reading {
                Some((secs, nanos)) => if nanos < NANOS_PER_SEC {
                    d.as_secs() == secs && d.subsec_nanos() == nanos
                } else {
                    d.as_secs() == 0 && d.subsec_nanos() == 0
                },
                None => d.as_secs() == 0 && d.subsec_nanos() == 0,
            },
    {
        match reading {
            Some((secs, nanos)) => if nanos < 1_000_000_000 {
                Duration { secs, nanos }
            } else {
                Duration { secs: 0, nanos: 0 }
            },
            None => Duration { secs: 0, nanos: 0 },
        }
    }
}

impl TimeSpec {
    /// The time that lies the span `d` after the epoch. Seconds beyond the
    /// signed range wrap.
    pub fn from_duration(d: Duration) -> (t: TimeSpec)
        ensures
            t.tv_sec() == d.as_secs() as i64,
            t.tv_nsec() == d.subsec_nanos(),
    {
        TimeSpec { sec: #[verifier::truncate] (d.as_secs() as i64), nsec: d.subsec_nanos() as i64 }
    }
}

impl TimeVal {
    /// The time that lies the span `d` after the epoch, cut to whole
    /// microseconds. Seconds beyond the signed range wrap.
    pub fn from_duration(d: Duration) -> (t: TimeVal)
        ensures
            t.tv_sec() == d.as_secs() as i64,
            t.tv_usec() == d.subsec_nanos() / 1000,
    {
        TimeVal { sec: #[verifier::truncate] (d.as_secs() as i64), usec: d.subsec_micros() as i64 }
    }
}

/// The quotient of `nsec` by 1000, rounded towards zero: the microseconds in
/// a count of nanoseconds.
pub open spec fn spec_micros_of_nanos(nsec: i64) -> i64 {
    if nsec >= 0 {
        (nsec / 1000) as i64
    } else {
        (-((-nsec) / 1000)) as i64
    }
}

#[verifier::when_used_as_spec(spec_micros_of_nanos)]
pub fn micros_of_nanos(nsec: i64) -> (r: i64)
    ensures
        r == spec_micros_of_nanos(nsec),
{
    if nsec >= 0 {
        nsec / 1000
    } else {
        let wide: i128 = -(nsec as i128);
        let q: i128 = wide / 1000;
        (-q) as i64
    }
}

/// A time that can be set on a file.
pub trait TimeLike {
    /// The kind of this time.
    spec fn spec_kind(&self) -> TimeLikeKind;

    /// This time in seconds and microseconds. It says nothing of `Now`,
    /// whose value is that of the clock, nor of `Omit`, which has none.
    spec fn spec_timeval(&self) -> timeval;

    /// This time in seconds and nanoseconds, or the sentinel for it.
    spec fn spec_timespec(&self, s: TimeSentinels) -> timespec;

    fn kind(&self) -> (k: TimeLikeKind)
        ensures
            k == self.spec_kind(),
    ;

    /// Writes the time in seconds and microseconds. `Now` reads the clock.
    /// `Omit` cannot be written so: it is not to be asked.
    fn as_timeval(&self) -> (tv: timeval)
        requires
            !(self.spec_kind() is Omit),
        ensures
            !(self.spec_kind() is Now) ==> tv == self.spec_timeval(),
    ;

    /// Writes the time in seconds and nanoseconds. `Now` and `Omit` become
    /// the sentinels `s.now` and `s.omit`.
    fn as_timespec(&self, s: TimeSentinels) -> (ts: timespec)
        ensures
            ts == self.spec_timespec(s),
    ;
}

impl TimeLike for TimeSpec {
    open spec fn spec_kind(&self) -> TimeLikeKind {
        TimeLikeKind::Other
    }

    open spec fn spec_timeval(&self) -> timeval {
        timeval { tv_sec: self.tv_sec(), tv_usec: (self.tv_nsec() / 1000) as i64 }
    }

    open spec fn spec_timespec(&self, s: TimeSentinels) -> timespec {
        timespec { tv_sec: self.tv_sec(), tv_nsec: self.tv_nsec() }
    }

    fn kind(&self) -> (k: TimeLikeKind) {
        TimeLikeKind::Other
    }

    fn as_timeval(&self) -> (tv: timeval) {
        timeval { tv_sec: self.tv_sec(), tv_usec: self.tv_nsec() / 1000 }
    }

    fn as_timespec(&self, s: TimeSentinels) -> (ts: timespec) {
        timespec { tv_sec: self.tv_sec(), tv_nsec: self.tv_nsec() }
    }
}

impl TimeLike for TimeVal {
    open spec fn spec_kind(&self) -> TimeLikeKind {
        TimeLikeKind::TimeVal
    }

    open spec fn spec_timeval(&self) -> timeval {
        timeval { tv_sec: self.tv_sec(), tv_usec: self.tv_usec() }
    }

    open spec fn spec_timespec(&self, s: TimeSentinels) -> timespec {
        timespec { tv_sec: self.tv_sec(), tv_nsec: (self.tv_usec() * 1000) as i64 }
    }

    fn kind(&self) -> (k: TimeLikeKind) {
        TimeLikeKind::TimeVal
    }

    fn as_timeval(&self) -> (tv: timeval) {
        timeval { tv_sec: self.tv_sec(), tv_usec: self.tv_usec() }
    }

    fn as_timespec(&self, s: TimeSentinels) -> (ts: timespec) {
        timespec { tv_sec: self.tv_sec(), tv_nsec: self.tv_usec() * 1000 }
    }
}

impl TimeLike for Duration {
    open spec fn spec_kind(&self) -> TimeLikeKind {
        TimeLikeKind::Other
    }

    open spec fn spec_timeval(&self) -> timeval {
        timeval { tv_sec: self.as_secs() as i64, tv_usec: (self.subsec_nanos() / 1000) as i64 }
    }

    open spec fn spec_timespec(&self, s: TimeSentinels) -> timespec {
        timespec { tv_sec: self.as_secs() as i64, tv_nsec: self.subsec_nanos() as i64 }
    }

    fn kind(&self) -> (k: TimeLikeKind) {
        TimeLikeKind::Other
    }

    fn as_timeval(&self) -> (tv: timeval) {
        timeval {
            tv_sec: #[verifier::truncate] (self.as_secs() as i64),
            tv_usec: self.subsec_micros() as i64,
        }
    }

    fn as_timespec(&self, s: TimeSentinels) -> (ts: timespec) {
        timespec {
            tv_sec: #[verifier::truncate] (self.as_secs() as i64),
            tv_nsec: self.subsec_nanos() as i64,
        }
    }
}

impl TimeLike for Now {
    open spec fn spec_kind(&self) -> TimeLikeKind {
        TimeLikeKind::Now
    }

    open spec fn spec_timeval(&self) -> timeval {
        timeval { tv_sec: 0, tv_usec: 0 }
    }

    open spec fn spec_timespec(&self, s: TimeSentinels) -> timespec {
        timespec { tv_sec: 0, tv_nsec: s.now }
    }

    fn kind(&self) -> (k: TimeLikeKind) {
        TimeLikeKind::Now
    }

    fn as_timeval(&self) -> (tv: timeval)
        ensures
            0 <= tv.tv_usec < MICROS_PER_SEC,
    {
        let now: Duration = Duration::now();
        proof {
            use_type_invariant(now);
        }
        now.as_timeval()
    }

    fn as_timespec(&self, s: TimeSentinels) -> (ts: timespec) {
        timespec { tv_sec: 0, tv_nsec: s.now }
    }
}

impl TimeLike for Omit {
    open spec fn spec_kind(&self) -> TimeLikeKind {
        TimeLikeKind::Omit
    }

    open spec fn spec_timeval(&self) -> timeval {
        timeval { tv_sec: 0, tv_usec: 0 }
    }

    open spec fn spec_timespec(&self, s: TimeSentinels) -> timespec {
        timespec { tv_sec: 0, tv_nsec: s.omit }
    }

    fn kind(&self) -> (k: TimeLikeKind) {
        TimeLikeKind::Omit
    }

    fn as_timeval(&self) -> (tv: timeval) {
        vstd::pervasive::unreached()
    }

    fn as_timespec(&self, s: TimeSentinels) -> (ts: timespec) {
        timespec { tv_sec: 0, tv_nsec: s.omit }
    }
}

/// A concrete time that can be read from the clock and give bits for a
/// pseudo-random seed.
pub trait ClockLike: TimeLike + Sized {
    /// The bits that this time gives: the part below the second times 65537,
    /// exclusive-or the seconds.
    spec fn spec_rand_bits(&self, os: Os) -> u64;

    /// The time of the wall clock. A clock that stands before the epoch
    /// reads as the epoch.
    fn now() -> (t: Self)
        ensures
            !(t.spec_kind() is Omit),
            !(t.spec_kind() is Now),
    ;

    fn as_rand_bits(&self, os: Os) -> (bits: u64)
        ensures
            bits == self.spec_rand_bits(os),
    ;
}

impl ClockLike for Duration {
    /// Where the clock of the system counts microseconds, those are taken in
    /// place of the nanoseconds.
    open spec fn spec_rand_bits(&self, os: Os) -> u64 {
        if os.clock_in_micros() {
            (((self.subsec_nanos() / 1000) as u64 * 65537) as u64) ^ self.as_secs()
        } else {
            ((self.subsec_nanos() as u64 * 65537) as u64) ^ self.as_secs()
        }
    }

    fn now() -> (t: Self) {
        Duration::from_clock(since_epoch())
    }

    fn as_rand_bits(&self, os: Os) -> (bits: u64) {
        if os.clock_in_micros() {
            (self.subsec_micros() as u64 * 65537) ^ self.as_secs()
        } else {
            (self.subsec_nanos() as u64 * 65537) ^ self.as_secs()
        }
    }
}

impl ClockLike for TimeSpec {
    open spec fn spec_rand_bits(&self, os: Os) -> u64 {
        ((self.tv_nsec() as u64 * 65537) as u64) ^ (self.tv_sec() as u64)
    }

    fn now() -> (t: Self) {
        TimeSpec::from_duration(Duration::now())
    }

    fn as_rand_bits(&self, os: Os) -> (bits: u64) {
        (self.tv_nsec() as u64 * 65537) ^ (#[verifier::truncate] (self.tv_sec() as u64))
    }
}

impl ClockLike for TimeVal {
    open spec fn spec_rand_bits(&self, os: Os) -> u64 {
        ((self.tv_usec() as u64 * 65537) as u64) ^ (self.tv_sec() as u64)
    }

    fn now() -> (t: Self) {
        TimeVal::from_duration(Duration::now())
    }

    fn as_rand_bits(&self, os: Os) -> (bits: u64) {
        (self.tv_usec() as u64 * 65537) ^ (#[verifier::truncate] (self.tv_sec() as u64))
    }
}

/// What is to be done to set the two timestamps of an open file.
#[allow(inconsistent_fields)]
#[derive(Clone, Copy, Debug, PartialEq, Eq, Structural)]
pub enum TimeCall {
    /// Nothing: both timestamps stay as they are.
    Nothing,
    /// `futimes(fd, [atime, mtime])`.
    Futimes { atime: timeval, mtime: timeval },
    /// `futimens(fd, [atime, mtime])`.
    Futimens { atime: timespec, mtime: timespec },
    /// Read the metadata of the file first, and hand it to
    /// [`futime_with_stat`]: one timestamp is to stay as it is, and the
    /// platform can only set both.
    StatFirst,
}

/// What [`futime`] may return for times of the kinds `ka` and `km` whose
/// encodings are `tva`, `tvm` in microseconds and `tsa`, `tsm` in
/// nanoseconds.
pub open spec fn futime_result(
    p: Platform,
    ka: TimeLikeKind,
    km: TimeLikeKind,
    tva: timeval,
    tvm: timeval,
    tsa: timespec,
    tsm: timespec,
    r: TimeCall,
) -> bool {
    if p.os.has_utimens() {
        if ka is TimeVal && km is TimeVal {
            r == (TimeCall::Futimes { atime: tva, mtime: tvm })
        } else {
            r == (TimeCall::Futimens { atime: tsa, mtime: tsm })
        }
    } else if ka is Omit && km is Omit {
        r is Nothing
    } else if ka is Omit || km is Omit {
        r is StatFirst
    } else {
        &&& r matches TimeCall::Futimes { atime, mtime }
        &&& !(ka is Now) ==> atime == tva
        &&& !(km is Now) ==> mtime == tvm
        &&& ka is Now && km is Now ==> atime == mtime
    }
}

/// Says how the access time `atime` and the modification time `mtime` are
/// set on an open file.
///
/// Where the platform has `futimens`: two times kept in microseconds go to
/// `futimes` as they are; any other pair goes to `futimens`, with the
/// sentinels for `Now` and `Omit`, so that the system itself reads the clock
/// and leaves alone what is omitted.
///
/// Where it has not: nothing is done if both are omitted; the metadata is
/// read first if one is; the clock is read once if both are `Now`, and both
/// get that one value; every other pair goes to `futimes`, each time written
/// in microseconds.
pub fn futime<Ta: TimeLike, Tm: TimeLike>(p: Platform, atime: &Ta, mtime: &Tm) -> (r: TimeCall)
    ensures
        futime_result(
            p,
            atime.spec_kind(),
            mtime.spec_kind(),
            atime.spec_timeval(),
            mtime.spec_timeval(),
            atime.spec_timespec(p.utime),
            mtime.spec_timespec(p.utime),
            r,
        ),
{
    let ka: TimeLikeKind = atime.kind();
    let km: TimeLikeKind = mtime.kind();
    if p.os.has_utimens() {
        return match (ka, km) {
            (TimeLikeKind::TimeVal, TimeLikeKind::TimeVal) => TimeCall::Futimes {
                atime: atime.as_timeval(),
                mtime: mtime.as_timeval(),
            },
            _ => TimeCall::Futimens {
                atime: atime.as_timespec(p.utime),
                mtime: mtime.as_timespec(p.utime),
            },
        };
    }
    match (ka, km) {
        (TimeLikeKind::Omit, TimeLikeKind::Omit) => TimeCall::Nothing,
        (TimeLikeKind::Omit, _) => TimeCall::StatFirst,
        (_, TimeLikeKind::Omit) => TimeCall::StatFirst,
        (TimeLikeKind::Now, TimeLikeKind::Now) => {
            let tv: timeval = Duration::now().as_timeval();
            TimeCall::Futimes { atime: tv, mtime: tv }
        },
        _ => TimeCall::Futimes { atime: atime.as_timeval(), mtime: mtime.as_timeval() },
    }
}

/// The access time that `info` records, in seconds and microseconds.
pub open spec fn spec_atime_of(info: NodeEntry) -> timeval {
    timeval { tv_sec: info.head.st_atime, tv_usec: spec_micros_of_nanos(info.head.st_atime_nsec) }
}

/// The modification time that `info` records, in seconds and microseconds.
pub open spec fn spec_mtime_of(info: NodeEntry) -> timeval {
    timeval { tv_sec: info.head.st_mtime, tv_usec: spec_micros_of_nanos(info.head.st_mtime_nsec) }
}

/// What [`futime_with_stat`] may return: where exactly one of the two times
/// is omitted, `futimes` with the recorded time in its place; else what
/// [`futime`] returns.
pub open spec fn futime_with_stat_result(
    p: Platform,
    ka: TimeLikeKind,
    km: TimeLikeKind,
    tva: timeval,
    tvm: timeval,
    tsa: timespec,
    tsm: timespec,
    info: NodeEntry,
    r: TimeCall,
) -> bool {
    if !p.os.has_utimens() && ka is Omit && !(km is Omit) {
        &&& r matches TimeCall::Futimes { atime, mtime }
        &&& atime == spec_atime_of(info)
        &&& !(km is Now) ==> mtime == tvm
    } else if !p.os.has_utimens() && km is Omit && !(ka is Omit) {
        &&& r matches TimeCall::Futimes { atime, mtime }
        &&& mtime == spec_mtime_of(info)
        &&& !(ka is Now) ==> atime == tva
    } else {
        futime_result(p, ka, km, tva, tvm, tsa, tsm, r)
    }
}

/// Says how the two timestamps are set once the metadata `info` of the file
/// has been read, as [`TimeCall::StatFirst`] asked: the omitted timestamp is
/// set to what it is already, cut to microseconds.
pub fn futime_with_stat<Ta: TimeLike, Tm: TimeLike>(p: Platform, atime: &Ta, mtime: &Tm, info: &NodeEntry) -> (r:
    TimeCall)
    ensures
        futime_with_stat_result(
            p,
            atime.spec_kind(),
            mtime.spec_kind(),
            atime.spec_timeval(),
            mtime.spec_timeval(),
            atime.spec_timespec(p.utime),
            mtime.spec_timespec(p.utime),
            *info,
            r,
        ),
{
    if p.os.has_utimens() {
        return futime(p, atime, mtime);
    }
    match (atime.kind(), mtime.kind()) {
        (TimeLikeKind::Omit, TimeLikeKind::Omit) => TimeCall::Nothing,
        (TimeLikeKind::Omit, _) => TimeCall::Futimes {
            atime: timeval {
                tv_sec: info.head.st_atime,
                tv_usec: micros_of_nanos(info.head.st_atime_nsec),
            },
            mtime: mtime.as_timeval(),
        },
        (_, TimeLikeKind::Omit) => TimeCall::Futimes {
            atime: atime.as_timeval(),
            mtime: timeval {
                tv_sec: info.head.st_mtime,
                tv_usec: micros_of_nanos(info.head.st_mtime_nsec),
            },
        },
        _ => futime(p, atime, mtime),
    }
}

/// What is to be done to set the two timestamps of a file by its path.
#[derive(Clone, Copy, Debug, PartialEq, Eq, Structural)]
pub enum UtimeCall {
    /// `utimensat(dirfd, path, [atime, mtime], flag)`.
    Utimensat { dirfd: i32, atime: timespec, mtime: timespec, flag: i32 },
    /// Open the file with this call, set the times on the descriptor as
    /// [`futime`] says, and close it; [`close_outcome`] gives the result.
    OpenFirst(OpenCall),
}

pub open spec fn spec_utimeat(
    p: Platform,
    dirfd: Option<i32>,
    tsa: timespec,
    tsm: timespec,
    links: Symlink,
) -> Result<UtimeCall, Error> {
    if p.os.has_utimens() && !(links is Fail) {
        Ok(
            UtimeCall::Utimensat {
                dirfd: spec_dirfd_or_cwd(p, dirfd),
                atime: tsa,
                mtime: tsm,
                flag: if links is Follow {
                    0
                } else {
                    p.at.symlink_nofollow
                },
            },
        )
    } else {
        match spec_openat(p, dirfd, p.open.wronly, 0, links) {
            Ok(call) => Ok(UtimeCall::OpenFirst(call)),
            Err(e) => Err(e),
        }
    }
}

/// Says how the access time `atime` and the modification time `mtime` are
/// set on the file at a path relative to `dirfd` (the current directory for
/// `None`) under the link policy `links`.
///
/// Where the platform has `utimensat`, that is called: on what the path
/// leads to under `Follow`, on a trailing link itself under `Open`. Under
/// `Fail`, and always where the platform has no `utimensat`, the file is
/// opened for writing under the policy and the times are set on the
/// descriptor.
pub fn utimeat<Ta: TimeLike, Tm: TimeLike>(
    p: Platform,
    dirfd: Option<i32>,
    atime: &Ta,
    mtime: &Tm,
    links: Symlink,
) -> (r: Result<UtimeCall, Error>)
    ensures
        r == spec_utimeat(p, dirfd, atime.spec_timespec(p.utime), mtime.spec_timespec(p.utime), links),
{
    if p.os.has_utimens() {
        let flag: i32 = match links {
            Symlink::Follow => 0,
            Symlink::Open => p.at.symlink_nofollow,
            Symlink::Fail => {
                return match openat(p, dirfd, p.open.wronly, 0, links) {
                    Ok(call) => Ok(UtimeCall::OpenFirst(call)),
                    Err(e) => Err(e),
                };
            },
        };
        return Ok(
            UtimeCall::Utimensat {
                dirfd: dirfd_or_cwd(p, dirfd),
                atime: atime.as_timespec(p.utime),
                mtime: mtime.as_timespec(p.utime),
                flag,
            },
        );
    }
    match openat(p, dirfd, p.open.wronly, 0, links) {
        Ok(call) => Ok(UtimeCall::OpenFirst(call)),
        Err(e) => Err(e),
    }
}

pub open spec fn spec_close_outcome(primary: Result<(), Error>, ret: i32, errno: i32) -> Result<(), Error> {
    match primary {
        Err(e) => Err(e),
        Ok(()) => match spec_syscall_result(ret, errno) {
            Ok(_) => Ok(()),
            Err(e) => Err(e),
        },
    }
}

/// The result of an operation on a descriptor that was opened for it and
/// closed after it: `primary` is what the operation came to, `ret` what
/// `close` returned. A failure of the operation stands, whatever `close`
/// did; a failure of `close` counts only after a success.
pub fn close_outcome(primary: Result<(), Error>, ret: i32, errno: i32) -> (r: Result<(), Error>)
    ensures
        r == spec_close_outcome(primary, ret, errno),
{
    match primary {
        Err(e) => Err(e),
        Ok(()) => match syscall_result(ret, errno) {
            Ok(_) => Ok(()),
            Err(e) => Err(e),
        },
    }
}

/// Where both times are omitted, nothing is set: without `futimens` no call
/// is made at all; with it, both fields carry the sentinel that tells the
/// system to leave them as they are.
pub proof fn lemma_omit_both_sets_nothing(p: Platform, tva: timeval, tvm: timeval, r: TimeCall)
    requires
        futime_result(
            p,
            Omit.spec_kind(),
            Omit.spec_kind(),
            tva,
            tvm,
            Omit.spec_timespec(p.utime),
            Omit.spec_timespec(p.utime),
            r,
        ),
    ensures
        !p.os.has_utimens() ==> r is Nothing,
        p.os.has_utimens() ==> (r matches TimeCall::Futimens { atime, mtime } && atime.tv_nsec == p.utime.omit
            && mtime.tv_nsec == p.utime.omit),
{
}

/// Where both times are `Now`, both timestamps get one and the same time:
/// without `futimens` the one value read from the clock; with it, the
/// sentinel that has the system take its own time for both.
pub proof fn lemma_now_both_sets_one_time(p: Platform, tva: timeval, tvm: timeval, r: TimeCall)
    requires
        futime_result(
            p,
            Now.spec_kind(),
            Now.spec_kind(),
            tva,
            tvm,
            Now.spec_timespec(p.utime),
            Now.spec_timespec(p.utime),
            r,
        ),
    ensures
        !p.os.has_utimens() ==> (r matches TimeCall::Futimes { atime, mtime } && atime == mtime),
        p.os.has_utimens() ==> (r matches TimeCall::Futimens { atime, mtime } && atime == mtime && atime.tv_nsec
            == p.utime.now),
{
}

/// A time kept in microseconds is written exactly in both encodings: the
/// seconds as they are, the nanoseconds a thousand times the microseconds,
/// from which the microseconds come back.
pub proof fn lemma_timeval_is_kept(t: TimeVal, s: TimeSentinels)
    requires
        0 <= t.tv_usec() < MICROS_PER_SEC,
    ensures
        t.spec_timeval() == (timeval { tv_sec: t.tv_sec(), tv_usec: t.tv_usec() }),
        t.spec_timespec(s).tv_sec == t.tv_sec(),
        t.spec_timespec(s).tv_nsec == t.tv_usec() * 1000,
        spec_micros_of_nanos(t.spec_timespec(s).tv_nsec) == t.tv_usec(),
{
}

/// A time kept in nanoseconds is written exactly in nanoseconds; written in
/// microseconds it keeps its seconds and loses less than one microsecond,
/// cut off and not rounded.
pub proof fn lemma_timespec_is_kept_or_cut(t: TimeSpec, s: TimeSentinels)
    requires
        0 <= t.tv_nsec() < NANOS_PER_SEC,
    ensures
        t.spec_timespec(s) == (timespec { tv_sec: t.tv_sec(), tv_nsec: t.tv_nsec() }),
        t.spec_timeval().tv_sec == t.tv_sec(),
        0 <= t.tv_nsec() - 1000 * t.spec_timeval().tv_usec < 1000,
        0 <= t.spec_timeval().tv_usec < MICROS_PER_SEC,
{
}

/// A span since the epoch whose seconds fit the signed range is written
/// exactly in nanoseconds, and cut to whole microseconds in microseconds.
pub proof fn lemma_duration_is_kept_or_cut(d: Duration, s: TimeSentinels)
    requires
        d.subsec_nanos() < NANOS_PER_SEC,
        d.as_secs() <= i64::MAX,
    ensures
        d.spec_timespec(s) == (timespec { tv_sec: d.as_secs() as i64, tv_nsec: d.subsec_nanos() as i64 }),
        d.spec_timeval().tv_sec == d.as_secs(),
        0 <= d.subsec_nanos() - 1000 * d.spec_timeval().tv_usec < 1000,
{
}

/// No concrete time is taken for `Now` or `Omit`: its nanoseconds are
/// within one second, where no sentinel is.
pub proof fn lemma_concrete_time_is_no_sentinel(tv: TimeVal, ts: TimeSpec, d: Duration, s: TimeSentinels)
    requires
        s.wf(),
        0 <= tv.tv_usec() < MICROS_PER_SEC,
        0 <= ts.tv_nsec() < NANOS_PER_SEC,
        d.subsec_nanos() < NANOS_PER_SEC,
    ensures
        tv.spec_timespec(s).tv_nsec != s.now && tv.spec_timespec(s).tv_nsec != s.omit,
        ts.spec_timespec(s).tv_nsec != s.now && ts.spec_timespec(s).tv_nsec != s.omit,
        d.spec_timespec(s).tv_nsec != s.now && d.spec_timespec(s).tv_nsec != s.omit,
        Now.spec_timespec(s).tv_nsec == s.now,
        Omit.spec_timespec(s).tv_nsec == s.omit,
{
}

/// Under the policy `Fail` the times of a path are always set through a
/// descriptor that `open` was asked not to follow a link for; under the
/// other policies, where the platform has `utimensat`, that is called with
/// no flag for `Follow` and the no-follow flag for `Open`.
pub proof fn lemma_utimeat_policy(p: Platform, dirfd: Option<i32>, tsa: timespec, tsm: timespec)
    ensures
        spec_utimeat(p, dirfd, tsa, tsm, Symlink::Fail) matches Ok(UtimeCall::OpenFirst(call)) && call.flags
            == p.open.wronly | p.open.nofollow,
        p.os.has_utimens() ==> (spec_utimeat(p, dirfd, tsa, tsm, Symlink::Follow) matches Ok(
            UtimeCall::Utimensat { flag, .. },
        ) && flag == 0),
        p.os.has_utimens() ==> (spec_utimeat(p, dirfd, tsa, tsm, Symlink::Open) matches Ok(
            UtimeCall::Utimensat { flag, .. },
        ) && flag == p.at.symlink_nofollow),
{
}

/// An error of the operation is what the caller sees, whether or not the
/// descriptor could be closed; an error of `close` is seen only after a
/// success.
pub proof fn lemma_operation_error_comes_first(e: Error, ret: i32, errno: i32)
    ensures
        spec_close_outcome(Err(e), ret, errno) == Err::<(), Error>(e),
        spec_close_outcome(Ok(()), ret, errno) is Err <==> ret == -1,
        spec_close_outcome(Ok(()), -1i32, errno) == Err::<(), Error>(Error::Sys(errno)),
{
}

} // verus!
