use fsmeta::{
    close_outcome, futime, futime_with_stat, micros_of_nanos, timespec, timeval, utimeat,
    ClockLike, Duration, Error, NodeEntry, Now, Omit, OpenCall, Os, Platform, Stat, Symlink,
    TimeCall, TimeLike, TimeLikeKind, TimeSpec, TimeVal, UtimeCall,
};

fn time_platform_of(os: Os) -> Platform {
    let mut p = Platform::native();
    p.os = os;
    p
}

fn legacy() -> Platform {
    time_platform_of(Os::MacOs { minor: 12 })
}

fn info_with_times(atime: (i64, i64), mtime: (i64, i64)) -> NodeEntry {
    NodeEntry::initialize(
        Stat {
            st_dev: 0,
            st_ino: 0,
            st_nlink: 1,
            st_mode: 0o100644,
            st_uid: 0,
            st_gid: 0,
            st_rdev: 0,
            st_size: 0,
            st_blksize: 0,
            st_blocks: 0,
            st_atime: atime.0,
            st_atime_nsec: atime.1,
            st_mtime: mtime.0,
            st_mtime_nsec: mtime.1,
            st_ctime: 0,
            st_ctime_nsec: 0,
        },
        None,
    )
}

#[test]
fn time_values_keep_their_parts() {
    let tv = TimeVal::new(5, 999_999).unwrap();
    assert_eq!((tv.tv_sec(), tv.tv_usec()), (5, 999_999));
    assert_eq!(TimeVal::new(5, 1_000_000), None);
    assert_eq!(TimeVal::new(5, -1), None);
    assert!(TimeVal::new(-5, 0).is_some());
    let ts = TimeSpec::new(-7, 999_999_999).unwrap();
    assert_eq!((ts.tv_sec(), ts.tv_nsec()), (-7, 999_999_999));
    assert_eq!(TimeSpec::new(0, 1_000_000_000), None);
    assert_eq!(TimeSpec::new(0, -1), None);
    assert_eq!(TimeSpec::new(0, libc::UTIME_NOW), None);
    assert_eq!(TimeSpec::new(0, libc::UTIME_OMIT), None);
    let d = Duration::new(9, 123_456_789).unwrap();
    assert_eq!((d.as_secs(), d.subsec_nanos(), d.subsec_micros()), (9, 123_456_789, 123_456));
    assert_eq!(Duration::new(9, 1_000_000_000), None);
}

#[test]
fn kinds_of_times() {
    assert!(Now.kind() == TimeLikeKind::Now);
    assert!(Omit.kind() == TimeLikeKind::Omit);
    assert!(TimeVal::new(0, 0).unwrap().kind() == TimeLikeKind::TimeVal);
    assert!(TimeSpec::new(0, 0).unwrap().kind() == TimeLikeKind::Other);
    assert!(Duration::new(0, 0).unwrap().kind() == TimeLikeKind::Other);
}

#[test]
fn nanoseconds_are_cut_to_microseconds() {
    assert_eq!(micros_of_nanos(0), 0);
    assert_eq!(micros_of_nanos(999), 0);
    assert_eq!(micros_of_nanos(1000), 1);
    assert_eq!(micros_of_nanos(123_456_789), 123_456);
    assert_eq!(micros_of_nanos(999_999_999), 999_999);
    assert_eq!(micros_of_nanos(-1), 0);
    assert_eq!(micros_of_nanos(-1999), -1);
    assert_eq!(micros_of_nanos(i64::MAX), i64::MAX / 1000);
    assert_eq!(micros_of_nanos(i64::MIN), i64::MIN / 1000);
}

#[test]
fn conversions_between_the_encodings() {
    let s = Platform::native().utime;
    let ts = TimeSpec::new(1_600_000_000, 123_456_789).unwrap();
    assert_eq!(ts.as_timespec(s), timespec { tv_sec: 1_600_000_000, tv_nsec: 123_456_789 });
    assert_eq!(ts.as_timeval(), timeval { tv_sec: 1_600_000_000, tv_usec: 123_456 });
    let tv = TimeVal::new(1_600_000_000, 123_456).unwrap();
    assert_eq!(tv.as_timeval(), timeval { tv_sec: 1_600_000_000, tv_usec: 123_456 });
    assert_eq!(tv.as_timespec(s), timespec { tv_sec: 1_600_000_000, tv_nsec: 123_456_000 });
    let d = Duration::new(1_600_000_000, 999_999_999).unwrap();
    assert_eq!(d.as_timeval(), timeval { tv_sec: 1_600_000_000, tv_usec: 999_999 });
    assert_eq!(d.as_timespec(s), timespec { tv_sec: 1_600_000_000, tv_nsec: 999_999_999 });
    let far = Duration::new(u64::MAX, 0).unwrap();
    assert_eq!(far.as_timespec(s).tv_sec, -1);
}

#[test]
fn sentinels_for_now_and_omit() {
    let s = Platform::native().utime;
    assert_eq!(Now.as_timespec(s), timespec { tv_sec: 0, tv_nsec: libc::UTIME_NOW });
    assert_eq!(Omit.as_timespec(s), timespec { tv_sec: 0, tv_nsec: libc::UTIME_OMIT });
}

#[test]
fn now_reads_the_clock() {
    let before = Duration::now();
    let tv = Now.as_timeval();
    let after = Duration::now();
    assert!(before.as_secs() > 1_500_000_000);
    assert!(before.as_secs() as i64 <= tv.tv_sec);
    assert!(tv.tv_sec <= after.as_secs() as i64);
    assert!((0..1_000_000).contains(&tv.tv_usec));
    let ts = TimeSpec::now();
    assert!(ts.tv_sec() >= before.as_secs() as i64);
    assert!((0..1_000_000_000).contains(&ts.tv_nsec()));
    let tv = TimeVal::now();
    assert!(tv.tv_sec() >= before.as_secs() as i64);
    assert!((0..1_000_000).contains(&tv.tv_usec()));
}

#[test]
fn seed_bits() {
    let d = Duration::new(3, 2_000).unwrap();
    assert_eq!(d.as_rand_bits(Os::Linux), (2_000 * 65537) ^ 3);
    assert_eq!(d.as_rand_bits(Os::MacOs { minor: 15 }), (2 * 65537) ^ 3);
    let ts = TimeSpec::new(3, 2_000).unwrap();
    assert_eq!(ts.as_rand_bits(Os::Linux), (2_000 * 65537) ^ 3);
    assert_eq!(ts.as_rand_bits(Os::MacOs { minor: 15 }), (2_000 * 65537) ^ 3);
    let tv = TimeVal::new(3, 2_000).unwrap();
    assert_eq!(tv.as_rand_bits(Os::Linux), (2_000 * 65537) ^ 3);
    let negative = TimeSpec::new(-1, 1).unwrap();
    assert_eq!(negative.as_rand_bits(Os::Linux), 65537 ^ u64::MAX);
    let top = Duration::new(u64::MAX, 999_999_999).unwrap();
    assert_eq!(top.as_rand_bits(Os::Linux), (999_999_999u64 * 65537) ^ u64::MAX);
}

#[test]
fn futime_with_futimens() {
    let p = Platform::native();
    let a = TimeVal::new(10, 20).unwrap();
    let m = TimeVal::new(30, 40).unwrap();
    assert_eq!(
        futime(p, &a, &m),
        TimeCall::Futimes {
            atime: timeval { tv_sec: 10, tv_usec: 20 },
            mtime: timeval { tv_sec: 30, tv_usec: 40 }
        }
    );
    let m = TimeSpec::new(30, 40).unwrap();
    assert_eq!(
        futime(p, &a, &m),
        TimeCall::Futimens {
            atime: timespec { tv_sec: 10, tv_nsec: 20_000 },
            mtime: timespec { tv_sec: 30, tv_nsec: 40 }
        }
    );
    assert_eq!(
        futime(p, &Now, &m),
        TimeCall::Futimens {
            atime: timespec { tv_sec: 0, tv_nsec: libc::UTIME_NOW },
            mtime: timespec { tv_sec: 30, tv_nsec: 40 }
        }
    );
    assert_eq!(
        futime(p, &a, &Omit),
        TimeCall::Futimens {
            atime: timespec { tv_sec: 10, tv_nsec: 20_000 },
            mtime: timespec { tv_sec: 0, tv_nsec: libc::UTIME_OMIT }
        }
    );
}

#[test]
fn omitting_both_sets_nothing() {
    let p = Platform::native();
    let omit = timespec { tv_sec: 0, tv_nsec: libc::UTIME_OMIT };
    assert_eq!(futime(p, &Omit, &Omit), TimeCall::Futimens { atime: omit, mtime: omit });
    assert_eq!(futime(legacy(), &Omit, &Omit), TimeCall::Nothing);
    let info = info_with_times((1, 2), (3, 4));
    assert_eq!(futime_with_stat(legacy(), &Omit, &Omit, &info), TimeCall::Nothing);
    assert_eq!(futime_with_stat(p, &Omit, &Omit, &info), TimeCall::Futimens { atime: omit, mtime: omit });
}

#[test]
fn now_for_both_is_one_time() {
    let p = Platform::native();
    let now = timespec { tv_sec: 0, tv_nsec: libc::UTIME_NOW };
    assert_eq!(futime(p, &Now, &Now), TimeCall::Futimens { atime: now, mtime: now });
    let before = Duration::now().as_secs() as i64;
    match futime(legacy(), &Now, &Now) {
        TimeCall::Futimes { atime, mtime } => {
            assert_eq!(atime, mtime);
            let after = Duration::now().as_secs() as i64;
            assert!(before <= atime.tv_sec && atime.tv_sec <= after);
        }
        other => panic!("unexpected {:?}", other),
    }
}

#[test]
fn futime_without_futimens() {
    let p = legacy();
    let a = TimeSpec::new(10, 20_999).unwrap();
    let m = TimeVal::new(30, 40).unwrap();
    assert_eq!(
        futime(p, &a, &m),
        TimeCall::Futimes {
            atime: timeval { tv_sec: 10, tv_usec: 20 },
            mtime: timeval { tv_sec: 30, tv_usec: 40 }
        }
    );
    assert_eq!(futime(p, &Omit, &m), TimeCall::StatFirst);
    assert_eq!(futime(p, &a, &Omit), TimeCall::StatFirst);
    assert_eq!(futime(p, &Omit, &Now), TimeCall::StatFirst);
    match futime(p, &Now, &m) {
        TimeCall::Futimes { atime, mtime } => {
            assert!(atime.tv_sec > 1_500_000_000);
            assert_eq!(mtime, timeval { tv_sec: 30, tv_usec: 40 });
        }
        other => panic!("unexpected {:?}", other),
    }
}

#[test]
fn an_omitted_time_is_set_to_what_it_is() {
    let p = legacy();
    let info = info_with_times((100, 123_456_789), (200, 987_654_321));
    let a = TimeSpec::new(10, 20_999).unwrap();
    let m = TimeVal::new(30, 40).unwrap();
    assert_eq!(
        futime_with_stat(p, &Omit, &m, &info),
        TimeCall::Futimes {
            atime: timeval { tv_sec: 100, tv_usec: 123_456 },
            mtime: timeval { tv_sec: 30, tv_usec: 40 }
        }
    );
    assert_eq!(
        futime_with_stat(p, &a, &Omit, &info),
        TimeCall::Futimes {
            atime: timeval { tv_sec: 10, tv_usec: 20 },
            mtime: timeval { tv_sec: 200, tv_usec: 987_654 }
        }
    );
    // Where nothing is omitted the metadata plays no part.
    assert_eq!(futime_with_stat(p, &a, &m, &info), futime(p, &a, &m));
}

#[test]
fn utimeat_by_policy() {
    let p = Platform::native();
    let a = TimeSpec::new(10, 20).unwrap();
    let ta = timespec { tv_sec: 10, tv_nsec: 20 };
    let omit = timespec { tv_sec: 0, tv_nsec: libc::UTIME_OMIT };
    assert_eq!(
        utimeat(p, None, &a, &Omit, Symlink::Follow),
        Ok(UtimeCall::Utimensat { dirfd: libc::AT_FDCWD, atime: ta, mtime: omit, flag: 0 })
    );
    assert_eq!(
        utimeat(p, Some(3), &a, &Omit, Symlink::Open),
        Ok(UtimeCall::Utimensat { dirfd: 3, atime: ta, mtime: omit, flag: libc::AT_SYMLINK_NOFOLLOW })
    );
    assert_eq!(
        utimeat(p, Some(3), &a, &Omit, Symlink::Fail),
        Ok(UtimeCall::OpenFirst(OpenCall { dirfd: 3, flags: libc::O_WRONLY | libc::O_NOFOLLOW, mode: 0 }))
    );
}

#[test]
fn utimeat_without_utimensat() {
    let p = legacy();
    let a = TimeSpec::new(10, 20).unwrap();
    assert_eq!(
        utimeat(p, Some(3), &a, &Now, Symlink::Follow),
        Ok(UtimeCall::OpenFirst(OpenCall { dirfd: 3, flags: p.open.wronly, mode: 0 }))
    );
    assert_eq!(
        utimeat(p, Some(3), &a, &Now, Symlink::Open),
        Ok(UtimeCall::OpenFirst(OpenCall { dirfd: 3, flags: p.open.wronly | 0x20_0000, mode: 0 }))
    );
    assert_eq!(
        utimeat(p, Some(3), &a, &Now, Symlink::Fail),
        Ok(UtimeCall::OpenFirst(OpenCall { dirfd: 3, flags: p.open.wronly | p.open.nofollow, mode: 0 }))
    );
}

#[test]
fn the_error_of_the_operation_comes_first() {
    let failed = Err(Error::Sys(libc::EPERM));
    assert_eq!(close_outcome(failed, 0, 0), failed);
    assert_eq!(close_outcome(failed, -1, libc::EIO), failed);
    assert_eq!(close_outcome(Ok(()), 0, libc::EIO), Ok(()));
    assert_eq!(close_outcome(Ok(()), -1, libc::EIO), Err(Error::Sys(libc::EIO)));
}

#[test]
fn readings_of_the_clock() {
    let d = Duration::from_clock(Some((5, 6)));
    assert_eq!((d.as_secs(), d.subsec_nanos()), (5, 6));
    let d = Duration::from_clock(Some((u64::MAX, 999_999_999)));
    assert_eq!((d.as_secs(), d.subsec_nanos()), (u64::MAX, 999_999_999));
    assert_eq!(Duration::from_clock(None), Duration::new(0, 0).unwrap());
    assert_eq!(Duration::from_clock(Some((5, 1_000_000_000))), Duration::new(0, 0).unwrap());
    let d = Duration::new(7, 123_456_789).unwrap();
    assert_eq!(TimeSpec::from_duration(d), TimeSpec::new(7, 123_456_789).unwrap());
    assert_eq!(TimeVal::from_duration(d), TimeVal::new(7, 123_456).unwrap());
    let far = Duration::new(u64::MAX, 1).unwrap();
    assert_eq!(TimeSpec::from_duration(far).tv_sec(), -1);
    assert_eq!(TimeVal::from_duration(far).tv_sec(), -1);
}
