//! Names for temporary files that nobody else has taken.
//!
//! A name is made of a prefix, a dot, six letters and an optional suffix.
//! The letters come from thirty bits of a number that is changed for each
//! new attempt. Whether a name is free is not looked up: the caller's
//! function tries to create the file, and only its success makes a name the
//! result.

use vstd::prelude::*;
use crate::error::Error;
use crate::platform::Platform;
use crate::time::{ClockLike, Duration};

verus! {

/// What is added to the number, exclusive-or the process id, between two
/// attempts. The value has no known derivation.
pub const STEP: u64 = 5_958_002;

/// How many names are tried before the search is given up.
pub const MAX_TRIES: u32 = 262_144;

/// The letter for the low five bits of `r`: the low four bits count from
/// `A`, the fifth bit moves on to the lower case.
pub open spec fn spec_letter(r: u64) -> u8 {
    (65 + (r & 15) + (r & 16) * 2) as u8
}

#[verifier::when_used_as_spec(spec_letter)]
pub fn letter(r: u64) -> (l: u8)
    ensures
        l == spec_letter(r),
        (0x41 <= l <= 0x50) || (0x61 <= l <= 0x70),
{
    let low: u64 = r & 15;
    let case: u64 = r & 16;
    assert(low <= 15 && (case == 0 || case == 16)) by (bit_vector)
        requires
            low == r & 15,
            case == r & 16,
    ;
    (65 + low + case * 2) as u8
}

/// The dot and the six letters that stand between prefix and suffix: the
/// letters of `random` and of what is left of it after each shift by five
/// bits.
pub open spec fn spec_infix(random: u64) -> Seq<u8> {
    let r1 = random >> 5;
    let r2 = r1 >> 5;
    let r3 = r2 >> 5;
    let r4 = r3 >> 5;
    let r5 = r4 >> 5;
    seq![
        0x2eu8,
        spec_letter(random),
        spec_letter(r1),
        spec_letter(r2),
        spec_letter(r3),
        spec_letter(r4),
        spec_letter(r5),
    ]
}

/// The bytes of an optional suffix.
pub open spec fn suffix_bytes(suffix: Option<&[u8]>) -> Seq<u8> {
    match suffix {
        Some(bytes) => bytes@,
        None => Seq::empty(),
    }
}

/// The name that is tried for the number `random`.
pub open spec fn spec_candidate(prefix: Seq<u8>, suffix: Seq<u8>, random: u64) -> Seq<u8> {
    prefix + spec_infix(random) + suffix
}

/// The number for the next attempt.
pub open spec fn spec_next_random(random: u64, pid: u64) -> u64 {
    random.wrapping_add(STEP ^ pid)
}

/// The number for attempt `k`, counted from 0, of a search that began with
/// `random`.
pub open spec fn random_at(random: u64, pid: u64, k: nat) -> u64
    decreases k,
{
    if k == 0 {
        random
    } else {
        spec_next_random(random_at(random, pid, (k - 1) as nat), pid)
    }
}

#[verifier::when_used_as_spec(spec_next_random)]
pub fn next_random(random: u64, pid: u64) -> (r: u64)
    ensures
        r == spec_next_random(random, pid),
{
    random.wrapping_add(STEP ^ pid)
}

/// Adds `bytes` at the end of `out`.
fn append(out: &mut Vec<u8>, bytes: &[u8])
    ensures
        final(out)@ == old(out)@ + bytes@,
{
    let mut i: usize = 0;
    while i < bytes.len()
        invariant
            0 <= i <= bytes@.len(),
            out@ == old(out)@ + bytes@.subrange(0, i as int),
        decreases bytes@.len() - i,
    {
        out.push(bytes[i]);
        i += 1;
    }
    assert(bytes@.subrange(0, i as int) =~= bytes@);
}

/// Makes the name that is tried for the number `random`.
pub fn candidate(prefix: &[u8], suffix: Option<&[u8]>, random: u64) -> (name: Vec<u8>)
    ensures
        name@ == spec_candidate(prefix@, suffix_bytes(suffix), random),
{
    let mut name: Vec<u8> = Vec::new();
    append(&mut name, prefix);
    name.push(0x2e);
    let mut r: u64 = random;
    name.push(letter(r));
    r = r >> 5;
    name.push(letter(r));
    r = r >> 5;
    name.push(letter(r));
    r = r >> 5;
    name.push(letter(r));
    r = r >> 5;
    name.push(letter(r));
    r = r >> 5;
    name.push(letter(r));
    assert(name@ =~= prefix@ + spec_infix(random));
    match suffix {
        Some(bytes) => {
            append(&mut name, bytes);
        },
        None => {
            assert(name@ + Seq::<u8>::empty() =~= name@);
        },
    }
    name
}

/// `f` may answer `r` when it is called on the name `name`.
pub open spec fn answers<T, F: Fn(&[u8]) -> Result<T, Error>>(f: F, name: Seq<u8>, r: Result<T, Error>) -> bool {
    exists|s: &[u8]| s@ == name && #[trigger] call_ensures(f, (s,), r)
}

/// `f` has answered "already exists" for each of the first `k` names of the
/// search.
pub open spec fn all_taken<T, F: Fn(&[u8]) -> Result<T, Error>>(
    f: F,
    eexist: i32,
    prefix: Seq<u8>,
    suffix: Seq<u8>,
    random: u64,
    pid: u64,
    k: nat,
) -> bool {
    forall|j: nat|
        j < k ==> answers(
            f,
            #[trigger] spec_candidate(prefix, suffix, random_at(random, pid, j)),
            Err::<T, Error>(Error::Sys(eexist)),
        )
}

/// What a search that begins with the number `random` may return.
///
/// Success is the value that `f` made on the first name that it did not
/// find taken, with that name. An error other than "already exists" is the
/// error that `f` gave on such a name. "Already exists" means that `f`
/// found every one of the [`MAX_TRIES`] names taken.
pub open spec fn search_result<T, F: Fn(&[u8]) -> Result<T, Error>>(
    f: F,
    eexist: i32,
    prefix: Seq<u8>,
    suffix: Seq<u8>,
    random: u64,
    pid: u64,
    r: Result<(T, Vec<u8>), Error>,
) -> bool {
    match r {
        Ok((value, name)) => exists|k: nat|
            {
                &&& k < MAX_TRIES
                &&& all_taken(f, eexist, prefix, suffix, random, pid, k)
                &&& name@ == #[trigger] spec_candidate(prefix, suffix, random_at(random, pid, k))
                &&& answers(f, name@, Ok::<T, Error>(value))
            },
        Err(e) => if e == Error::Sys(eexist) {
            all_taken(f, eexist, prefix, suffix, random, pid, MAX_TRIES as nat)
        } else {
            exists|k: nat|
                {
                    &&& k < MAX_TRIES
                    &&& all_taken(f, eexist, prefix, suffix, random, pid, k)
                    &&& answers(
                        f,
                        #[trigger] spec_candidate(prefix, suffix, random_at(random, pid, k)),
                        Err::<T, Error>(e),
                    )
                }
        },
    }
}

/// Looks for a free name, beginning with the number `random`: calls `f` on
/// one name after the other until it does not answer "already exists", and
/// at most [`MAX_TRIES`] times.
pub fn with_mkstempat_seeded<T, F: Fn(&[u8]) -> Result<T, Error>>(
    p: Platform,
    prefix: &[u8],
    suffix: Option<&[u8]>,
    random: u64,
    pid: u64,
    f: F,
) -> (r: Result<(T, Vec<u8>), Error>)
    requires
        forall|s: &[u8]| call_requires(f, (s,)),
    ensures
        search_result(f, p.errno.eexist, prefix@, suffix_bytes(suffix), random, pid, r),
{
    let mut current: u64 = random;
    let mut tries: u32 = 0;
    while tries < MAX_TRIES
        invariant
            tries <= MAX_TRIES,
            current == random_at(random, pid, tries as nat),
            all_taken(f, p.errno.eexist, prefix@, suffix_bytes(suffix), random, pid, tries as nat),
            forall|s: &[u8]| call_requires(f, (s,)),
        decreases MAX_TRIES - tries,
    {
        let name: Vec<u8> = candidate(prefix, suffix, current);
        match f(name.as_slice()) {
            Ok(value) => {
                assert(answers(f, name@, Ok::<T, Error>(value)));
                return Ok((value, name));
            },
            Err(e) => {
                if !e.is_errno(p.errno.eexist) {
                    assert(answers(f, name@, Err::<T, Error>(e)));
                    return Err(e);
                }
                assert(answers(f, name@, Err::<T, Error>(Error::Sys(p.errno.eexist))));
            },
        }
        current = next_random(current, pid);
        tries += 1;
    }
    Err(Error::Sys(p.errno.eexist))
}

/// The id of this process, from `nix::unistd::getpid`. Nothing is claimed
/// of it.
#[verifier::external_body]
fn process_id() -> (pid: u32) {
    nix::unistd::getpid().as_raw() as u32
}

/// Looks for a free name `prefix` + `.` + six letters + `suffix`, and makes
/// the file under it by calling `f`, which is to create the file only if
/// it is not there yet. The search begins with a number made of the time of
/// the clock and the id of the process.
///
/// Whatever that number is: success is a value that `f` made, with the name
/// that `f` made it on; an error other than "already exists" is one that
/// `f` gave.
pub fn with_mkstempat<T, F: Fn(&[u8]) -> Result<T, Error>>(
    p: Platform,
    prefix: &[u8],
    suffix: Option<&[u8]>,
    f: F,
) -> (r: Result<(T, Vec<u8>), Error>)
    requires
        forall|s: &[u8]| call_requires(f, (s,)),
    ensures
        exists|random: u64, pid: u64| #[trigger]
            search_result(f, p.errno.eexist, prefix@, suffix_bytes(suffix), random, pid, r),
{
    let pid: u64 = process_id() as u64;
    let random: u64 = Duration::now().as_rand_bits(p.os) ^ pid;
    with_mkstempat_seeded(p, prefix, suffix, random, pid, f)
}

/// A search succeeds only with what `f` made: the value is one that `f`
/// gave for the very name that is returned, and the name is made of the
/// prefix, a dot with six letters, and the suffix. No name is returned that
/// `f` did not create.
pub proof fn lemma_success_is_created<T, F: Fn(&[u8]) -> Result<T, Error>>(
    f: F,
    eexist: i32,
    prefix: Seq<u8>,
    suffix: Seq<u8>,
    random: u64,
    pid: u64,
    value: T,
    name: Vec<u8>,
)
    requires
        search_result(f, eexist, prefix, suffix, random, pid, Ok::<(T, Vec<u8>), Error>((value, name))),
    ensures
        answers(f, name@, Ok::<T, Error>(value)),
        exists|r: u64| name@ == #[trigger] spec_candidate(prefix, suffix, r),
{
}

/// No name is returned that was taken before: if `f` never makes anything
/// under a name of the set `taken`, the name of a success is not in it. So
/// two searches that create their files in one directory, where a name can
/// be created once, come back with two names.
pub proof fn lemma_taken_names_are_not_returned<T, F: Fn(&[u8]) -> Result<T, Error>>(
    f: F,
    taken: Set<Seq<u8>>,
    eexist: i32,
    prefix: Seq<u8>,
    suffix: Seq<u8>,
    random: u64,
    pid: u64,
    value: T,
    name: Vec<u8>,
)
    requires
        search_result(f, eexist, prefix, suffix, random, pid, Ok::<(T, Vec<u8>), Error>((value, name))),
        forall|s: &[u8], v: T| #[trigger] call_ensures(f, (s,), Ok::<T, Error>(v)) ==> !taken.contains(s@),
    ensures
        !taken.contains(name@),
{
    assert(answers(f, name@, Ok::<T, Error>(value)));
}

/// A search never goes on after an answer other than "already exists", and
/// never asks for more than [`MAX_TRIES`] names: its result tells after how
/// many names that `f` found taken it came about.
pub proof fn lemma_search_is_bounded<T, F: Fn(&[u8]) -> Result<T, Error>>(
    f: F,
    eexist: i32,
    prefix: Seq<u8>,
    suffix: Seq<u8>,
    random: u64,
    pid: u64,
    r: Result<(T, Vec<u8>), Error>,
)
    requires
        search_result(f, eexist, prefix, suffix, random, pid, r),
    ensures
        exists|k: nat| k <= MAX_TRIES && #[trigger] all_taken(f, eexist, prefix, suffix, random, pid, k),
{
    match r {
        Ok((value, name)) => {
            let k = choose|k: nat|
                {
                    &&& k < MAX_TRIES
                    &&& all_taken(f, eexist, prefix, suffix, random, pid, k)
                    &&& name@ == #[trigger] spec_candidate(prefix, suffix, random_at(random, pid, k))
                    &&& answers(f, name@, Ok::<T, Error>(value))
                };
            assert(all_taken(f, eexist, prefix, suffix, random, pid, k));
        },
        Err(e) => {
            if e == Error::Sys(eexist) {
                assert(all_taken(f, eexist, prefix, suffix, random, pid, MAX_TRIES as nat));
            } else {
                let k = choose|k: nat|
                    {
                        &&& k < MAX_TRIES
                        &&& all_taken(f, eexist, prefix, suffix, random, pid, k)
                        &&& answers(
                            f,
                            #[trigger] spec_candidate(prefix, suffix, random_at(random, pid, k)),
                            Err::<T, Error>(e),
                        )
                    };
                assert(all_taken(f, eexist, prefix, suffix, random, pid, k));
            }
        },
    }
}

/// Every name has the prefix at its start, then a dot and six letters
/// between `A` and `P` or `a` and `p`, then the suffix.
pub proof fn lemma_candidate_shape(prefix: Seq<u8>, suffix: Seq<u8>, random: u64)
    ensures
        spec_candidate(prefix, suffix, random).len() == prefix.len() + 7 + suffix.len(),
        spec_candidate(prefix, suffix, random).subrange(0, prefix.len() as int) == prefix,
        spec_candidate(prefix, suffix, random)[prefix.len() as int] == 0x2e,
        forall|i: int|
            prefix.len() < i < prefix.len() + 7 ==> {
                let l = #[trigger] spec_candidate(prefix, suffix, random)[i];
                (0x41 <= l <= 0x50) || (0x61 <= l <= 0x70)
            },
        spec_candidate(prefix, suffix, random).skip(prefix.len() as int + 7) == suffix,
{
    let name = spec_candidate(prefix, suffix, random);
    let infix = spec_infix(random);
    assert(infix.len() == 7);
    assert(name.subrange(0, prefix.len() as int) =~= prefix);
    assert(name.skip(prefix.len() as int + 7) =~= suffix);
    assert forall|r: u64| (0x41 <= #[trigger] spec_letter(r) <= 0x50) || (0x61 <= spec_letter(r) <= 0x70) by {
        let low: u64 = r & 15;
        let case: u64 = r & 16;
        assert(low <= 15 && (case == 0 || case == 16)) by (bit_vector)
            requires
                low == r & 15,
                case == r & 16,
        ;
    }
    assert forall|i: int| prefix.len() < i < prefix.len() + 7 implies {
        let l = #[trigger] name[i];
        (0x41 <= l <= 0x50) || (0x61 <= l <= 0x70)
    } by {
        assert(name[i] == infix[i - prefix.len()]);
    }
}

/// The letter tells the five bits that it was made of.
proof fn lemma_letter_tells_five_bits(a: u64, b: u64)
    ensures
        spec_letter(a) == spec_letter(b) <==> a & 31 == b & 31,
{
    let la: u64 = a & 15;
    let ca: u64 = a & 16;
    let lb: u64 = b & 15;
    let cb: u64 = b & 16;
    assert(la <= 15 && (ca == 0 || ca == 16) && lb <= 15 && (cb == 0 || cb == 16)) by (bit_vector)
        requires
            la == a & 15,
            ca == a & 16,
            lb == b & 15,
            cb == b & 16,
    ;
    assert((la == lb && ca == cb) <==> a & 31 == b & 31) by (bit_vector)
        requires
            la == a & 15,
            ca == a & 16,
            lb == b & 15,
            cb == b & 16,
    ;
}

/// Two numbers give the same name exactly if they agree in their low
/// thirty bits: of the names that one search tries, two are equal only if
/// the numbers behind them are.
pub proof fn lemma_names_tell_thirty_bits(prefix: Seq<u8>, suffix: Seq<u8>, a: u64, b: u64)
    ensures
        spec_candidate(prefix, suffix, a) == spec_candidate(prefix, suffix, b) <==> a & 0x3fff_ffff == b
            & 0x3fff_ffff,
{
    let a1 = a >> 5;
    let a2 = a1 >> 5;
    let a3 = a2 >> 5;
    let a4 = a3 >> 5;
    let a5 = a4 >> 5;
    let b1 = b >> 5;
    let b2 = b1 >> 5;
    let b3 = b2 >> 5;
    let b4 = b3 >> 5;
    let b5 = b4 >> 5;
    lemma_letter_tells_five_bits(a, b);
    lemma_letter_tells_five_bits(a1, b1);
    lemma_letter_tells_five_bits(a2, b2);
    lemma_letter_tells_five_bits(a3, b3);
    lemma_letter_tells_five_bits(a4, b4);
    lemma_letter_tells_five_bits(a5, b5);
    assert((a & 31 == b & 31 && a1 & 31 == b1 & 31 && a2 & 31 == b2 & 31 && a3 & 31 == b3 & 31 && a4 & 31 == b4
        & 31 && a5 & 31 == b5 & 31) <==> a & 0x3fff_ffff == b & 0x3fff_ffff) by (bit_vector)
        requires
            a1 == a >> 5,
            a2 == a1 >> 5,
            a3 == a2 >> 5,
            a4 == a3 >> 5,
            a5 == a4 >> 5,
            b1 == b >> 5,
            b2 == b1 >> 5,
            b3 == b2 >> 5,
            b4 == b3 >> 5,
            b5 == b4 >> 5,
    ;
    let na = spec_candidate(prefix, suffix, a);
    let nb = spec_candidate(prefix, suffix, b);
    let n = prefix.len() as int;
    if na == nb {
        assert(na[n + 1] == spec_infix(a)[1] && nb[n + 1] == spec_infix(b)[1]);
        assert(na[n + 2] == spec_infix(a)[2] && nb[n + 2] == spec_infix(b)[2]);
        assert(na[n + 3] == spec_infix(a)[3] && nb[n + 3] == spec_infix(b)[3]);
        assert(na[n + 4] == spec_infix(a)[4] && nb[n + 4] == spec_infix(b)[4]);
        assert(na[n + 5] == spec_infix(a)[5] && nb[n + 5] == spec_infix(b)[5]);
        assert(na[n + 6] == spec_infix(a)[6] && nb[n + 6] == spec_infix(b)[6]);
    }
    if a & 0x3fff_ffff == b & 0x3fff_ffff {
        assert(spec_infix(a) =~= spec_infix(b));
    }
}

} // verus!
