//! Small tools on byte strings: quotes, line ends, and words between
//! whitespace.

use vstd::prelude::*;
use vstd::slice::slice_subrange;

verus! {

/// ASCII whitespace: space, tab, line feed, form feed, carriage return.
pub open spec fn is_space(b: u8) -> bool {
    b == 0x20 || b == 0x09 || b == 0x0a || b == 0x0c || b == 0x0d
}

/// Whether `b` is ASCII whitespace.
pub fn is_ascii_space(b: u8) -> (r: bool)
    ensures
        r == is_space(b),
{
    b == 0x20 || b == 0x09 || b == 0x0a || b == 0x0c || b == 0x0d
}

/// The first position from `i` on that holds no whitespace, or the length of
/// `s` if there is none.
pub open spec fn skip_spaces(s: Seq<u8>, i: int) -> int
    decreases s.len() - i,
{
    if 0 <= i < s.len() && is_space(s[i]) {
        skip_spaces(s, i + 1)
    } else {
        i
    }
}

/// The first position from `i` on that holds whitespace, or the length of `s`
/// if there is none: where the word that covers `i` ends.
pub open spec fn word_end(s: Seq<u8>, i: int) -> int
    decreases s.len() - i,
{
    if 0 <= i < s.len() && !is_space(s[i]) {
        word_end(s, i + 1)
    } else {
        i
    }
}

/// A word begins at `i`: a byte that is no whitespace, at the start of `s`
/// or behind whitespace.
pub open spec fn is_word_start(s: Seq<u8>, i: int) -> bool {
    &&& 0 <= i < s.len()
    &&& !is_space(s[i])
    &&& (i == 0 || is_space(s[i - 1]))
}

/// The number of words that begin before position `i`.
pub open spec fn words_before(s: Seq<u8>, i: int) -> nat
    decreases i,
{
    if i <= 0 {
        0
    } else {
        words_before(s, i - 1) + if is_word_start(s, i - 1) {
            1nat
        } else {
            0nat
        }
    }
}

/// The number, counted from 1, of the word that begins at `a`.
pub open spec fn word_number(s: Seq<u8>, a: int) -> int {
    (words_before(s, a) + 1) as int
}

/// The number of words in `s`.
pub open spec fn word_count(s: Seq<u8>) -> nat {
    words_before(s, s.len() as int)
}

/// Whether `s` has a word number `n`, counted from 1.
pub open spec fn has_word(s: Seq<u8>, n: int) -> bool {
    1 <= n <= word_count(s)
}

/// Where word number `n` of `s` begins.
pub open spec fn word_start(s: Seq<u8>, n: int) -> int {
    choose|a: int| is_word_start(s, a) && word_number(s, a) == n
}

/// Word number `n` of `s`, counted from 1.
pub open spec fn word(s: Seq<u8>, n: int) -> Seq<u8> {
    s.subrange(word_start(s, n), word_end(s, word_start(s, n)))
}

/// Whether the last byte of `s` belongs to a word.
pub open spec fn ends_in_word(s: Seq<u8>) -> bool {
    s.len() > 0 && !is_space(s.last())
}

pub open spec fn spec_strip_quotes(s: Seq<u8>) -> Seq<u8> {
    if s.len() >= 2 && s[0] == 0x22 && s.last() == 0x22 {
        s.subrange(1, s.len() - 1)
    } else {
        s
    }
}

pub open spec fn spec_trim_start(s: Seq<u8>) -> Seq<u8> {
    s.subrange(skip_spaces(s, 0), s.len() as int)
}

pub open spec fn spec_strip_newline(s: Seq<u8>) -> Seq<u8> {
    if s.len() >= 1 && (s.last() == 10 || s.last() == 13) {
        s.drop_last()
    } else {
        s
    }
}

pub open spec fn spec_pop_newline(s: Seq<u8>) -> Seq<u8> {
    if s.len() >= 1 && s.last() == 10 {
        s.drop_last()
    } else {
        s
    }
}

/// What [`get_word`] finds: word number `n` where `s` has one; else the last
/// word where `s` ends inside a word; else nothing.
pub open spec fn spec_get_word(s: Seq<u8>, n: int) -> Option<Seq<u8>> {
    if has_word(s, n) {
        Some(word(s, n))
    } else if ends_in_word(s) {
        Some(word(s, word_count(s) as int))
    } else {
        None
    }
}

/// What [`trim_start`] drops is whitespace and nothing else: `skip_spaces`
/// stops within `s`, on a byte that is no whitespace or at the end, and
/// passes nothing but whitespace.
pub proof fn lemma_skip_spaces(s: Seq<u8>, i: int)
    requires
        0 <= i <= s.len(),
    ensures
        i <= skip_spaces(s, i) <= s.len(),
        forall|k: int| i <= k < skip_spaces(s, i) ==> is_space(#[trigger] s[k]),
        skip_spaces(s, i) < s.len() ==> !is_space(s[skip_spaces(s, i)]),
    decreases s.len() - i,
{
    if i < s.len() && is_space(s[i]) {
        lemma_skip_spaces(s, i + 1);
    }
}

/// `word_end` stops within `s`, on whitespace or at the end, and passes no
/// whitespace.
pub proof fn lemma_word_end(s: Seq<u8>, i: int)
    requires
        0 <= i <= s.len(),
    ensures
        i <= word_end(s, i) <= s.len(),
        forall|k: int| i <= k < word_end(s, i) ==> !is_space(#[trigger] s[k]),
        word_end(s, i) < s.len() ==> is_space(s[word_end(s, i)]),
    decreases s.len() - i,
{
    if i < s.len() && !is_space(s[i]) {
        lemma_word_end(s, i + 1);
    }
}

/// The count of words that begin before a position grows with the position,
/// and is at most the position.
pub proof fn lemma_words_before_monotone(s: Seq<u8>, i: int, j: int)
    requires
        0 <= i <= j,
    ensures
        words_before(s, i) <= words_before(s, j),
        words_before(s, j) <= j,
    decreases j,
{
    if i < j {
        lemma_words_before_monotone(s, i, j - 1);
    } else if j > 0 {
        lemma_words_before_monotone(s, j - 1, j - 1);
    }
}

/// Two words with the same number are one word.
pub proof fn lemma_word_start_unique(s: Seq<u8>, a: int, b: int)
    requires
        is_word_start(s, a),
        is_word_start(s, b),
        words_before(s, a) == words_before(s, b),
    ensures
        a == b,
{
    if a < b {
        lemma_words_before_monotone(s, a + 1, b);
    } else if b < a {
        lemma_words_before_monotone(s, b + 1, a);
    }
}

/// The word that begins at `a` is the word of its number.
pub proof fn lemma_word_at(s: Seq<u8>, a: int)
    requires
        is_word_start(s, a),
    ensures
        has_word(s, word_number(s, a)),
        word_start(s, word_number(s, a)) == a,
        word(s, word_number(s, a)) == s.subrange(a, word_end(s, a)),
{
    let n = word_number(s, a);
    lemma_words_before_monotone(s, a + 1, s.len() as int);
    let c = word_start(s, n);
    assert(is_word_start(s, c) && word_number(s, c) == n);
    lemma_word_start_unique(s, a, c);
}

/// Drops one pair of double quotes around `value`, if it is there.
pub fn strip_quotes(value: &[u8]) -> (r: &[u8])
    ensures
        r@ == spec_strip_quotes(value@),
{
    let len: usize = value.len();
    if len >= 2 && value[0] == 0x22 && value[len - 1] == 0x22 {
        return slice_subrange(value, 1, len - 1);
    }
    value
}

/// Drops the whitespace at the start of `value`.
pub fn trim_start(value: &[u8]) -> (r: &[u8])
    ensures
        r@ == spec_trim_start(value@),
{
    let len: usize = value.len();
    let mut i: usize = 0;
    while i < len && is_ascii_space(value[i])
        invariant
            0 <= i <= len,
            len == value@.len(),
            skip_spaces(value@, i as int) == skip_spaces(value@, 0),
        decreases len - i,
    {
        i += 1;
    }
    slice_subrange(value, i, len)
}

/// Drops one line feed or carriage return at the end of `value`, if it is
/// there.
pub fn strip_newline(value: &[u8]) -> (r: &[u8])
    ensures
        r@ == spec_strip_newline(value@),
{
    let len: usize = value.len();
    if len >= 1 && (value[len - 1] == 10 || value[len - 1] == 13) {
        return slice_subrange(value, 0, len - 1);
    }
    value
}

/// Drops one line feed at the end of `value`, if it is there.
pub fn pop_newline(value: Vec<u8>) -> (r: Vec<u8>)
    ensures
        r@ == spec_pop_newline(value@),
{
    let mut value = value;
    let ghost before = value@;
    match value.pop() {
        Some(b) => {
            if b != 10 {
                value.push(b);
                assert(value@ =~= before);
            }
        },
        None => {},
    }
    value
}

/// What the scan of [`get_word`] and [`get_words`] knows after the bytes
/// before `i`: how many words have begun, and whether and where the word
/// that reaches `i` began.
pub open spec fn scanned(s: Seq<u8>, i: int, started: int, inword: bool, start: int) -> bool {
    &&& 0 <= i <= s.len()
    &&& started == words_before(s, i)
    &&& inword == (i > 0 && !is_space(s[i - 1]))
    &&& inword ==> {
        &&& is_word_start(s, start)
        &&& start < i
        &&& word_number(s, start) == started
        &&& word_end(s, start) == word_end(s, i)
    }
}

/// One more byte keeps [`scanned`].
proof fn lemma_scan_step(s: Seq<u8>, i: int, started: int, inword: bool, start: int)
    requires
        scanned(s, i, started, inword, start),
        i < s.len(),
    ensures
        is_space(s[i]) ==> scanned(s, i + 1, started, false, start),
        !is_space(s[i]) && inword ==> scanned(s, i + 1, started, true, start),
        !is_space(s[i]) && !inword ==> scanned(s, i + 1, started + 1, true, i),
        started <= i,
{
    lemma_words_before_monotone(s, i, i);
    if !is_space(s[i]) && !inword {
        assert(is_word_start(s, i));
    }
}

/// Finds word number `word` of `value`, counted from 1, words being the runs
/// of bytes between ASCII whitespace.
///
/// Where `value` has no such word (`word` is 0 or beyond the last word), the
/// last word is returned if `value` ends inside a word, and nothing if it
/// ends in whitespace or is empty.
pub fn get_word(value: &[u8], word: usize) -> (r: Option<&[u8]>)
    ensures
        match r {
            Some(w) => spec_get_word(value@, word as int) == Some(w@),
            None => spec_get_word(value@, word as int) is None,
        },
{
    let len: usize = value.len();
    let mut start: usize = 0;
    let mut inword = false;
    let mut words_started: usize = 0;
    let mut i: usize = 0;
    while i < len
        invariant
            len == value@.len(),
            scanned(value@, i as int, words_started as int, inword, start as int),
            !(1 <= word <= words_started - if inword { 1int } else { 0int }),
        decreases len - i,
    {
        proof {
            lemma_scan_step(value@, i as int, words_started as int, inword, start as int);
        }
        if is_ascii_space(value[i]) {
            if inword {
                inword = false;
                if words_started == word {
                    proof {
                        lemma_word_at(value@, start as int);
                        lemma_word_end(value@, i as int);
                    }
                    return Some(slice_subrange(value, start, i));
                }
            }
        } else if !inword {
            inword = true;
            start = i;
            words_started += 1;
        }
        i += 1;
    }
    if inword {
        proof {
            lemma_word_at(value@, start as int);
            lemma_word_end(value@, len as int);
        }
        Some(slice_subrange(value, start, len))
    } else {
        None
    }
}

/// The largest of `words`.
fn max_of(words: &[usize]) -> (m: usize)
    requires
        words@.len() > 0,
    ensures
        forall|j: int| 0 <= j < words@.len() ==> words@[j] <= m,
        exists|j: int| 0 <= j < words@.len() && words@[j] == m,
{
    let mut m: usize = words[0];
    let mut j: usize = 1;
    while j < words.len()
        invariant
            1 <= j <= words@.len(),
            forall|k: int| 0 <= k < j ==> words@[k] <= m,
            exists|k: int| 0 <= k < j && words@[k] == m,
        decreases words@.len() - j,
    {
        if words[j] > m {
            m = words[j];
        }
        j += 1;
    }
    m
}

/// What the table of [`get_words`] holds once the words up to number `done`
/// have been entered: for each wanted number up to `done` its word, and
/// nothing for the others.
pub open spec fn entered(s: Seq<u8>, words: Seq<usize>, res: Seq<Option<&[u8]>>, done: int) -> bool {
    &&& res.len() == words.len()
    &&& forall|j: int|
        0 <= j < words.len() ==> match #[trigger] res[j] {
            Some(w) => 1 <= words[j] <= done && w@ == word(s, words[j] as int),
            None => !(1 <= words[j] <= done),
        }
}

/// Enters the word `w`, which has the number `n`, wherever `n` is wanted.
fn enter_word<'a>(res: &mut Vec<Option<&'a [u8]>>, words: &[usize], n: usize, w: &'a [u8], Ghost(s): Ghost<Seq<u8>>)
    requires
        n >= 1,
        entered(s, words@, old(res)@, n - 1),
        w@ == word(s, n as int),
    ensures
        entered(s, words@, final(res)@, n as int),
{
    let mut j: usize = 0;
    while j < words.len()
        invariant
            0 <= j <= words@.len(),
            n >= 1,
            w@ == word(s, n as int),
            res@.len() == words@.len(),
            forall|k: int|
                0 <= k < j ==> match #[trigger] res@[k] {
                    Some(x) => 1 <= words@[k] <= n && x@ == word(s, words@[k] as int),
                    None => !(1 <= words@[k] <= n),
                },
            forall|k: int|
                j <= k < words@.len() ==> match #[trigger] res@[k] {
                    Some(x) => 1 <= words@[k] <= n - 1 && x@ == word(s, words@[k] as int),
                    None => !(1 <= words@[k] <= n - 1),
                },
        decreases words@.len() - j,
    {
        if words[j] == n {
            res.set(j, Some(w));
        }
        j += 1;
    }
}

/// Finds the words of `value` with the numbers `words`, counted from 1, in
/// the order of `words`. It returns them only if `value` has every one of
/// them.
pub fn get_words<'a>(value: &'a [u8], words: &[usize]) -> (r: Option<Vec<&'a [u8]>>)
    requires
        words@.len() > 0,
    ensures
        match r {
            Some(v) => {
                &&& v@.len() == words@.len()
                &&& forall|j: int|
                    0 <= j < words@.len() ==> has_word(value@, words@[j] as int) && (#[trigger] v@[j])@
                        == word(value@, words@[j] as int)
            },
            None => exists|j: int| 0 <= j < words@.len() && !has_word(value@, words@[j] as int),
        },
{
    let len: usize = value.len();
    let max_word: usize = max_of(words);
    let mut res: Vec<Option<&[u8]>> = Vec::new();
    let mut k: usize = 0;
    while k < words.len()
        invariant
            0 <= k <= words@.len(),
            res@.len() == k,
            forall|j: int| 0 <= j < k ==> (#[trigger] res@[j]) is None,
        decreases words@.len() - k,
    {
        res.push(None);
        k += 1;
    }
    let mut start: usize = 0;
    let mut inword = false;
    let mut words_started: usize = 0;
    let mut i: usize = 0;
    let ghost mut done: int = 0;
    while i < len
        invariant_except_break
            scanned(value@, i as int, words_started as int, inword, start as int),
            done == words_started - if inword { 1int } else { 0int },
            !(1 <= max_word <= done),
        invariant
            len == value@.len(),
            entered(value@, words@, res@, done),
            done <= word_count(value@),
        ensures
            entered(value@, words@, res@, done),
            done <= word_count(value@),
            done == max_word || {
                &&& i == len
                &&& scanned(value@, i as int, words_started as int, inword, start as int)
                &&& done == words_started - if inword { 1int } else { 0int }
                &&& !(1 <= max_word <= done)
            },
            done == max_word ==> !(inword && words_started == max_word),
        decreases len - i,
    {
        proof {
            lemma_scan_step(value@, i as int, words_started as int, inword, start as int);
            lemma_words_before_monotone(value@, i as int, len as int);
        }
        if is_ascii_space(value[i]) {
            if inword {
                inword = false;
                proof {
                    lemma_word_at(value@, start as int);
                    lemma_word_end(value@, i as int);
                }
                enter_word(&mut res, words, words_started, slice_subrange(value, start, i), Ghost(value@));
                if words_started == max_word {
                    proof {
                        done = max_word as int;
                    }
                    break ;
                }
            }
        } else if !inword {
            inword = true;
            start = i;
            words_started += 1;
        }
        i += 1;
        proof {
            done = words_started - if inword { 1int } else { 0int };
            lemma_words_before_monotone(value@, i as int, len as int);
        }
    }
    if inword && words_started == max_word {
        proof {
            lemma_word_at(value@, start as int);
            lemma_word_end(value@, len as int);
            done = max_word as int;
        }
        enter_word(&mut res, words, words_started, slice_subrange(value, start, len), Ghost(value@));
    }
    assert(done == max_word || !has_word(value@, max_word as int));
    let mut out: Vec<&[u8]> = Vec::new();
    let mut j: usize = 0;
    while j < res.len()
        invariant
            0 <= j <= res@.len(),
            out@.len() == j,
            entered(value@, words@, res@, done),
            done <= word_count(value@),
            done == max_word || !has_word(value@, max_word as int),
            forall|k: int| 0 <= k < words@.len() ==> words@[k] <= max_word,
            exists|k: int| 0 <= k < words@.len() && words@[k] == max_word,
            forall|k: int| 0 <= k < j ==> has_word(value@, #[trigger] words@[k] as int),
            forall|k: int| 0 <= k < j ==> (#[trigger] out@[k])@ == word(value@, words@[k] as int),
        decreases res@.len() - j,
    {
        match res[j] {
            Some(w) => {
                out.push(w);
            },
            None => {
                return None;
            },
        }
        j += 1;
    }
    Some(out)
}

} // verus!
