//! Verified text utilities for the line-oriented probe-definition format:
//! line splitting, whitespace tokenizing, trimming, decimal parsing, and
//! substring search, each against an exact sequence-level specification.

use vstd::prelude::*;

verus! {

use vstd::string::StrSliceExecFns;
use vstd::string::StringExecFns;

/// The whitespace characters the tokenizer recognizes (ASCII whitespace).
pub open spec fn is_space(c: char) -> bool {
    c == ' ' || c == '\t' || c == '\r' || c == '\n' || c == '\u{b}' || c == '\u{c}'
}

/// Index of the first occurrence of `c` at or after `i`, or `s.len()`.
pub open spec fn find_from(s: Seq<char>, c: char, i: int) -> int
    decreases s.len() - i,
{
    if i < 0 || i >= s.len() {
        s.len() as int
    } else if s[i] == c {
        i
    } else {
        find_from(s, c, i + 1)
    }
}

pub proof fn lemma_find_from(s: Seq<char>, c: char, i: int)
    requires
        0 <= i <= s.len(),
    ensures
        i <= find_from(s, c, i) <= s.len(),
        find_from(s, c, i) < s.len() ==> s[find_from(s, c, i)] == c,
        forall|k: int| i <= k < find_from(s, c, i) ==> s[k] != c,
    decreases s.len() - i,
{
    if i < s.len() && s[i] != c {
        lemma_find_from(s, c, i + 1);
    }
}

/// The view of a sequence of owned strings.
pub open spec fn strs_view(v: Seq<String>) -> Seq<Seq<char>> {
    v.map_values(|x: String| x@)
}

/// Drop one trailing carriage return, as line splitting does at a line feed.
pub open spec fn strip_cr(s: Seq<char>) -> Seq<char> {
    if s.len() > 0 && s.last() == '\r' {
        s.drop_last()
    } else {
        s
    }
}

/// The lines of `s`: split at `'\n'`, one trailing `'\r'` removed from each
/// piece that ended at a `'\n'`, and no empty final line for a trailing
/// line feed.
pub open spec fn spec_lines(s: Seq<char>) -> Seq<Seq<char>>
    decreases s.len(),
    via spec_lines_decreases
{
    if s.len() == 0 {
        Seq::empty()
    } else {
        let j = find_from(s, '\n', 0);
        if j == s.len() {
            seq![s]
        } else {
            seq![strip_cr(s.take(j))] + spec_lines(s.skip(j + 1))
        }
    }
}

#[via_fn]
proof fn spec_lines_decreases(s: Seq<char>) {
    if s.len() > 0 {
        lemma_find_from(s, '\n', 0);
    }
}

/// Splits `s` into lines.
pub fn split_lines(s: &str) -> (r: Vec<String>)
    ensures
        strs_view(r@) == spec_lines(s@),
{
    let n = s.unicode_len();
    let mut out: Vec<String> = Vec::new();
    let mut start: usize = 0;
    let mut i: usize = 0;
    proof {
        assert(s@.skip(0) =~= s@);
        assert(strs_view(out@) =~= Seq::<Seq<char>>::empty());
        assert(strs_view(out@) + spec_lines(s@) =~= spec_lines(s@));
    }
    while i < n
        invariant
            n == s@.len(),
            0 <= start <= i <= n,
            strs_view(out@) + spec_lines(s@.skip(start as int)) == spec_lines(s@),
            forall|k: int| start <= k < i ==> s@[k] != '\n',
        decreases n - i,
    {
        if s.get_char(i) == '\n' {
            let end: usize = if i > start && s.get_char(i - 1) == '\r' {
                i - 1
            } else {
                i
            };
            let piece = s.substring_char(start, end).to_owned();
            proof {
                let tail = s@.skip(start as int);
                lemma_find_from(tail, '\n', 0);
                assert(tail[i - start] == '\n');
                assert(forall|k: int| 0 <= k < i - start ==> tail[k] != '\n');
                assert(find_from(tail, '\n', 0) == i - start) by {
                    let j = find_from(tail, '\n', 0);
                    if j < i - start {
                        assert(tail[j] != '\n');
                    }
                }
                assert(strip_cr(tail.take(i - start)) =~= piece@);
                assert(tail.skip(i - start + 1) =~= s@.skip(i + 1));
                assert(spec_lines(tail) == seq![piece@] + spec_lines(s@.skip(i + 1)));
                assert(strs_view(out@.push(piece)) =~= strs_view(out@).push(piece@));
                assert(strs_view(out@.push(piece)) + spec_lines(s@.skip(i + 1)) =~= strs_view(
                    out@,
                ) + spec_lines(tail));
            }
            out.push(piece);
            start = i + 1;
        }
        i += 1;
    }
    if start < n {
        let piece = s.substring_char(start, n).to_owned();
        proof {
            let tail = s@.skip(start as int);
            lemma_find_from(tail, '\n', 0);
            assert(find_from(tail, '\n', 0) == tail.len()) by {
                let j = find_from(tail, '\n', 0);
                if j < tail.len() {
                    assert(tail[j] != '\n');
                }
            }
            assert(piece@ =~= tail);
            assert(spec_lines(tail) == seq![tail]);
            assert(strs_view(out@.push(piece)) =~= strs_view(out@).push(piece@));
            assert(strs_view(out@).push(tail) =~= strs_view(out@) + seq![tail]);
        }
        out.push(piece);
    } else {
        proof {
            assert(s@.skip(start as int) =~= Seq::<char>::empty());
            assert(strs_view(out@) + spec_lines(s@.skip(start as int)) =~= strs_view(out@));
        }
    }
    out
}

/// Index of the first whitespace character at or after `i`, or `s.len()`.
pub open spec fn find_space_from(s: Seq<char>, i: int) -> int
    decreases s.len() - i,
{
    if i < 0 || i >= s.len() {
        s.len() as int
    } else if is_space(s[i]) {
        i
    } else {
        find_space_from(s, i + 1)
    }
}

pub proof fn lemma_find_space_from(s: Seq<char>, i: int)
    requires
        0 <= i <= s.len(),
    ensures
        i <= find_space_from(s, i) <= s.len(),
        find_space_from(s, i) < s.len() ==> is_space(s[find_space_from(s, i)]),
        forall|k: int| i <= k < find_space_from(s, i) ==> !is_space(s[k]),
    decreases s.len() - i,
{
    if i < s.len() && !is_space(s[i]) {
        lemma_find_space_from(s, i + 1);
    }
}

/// The whitespace-separated tokens of `s` from position `i` on.
pub open spec fn spec_tokens_from(s: Seq<char>, i: int) -> Seq<Seq<char>>
    decreases s.len() - i, 1int,
    via spec_tokens_from_decreases
{
    if i < 0 || i >= s.len() {
        Seq::empty()
    } else if is_space(s[i]) {
        spec_tokens_from(s, i + 1)
    } else {
        let j = find_space_from(s, i);
        seq![s.subrange(i, j)] + spec_tokens_from(s, j)
    }
}

#[via_fn]
proof fn spec_tokens_from_decreases(s: Seq<char>, i: int) {
    if 0 <= i < s.len() && !is_space(s[i]) {
        lemma_find_space_from(s, i);
        assert(is_space(s[i]) == false);
        assert(find_space_from(s, i) > i);
    }
}

/// The whitespace-separated tokens of `s`.
pub open spec fn spec_tokens(s: Seq<char>) -> Seq<Seq<char>> {
    spec_tokens_from(s, 0)
}

/// Splits `s` at whitespace into its tokens.
pub fn split_tokens(s: &str) -> (r: Vec<String>)
    ensures
        strs_view(r@) == spec_tokens(s@),
{
    let n = s.unicode_len();
    let mut out: Vec<String> = Vec::new();
    let mut i: usize = 0;
    proof {
        assert(strs_view(out@) =~= Seq::<Seq<char>>::empty());
        assert(strs_view(out@) + spec_tokens_from(s@, 0) =~= spec_tokens_from(s@, 0));
    }
    while i < n
        invariant
            n == s@.len(),
            0 <= i <= n,
            strs_view(out@) + spec_tokens_from(s@, i as int) == spec_tokens(s@),
        decreases n - i,
    {
        if is_space_char(s.get_char(i)) {
            i += 1;
        } else {
            let mut j: usize = i + 1;
            while j < n && !is_space_char(s.get_char(j))
                invariant
                    n == s@.len(),
                    i < j <= n,
                    !is_space(s@[i as int]),
                    forall|k: int| i <= k < j ==> !is_space(s@[k]),
                decreases n - j,
            {
                j += 1;
            }
            let piece = s.substring_char(i, j).to_owned();
            proof {
                lemma_find_space_from(s@, i as int);
                assert(find_space_from(s@, i as int) == j) by {
                    let f = find_space_from(s@, i as int);
                    if f < j {
                        assert(!is_space(s@[f]));
                    }
                    if f > j {
                        assert(j < s@.len() && is_space(s@[j as int]));
                    }
                }
                assert(piece@ =~= s@.subrange(i as int, j as int));
                assert(strs_view(out@.push(piece)) =~= strs_view(out@).push(piece@));
                assert(strs_view(out@.push(piece)) + spec_tokens_from(s@, j as int) =~= strs_view(
                    out@,
                ) + spec_tokens_from(s@, i as int));
            }
            out.push(piece);
            i = j;
        }
    }
    out
}

/// Executable test for `is_space`.
pub fn is_space_char(c: char) -> (r: bool)
    ensures
        r == is_space(c),
{
    c == ' ' || c == '\t' || c == '\r' || c == '\n' || c == '\u{b}' || c == '\u{c}'
}

/// `s` with every leading `a` or `b` removed.
pub open spec fn trim_front(s: Seq<char>, a: char, b: char) -> Seq<char>
    decreases s.len(),
{
    if s.len() > 0 && (s[0] == a || s[0] == b) {
        trim_front(s.drop_first(), a, b)
    } else {
        s
    }
}

/// `s` with every trailing `a` or `b` removed.
pub open spec fn trim_back(s: Seq<char>, a: char, b: char) -> Seq<char>
    decreases s.len(),
{
    if s.len() > 0 && (s.last() == a || s.last() == b) {
        trim_back(s.drop_last(), a, b)
    } else {
        s
    }
}

/// `s` with every leading and trailing `a` or `b` removed.
pub open spec fn spec_trim_pair(s: Seq<char>, a: char, b: char) -> Seq<char> {
    trim_back(trim_front(s, a, b), a, b)
}

proof fn lemma_trim_front_skip(s: Seq<char>, a: char, b: char, k: int)
    requires
        0 <= k <= s.len(),
        forall|j: int| 0 <= j < k ==> s[j] == a || s[j] == b,
        k < s.len() ==> !(s[k] == a || s[k] == b),
    ensures
        trim_front(s, a, b) =~= s.skip(k),
    decreases k,
{
    if k > 0 {
        assert(s[0] == a || s[0] == b);
        lemma_trim_front_skip(s.drop_first(), a, b, k - 1);
        assert(s.drop_first().skip(k - 1) =~= s.skip(k));
    } else {
        if s.len() > 0 && (s[0] == a || s[0] == b) {
            assert(k < s.len());
        }
        assert(s.skip(0) =~= s);
    }
}

proof fn lemma_trim_back_take(s: Seq<char>, a: char, b: char, k: int)
    requires
        0 <= k <= s.len(),
        forall|j: int| k <= j < s.len() ==> s[j] == a || s[j] == b,
        k > 0 ==> !(s[k - 1] == a || s[k - 1] == b),
    ensures
        trim_back(s, a, b) =~= s.take(k),
    decreases s.len(),
{
    if k < s.len() {
        assert(s.last() == a || s.last() == b);
        lemma_trim_back_take(s.drop_last(), a, b, k);
        assert(s.drop_last().take(k) =~= s.take(k));
    } else {
        if s.len() > 0 && (s.last() == a || s.last() == b) {
            assert(k > 0 && s[k - 1] == a || s[k - 1] == b);
        }
        assert(s.take(k) =~= s);
    }
}

/// Removes every leading and trailing `a` or `b` from `s`.
pub fn trim_pair(s: &str, a: char, b: char) -> (r: String)
    ensures
        r@ == spec_trim_pair(s@, a, b),
{
    let n = s.unicode_len();
    let mut lo: usize = 0;
    while lo < n
        invariant
            n == s@.len(),
            0 <= lo <= n,
            forall|j: int| 0 <= j < lo ==> s@[j] == a || s@[j] == b,
        ensures
            0 <= lo <= n,
            forall|j: int| 0 <= j < lo ==> s@[j] == a || s@[j] == b,
            lo < n ==> !(s@[lo as int] == a || s@[lo as int] == b),
        decreases n - lo,
    {
        let c = s.get_char(lo);
        if c == a || c == b {
            lo += 1;
        } else {
            break ;
        }
    }
    let mut hi: usize = n;
    while hi > lo
        invariant
            n == s@.len(),
            lo <= hi <= n,
            forall|j: int| hi <= j < n ==> s@[j] == a || s@[j] == b,
            lo < n ==> !(s@[lo as int] == a || s@[lo as int] == b),
        ensures
            lo <= hi <= n,
            forall|j: int| hi <= j < n ==> s@[j] == a || s@[j] == b,
            hi > lo ==> !(s@[hi - 1] == a || s@[hi - 1] == b),
        decreases hi,
    {
        let c = s.get_char(hi - 1);
        if c == a || c == b {
            hi -= 1;
        } else {
            break ;
        }
    }
    let r = s.substring_char(lo, hi).to_owned();
    proof {
        lemma_trim_front_skip(s@, a, b, lo as int);
        let t = s@.skip(lo as int);
        lemma_trim_back_take(t, a, b, hi - lo);
        assert(r@ =~= t.take(hi - lo));
    }
    r
}

/// `p` is a prefix of `s`.
pub open spec fn spec_starts_with(s: Seq<char>, p: Seq<char>) -> bool {
    p.len() <= s.len() && forall|j: int| 0 <= j < p.len() ==> s[j] == p[j]
}

/// Does `s` start with `p`?
pub fn starts_with(s: &str, p: &str) -> (r: bool)
    ensures
        r == spec_starts_with(s@, p@),
{
    let n = s.unicode_len();
    let m = p.unicode_len();
    if m > n {
        return false;
    }
    let mut j: usize = 0;
    while j < m
        invariant
            n == s@.len(),
            m == p@.len(),
            m <= n,
            0 <= j <= m,
            forall|k: int| 0 <= k < j ==> s@[k] == p@[k],
        decreases m - j,
    {
        if s.get_char(j) != p.get_char(j) {
            return false;
        }
        j += 1;
    }
    true
}

/// Every character of `s` is whitespace (true of the empty sequence).
pub open spec fn spec_is_blank(s: Seq<char>) -> bool {
    forall|j: int| 0 <= j < s.len() ==> is_space(s[j])
}

/// Is `s` empty or all whitespace?
pub fn is_blank(s: &str) -> (r: bool)
    ensures
        r == spec_is_blank(s@),
{
    let n = s.unicode_len();
    let mut j: usize = 0;
    while j < n
        invariant
            n == s@.len(),
            0 <= j <= n,
            forall|k: int| 0 <= k < j ==> is_space(s@[k]),
        decreases n - j,
    {
        if !is_space_char(s.get_char(j)) {
            return false;
        }
        j += 1;
    }
    true
}

/// `c` occurs in `s`.
pub open spec fn contains_char(s: Seq<char>, c: char) -> bool {
    exists|j: int| 0 <= j < s.len() && s[j] == c
}

/// Does `c` occur in `s`?
pub fn has_char(s: &str, c: char) -> (r: bool)
    ensures
        r == contains_char(s@, c),
{
    let n = s.unicode_len();
    let mut j: usize = 0;
    while j < n
        invariant
            n == s@.len(),
            0 <= j <= n,
            forall|k: int| 0 <= k < j ==> s@[k] != c,
        decreases n - j,
    {
        if s.get_char(j) == c {
            return true;
        }
        j += 1;
    }
    false
}

/// `p` occurs in `s` starting at `i`.
pub open spec fn sub_at(s: Seq<char>, p: Seq<char>, i: int) -> bool {
    0 <= i && i + p.len() <= s.len() && forall|j: int| 0 <= j < p.len() ==> s[i + j] == p[j]
}

/// `p` occurs somewhere in `s`.
pub open spec fn contains_seq(s: Seq<char>, p: Seq<char>) -> bool {
    exists|i: int| sub_at(s, p, i)
}

/// Does `p` occur as a contiguous run in `s`?
pub fn has_sub(s: &str, p: &str) -> (r: bool)
    ensures
        r == contains_seq(s@, p@),
{
    let n = s.unicode_len();
    let m = p.unicode_len();
    if m > n {
        proof {
            assert(forall|i: int| !sub_at(s@, p@, i));
        }
        return false;
    }
    let mut i: usize = 0;
    while i <= n - m
        invariant
            n == s@.len(),
            m == p@.len(),
            m <= n,
            0 <= i <= n - m + 1,
            forall|k: int| 0 <= k < i ==> !sub_at(s@, p@, k),
        decreases n + 1 - i,
    {
        let mut j: usize = 0;
        let mut all: bool = true;
        while j < m
            invariant
                n == s@.len(),
                m == p@.len(),
                0 <= i <= n - m,
                0 <= j <= m,
                all ==> forall|k: int| 0 <= k < j ==> s@[i + k] == p@[k],
                !all ==> !sub_at(s@, p@, i as int),
            decreases m - j,
        {
            if s.get_char(i + j) != p.get_char(j) {
                all = false;
                proof {
                    assert(!sub_at(s@, p@, i as int));
                }
                j = m;
            } else {
                j += 1;
            }
        }
        if all {
            proof {
                assert(sub_at(s@, p@, i as int));
            }
            return true;
        }
        i += 1;
    }
    proof {
        assert(forall|k: int| sub_at(s@, p@, k) ==> 0 <= k <= n - m);
    }
    false
}

pub proof fn lemma_find_from_is(s: Seq<char>, c: char, i: int, j: int)
    requires
        0 <= i <= j <= s.len(),
        forall|k: int| i <= k < j ==> s[k] != c,
        j == s.len() || s[j] == c,
    ensures
        find_from(s, c, i) == j,
    decreases j - i,
{
    if i < j {
        lemma_find_from_is(s, c, i + 1, j);
    }
}

/// Index of the first occurrence of `c` in `s` at or after `from`, or the
/// length of `s`.
pub fn find_char_from(s: &str, c: char, from: usize) -> (r: usize)
    requires
        from <= s@.len(),
    ensures
        r == find_from(s@, c, from as int),
        from <= r <= s@.len(),
        r < s@.len() ==> s@[r as int] == c,
        forall|k: int| from <= k < r ==> s@[k] != c,
{
    let n = s.unicode_len();
    let mut j: usize = from;
    while j < n
        invariant
            n == s@.len(),
            from <= j <= n,
            forall|k: int| from <= k < j ==> s@[k] != c,
        decreases n - j,
    {
        if s.get_char(j) == c {
            proof {
                lemma_find_from_is(s@, c, from as int, j as int);
            }
            return j;
        }
        j += 1;
    }
    proof {
        lemma_find_from_is(s@, c, from as int, n as int);
    }
    n
}

/// A decimal digit.
pub open spec fn is_digit(c: char) -> bool {
    48 <= c as int <= 57
}

pub open spec fn all_digits(s: Seq<char>) -> bool {
    forall|j: int| 0 <= j < s.len() ==> is_digit(s[j])
}

/// The number a sequence of decimal digits denotes.
pub open spec fn digits_val(s: Seq<char>) -> nat
    decreases s.len(),
{
    if s.len() == 0 {
        0
    } else {
        digits_val(s.drop_last()) * 10 + (if s.last() as int >= 48 {
            (s.last() as int - 48) as nat
        } else {
            0
        })
    }
}

/// What parsing an unsigned 64-bit decimal accepts: one or more digits whose
/// value fits.
pub open spec fn spec_parse_u64(s: Seq<char>) -> Option<u64> {
    if s.len() > 0 && all_digits(s) && digits_val(s) <= u64::MAX {
        Option::Some(digits_val(s) as u64)
    } else {
        Option::None
    }
}

/// What parsing an unsigned 16-bit decimal accepts.
pub open spec fn spec_parse_u16(s: Seq<char>) -> Option<u16> {
    if s.len() > 0 && all_digits(s) && digits_val(s) <= u16::MAX {
        Option::Some(digits_val(s) as u16)
    } else {
        Option::None
    }
}

proof fn lemma_digits_prefix(s: Seq<char>, i: int)
    requires
        0 <= i <= s.len(),
    ensures
        digits_val(s.take(i)) <= digits_val(s),
    decreases s.len() - i,
{
    if i < s.len() {
        assert(s.take(i + 1).drop_last() =~= s.take(i));
        assert(digits_val(s.take(i)) <= digits_val(s.take(i + 1)));
        lemma_digits_prefix(s, i + 1);
    } else {
        assert(s.take(i) =~= s);
    }
}

/// Parses `s` as an unsigned decimal number: digits only, no sign, no
/// leading or trailing space; rejects the empty string and overflow.
pub fn parse_u64(s: &str) -> (r: Option<u64>)
    ensures
        r == spec_parse_u64(s@),
{
    let n = s.unicode_len();
    if n == 0 {
        return None;
    }
    let mut acc: u64 = 0;
    let mut i: usize = 0;
    while i < n
        invariant
            n == s@.len(),
            0 <= i <= n,
            all_digits(s@.take(i as int)),
            acc == digits_val(s@.take(i as int)),
        decreases n - i,
    {
        let c = s.get_char(i);
        let u: u32 = c as u32;
        if u < 48 || u > 57 {
            proof {
                assert(!is_digit(s@[i as int]));
            }
            return None;
        }
        let d: u64 = (u - 48) as u64;
        proof {
            assert(s@.take(i + 1).drop_last() =~= s@.take(i as int));
            assert(digits_val(s@.take(i + 1)) == acc * 10 + d);
        }
        if acc > (u64::MAX - d) / 10 {
            proof {
                let q = (u64::MAX - d) / 10;
                assert(acc * 10 + d > u64::MAX) by (nonlinear_arith)
                    requires
                        acc > q,
                        q == (u64::MAX - d) / 10,
                        d <= 9,
                        acc <= u64::MAX,
                ;
                lemma_digits_prefix(s@, i + 1);
                assert(digits_val(s@) > u64::MAX);
            }
            return None;
        }
        proof {
            let q = (u64::MAX - d) / 10;
            assert(acc * 10 + d <= u64::MAX) by (nonlinear_arith)
                requires
                    acc <= q,
                    q == (u64::MAX - d) / 10,
                    d <= 9,
            ;
        }
        acc = acc * 10 + d;
        i += 1;
    }
    proof {
        assert(s@.take(n as int) =~= s@);
    }
    Some(acc)
}

/// Parses `s` as an unsigned 16-bit decimal number.
pub fn parse_u16(s: &str) -> (r: Option<u16>)
    ensures
        r == spec_parse_u16(s@),
{
    match parse_u64(s) {
        Some(v) => {
            if v <= 65535 {
                Some(v as u16)
            } else {
                None
            }
        },
        None => None,
    }
}

/// The pieces joined with single spaces.
pub open spec fn spec_join_spaces(parts: Seq<Seq<char>>) -> Seq<char>
    decreases parts.len(),
{
    if parts.len() == 0 {
        Seq::empty()
    } else if parts.len() == 1 {
        parts[0]
    } else {
        spec_join_spaces(parts.drop_last()) + seq![' '] + parts.last()
    }
}

/// Joins `parts[start..]` with single spaces.
pub fn join_from(parts: &Vec<String>, start: usize) -> (r: String)
    requires
        start <= parts@.len(),
    ensures
        r@ == spec_join_spaces(strs_view(parts@).skip(start as int)),
{
    let ghost v = strs_view(parts@).skip(start as int);
    let mut out = String::new();
    let mut k: usize = start;
    proof {
        assert(v.take(0) =~= Seq::<Seq<char>>::empty());
    }
    while k < parts.len()
        invariant
            start <= k <= parts@.len(),
            v == strs_view(parts@).skip(start as int),
            out@ == spec_join_spaces(v.take(k - start)),
        decreases parts@.len() - k,
    {
        proof {
            assert(v.take(k - start + 1).drop_last() =~= v.take(k - start));
            assert(v.take(k - start + 1).last() == parts@[k as int]@);
            reveal_strlit(" ");
            assert(" "@ =~= seq![' ']);
        }
        if k > start {
            out.append(" ");
        } else {
            proof {
                assert(v.take(1) =~= seq![v[0]]);
                assert(spec_join_spaces(v.take(1)) == v[0]);
            }
        }
        let piece = &parts[k];
        out.append(piece.as_str());
        k += 1;
    }
    proof {
        assert(v.take(k - start) =~= v);
    }
    out
}

} // verus!
