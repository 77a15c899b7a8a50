//! Character-sequence helpers shared by the parsers and validators.
//!
//! Strings are handled as sequences of Unicode scalar values (`Seq<char>`),
//! which is what `String` and `str` view to.
use vstd::prelude::*;

verus! {

// ---------------------------------------------------------------------------
// Specifications
// ---------------------------------------------------------------------------

/// Unicode `White_Space`, as tested by `char::is_whitespace`.
pub open spec fn is_ws(c: char) -> bool {
    ||| ('\u{9}' <= c && c <= '\u{d}')
    ||| c == ' '
    ||| c == '\u{85}'
    ||| c == '\u{a0}'
    ||| c == '\u{1680}'
    ||| ('\u{2000}' <= c && c <= '\u{200a}')
    ||| c == '\u{2028}'
    ||| c == '\u{2029}'
    ||| c == '\u{202f}'
    ||| c == '\u{205f}'
    ||| c == '\u{3000}'
}

/// `s` without its leading whitespace.
pub open spec fn trim_start(s: Seq<char>) -> Seq<char>
    decreases s.len(),
{
    if s.len() > 0 && is_ws(s[0]) {
        trim_start(s.drop_first())
    } else {
        s
    }
}

/// `s` without its trailing whitespace.
pub open spec fn trim_end(s: Seq<char>) -> Seq<char>
    decreases s.len(),
{
    if s.len() > 0 && is_ws(s.last()) {
        trim_end(s.drop_last())
    } else {
        s
    }
}

/// `s` without leading and trailing whitespace (`str::trim`).
pub open spec fn trim(s: Seq<char>) -> Seq<char> {
    trim_end(trim_start(s))
}

/// The first `n` characters of `s`, or all of `s` where it is shorter
/// (`s.chars().take(n).collect()`).
pub open spec fn first_chars(s: Seq<char>, n: nat) -> Seq<char> {
    if s.len() > n {
        s.take(n as int)
    } else {
        s
    }
}

/// Cutting a cut string again changes nothing.
pub proof fn lemma_first_chars_idempotent(s: Seq<char>, n: nat)
    ensures
        first_chars(first_chars(s, n), n) == first_chars(s, n),
{
}

/// `p` is a prefix of `s`.
pub open spec fn starts_with(s: Seq<char>, p: Seq<char>) -> bool {
    p.len() <= s.len() && s.take(p.len() as int) == p
}

/// `p` is a suffix of `s`.
pub open spec fn ends_with(s: Seq<char>, p: Seq<char>) -> bool {
    p.len() <= s.len() && s.skip(s.len() - p.len()) == p
}

/// `p` occurs in `s` at position `i`.
pub open spec fn occurs_at(s: Seq<char>, p: Seq<char>, i: int) -> bool {
    0 <= i && i + p.len() <= s.len() && s.subrange(i, i + p.len()) == p
}

/// `p` occurs somewhere in `s` (`str::contains`; the empty pattern occurs in every string).
pub open spec fn contains(s: Seq<char>, p: Seq<char>) -> bool {
    exists|i: int| occurs_at(s, p, i)
}

/// `s` with every leading repetition of `p` removed (`str::trim_start_matches`).
pub open spec fn strip_all_prefix(s: Seq<char>, p: Seq<char>) -> Seq<char>
    decreases s.len(),
{
    if p.len() > 0 && starts_with(s, p) {
        strip_all_prefix(s.skip(p.len() as int), p)
    } else {
        s
    }
}

/// `s` with every leading and trailing `c` removed (`str::trim_matches` with one char).
pub open spec fn trim_char(s: Seq<char>, c: char) -> Seq<char>
    decreases s.len(),
{
    if s.len() > 0 && s[0] == c {
        trim_char(s.drop_first(), c)
    } else if s.len() > 0 && s.last() == c {
        trim_char(s.drop_last(), c)
    } else {
        s
    }
}

/// Index of the first `c` in `s`, or `s.len()` when there is none.
pub open spec fn first_index_of(s: Seq<char>, c: char) -> nat
    decreases s.len(),
{
    if s.len() == 0 {
        0
    } else if s[0] == c {
        0
    } else {
        1 + first_index_of(s.drop_first(), c)
    }
}

/// A line taken from before a line feed loses one trailing carriage return.
pub open spec fn strip_cr(s: Seq<char>) -> Seq<char> {
    if s.len() > 0 && s.last() == '\r' {
        s.drop_last()
    } else {
        s
    }
}

/// The lines of `s`, as `str::lines` yields them: split at `\n`, a `\r` right before
/// a `\n` dropped, and no empty line after a final `\n`.
pub open spec fn lines(s: Seq<char>) -> Seq<Seq<char>>
    decreases s.len(),
{
    if s.len() == 0 {
        seq![]
    } else {
        let k = first_index_of(s, '\n');
        if k >= s.len() {
            seq![s]
        } else {
            seq![strip_cr(s.take(k as int))] + lines(s.skip(k + 1 as int))
        }
    }
}

/// Index of the first whitespace character of `s`, or `s.len()` when there is none.
pub open spec fn first_ws(s: Seq<char>) -> nat
    decreases s.len(),
{
    if s.len() == 0 {
        0
    } else if is_ws(s[0]) {
        0
    } else {
        1 + first_ws(s.drop_first())
    }
}

/// The first whitespace-separated word of `s` (`s.split_whitespace().next()`).
pub open spec fn first_word(s: Seq<char>) -> Option<Seq<char>> {
    let t = trim_start(s);
    if t.len() == 0 {
        None
    } else {
        Some(t.take(first_ws(t) as int))
    }
}

/// ASCII decimal digit.
pub open spec fn is_digit(c: char) -> bool {
    '0' <= c && c <= '9'
}

/// The value of a sequence of decimal digits.
pub open spec fn digits_value(s: Seq<char>) -> nat
    decreases s.len(),
{
    if s.len() == 0 {
        0
    } else {
        digits_value(s.drop_last()) * 10 + ((s.last() as u32) - ('0' as u32)) as nat
    }
}

/// `s` less one leading `+`.
pub open spec fn sign_stripped(s: Seq<char>) -> Seq<char> {
    if s.len() > 0 && s[0] == '+' {
        s.drop_first()
    } else {
        s
    }
}

/// Every element of `d` is an ASCII digit.
pub open spec fn all_digits(d: Seq<char>) -> bool {
    forall|i: int| 0 <= i < d.len() ==> is_digit(#[trigger] d[i])
}

/// What `str::parse::<u32>` gives: an optional `+`, then at least one ASCII digit,
/// with a value that fits in 32 bits.
pub open spec fn parse_u32(s: Seq<char>) -> Option<u32> {
    let d = sign_stripped(s);
    if d.len() > 0 && all_digits(d) && digits_value(d) <= u32::MAX {
        Some(digits_value(d) as u32)
    } else {
        None
    }
}

/// `s` with every non-overlapping occurrence of
/// `p`, scanning from the left, removed (`str::replace(p, "")`).
pub open spec fn remove_all(s: Seq<char>, p: Seq<char>) -> Seq<char>
    decreases s.len(),
{
    if p.len() == 0 || s.len() == 0 {
        s
    } else if starts_with(s, p) {
        remove_all(s.skip(p.len() as int), p)
    } else {
        seq![s[0]] + remove_all(s.drop_first(), p)
    }
}

// ---------------------------------------------------------------------------
// Lemmas
// ---------------------------------------------------------------------------

pub(crate) proof fn lemma_first_index_of(s: Seq<char>, c: char, k: int)
    requires
        0 <= k <= s.len(),
        forall|j: int| 0 <= j < k ==> s[j] != c,
        k == s.len() || s[k] == c,
    ensures
        first_index_of(s, c) == k,
    decreases k,
{
    if k > 0 {
        lemma_first_index_of(s.drop_first(), c, k - 1);
    }
}

/// Where the first `c` of `s` stands: no `c` before it, and a `c` there unless it is
/// the end.
pub(crate) proof fn lemma_first_index_bounds(s: Seq<char>, c: char)
    ensures
        first_index_of(s, c) <= s.len(),
        forall|j: int| 0 <= j < first_index_of(s, c) ==> s[j] != c,
        first_index_of(s, c) < s.len() ==> s[first_index_of(s, c) as int] == c,
    decreases s.len(),
{
    if s.len() > 0 && s[0] != c {
        lemma_first_index_bounds(s.drop_first(), c);
        assert forall|j: int| 0 <= j < first_index_of(s, c) implies s[j] != c by {
            if j > 0 {
                assert(s[j] == s.drop_first()[j - 1]);
            }
        }
    }
}

/// A line `a` without a line feed, followed by a line feed, is the first of the lines
/// (less a carriage return at its end), before the lines of what follows.
pub proof fn lemma_lines_cons(a: Seq<char>, rest: Seq<char>)
    requires
        forall|j: int| 0 <= j < a.len() ==> a[j] != '\n',
    ensures
        lines(a + seq!['\n'] + rest) == seq![strip_cr(a)] + lines(rest),
{
    let s = a + seq!['\n'] + rest;
    lemma_first_index_of(s, '\n', a.len() as int);
    assert(s.take(a.len() as int) =~= a);
    assert(s.skip(a.len() as int + 1) =~= rest);
}

/// The lines of a text that is empty or ends with a line feed, then more text, are
/// the lines of the first followed by the lines of the second.
pub proof fn lemma_lines_append(a: Seq<char>, b: Seq<char>)
    requires
        a.len() == 0 || a.last() == '\n',
    ensures
        lines(a + b) == lines(a) + lines(b),
    decreases a.len(),
{
    if a.len() == 0 {
        assert(a + b =~= b);
        assert(lines(a) + lines(b) =~= lines(b));
    } else {
        lemma_first_index_bounds(a, '\n');
        let k = first_index_of(a, '\n') as int;
        assert(k < a.len()) by {
            if k >= a.len() {
                assert(a[a.len() - 1] != '\n');
            }
        }
        let head = a.take(k);
        let tail = a.skip(k + 1);
        assert(a =~= head + seq!['\n'] + tail);
        assert(a + b =~= head + seq!['\n'] + (tail + b));
        lemma_lines_cons(head, tail);
        lemma_lines_cons(head, tail + b);
        if tail.len() > 0 {
            assert(tail.last() == a.last());
        }
        lemma_lines_append(tail, b);
        assert(seq![strip_cr(head)] + lines(tail) + lines(b) =~= seq![strip_cr(head)] + (lines(
            tail,
        ) + lines(b)));
    }
}

pub(crate) proof fn lemma_first_ws(s: Seq<char>, k: int)
    requires
        0 <= k <= s.len(),
        forall|j: int| 0 <= j < k ==> !is_ws(s[j]),
        k == s.len() || is_ws(s[k]),
    ensures
        first_ws(s) == k,
    decreases k,
{
    if k > 0 {
        lemma_first_ws(s.drop_first(), k - 1);
    }
}

pub(crate) proof fn lemma_trim_start_skip(s: Seq<char>, k: int)
    requires
        0 <= k <= s.len(),
        forall|j: int| 0 <= j < k ==> is_ws(s[j]),
    ensures
        trim_start(s) == trim_start(s.skip(k)),
    decreases k,
{
    if k > 0 {
        assert(s.skip(k) =~= s.drop_first().skip(k - 1));
        lemma_trim_start_skip(s.drop_first(), k - 1);
    } else {
        assert(s.skip(0) =~= s);
    }
}

pub(crate) proof fn lemma_trim_end_take(s: Seq<char>, k: int)
    requires
        0 <= k <= s.len(),
        forall|j: int| k <= j < s.len() ==> is_ws(s[j]),
    ensures
        trim_end(s) == trim_end(s.take(k)),
    decreases s.len() - k,
{
    if k < s.len() {
        assert(s.drop_last().take(k) =~= s.take(k));
        lemma_trim_end_take(s.drop_last(), k);
    } else {
        assert(s.take(k) =~= s);
    }
}

/// The digit values of a prefix never exceed that of the whole sequence.
pub(crate) proof fn lemma_digits_value_prefix(s: Seq<char>, k: int)
    requires
        0 <= k <= s.len(),
    ensures
        digits_value(s.take(k)) <= digits_value(s),
    decreases s.len(),
{
    if k < s.len() {
        assert(s.drop_last().take(k) =~= s.take(k));
        lemma_digits_value_prefix(s.drop_last(), k);
        assert(digits_value(s.drop_last()) <= digits_value(s)) by (nonlinear_arith)
            requires
                digits_value(s) == digits_value(s.drop_last()) * 10 + ((s.last() as u32) - ('0' as u32)) as nat,
        ;
    } else {
        assert(s.take(k) =~= s);
    }
}

// ---------------------------------------------------------------------------
// Executable helpers
// ---------------------------------------------------------------------------

/// Copies the characters of a string slice into a vector.
pub fn chars_of(s: &str) -> (v: Vec<char>)
    ensures
        v@ == s@,
{
    let mut v: Vec<char> = Vec::new();
    for c in iter: s.chars()
        invariant
            v@ == iter.seq().take(iter.index() as int),
    {
        v.push(c);
    }
    v
}

/// Builds a `String` from a sequence of characters (`FromIterator<&char> for String`).
#[verifier::external_body]
pub(crate) fn string_from_chars(v: &[char]) -> (s: String)
    ensures
        s@ == v@,
{
    v.iter().collect()
}

/// A copy of a slice of characters.
pub fn copy_chars(v: &[char]) -> (r: Vec<char>)
    ensures
        r@ == v@,
{
    let mut r: Vec<char> = Vec::new();
    let mut i: usize = 0;
    while i < v.len()
        invariant
            0 <= i <= v.len(),
            r@ == v@.take(i as int),
        decreases v.len() - i,
    {
        r.push(v[i]);
        i = i + 1;
    }
    assert(v@.take(v.len() as int) =~= v@);
    r
}

/// The characters of `v` from `lo` up to `hi`.
pub fn sub_chars(v: &[char], lo: usize, hi: usize) -> (r: Vec<char>)
    requires
        lo <= hi <= v.len(),
    ensures
        r@ == v@.subrange(lo as int, hi as int),
{
    let mut r: Vec<char> = Vec::new();
    let mut i: usize = lo;
    while i < hi
        invariant
            lo <= i <= hi <= v.len(),
            r@ == v@.subrange(lo as int, i as int),
        decreases hi - i,
    {
        r.push(v[i]);
        i = i + 1;
    }
    r
}

/// `a` followed by `b`.
pub fn concat_chars(a: &[char], b: &[char]) -> (r: Vec<char>)
    ensures
        r@ == a@ + b@,
{
    let mut r = copy_chars(a);
    let mut i: usize = 0;
    while i < b.len()
        invariant
            0 <= i <= b.len(),
            r@ == a@ + b@.take(i as int),
        decreases b.len() - i,
    {
        r.push(b[i]);
        i = i + 1;
    }
    assert(b@.take(b.len() as int) =~= b@);
    r
}

/// The first `n` characters of `s`.
pub fn take_chars(s: &str, n: usize) -> (r: String)
    ensures
        r@ == first_chars(s@, n as nat),
{
    let v = chars_of(s);
    if v.len() > n {
        let w = sub_chars(v.as_slice(), 0, n);
        string_from_chars(w.as_slice())
    } else {
        string_from_chars(v.as_slice())
    }
}

/// Whitespace test of `char::is_whitespace`.
pub fn is_whitespace(c: char) -> (b: bool)
    ensures
        b == is_ws(c),
{
    ('\u{9}' <= c && c <= '\u{d}') || c == ' ' || c == '\u{85}' || c == '\u{a0}' || c == '\u{1680}'
        || ('\u{2000}' <= c && c <= '\u{200a}') || c == '\u{2028}' || c == '\u{2029}' || c
        == '\u{202f}' || c == '\u{205f}' || c == '\u{3000}'
}

/// `v` without its leading whitespace.
pub fn trim_start_chars(v: &[char]) -> (r: Vec<char>)
    ensures
        r@ == trim_start(v@),
{
    let mut lo: usize = 0;
    while lo < v.len() && is_whitespace(v[lo])
        invariant
            0 <= lo <= v.len(),
            forall|j: int| 0 <= j < lo ==> is_ws(v@[j]),
        decreases v.len() - lo,
    {
        lo = lo + 1;
    }
    proof {
        lemma_trim_start_skip(v@, lo as int);
        assert(trim_start(v@.skip(lo as int)) == v@.skip(lo as int));
    }
    sub_chars(v, lo, v.len())
}

/// `v` without leading and trailing whitespace.
pub fn trim_chars(v: &[char]) -> (r: Vec<char>)
    ensures
        r@ == trim(v@),
{
    let mut lo: usize = 0;
    while lo < v.len() && is_whitespace(v[lo])
        invariant
            0 <= lo <= v.len(),
            forall|j: int| 0 <= j < lo ==> is_ws(v@[j]),
        decreases v.len() - lo,
    {
        lo = lo + 1;
    }
    proof {
        lemma_trim_start_skip(v@, lo as int);
        assert(trim_start(v@.skip(lo as int)) == v@.skip(lo as int));
    }
    let mut hi: usize = v.len();
    while hi > lo && is_whitespace(v[hi - 1])
        invariant
            lo <= hi <= v.len(),
            forall|j: int| hi <= j < v.len() ==> is_ws(v@[j]),
        decreases hi,
    {
        hi = hi - 1;
    }
    proof {
        let t = v@.skip(lo as int);
        lemma_trim_end_take(t, (hi - lo) as int);
        assert(t.take((hi - lo) as int) =~= v@.subrange(lo as int, hi as int));
        let u = v@.subrange(lo as int, hi as int);
        assert(u.len() == 0 || !is_ws(u.last()));
    }
    sub_chars(v, lo, hi)
}

/// Whether `p` is a suffix of `s` (`str::ends_with`).
pub fn str_ends_with(s: &str, p: &str) -> (b: bool)
    ensures
        b == ends_with(s@, p@),
{
    let v = chars_of(s);
    let q = chars_of(p);
    if q.len() > v.len() {
        return false;
    }
    let off = v.len() - q.len();
    let mut i: usize = 0;
    while i < q.len()
        invariant
            0 <= i <= q.len(),
            off + q.len() == v.len(),
            v@ == s@,
            q@ == p@,
            forall|j: int| 0 <= j < i ==> v@[off + j] == q@[j],
        decreases q.len() - i,
    {
        if v[off + i] != q[i] {
            assert(v@.skip(off as int)[i as int] != q@[i as int]);
            return false;
        }
        i = i + 1;
    }
    assert(v@.skip(off as int) =~= q@);
    true
}

/// Whether `p` is a prefix of `v`.
pub fn starts_with_chars(v: &[char], p: &[char]) -> (b: bool)
    ensures
        b == starts_with(v@, p@),
{
    if p.len() > v.len() {
        return false;
    }
    let mut i: usize = 0;
    while i < p.len()
        invariant
            0 <= i <= p.len() <= v.len(),
            forall|j: int| 0 <= j < i ==> v@[j] == p@[j],
        decreases p.len() - i,
    {
        if v[i] != p[i] {
            assert(v@.take(p.len() as int)[i as int] != p@[i as int]);
            return false;
        }
        i = i + 1;
    }
    assert(v@.take(p.len() as int) =~= p@);
    true
}

/// Whether `p` occurs in `v` at position `at`.
pub fn occurs_at_chars(v: &[char], p: &[char], at: usize) -> (b: bool)
    ensures
        b == occurs_at(v@, p@, at as int),
{
    if at > v.len() || p.len() > v.len() - at {
        return false;
    }
    let mut i: usize = 0;
    while i < p.len()
        invariant
            0 <= i <= p.len(),
            at + p.len() <= v.len(),
            forall|j: int| 0 <= j < i ==> v@[at + j] == p@[j],
        decreases p.len() - i,
    {
        if v[at + i] != p[i] {
            assert(v@.subrange(at as int, at + p.len())[i as int] != p@[i as int]);
            return false;
        }
        i = i + 1;
    }
    assert(v@.subrange(at as int, at + p.len()) =~= p@);
    true
}

/// Whether `p` occurs anywhere in `v`.
pub fn contains_chars(v: &[char], p: &[char]) -> (b: bool)
    ensures
        b == contains(v@, p@),
{
    if p.len() > v.len() {
        proof {
            assert forall|i: int| !occurs_at(v@, p@, i) by {}
        }
        return false;
    }
    let mut i: usize = 0;
    loop
        invariant
            p.len() <= v.len(),
            0 <= i <= v.len() - p.len(),
            forall|j: int| 0 <= j < i ==> !occurs_at(v@, p@, j),
        ensures
            forall|j: int| 0 <= j <= v.len() - p.len() ==> !occurs_at(v@, p@, j),
        decreases v.len() - p.len() - i,
    {
        if occurs_at_chars(v, p, i) {
            return true;
        }
        if i == v.len() - p.len() {
            break;
        }
        i = i + 1;
    }
    assert forall|j: int| !occurs_at(v@, p@, j) by {
        if 0 <= j <= v.len() - p.len() {
        } else {
        }
    }
    false
}

/// `str::contains` on a string slice.
pub fn str_contains(s: &str, p: &str) -> (b: bool)
    ensures
        b == contains(s@, p@),
{
    let v = chars_of(s);
    let q = chars_of(p);
    contains_chars(v.as_slice(), q.as_slice())
}

/// `v` with every leading repetition of `p` removed.
pub fn strip_all_prefix_chars(v: &[char], p: &[char]) -> (r: Vec<char>)
    ensures
        r@ == strip_all_prefix(v@, p@),
{
    if p.len() == 0 {
        return copy_chars(v);
    }
    let mut lo: usize = 0;
    assert(v@.skip(0) =~= v@);
    while lo <= v.len() && p.len() <= v.len() - lo && occurs_at_chars(v, p, lo)
        invariant
            0 <= lo <= v.len(),
            p.len() > 0,
            strip_all_prefix(v@, p@) == strip_all_prefix(v@.skip(lo as int), p@),
        decreases v.len() - lo,
    {
        proof {
            let t = v@.skip(lo as int);
            assert(t.take(p.len() as int) =~= v@.subrange(lo as int, lo + p.len()));
            assert(t.skip(p.len() as int) =~= v@.skip(lo + p.len()));
        }
        lo = lo + p.len();
    }
    proof {
        let t = v@.skip(lo as int);
        if p.len() <= t.len() {
            assert(t.take(p.len() as int) =~= v@.subrange(lo as int, lo + p.len()));
        }
        assert(!starts_with(t, p@));
    }
    sub_chars(v, lo, v.len())
}

/// `v` with every leading and trailing `c` removed.
pub fn trim_char_chars(v: &[char], c: char) -> (r: Vec<char>)
    ensures
        r@ == trim_char(v@, c),
{
    let mut lo: usize = 0;
    let mut hi: usize = v.len();
    assert(v@.subrange(0, v.len() as int) =~= v@);
    while lo < hi && (v[lo] == c || v[hi - 1] == c)
        invariant
            0 <= lo <= hi <= v.len(),
            trim_char(v@, c) == trim_char(v@.subrange(lo as int, hi as int), c),
        decreases hi - lo,
    {
        let ghost s = v@.subrange(lo as int, hi as int);
        if v[lo] == c {
            proof {
                assert(s.drop_first() =~= v@.subrange(lo + 1, hi as int));
            }
            lo = lo + 1;
        } else {
            proof {
                assert(s.drop_last() =~= v@.subrange(lo as int, hi - 1));
            }
            hi = hi - 1;
        }
    }
    sub_chars(v, lo, hi)
}

/// The index of the first `c` in `v` at or after `from`, or `v.len()`.
fn find_char_from(v: &[char], c: char, from: usize) -> (k: usize)
    requires
        from <= v.len(),
    ensures
        from <= k <= v.len(),
        forall|j: int| from <= j < k ==> v@[j] != c,
        k == v.len() || v@[k as int] == c,
{
    let mut k = from;
    while k < v.len() && v[k] != c
        invariant
            from <= k <= v.len(),
            forall|j: int| from <= j < k ==> v@[j] != c,
        decreases v.len() - k,
    {
        k = k + 1;
    }
    k
}

/// The views of a sequence of character vectors.
pub open spec fn views(r: Seq<Vec<char>>) -> Seq<Seq<char>> {
    r.map_values(|l: Vec<char>| l@)
}

/// A line, less one trailing carriage return.
fn strip_cr_chars(v: Vec<char>) -> (r: Vec<char>)
    ensures
        r@ == strip_cr(v@),
{
    let mut v = v;
    if v.len() > 0 && v[v.len() - 1] == '\r' {
        v.pop();
    }
    v
}

/// The lines of `v`, as `str::lines` yields them.
pub fn lines_of(v: &[char]) -> (r: Vec<Vec<char>>)
    ensures
        views(r@) == lines(v@),
{
    let mut r: Vec<Vec<char>> = Vec::new();
    let mut start: usize = 0;
    assert(v@.skip(0) =~= v@);
    assert(views(r@) + lines(v@) =~= lines(v@));
    while start < v.len()
        invariant
            0 <= start <= v.len(),
            lines(v@) == views(r@) + lines(v@.skip(start as int)),
        decreases v.len() - start,
    {
        let k = find_char_from(v, '\n', start);
        let ghost s = v@.skip(start as int);
        proof {
            lemma_first_index_of(s, '\n', (k - start) as int);
        }
        if k == v.len() {
            let line = sub_chars(v, start, k);
            proof {
                assert(line@ =~= s);
            }
            let ghost before = views(r@);
            r.push(line);
            proof {
                assert(views(r@) =~= before + seq![line@]);
                assert(v@.skip(k as int) =~= Seq::<char>::empty());
            }
            start = k;
        } else {
            let line = strip_cr_chars(sub_chars(v, start, k));
            proof {
                assert(s.take((k - start) as int) =~= v@.subrange(start as int, k as int));
                assert(s.skip((k - start) + 1) =~= v@.skip(k + 1));
            }
            let ghost before = views(r@);
            r.push(line);
            proof {
                assert(views(r@) =~= before + seq![line@]);
            }
            start = k + 1;
        }
    }
    proof {
        assert(v@.skip(start as int) =~= Seq::<char>::empty());
        assert(views(r@) + Seq::<Seq<char>>::empty() =~= views(r@));
    }
    r
}

/// The first whitespace-separated word of `v`.
pub fn first_word_chars(v: &[char]) -> (r: Option<Vec<char>>)
    ensures
        r matches Some(w) ==> first_word(v@) == Some(w@),
        r is None ==> first_word(v@) is None,
{
    let mut lo: usize = 0;
    while lo < v.len() && is_whitespace(v[lo])
        invariant
            0 <= lo <= v.len(),
            forall|j: int| 0 <= j < lo ==> is_ws(v@[j]),
        decreases v.len() - lo,
    {
        lo = lo + 1;
    }
    proof {
        lemma_trim_start_skip(v@, lo as int);
        assert(trim_start(v@.skip(lo as int)) == v@.skip(lo as int));
    }
    if lo == v.len() {
        return None;
    }
    let mut hi: usize = lo;
    while hi < v.len() && !is_whitespace(v[hi])
        invariant
            lo <= hi <= v.len(),
            forall|j: int| lo <= j < hi ==> !is_ws(v@[j]),
        decreases v.len() - hi,
    {
        hi = hi + 1;
    }
    proof {
        let t = v@.skip(lo as int);
        lemma_first_ws(t, (hi - lo) as int);
        assert(t.take((hi - lo) as int) =~= v@.subrange(lo as int, hi as int));
    }
    Some(sub_chars(v, lo, hi))
}

/// `str::parse::<u32>` on a sequence of characters.
pub fn parse_u32_chars(v: &[char]) -> (r: Option<u32>)
    ensures
        r == parse_u32(v@),
{
    let start: usize = if v.len() > 0 && v[0] == '+' {
        1
    } else {
        0
    };
    let ghost d = sign_stripped(v@);
    proof {
        assert(d =~= v@.skip(start as int));
    }
    if start == v.len() {
        return None;
    }
    let mut i: usize = start;
    let mut val: u64 = 0;
    while i < v.len()
        invariant
            start <= i <= v.len(),
            d == v@.skip(start as int),
            d == sign_stripped(v@),
            forall|j: int| start <= j < i ==> is_digit(#[trigger] v@[j]),
            val == digits_value(v@.subrange(start as int, i as int)),
            val <= u32::MAX,
        decreases v.len() - i,
    {
        let c = v[i];
        if !('0' <= c && c <= '9') {
            assert(d[i - start] == v@[i as int]);
            assert(!is_digit(d[i - start]));
            return None;
        }
        let ghost pre = v@.subrange(start as int, i as int);
        let ghost post = v@.subrange(start as int, i + 1);
        assert(post.drop_last() =~= pre);
        let digit = (c as u32 - '0' as u32) as u64;
        let next = val * 10 + digit;
        assert(digits_value(post) == val * 10 + digit);
        if next > 0xffff_ffff {
            proof {
                assert(forall|j: int| 0 <= j < post.len() ==> is_digit(#[trigger] post[j]));
                if all_digits(d) {
                    assert(d.take(post.len() as int) =~= post);
                    lemma_digits_value_prefix(d, post.len() as int);
                }
            }
            return None;
        }
        val = next;
        i = i + 1;
    }
    proof {
        assert(v@.subrange(start as int, v.len() as int) =~= d);
    }
    Some(val as u32)
}

/// `v` with every non-overlapping occurrence of `p` removed, scanning from the left.
pub fn remove_all_chars(v: &[char], p: &[char]) -> (r: Vec<char>)
    ensures
        r@ == remove_all(v@, p@),
{
    if p.len() == 0 {
        return copy_chars(v);
    }
    let mut r: Vec<char> = Vec::new();
    let mut i: usize = 0;
    assert(v@.skip(0) =~= v@);
    assert(r@ + remove_all(v@, p@) =~= remove_all(v@, p@));
    while i < v.len()
        invariant
            0 <= i <= v.len(),
            p.len() > 0,
            remove_all(v@, p@) == r@ + remove_all(v@.skip(i as int), p@),
        decreases v.len() - i,
    {
        let ghost s = v@.skip(i as int);
        if occurs_at_chars(v, p, i) {
            proof {
                assert(s.take(p.len() as int) =~= v@.subrange(i as int, i + p.len()));
                assert(s.skip(p.len() as int) =~= v@.skip(i + p.len()));
            }
            i = i + p.len();
        } else {
            proof {
                if p.len() <= s.len() {
                    assert(s.take(p.len() as int) =~= v@.subrange(i as int, i + p.len()));
                }
                assert(s.drop_first() =~= v@.skip(i + 1));
                assert(r@.push(v@[i as int]) + remove_all(s.drop_first(), p@) =~= r@ + (seq![s[0]]
                    + remove_all(s.drop_first(), p@)));
            }
            r.push(v[i]);
            i = i + 1;
        }
    }
    proof {
        assert(v@.skip(i as int) =~= Seq::<char>::empty());
        assert(r@ + Seq::<char>::empty() =~= r@);
    }
    r
}



/// Decimal digit of value `n` (below 10).
pub open spec fn digit_char(n: nat) -> char {
    ((n + '0' as u32) as u32) as char
}

/// The decimal representation of `n`, without leading zeros (`0` for zero).
pub open spec fn decimal(n: nat) -> Seq<char>
    decreases n,
{
    if n < 10 {
        seq![digit_char(n)]
    } else {
        decimal(n / 10).push(digit_char(n % 10))
    }
}

fn digit_char_exec(n: u32) -> (c: char)
    requires
        n < 10,
    ensures
        c == digit_char(n as nat),
{
    match n {
        0 => '0',
        1 => '1',
        2 => '2',
        3 => '3',
        4 => '4',
        5 => '5',
        6 => '6',
        7 => '7',
        8 => '8',
        _ => '9',
    }
}

/// The decimal digits of `n`.
pub fn decimal_chars(n: u32) -> (r: Vec<char>)
    ensures
        r@ == decimal(n as nat),
    decreases n,
{
    if n < 10 {
        let mut r: Vec<char> = Vec::new();
        r.push(digit_char_exec(n));
        r
    } else {
        let mut r = decimal_chars(n / 10);
        r.push(digit_char_exec(n % 10));
        r
    }
}

/// Whether two strings are equal.
pub fn str_eq(a: &str, lit: &str) -> (b: bool)
    ensures
        b == (a@ == lit@),
{
    let x = chars_of(a);
    let y = chars_of(lit);
    if x.len() != y.len() {
        return false;
    }
    let mut i: usize = 0;
    while i < x.len()
        invariant
            0 <= i <= x.len(),
            x.len() == y.len(),
            x@ == a@,
            y@ == lit@,
            forall|j: int| 0 <= j < i ==> x@[j] == y@[j],
        decreases x.len() - i,
    {
        if x[i] != y[i] {
            assert(x@[i as int] != y@[i as int]);
            return false;
        }
        i = i + 1;
    }
    assert(x@ =~= y@);
    true
}

/// The decimal digits of `n`.
pub fn decimal_chars_u64(n: u64) -> (r: Vec<char>)
    ensures
        r@ == decimal(n as nat),
    decreases n,
{
    if n < 10 {
        let mut r: Vec<char> = Vec::new();
        r.push(digit_char_exec(n as u32));
        r
    } else {
        let mut r = decimal_chars_u64(n / 10);
        r.push(digit_char_exec((n % 10) as u32));
        r
    }
}

/// `n` written in decimal (`u32::to_string`).
pub fn u32_to_string(n: u32) -> (s: String)
    ensures
        s@ == decimal(n as nat),
{
    let r = decimal_chars(n);
    string_from_chars(r.as_slice())
}

pub(crate) proof fn lemma_decimal_digits(n: nat)
    ensures
        decimal(n).len() > 0,
        all_digits(decimal(n)),
        digits_value(decimal(n)) == n,
        decimal(n)[0] != '+',
    decreases n,
{
    if n >= 10 {
        lemma_decimal_digits(n / 10);
        let d = decimal(n);
        assert(d.drop_last() =~= decimal(n / 10));
        assert forall|i: int| 0 <= i < d.len() implies is_digit(#[trigger] d[i]) by {
            if i < d.len() - 1 {
                assert(d[i] == decimal(n / 10)[i]);
            }
        }
        assert(d.last() == digit_char(n % 10));
        assert((digit_char(n % 10) as u32) - ('0' as u32) == n % 10);
        assert((n / 10) * 10 + n % 10 == n) by (nonlinear_arith);
        assert(digits_value(d.drop_last()) == n / 10);
        assert(digits_value(d) == digits_value(d.drop_last()) * 10 + n % 10);
    } else {
        let d = decimal(n);
        assert((digit_char(n) as u32) - ('0' as u32) == n);
        assert(d.drop_last() =~= Seq::<char>::empty());
        assert(digits_value(d.drop_last()) == 0);
        assert(digits_value(d) == digits_value(d.drop_last()) * 10 + n);
    }
}

/// The words of `ws` with `sep` between each two (`[String]::join`).
pub open spec fn join(ws: Seq<Seq<char>>, sep: Seq<char>) -> Seq<char>
    decreases ws.len(),
{
    if ws.len() == 0 {
        Seq::<char>::empty()
    } else if ws.len() == 1 {
        ws[0]
    } else {
        join(ws.drop_last(), sep) + sep + ws.last()
    }
}

/// The strings of `ws` joined with `sep` between each two.
pub fn join_strings(ws: &Vec<String>, sep: &str) -> (r: String)
    ensures
        r@ == join(ws@.map_values(|w: String| w@), sep@),
{
    let ghost vs = ws@.map_values(|w: String| w@);
    let mut r = String::new();
    let mut i: usize = 0;
    while i < ws.len()
        invariant
            0 <= i <= ws.len(),
            vs == ws@.map_values(|w: String| w@),
            r@ == join(vs.take(i as int), sep@),
        decreases ws.len() - i,
    {
        proof {
            assert(vs.take(i + 1).drop_last() =~= vs.take(i as int));
            assert(vs.take(i + 1).last() == ws@[i as int]@);
        }
        if i > 0 {
            r.append(sep);
        } else {
            proof {
                assert(vs.take(1) =~= seq![ws@[0]@]);
            }
        }
        r.append(ws[i].as_str());
        i = i + 1;
    }
    assert(vs.take(ws.len() as int) =~= vs);
    r
}

/// `a` sorts before `b` or equals it in code-point order (shorter prefix first), the
/// order in which `str`'s comparison puts strings (UTF-8 byte order is code-point
/// order).
pub open spec fn lex_le(a: Seq<char>, b: Seq<char>) -> bool
    decreases a.len(),
{
    if a.len() == 0 {
        true
    } else if b.len() == 0 {
        false
    } else if a[0] != b[0] {
        a[0] < b[0]
    } else {
        lex_le(a.drop_first(), b.drop_first())
    }
}

/// `a` sorts strictly before `b`.
pub open spec fn lex_lt(a: Seq<char>, b: Seq<char>) -> bool {
    lex_le(a, b) && a != b
}

/// Any two strings are ordered one way or the other.
pub proof fn lemma_lex_total(a: Seq<char>, b: Seq<char>)
    ensures
        lex_le(a, b) || lex_le(b, a),
    decreases a.len(),
{
    if a.len() > 0 && b.len() > 0 && a[0] == b[0] {
        lemma_lex_total(a.drop_first(), b.drop_first());
    }
}

/// Strings ordered both ways are equal.
pub proof fn lemma_lex_antisymmetric(a: Seq<char>, b: Seq<char>)
    requires
        lex_le(a, b),
        lex_le(b, a),
    ensures
        a == b,
    decreases a.len(),
{
    if a.len() > 0 && b.len() > 0 {
        lemma_lex_antisymmetric(a.drop_first(), b.drop_first());
        assert(a =~= seq![a[0]] + a.drop_first());
        assert(b =~= seq![b[0]] + b.drop_first());
    } else {
        assert(a =~= b);
    }
}

/// The order is transitive.
pub proof fn lemma_lex_transitive(a: Seq<char>, b: Seq<char>, c: Seq<char>)
    requires
        lex_le(a, b),
        lex_le(b, c),
    ensures
        lex_le(a, c),
    decreases a.len(),
{
    if a.len() > 0 && b.len() > 0 && c.len() > 0 && a[0] == b[0] && b[0] == c[0] {
        lemma_lex_transitive(a.drop_first(), b.drop_first(), c.drop_first());
    }
}

/// Whether `a` sorts strictly before `b`.
pub fn str_lex_lt(a: &str, b: &str) -> (r: bool)
    ensures
        r == lex_lt(a@, b@),
{
    let x = chars_of(a);
    let y = chars_of(b);
    assert(a@.skip(0) =~= a@);
    assert(b@.skip(0) =~= b@);
    let mut i: usize = 0;
    while i < x.len() && i < y.len()
        invariant
            0 <= i <= x.len(),
            i <= y.len(),
            x@ == a@,
            y@ == b@,
            x@.take(i as int) == y@.take(i as int),
            lex_le(a@, b@) == lex_le(a@.skip(i as int), b@.skip(i as int)),
        decreases x.len() - i,
    {
        assert(a@.skip(i as int).drop_first() =~= a@.skip(i + 1));
        assert(b@.skip(i as int).drop_first() =~= b@.skip(i + 1));
        if x[i] != y[i] {
            proof {
                if a@ == b@ {
                    assert(a@[i as int] == b@[i as int]);
                }
            }
            return x[i] < y[i];
        }
        assert(x@.take(i + 1) =~= x@.take(i as int).push(x@[i as int]));
        assert(y@.take(i + 1) =~= y@.take(i as int).push(y@[i as int]));
        i = i + 1;
    }
    proof {
        if x.len() == y.len() {
            assert(x@ =~= x@.take(i as int));
            assert(y@ =~= y@.take(i as int));
        } else if i == x.len() {
            assert(a@.skip(i as int).len() == 0);
        } else {
            assert(b@.skip(i as int).len() == 0);
            assert(a@.skip(i as int).len() > 0);
            if a@ == b@ {
                assert(false);
            }
        }
    }
    x.len() < y.len()
}

/// The decimal representation of `n`, with a leading `-` where negative.
pub open spec fn signed_decimal(n: int) -> Seq<char> {
    if n < 0 {
        "-"@ + decimal((-n) as nat)
    } else {
        decimal(n as nat)
    }
}

/// `n` written in decimal (`i32::to_string`).
pub fn i32_to_string(n: i32) -> (s: String)
    ensures
        s@ == signed_decimal(n as int),
{
    if n < 0 {
        let m: u64 = (0i64 - (n as i64)) as u64;
        let r = decimal_chars_u64(m);
        let mut s = String::from_str("-");
        let d = string_from_chars(r.as_slice());
        s.append(d.as_str());
        s
    } else {
        u32_to_string(n as u32)
    }
}

/// Parsing the decimal text of a number gives the number back.
pub proof fn lemma_parse_decimal(n: u32)
    ensures
        parse_u32(decimal(n as nat)) == Some(n),
{
    lemma_decimal_digits(n as nat);
    assert(sign_stripped(decimal(n as nat)) == decimal(n as nat));
}



/// A Unicode scalar value: at most `0x10FFFF` and not a surrogate.
pub open spec fn is_scalar_value(v: u32) -> bool {
    v <= 0x10ffff && !(0xd800 <= v && v <= 0xdfff)
}

/// Calls `char::from_u32`, which gives the character with code point `v` where `v` is
/// a Unicode scalar value, else `None` (as its documentation states).
#[verifier::external_body]
pub(crate) fn char_from_u32(v: u32) -> (r: Option<char>)
    ensures
        r is Some <==> is_scalar_value(v),
        r matches Some(c) ==> c == v as char && c as u32 == v,
{
    char::from_u32(v)
}

} // verus!
