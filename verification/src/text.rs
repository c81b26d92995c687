//! Character-level string utilities with their specifications.
//!
//! Strings are modelled by their `Seq<char>` view. Byte lengths follow UTF-8.

use vstd::prelude::*;
use vstd::string::*;
use vstd::utf8::*;

verus! {

// ---------------------------------------------------------------------------
// Specifications
// ---------------------------------------------------------------------------

/// `p` occurs in `s` starting at index `i`.
pub open spec fn occurs_at(s: Seq<char>, p: Seq<char>, i: int) -> bool {
    0 <= i && i + p.len() <= s.len() && s.subrange(i, i + p.len()) == p
}

/// `p` occurs somewhere in `s`.
pub open spec fn contains_seq(s: Seq<char>, p: Seq<char>) -> bool {
    exists|i: int| occurs_at(s, p, i)
}

/// `s` starts with `p`.
pub open spec fn starts_with(s: Seq<char>, p: Seq<char>) -> bool {
    p.len() <= s.len() && s.subrange(0, p.len() as int) == p
}

/// `s` ends with `p`.
pub open spec fn ends_with(s: Seq<char>, p: Seq<char>) -> bool {
    p.len() <= s.len() && s.subrange(s.len() - p.len(), s.len() as int) == p
}

/// Index of the first occurrence of `p` in `s` at or after `from`, if any.
pub open spec fn first_occurrence_from(s: Seq<char>, p: Seq<char>, from: int) -> Option<int>
    decreases s.len() + 1 - from,
{
    if from < 0 || from > s.len() || from + p.len() > s.len() {
        None
    } else if occurs_at(s, p, from) {
        Some(from)
    } else {
        first_occurrence_from(s, p, from + 1)
    }
}

/// Index of the first occurrence of `p` in `s`, if any.
pub open spec fn first_occurrence(s: Seq<char>, p: Seq<char>) -> Option<int> {
    first_occurrence_from(s, p, 0)
}

/// Every non-overlapping occurrence of the non-empty `p`, scanned from the
/// left, replaced by `r`.
pub open spec fn replace_all(s: Seq<char>, p: Seq<char>, r: Seq<char>) -> Seq<char>
    decreases s.len(),
{
    if p.len() == 0 || s.len() < p.len() {
        s
    } else if starts_with(s, p) {
        r + replace_all(s.subrange(p.len() as int, s.len() as int), p, r)
    } else {
        seq![s[0]] + replace_all(s.drop_first(), p, r)
    }
}

/// Unicode `White_Space` property (what `char::is_whitespace` tests).
pub open spec fn is_ws(c: char) -> bool {
    let u = c as u32;
    (0x9 <= u && u <= 0xD) || u == 0x20 || u == 0x85 || u == 0xA0 || u == 0x1680
        || (0x2000 <= u && u <= 0x200A) || u == 0x2028 || u == 0x2029 || u == 0x202F
        || u == 0x205F || u == 0x3000
}

/// `s` with leading whitespace removed.
pub open spec fn trim_start(s: Seq<char>) -> Seq<char>
    decreases s.len(),
{
    if s.len() > 0 && is_ws(s[0]) {
        trim_start(s.drop_first())
    } else {
        s
    }
}

/// `s` with trailing whitespace removed.
pub open spec fn trim_end(s: Seq<char>) -> Seq<char>
    decreases s.len(),
{
    if s.len() > 0 && is_ws(s.last()) {
        trim_end(s.drop_last())
    } else {
        s
    }
}

/// `s` with whitespace removed at both ends.
pub open spec fn trim(s: Seq<char>) -> Seq<char> {
    trim_end(trim_start(s))
}

/// `s` with every leading copy of `c` removed.
pub open spec fn trim_start_char(s: Seq<char>, c: char) -> Seq<char>
    decreases s.len(),
{
    if s.len() > 0 && s[0] == c {
        trim_start_char(s.drop_first(), c)
    } else {
        s
    }
}

/// `s` with every trailing copy of `c` removed.
pub open spec fn trim_end_char(s: Seq<char>, c: char) -> Seq<char>
    decreases s.len(),
{
    if s.len() > 0 && s.last() == c {
        trim_end_char(s.drop_last(), c)
    } else {
        s
    }
}

/// ASCII lowercase of one character.
pub open spec fn ascii_lower(c: char) -> char {
    if 'A' <= c && c <= 'Z' {
        ((c as u32) + 32) as char
    } else {
        c
    }
}

/// Every character of `s` is ASCII.
pub open spec fn all_ascii(s: Seq<char>) -> bool {
    forall|i: int| 0 <= i < s.len() ==> (s[i] as u32) < 128
}

/// What `str::to_lowercase` returns for a string; Unicode case mapping.
pub uninterp spec fn lowercase_of(s: Seq<char>) -> Seq<char>;

/// Decimal digit character of `d < 10`.
pub open spec fn digit_char(d: nat) -> char {
    ((d + 48) as u32) as char
}

/// Decimal representation of a natural number, without sign or padding.
pub open spec fn decimal(n: nat) -> Seq<char>
    decreases n,
{
    if n < 10 {
        seq![digit_char(n)]
    } else {
        decimal(n / 10).push(digit_char(n % 10))
    }
}

/// Decimal representation of an integer, with a leading `-` when negative.
pub open spec fn signed_decimal(i: int) -> Seq<char> {
    if i < 0 {
        seq!['-'] + decimal((-i) as nat)
    } else {
        decimal(i as nat)
    }
}

/// Number of bytes of the UTF-8 encoding of `c`.
pub open spec fn char_utf8_len(c: char) -> nat {
    let u = c as u32;
    if u <= 0x7F {
        1
    } else if u <= 0x7FF {
        2
    } else if u <= 0xFFFF {
        3
    } else {
        4
    }
}

/// Number of bytes of the UTF-8 encoding of `s` (what `str::len` returns).
pub open spec fn utf8_len(s: Seq<char>) -> nat
    decreases s.len(),
{
    if s.len() == 0 {
        0
    } else {
        char_utf8_len(s[0]) + utf8_len(s.drop_first())
    }
}

/// The longest prefix of `s` whose UTF-8 encoding fits in `n` bytes.
pub open spec fn byte_prefix(s: Seq<char>, n: int) -> Seq<char>
    decreases s.len(),
{
    if s.len() == 0 || n < char_utf8_len(s[0]) {
        Seq::empty()
    } else {
        seq![s[0]] + byte_prefix(s.drop_first(), n - char_utf8_len(s[0]))
    }
}

/// Byte offset `n` falls on a character boundary of `s`.
pub open spec fn is_byte_boundary(s: Seq<char>, n: int) -> bool {
    0 <= n && utf8_len(byte_prefix(s, n)) == n
}

/// What `&s[..min(len, n)]` yields: the whole string when it is at most `n`
/// bytes long, else its first `n` bytes.
pub open spec fn truncate_bytes(s: Seq<char>, n: nat) -> Seq<char> {
    if utf8_len(s) <= n {
        s
    } else {
        byte_prefix(s, n as int)
    }
}

/// `&s[..min(len, n)]` does not panic: the cut falls on a character boundary.
pub open spec fn can_truncate_bytes(s: Seq<char>, n: nat) -> bool {
    utf8_len(s) <= n || is_byte_boundary(s, n as int)
}

/// Concatenation of `parts` with `sep` between neighbours (`[T]::join`).
pub open spec fn join(parts: Seq<Seq<char>>, sep: Seq<char>) -> Seq<char>
    decreases parts.len(),
{
    if parts.len() == 0 {
        Seq::empty()
    } else if parts.len() == 1 {
        parts[0]
    } else {
        join(parts.drop_last(), sep) + sep + parts.last()
    }
}

/// Views of a sequence of strings.
pub open spec fn views(v: Seq<String>) -> Seq<Seq<char>> {
    v.map_values(|s: String| s@)
}

/// A line without the `\r` that ended it before a `\n`.
pub open spec fn strip_cr(line: Seq<char>) -> Seq<char> {
    if line.len() > 0 && line.last() == '\r' {
        line.drop_last()
    } else {
        line
    }
}

/// Lines found so far and the line being read.
pub struct LineSplit {
    pub done: Seq<Seq<char>>,
    pub cur: Seq<char>,
}

/// The line splitter after the first `n` characters of `s`.
pub open spec fn lines_prefix(s: Seq<char>, n: int) -> LineSplit
    decreases n,
{
    if n <= 0 {
        LineSplit { done: Seq::empty(), cur: Seq::empty() }
    } else {
        let st = lines_prefix(s, n - 1);
        if s[n - 1] == '\n' {
            LineSplit { done: st.done.push(strip_cr(st.cur)), cur: Seq::empty() }
        } else {
            LineSplit { done: st.done, cur: st.cur.push(s[n - 1]) }
        }
    }
}

/// The lines of `s`, as `str::lines` yields them: split at `\n`, a `\r`
/// right before a `\n` dropped, and no empty line after a final `\n`.
pub open spec fn lines(s: Seq<char>) -> Seq<Seq<char>> {
    let st = lines_prefix(s, s.len() as int);
    if st.cur.len() > 0 {
        st.done.push(st.cur)
    } else {
        st.done
    }
}

// ---------------------------------------------------------------------------
// Lemmas
// ---------------------------------------------------------------------------

proof fn lemma_first_occurrence_from(s: Seq<char>, p: Seq<char>, from: int)
    requires
        0 <= from,
    ensures
        match first_occurrence_from(s, p, from) {
            Some(i) => from <= i && occurs_at(s, p, i) && forall|j: int|
                from <= j < i ==> !occurs_at(s, p, j),
            None => forall|j: int| from <= j ==> !occurs_at(s, p, j),
        },
    decreases s.len() + 1 - from,
{
    if from > s.len() || from + p.len() > s.len() {
    } else if occurs_at(s, p, from) {
    } else {
        lemma_first_occurrence_from(s, p, from + 1);
    }
}

/// The first occurrence is an occurrence and none lies before it.
pub proof fn lemma_first_occurrence(s: Seq<char>, p: Seq<char>)
    ensures
        match first_occurrence(s, p) {
            Some(i) => occurs_at(s, p, i) && forall|j: int| 0 <= j < i ==> !occurs_at(s, p, j),
            None => !contains_seq(s, p),
        },
{
    lemma_first_occurrence_from(s, p, 0);
}

// ---------------------------------------------------------------------------
// Executable helpers
// ---------------------------------------------------------------------------

/// Appends one character to a `String` (`String::push`).
#[verifier::external_body]
pub fn push_char(s: &mut String, c: char)
    ensures
        final(s)@ == old(s)@.push(c),
{
    s.push(c)
}

/// The characters of `s`.
pub fn chars_of(s: &str) -> (v: Vec<char>)
    ensures
        v@ == s@,
{
    let n = s.unicode_len();
    let mut v: Vec<char> = Vec::new();
    let mut i: usize = 0;
    while i < n
        invariant
            n == s@.len(),
            i <= n,
            v@ == s@.subrange(0, i as int),
        decreases n - i,
    {
        v.push(s.get_char(i));
        i = i + 1;
    }
    v
}

/// A `String` holding exactly the characters of `v`.
pub fn string_of(v: &[char]) -> (s: String)
    ensures
        s@ == v@,
{
    let mut s = String::new();
    let mut i: usize = 0;
    while i < v.len()
        invariant
            i <= v.len(),
            s@ == v@.subrange(0, i as int),
        decreases v.len() - i,
    {
        push_char(&mut s, v[i]);
        i = i + 1;
    }
    s
}

/// A `String` holding the characters of `s`.
pub fn owned(s: &str) -> (r: String)
    ensures
        r@ == s@,
{
    String::from_str(s)
}

/// Appends the characters of a slice.
pub fn push_chars(s: &mut String, v: &[char])
    ensures
        final(s)@ == old(s)@ + v@,
{
    let mut i: usize = 0;
    while i < v.len()
        invariant
            i <= v.len(),
            s@ == old(s)@ + v@.subrange(0, i as int),
        decreases v.len() - i,
    {
        push_char(s, v[i]);
        i = i + 1;
    }
    assert(v@.subrange(0, v.len() as int) =~= v@);
}

/// `p` occurs in `s` at index `i`.
pub fn match_at(s: &[char], p: &[char], i: usize) -> (b: bool)
    ensures
        b == occurs_at(s@, p@, i as int),
{
    if i > s.len() || p.len() > s.len() - i {
        return false;
    }
    let mut k: usize = 0;
    while k < p.len()
        invariant
            i + p.len() <= s.len(),
            k <= p.len(),
            forall|j: int| 0 <= j < k ==> s@[i + j] == p@[j],
        decreases p.len() - k,
    {
        if s[i + k] != p[k] {
            assert(s@.subrange(i as int, i + p.len())[k as int] != p@[k as int]);
            return false;
        }
        k = k + 1;
    }
    assert(s@.subrange(i as int, i + p.len()) =~= p@);
    true
}

/// First index at or after `from` where `p` occurs in `s`.
pub fn find_from(s: &[char], p: &[char], from: usize) -> (r: Option<usize>)
    ensures
        match r {
            Some(i) => first_occurrence_from(s@, p@, from as int) == Some(i as int),
            None => first_occurrence_from(s@, p@, from as int) is None,
        },
{
    if from > s.len() || p.len() > s.len() - from {
        return None;
    }
    let last = s.len() - p.len();
    let mut i = from;
    while i <= last
        invariant
            from <= i,
            last == s.len() - p.len(),
            i <= last + 1,
            first_occurrence_from(s@, p@, from as int) == first_occurrence_from(s@, p@, i as int),
        decreases last + 1 - i,
    {
        if match_at(s, p, i) {
            assert(first_occurrence_from(s@, p@, i as int) == Some(i as int));
            return Some(i);
        }
        assert(first_occurrence_from(s@, p@, i as int) == first_occurrence_from(
            s@,
            p@,
            i + 1,
        ));
        if i == last {
            assert(first_occurrence_from(s@, p@, i + 1) is None);
            return None;
        }
        i = i + 1;
    }
    None
}

/// First index where `p` occurs in `s`.
pub fn find(s: &[char], p: &[char]) -> (r: Option<usize>)
    ensures
        match r {
            Some(i) => first_occurrence(s@, p@) == Some(i as int),
            None => first_occurrence(s@, p@) is None,
        },
{
    find_from(s, p, 0)
}

/// `p` occurs in `s`.
pub fn contains_chars(s: &[char], p: &[char]) -> (b: bool)
    ensures
        b == contains_seq(s@, p@),
{
    proof {
        lemma_first_occurrence(s@, p@);
    }
    match find(s, p) {
        Some(_) => true,
        None => false,
    }
}

/// `p` occurs in `s` (`str::contains` with a string pattern).
pub fn str_contains(s: &str, p: &str) -> (b: bool)
    ensures
        b == contains_seq(s@, p@),
{
    let sv = chars_of(s);
    let pv = chars_of(p);
    contains_chars(sv.as_slice(), pv.as_slice())
}

/// `s` starts with `p` (`str::starts_with`).
pub fn str_starts_with(s: &str, p: &str) -> (b: bool)
    ensures
        b == starts_with(s@, p@),
{
    let sv = chars_of(s);
    let pv = chars_of(p);
    let b = match_at(sv.as_slice(), pv.as_slice(), 0);
    proof {
        if starts_with(s@, p@) {
            assert(occurs_at(s@, p@, 0));
        }
    }
    b
}

/// `s` ends with `p` (`str::ends_with`).
pub fn str_ends_with(s: &str, p: &str) -> (b: bool)
    ensures
        b == ends_with(s@, p@),
{
    let sv = chars_of(s);
    let pv = chars_of(p);
    if pv.len() > sv.len() {
        return false;
    }
    match_at(sv.as_slice(), pv.as_slice(), sv.len() - pv.len())
}

/// Characters equal, as `==` on `&str`.
pub fn str_eq(a: &str, b: &str) -> (r: bool)
    ensures
        r == (a@ == b@),
{
    let av = chars_of(a);
    let bv = chars_of(b);
    if av.len() != bv.len() {
        return false;
    }
    let r = match_at(av.as_slice(), bv.as_slice(), 0);
    proof {
        assert(av@.subrange(0, bv@.len() as int) =~= av@);
    }
    r
}

/// `c` is whitespace (`char::is_whitespace`).
pub fn is_whitespace(c: char) -> (b: bool)
    ensures
        b == is_ws(c),
{
    let u = c as u32;
    (0x9 <= u && u <= 0xD) || u == 0x20 || u == 0x85 || u == 0xA0 || u == 0x1680 || (0x2000
        <= u && u <= 0x200A) || u == 0x2028 || u == 0x2029 || u == 0x202F || u == 0x205F || u
        == 0x3000
}

proof fn lemma_trim_start_skip(s: Seq<char>, i: int)
    requires
        0 <= i <= s.len(),
        forall|j: int| 0 <= j < i ==> is_ws(s[j]),
    ensures
        trim_start(s) == trim_start(s.subrange(i, s.len() as int)),
    decreases i,
{
    if i > 0 {
        assert(s.drop_first().subrange(i - 1, s.drop_first().len() as int) =~= s.subrange(
            i,
            s.len() as int,
        ));
        lemma_trim_start_skip(s.drop_first(), i - 1);
    } else {
        assert(s.subrange(0, s.len() as int) =~= s);
    }
}

proof fn lemma_trim_end_cut(s: Seq<char>, e: int)
    requires
        0 <= e <= s.len(),
        forall|j: int| e <= j < s.len() ==> is_ws(s[j]),
    ensures
        trim_end(s) == trim_end(s.subrange(0, e)),
    decreases s.len() - e,
{
    if e < s.len() {
        assert(s.drop_last().subrange(0, e) =~= s.subrange(0, e));
        lemma_trim_end_cut(s.drop_last(), e);
    } else {
        assert(s.subrange(0, e) =~= s);
    }
}

/// Whitespace removed at both ends, on a character slice.
pub fn trim_chars(v: &[char]) -> (r: Vec<char>)
    ensures
        r@ == trim(v@),
{
    let mut i: usize = 0;
    while i < v.len() && is_whitespace(v[i])
        invariant
            i <= v.len(),
            forall|j: int| 0 <= j < i ==> is_ws(v@[j]),
        decreases v.len() - i,
    {
        i = i + 1;
    }
    proof {
        lemma_trim_start_skip(v@, i as int);
        let t = v@.subrange(i as int, v@.len() as int);
        if t.len() > 0 {
            assert(t[0] == v@[i as int]);
        }
        assert(trim_start(t) == t);
    }
    let mut e: usize = v.len();
    while e > i && is_whitespace(v[e - 1])
        invariant
            i <= e <= v.len(),
            forall|j: int| e <= j < v.len() ==> is_ws(v@[j]),
        decreases e,
    {
        e = e - 1;
    }
    let ghost t = v@.subrange(i as int, v@.len() as int);
    proof {
        assert forall|j: int| (e - i) <= j < t.len() implies is_ws(t[j]) by {
            assert(t[j] == v@[i + j]);
        }
        lemma_trim_end_cut(t, e - i);
        let u = t.subrange(0, e - i);
        if u.len() > 0 {
            assert(u.last() == v@[e - 1]);
        }
        assert(trim_end(u) == u);
    }
    let mut r: Vec<char> = Vec::new();
    let mut k: usize = i;
    while k < e
        invariant
            i <= k <= e <= v.len(),
            r@ == v@.subrange(i as int, k as int),
        decreases e - k,
    {
        r.push(v[k]);
        k = k + 1;
    }
    proof {
        assert(r@ =~= t.subrange(0, e - i));
    }
    r
}

/// `str::trim`, as a new `String`.
pub fn trim_str(s: &str) -> (r: String)
    ensures
        r@ == trim(s@),
{
    let v = chars_of(s);
    let t = trim_chars(v.as_slice());
    string_of(t.as_slice())
}

/// `str::to_lowercase`.
#[verifier::external_body]
pub fn to_lowercase(s: &str) -> (r: String)
    ensures
        r@ == lowercase_of(s@),
        all_ascii(s@) ==> r@ == s@.map_values(|c: char| ascii_lower(c)),
{
    s.to_lowercase()
}

/// Decimal text of an unsigned integer (`u64`'s `Display`).
pub fn u64_to_decimal(n: u64) -> (r: String)
    ensures
        r@ == decimal(n as nat),
    decreases n,
{
    if n < 10 {
        let mut s = String::new();
        let c = char_from_digit((n % 10) as u32);
        push_char(&mut s, c);
        s
    } else {
        let mut s = u64_to_decimal(n / 10);
        let c = char_from_digit((n % 10) as u32);
        push_char(&mut s, c);
        s
    }
}

fn char_from_digit(d: u32) -> (c: char)
    requires
        d < 10,
    ensures
        c == digit_char(d as nat),
{
    if d == 0 {
        '0'
    } else if d == 1 {
        '1'
    } else if d == 2 {
        '2'
    } else if d == 3 {
        '3'
    } else if d == 4 {
        '4'
    } else if d == 5 {
        '5'
    } else if d == 6 {
        '6'
    } else if d == 7 {
        '7'
    } else if d == 8 {
        '8'
    } else {
        '9'
    }
}

/// Decimal text of a signed integer (`i64`'s `Display`).
pub fn i64_to_decimal(n: i64) -> (r: String)
    ensures
        r@ == signed_decimal(n as int),
{
    if n < 0 {
        let m: u64 = if n == i64::MIN {
            9223372036854775808u64
        } else {
            (-n) as u64
        };
        let mut s = String::new();
        push_char(&mut s, '-');
        let d = u64_to_decimal(m);
        s.append(d.as_str());
        s
    } else {
        u64_to_decimal(n as u64)
    }
}

/// Appends the characters of `t`.
pub fn push_str(s: &mut String, t: &str)
    ensures
        final(s)@ == old(s)@ + t@,
{
    s.append(t);
}


// ---------------------------------------------------------------------------
// UTF-8 byte lengths and byte-offset truncation
// ---------------------------------------------------------------------------

proof fn lemma_encode_scalar_len(c: char)
    ensures
        encode_scalar(c as u32).len() == char_utf8_len(c),
{
    broadcast use char_is_scalar;

}

/// The UTF-8 encoding of `s` is `utf8_len(s)` bytes long.
pub proof fn lemma_encode_utf8_len(s: Seq<char>)
    ensures
        encode_utf8(s).len() == utf8_len(s),
    decreases s.len(),
{
    if s.len() > 0 {
        lemma_encode_scalar_len(s[0]);
        lemma_encode_utf8_len(s.drop_first());
    }
}

/// Byte length of `s` (`str::len`).
pub fn byte_len(s: &str) -> (n: usize)
    ensures
        n == utf8_len(s@),
{
    proof {
        lemma_encode_utf8_len(s@);
    }
    let b = s.as_bytes();
    b.len()
}

proof fn lemma_byte_prefix_len(s: Seq<char>, n: int)
    ensures
        utf8_len(byte_prefix(s, n)) <= (if n < 0 {
            0
        } else {
            n
        }),
        byte_prefix(s, n).len() <= s.len(),
        byte_prefix(s, n) == s.subrange(0, byte_prefix(s, n).len() as int),
    decreases s.len(),
{
    if s.len() == 0 || n < char_utf8_len(s[0]) {
    } else {
        lemma_byte_prefix_len(s.drop_first(), n - char_utf8_len(s[0]));
        let r = byte_prefix(s.drop_first(), n - char_utf8_len(s[0]));
        assert((seq![s[0]] + r).drop_first() =~= r);
        assert(seq![s[0]] + r =~= s.subrange(0, r.len() as int + 1));
    }
}

proof fn lemma_byte_prefix_step(s: Seq<char>, k: int, n: int)
    requires
        0 <= k < s.len(),
        utf8_len(s.subrange(0, k)) + char_utf8_len(s[k]) <= n,
        byte_prefix(s, n).len() >= k,
    ensures
        byte_prefix(s, n).len() >= k + 1,
    decreases k,
{
    lemma_byte_prefix_len(s, n);
    if k == 0 {
        assert(s.subrange(0, 0).len() == 0);
        assert(utf8_len(s.subrange(0, 0)) == 0);
    } else {
        let t = s.drop_first();
        assert(s.subrange(0, k).drop_first() =~= t.subrange(0, k - 1));
        assert(s.subrange(0, k)[0] == s[0]);
        assert(utf8_len(s.subrange(0, k)) == char_utf8_len(s[0]) + utf8_len(t.subrange(0, k - 1)));
        assert(t[k - 1] == s[k]);
        assert(byte_prefix(s, n).len() > 0);
        assert(!(n < char_utf8_len(s[0])));
        assert(byte_prefix(s, n) == seq![s[0]] + byte_prefix(t, n - char_utf8_len(s[0])));
        lemma_byte_prefix_step(t, k - 1, n - char_utf8_len(s[0]));
    }
}

proof fn lemma_utf8_len_push(s: Seq<char>, c: char)
    ensures
        utf8_len(s.push(c)) == utf8_len(s) + char_utf8_len(c),
    decreases s.len(),
{
    if s.len() > 0 {
        assert(s.push(c).drop_first() =~= s.drop_first().push(c));
        lemma_utf8_len_push(s.drop_first(), c);
    } else {
        assert(s.push(c).drop_first() =~= Seq::<char>::empty());
        assert(utf8_len(Seq::<char>::empty()) == 0);
    }
}

proof fn lemma_byte_prefix_stops(s: Seq<char>, k: int, n: int)
    requires
        0 <= k <= s.len(),
        k == s.len() || utf8_len(s.subrange(0, k)) + char_utf8_len(s[k]) > n,
        utf8_len(s.subrange(0, k)) <= n,
    ensures
        byte_prefix(s, n) == s.subrange(0, k),
    decreases k,
{
    if k == 0 {
        if s.len() > 0 {
            assert(s.subrange(0, 0) =~= Seq::<char>::empty());
        }
        assert(s.subrange(0, 0) =~= Seq::<char>::empty());
    } else {
        let t = s.drop_first();
        assert(s.subrange(0, k).drop_first() =~= t.subrange(0, k - 1));
        assert(s.subrange(0, k)[0] == s[0]);
        if k < s.len() {
            assert(t[k - 1] == s[k]);
        }
        lemma_byte_prefix_stops(t, k - 1, n - char_utf8_len(s[0]));
        assert(seq![s[0]] + t.subrange(0, k - 1) =~= s.subrange(0, k));
    }
}

/// The characters of `s` that fit in its first `n` bytes, and whether any
/// character was left out.
pub fn take_bytes(s: &str, n: usize) -> (r: (String, bool))
    requires
        n + 4 <= usize::MAX,
    ensures
        r.0@ == byte_prefix(s@, n as int),
        r.1 == (byte_prefix(s@, n as int).len() < s@.len()),
{
    let v = chars_of(s);
    let mut out: Vec<char> = Vec::new();
    let mut used: usize = 0;
    let mut k: usize = 0;
    while k < v.len()
        invariant
            v@ == s@,
            k <= v.len(),
            out@ == s@.subrange(0, k as int),
            used == utf8_len(s@.subrange(0, k as int)),
            used <= n,
            n + 4 <= usize::MAX,
            byte_prefix(s@, n as int).len() >= k,
        decreases v.len() - k,
    {
        let c = v[k];
        let u = c as u32;
        let w: usize = if u <= 0x7F {
            1
        } else if u <= 0x7FF {
            2
        } else if u <= 0xFFFF {
            3
        } else {
            4
        };
        assert(w == char_utf8_len(c));
        if used + w > n {
            proof {
                lemma_byte_prefix_stops(s@, k as int, n as int);
            }
            let st = string_of(out.as_slice());
            return (st, true);
        }
        proof {
            lemma_byte_prefix_step(s@, k as int, n as int);
            assert(s@.subrange(0, k + 1) =~= s@.subrange(0, k as int).push(c));
            lemma_utf8_len_push(s@.subrange(0, k as int), c);
        }
        out.push(c);
        used = used + w;
        k = k + 1;
    }
    proof {
        lemma_byte_prefix_stops(s@, k as int, n as int);
        assert(s@.subrange(0, k as int) =~= s@);
    }
    let st = string_of(out.as_slice());
    (st, false)
}

/// `&s[..min(s.len(), n)]` falls on a character boundary.
pub fn can_truncate(s: &str, n: usize) -> (b: bool)
    requires
        n + 4 <= usize::MAX,
    ensures
        b == can_truncate_bytes(s@, n as nat),
{
    let (p, cut) = take_bytes(s, n);
    proof {
        lemma_byte_prefix_len(s@, n as int);
        if !cut {
            assert(byte_prefix(s@, n as int) =~= s@);
        }
    }
    if !cut {
        return true;
    }
    let pv = chars_of(p.as_str());
    let mut used: usize = 0;
    let mut k: usize = 0;
    while k < pv.len()
        invariant
            k <= pv.len(),
            used == utf8_len(pv@.subrange(0, k as int)),
            pv@ == byte_prefix(s@, n as int),
            utf8_len(pv@) <= n,
            n + 4 <= usize::MAX,
        decreases pv.len() - k,
    {
        proof {
            assert(pv@.subrange(0, k + 1) =~= pv@.subrange(0, k as int).push(pv@[k as int]));
            lemma_utf8_len_push(pv@.subrange(0, k as int), pv@[k as int]);
            lemma_utf8_len_prefix_le(pv@, k + 1);
        }
        let c = pv[k];
        let u = c as u32;
        let w: usize = if u <= 0x7F {
            1
        } else if u <= 0x7FF {
            2
        } else if u <= 0xFFFF {
            3
        } else {
            4
        };
        used = used + w;
        k = k + 1;
    }
    assert(pv@.subrange(0, k as int) =~= pv@);
    proof {
        // the whole string is longer than n bytes when something was cut
        lemma_utf8_len_prefix_le(s@, s@.len() as int);
        lemma_byte_prefix_longer(s@, n as int);
    }
    used == n
}

/// A prefix is never longer in bytes than the whole.
pub proof fn lemma_utf8_len_prefix_le(s: Seq<char>, k: int)
    requires
        0 <= k <= s.len(),
    ensures
        utf8_len(s.subrange(0, k)) <= utf8_len(s),
    decreases s.len() - k,
{
    if k < s.len() {
        lemma_utf8_len_prefix_le(s, k + 1);
        assert(s.subrange(0, k + 1) =~= s.subrange(0, k).push(s[k]));
        lemma_utf8_len_push(s.subrange(0, k), s[k]);
    } else {
        assert(s.subrange(0, k) =~= s);
    }
}

proof fn lemma_byte_prefix_longer(s: Seq<char>, n: int)
    requires
        byte_prefix(s, n).len() < s.len(),
    ensures
        utf8_len(s) > n,
    decreases s.len(),
{
    if s.len() == 0 || n < char_utf8_len(s[0]) {
        assert(utf8_len(s) >= char_utf8_len(s[0]));
    } else {
        lemma_byte_prefix_longer(s.drop_first(), n - char_utf8_len(s[0]));
    }
}

/// `&s[..min(s.len(), n)]` as a new `String`.
pub fn truncate_str(s: &str, n: usize) -> (r: String)
    requires
        n + 4 <= usize::MAX,
        can_truncate_bytes(s@, n as nat),
    ensures
        r@ == truncate_bytes(s@, n as nat),
{
    let (p, cut) = take_bytes(s, n);
    proof {
        lemma_byte_prefix_len(s@, n as int);
        if !cut {
            assert(byte_prefix(s@, n as int) =~= s@);
        }
        if cut {
            lemma_byte_prefix_longer(s@, n as int);
        } else {
            if utf8_len(s@) > n {
                assert(utf8_len(byte_prefix(s@, n as int)) <= n);
            }
        }
    }
    p
}

/// `s` is longer than `n` bytes.
pub fn longer_than_bytes(s: &str, n: usize) -> (b: bool)
    requires
        n + 4 <= usize::MAX,
    ensures
        b == (utf8_len(s@) > n),
{
    let (_p, cut) = take_bytes(s, n);
    proof {
        lemma_byte_prefix_len(s@, n as int);
        if cut {
            lemma_byte_prefix_longer(s@, n as int);
        } else {
            assert(byte_prefix(s@, n as int) =~= s@);
        }
    }
    cut
}


// ---------------------------------------------------------------------------
// Lines and replacement
// ---------------------------------------------------------------------------

/// The lines of `s` (`str::lines`).
pub fn lines_of(s: &str) -> (r: Vec<String>)
    ensures
        views(r@) == lines(s@),
{
    let v = chars_of(s);
    let mut done: Vec<String> = Vec::new();
    let mut cur: Vec<char> = Vec::new();
    let mut i: usize = 0;
    while i < v.len()
        invariant
            v@ == s@,
            i <= v.len(),
            views(done@) == lines_prefix(s@, i as int).done,
            cur@ == lines_prefix(s@, i as int).cur,
        decreases v.len() - i,
    {
        if v[i] == '\n' {
            if cur.len() > 0 && cur[cur.len() - 1] == '\r' {
                cur.pop();
            }
            let line = string_of(cur.as_slice());
            let ghost before = done@;
            done.push(line);
            assert(views(done@) =~= views(before).push(line@));
            cur = Vec::new();
        } else {
            cur.push(v[i]);
        }
        i = i + 1;
    }
    if cur.len() > 0 {
        let line = string_of(cur.as_slice());
        let ghost before = done@;
        done.push(line);
        assert(views(done@) =~= views(before).push(line@));
    }
    done
}

proof fn lemma_occurs_suffix(s: Seq<char>, p: Seq<char>, i: int)
    requires
        0 <= i <= s.len(),
    ensures
        starts_with(s.subrange(i, s.len() as int), p) == occurs_at(s, p, i),
{
    let t = s.subrange(i, s.len() as int);
    if p.len() <= t.len() {
        assert(t.subrange(0, p.len() as int) =~= s.subrange(i, i + p.len()));
    }
}

/// Every non-overlapping occurrence of the non-empty `p` replaced by `r`
/// (`str::replace`).
pub fn replace_str(s: &str, p: &str, r: &str) -> (out: String)
    requires
        p@.len() > 0,
    ensures
        out@ == replace_all(s@, p@, r@),
{
    let sv = chars_of(s);
    let pv = chars_of(p);
    let mut out = String::new();
    let mut i: usize = 0;
    assert(s@.subrange(0, s@.len() as int) =~= s@);
    assert(out@ + replace_all(s@, p@, r@) =~= replace_all(s@, p@, r@));
    while i < sv.len()
        invariant
            sv@ == s@,
            pv@ == p@,
            p@.len() > 0,
            i <= sv.len(),
            out@ + replace_all(s@.subrange(i as int, s@.len() as int), p@, r@) == replace_all(
                s@,
                p@,
                r@,
            ),
        decreases sv.len() - i,
    {
        let ghost t = s@.subrange(i as int, s@.len() as int);
        proof {
            lemma_occurs_suffix(s@, p@, i as int);
        }
        if match_at(sv.as_slice(), pv.as_slice(), i) {
            proof {
                assert(t.subrange(p@.len() as int, t.len() as int) =~= s@.subrange(
                    i + p@.len(),
                    s@.len() as int,
                ));
                assert(out@ + r@ + replace_all(
                    s@.subrange(i + p@.len(), s@.len() as int),
                    p@,
                    r@,
                ) == out@ + replace_all(t, p@, r@));
            }
            push_str(&mut out, r);
            i = i + pv.len();
        } else {
            proof {
                if t.len() >= p@.len() {
                    assert(t.drop_first() =~= s@.subrange(i + 1, s@.len() as int));
                    assert(t[0] == s@[i as int]);
                    assert(replace_all(t, p@, r@) == seq![s@[i as int]] + replace_all(
                        t.drop_first(),
                        p@,
                        r@,
                    ));
                    assert(out@.push(s@[i as int]) + replace_all(
                        t.drop_first(),
                        p@,
                        r@,
                    ) =~= out@ + replace_all(t, p@, r@));
                } else {
                    assert(replace_all(t, p@, r@) == t);
                    let u = s@.subrange(i + 1, s@.len() as int);
                    assert(u.len() < p@.len());
                    assert(replace_all(u, p@, r@) == u);
                    assert(t =~= seq![s@[i as int]] + u);
                    assert(out@.push(s@[i as int]) + u =~= out@ + t);
                }
            }
            push_char(&mut out, sv[i]);
            i = i + 1;
        }
    }
    proof {
        let e = s@.subrange(i as int, s@.len() as int);
        assert(e.len() == 0);
        assert(replace_all(e, p@, r@) == e);
        assert(out@ + e =~= out@);
    }
    out
}


// ---------------------------------------------------------------------------
// Cloning and searching
// ---------------------------------------------------------------------------

/// A copy of an optional string.
pub fn clone_opt(o: &Option<String>) -> (r: Option<String>)
    ensures
        r == *o,
{
    match o {
        Some(s) => Some(s.clone()),
        None => None,
    }
}

/// A copy of a list of strings.
pub fn clone_strings(v: &[String]) -> (r: Vec<String>)
    ensures
        r@ == v@,
{
    let mut r: Vec<String> = Vec::new();
    let mut i: usize = 0;
    while i < v.len()
        invariant
            i <= v.len(),
            r@ == v@.subrange(0, i as int),
        decreases v.len() - i,
    {
        r.push(v[i].clone());
        i = i + 1;
    }
    assert(v@.subrange(0, v.len() as int) =~= v@);
    r
}

/// Views of an optional string.
pub open spec fn opt_view(o: Option<String>) -> Option<Seq<char>> {
    match o {
        Some(s) => Some(s@),
        None => None,
    }
}

/// Index of the first element satisfying `p` in `s`, from `i` on.
pub open spec fn first_index<T>(s: Seq<T>, p: spec_fn(T) -> bool, i: int) -> Option<int>
    decreases s.len() - i,
{
    if i < 0 || i >= s.len() {
        None
    } else if p(s[i]) {
        Some(i)
    } else {
        first_index(s, p, i + 1)
    }
}

/// The first index is a hit and nothing before it, from `i` on, is one.
pub proof fn lemma_first_index<T>(s: Seq<T>, p: spec_fn(T) -> bool, i: int)
    requires
        0 <= i,
    ensures
        match first_index(s, p, i) {
            Some(k) => i <= k < s.len() && p(s[k]) && forall|j: int| i <= j < k ==> !p(s[j]),
            None => forall|j: int| i <= j < s.len() ==> !p(s[j]),
        },
    decreases s.len() - i,
{
    if i < s.len() && !p(s[i]) {
        lemma_first_index(s, p, i + 1);
    }
}


// ---------------------------------------------------------------------------
// Unsigned numbers
// ---------------------------------------------------------------------------

/// The digits of an unsigned number's text: after an optional `+`.
pub open spec fn unsigned_digits(s: Seq<char>) -> Seq<char> {
    if s.len() > 0 && s[0] == '+' {
        s.drop_first()
    } else {
        s
    }
}

/// The value that `str::parse` reads for an unsigned integer type with no
/// bound: an optional `+` and at least one ASCII digit, nothing else.
pub open spec fn unsigned_value(s: Seq<char>) -> Option<nat> {
    let d = unsigned_digits(s);
    if d.len() > 0 && forall|i: int| 0 <= i < d.len() ==> crate::cron::is_digit(#[trigger] d[i]) {
        Some(crate::cron::digits_value(d))
    } else {
        None
    }
}

/// The value that `str::parse` reads for an unsigned type whose largest
/// value is `max`.
pub open spec fn parse_unsigned(s: Seq<char>, max: nat) -> Option<nat> {
    match unsigned_value(s) {
        Some(v) => if v <= max {
            Some(v)
        } else {
            None
        },
        None => None,
    }
}

/// Reads an unsigned number of at most `max` as `str::parse` does.
pub fn parse_uint(s: &str, max: u64) -> (r: Option<u64>)
    ensures
        match parse_unsigned(s@, max as nat) {
            Some(v) => r == Some(v as u64),
            None => r is None,
        },
{
    let v = chars_of(s);
    let start: usize = if v.len() > 0 && v[0] == '+' {
        1
    } else {
        0
    };
    let ghost d = unsigned_digits(s@);
    proof {
        assert(d =~= v@.subrange(start as int, v@.len() as int));
    }
    if start >= v.len() {
        return None;
    }
    let mut k: usize = start;
    while k < v.len()
        invariant
            start <= k <= v@.len(),
            v@ == s@,
            d == v@.subrange(start as int, v@.len() as int),
            d == unsigned_digits(s@),
            forall|i: int| start <= i < k ==> crate::cron::is_digit(v@[i]),
        decreases v.len() - k,
    {
        if !('0' <= v[k] && v[k] <= '9') {
            assert(!crate::cron::is_digit(d[k - start]));
            assert(unsigned_value(s@) is None);
            return None;
        }
        k = k + 1;
    }
    assert forall|i: int| 0 <= i < d.len() implies crate::cron::is_digit(#[trigger] d[i]) by {
        assert(d[i] == v@[start + i]);
    }
    let mut value: u64 = 0;
    let mut j: usize = start;
    while j < v.len()
        invariant
            start <= j <= v@.len(),
            v@ == s@,
            d == v@.subrange(start as int, v@.len() as int),
            d == unsigned_digits(s@),
            d.len() > 0,
            forall|i: int| 0 <= i < d.len() ==> crate::cron::is_digit(#[trigger] d[i]),
            value == crate::cron::digits_value(d.subrange(0, j - start)),
            value <= max,
        decreases v.len() - j,
    {
        proof {
            assert(d[j - start] == v@[j as int]);
            assert(crate::cron::is_digit(d[j - start]));
        }
        let dig = (v[j] as u32 - 48) as u64;
        proof {
            assert(d.subrange(0, j - start + 1).drop_last() =~= d.subrange(0, j - start));
            assert(d.subrange(0, j - start + 1).last() == v@[j as int]);
        }
        if dig > max || value > (max - dig) / 10 {
            proof {
                crate::cron::lemma_digits_value_mono(d, j - start + 1);
                if dig <= max {
                    assert(value * 10 + dig > max) by (nonlinear_arith)
                        requires
                            value > (max - dig) / 10,
                            dig <= max,
                    ;
                }
                assert(crate::cron::digits_value(d.subrange(0, j - start + 1)) == value * 10 + dig);
                assert(crate::cron::digits_value(d) > max);
            }
            return None;
        }
        value = value * 10 + dig;
        j = j + 1;
    }
    assert(d.subrange(0, d.len() as int) =~= d);
    Some(value)
}

// ---------------------------------------------------------------------------
// Splitting and stripping
// ---------------------------------------------------------------------------

/// The pieces found so far, and the piece being read, after the first `n`
/// characters of `s` split at `c`.
pub open spec fn split_prefix(s: Seq<char>, c: char, n: int) -> LineSplit
    decreases n,
{
    if n <= 0 {
        LineSplit { done: Seq::empty(), cur: Seq::empty() }
    } else {
        let st = split_prefix(s, c, n - 1);
        if s[n - 1] == c {
            LineSplit { done: st.done.push(st.cur), cur: Seq::empty() }
        } else {
            LineSplit { done: st.done, cur: st.cur.push(s[n - 1]) }
        }
    }
}

/// The pieces of `s` between the copies of `c` (`str::split` with a `char`).
pub open spec fn split_char(s: Seq<char>, c: char) -> Seq<Seq<char>> {
    let st = split_prefix(s, c, s.len() as int);
    st.done.push(st.cur)
}

/// `s` split at every `c`.
pub fn split_on(s: &str, c: char) -> (r: Vec<String>)
    ensures
        views(r@) == split_char(s@, c),
{
    let v = chars_of(s);
    let mut done: Vec<String> = Vec::new();
    let mut cur: Vec<char> = Vec::new();
    let mut i: usize = 0;
    while i < v.len()
        invariant
            v@ == s@,
            i <= v@.len(),
            views(done@) == split_prefix(s@, c, i as int).done,
            cur@ == split_prefix(s@, c, i as int).cur,
        decreases v.len() - i,
    {
        if v[i] == c {
            let ghost before = views(done@);
            done.push(string_of(cur.as_slice()));
            assert(views(done@) =~= before.push(cur@));
            cur = Vec::new();
        } else {
            cur.push(v[i]);
        }
        i = i + 1;
    }
    let ghost before = views(done@);
    done.push(string_of(cur.as_slice()));
    assert(views(done@) =~= before.push(cur@));
    done
}

/// `s` without its trailing copies of `c`.
pub fn strip_trailing(s: &str, c: char) -> (r: String)
    ensures
        r@ == trim_end_char(s@, c),
{
    let v = chars_of(s);
    let mut n: usize = v.len();
    assert(v@.subrange(0, v@.len() as int) =~= v@);
    while n > 0 && v[n - 1] == c
        invariant
            n <= v@.len(),
            v@ == s@,
            trim_end_char(s@, c) == trim_end_char(v@.subrange(0, n as int), c),
        decreases n,
    {
        proof {
            let t = v@.subrange(0, n as int);
            assert(t.drop_last() =~= v@.subrange(0, n - 1));
        }
        n = n - 1;
    }
    let mut out: Vec<char> = Vec::new();
    let mut i: usize = 0;
    while i < n
        invariant
            i <= n <= v@.len(),
            out@ == v@.subrange(0, i as int),
        decreases n - i,
    {
        out.push(v[i]);
        i = i + 1;
    }
    proof {
        let t = v@.subrange(0, n as int);
        if t.len() > 0 {
            assert(t.last() == v@[n - 1]);
        }
    }
    string_of(out.as_slice())
}

/// `s` with every leading copy of the non-empty `p` removed
/// (`str::trim_start_matches` with a string pattern).
pub open spec fn strip_prefix_all(s: Seq<char>, p: Seq<char>) -> Seq<char>
    decreases s.len(),
{
    if p.len() > 0 && starts_with(s, p) {
        strip_prefix_all(s.subrange(p.len() as int, s.len() as int), p)
    } else {
        s
    }
}

/// `s` with every leading copy of the non-empty `p` removed.
pub fn strip_prefixes(s: &str, p: &str) -> (r: String)
    requires
        p@.len() > 0,
    ensures
        r@ == strip_prefix_all(s@, p@),
{
    let v = chars_of(s);
    let pv = chars_of(p);
    let mut i: usize = 0;
    assert(v@.subrange(0, v@.len() as int) =~= v@);
    while i <= v.len() && match_at(v.as_slice(), pv.as_slice(), i)
        invariant
            i <= v@.len(),
            v@ == s@,
            pv@ == p@,
            p@.len() > 0,
            strip_prefix_all(s@, p@) == strip_prefix_all(v@.subrange(i as int, v@.len() as int), p@),
        decreases v@.len() - i,
    {
        proof {
            let t = v@.subrange(i as int, v@.len() as int);
            assert(t.subrange(0, p@.len() as int) =~= v@.subrange(i as int, i + p@.len()));
            assert(t.subrange(p@.len() as int, t.len() as int) =~= v@.subrange(i + p@.len(), v@.len() as int));
        }
        assert(occurs_at(v@, pv@, i as int));
        i = i + pv.len();
    }
    proof {
        let t = v@.subrange(i as int, v@.len() as int);
        if starts_with(t, p@) {
            assert(t.subrange(0, p@.len() as int) =~= v@.subrange(i as int, i + p@.len()));
        }
    }
    let mut out: Vec<char> = Vec::new();
    let mut j: usize = i;
    while j < v.len()
        invariant
            i <= j <= v@.len(),
            out@ == v@.subrange(i as int, j as int),
        decreases v.len() - j,
    {
        out.push(v[j]);
        j = j + 1;
    }
    string_of(out.as_slice())
}

} // verus!
