//! Character-sequence utilities used throughout the transpiler.
//!
//! Every routine here works on the character view of a string and is proved
//! against a small specification: replacement of a pattern, trimming of
//! white space, splitting into lines and words, joining, and decimal
//! rendering of integers.

use vstd::prelude::*;
use vstd::string::*;

verus! {

/// The Unicode `White_Space` property, which `char::is_whitespace` documents.
pub open spec fn is_ws(c: char) -> bool {
    let u = c as u32;
    ||| (9 <= u && u <= 13)
    ||| u == 32
    ||| u == 0x85
    ||| u == 0xA0
    ||| u == 0x1680
    ||| (0x2000 <= u && u <= 0x200A)
    ||| u == 0x2028
    ||| u == 0x2029
    ||| u == 0x202F
    ||| u == 0x205F
    ||| u == 0x3000
}

/// Drops the leading white space of `s`.
pub open spec fn trim_start(s: Seq<char>) -> Seq<char>
    decreases s.len(),
{
    if s.len() > 0 && is_ws(s[0]) {
        trim_start(s.drop_first())
    } else {
        s
    }
}

/// Drops the trailing white space of `s`.
pub open spec fn trim_end(s: Seq<char>) -> Seq<char>
    decreases s.len(),
{
    if s.len() > 0 && is_ws(s.last()) {
        trim_end(s.drop_last())
    } else {
        s
    }
}

/// `s` without leading and trailing white space (`str::trim`).
pub open spec fn trim(s: Seq<char>) -> Seq<char> {
    trim_end(trim_start(s))
}

/// Every occurrence of `pat` in `s`, scanned from the left without overlap,
/// replaced by `rep` (`str::replace` with a non-empty pattern).
pub open spec fn replace(s: Seq<char>, pat: Seq<char>, rep: Seq<char>) -> Seq<char>
    decreases s.len(),
{
    if pat.len() == 0 || s.len() < pat.len() {
        s
    } else if s.take(pat.len() as int) == pat {
        rep + replace(s.skip(pat.len() as int), pat, rep)
    } else {
        seq![s[0]] + replace(s.drop_first(), pat, rep)
    }
}

/// `pat` occurs in `s` at index `i`.
pub open spec fn occurs_at(s: Seq<char>, pat: Seq<char>, i: int) -> bool {
    0 <= i && i + pat.len() <= s.len() && s.subrange(i, i + pat.len()) == pat
}

/// `pat` occurs somewhere in `s` (`str::contains`).
pub open spec fn contains(s: Seq<char>, pat: Seq<char>) -> bool {
    exists|i: int| occurs_at(s, pat, i)
}

/// `s` begins with `pat`.
pub open spec fn starts_with(s: Seq<char>, pat: Seq<char>) -> bool {
    pat.len() <= s.len() && s.take(pat.len() as int) == pat
}

/// The pieces of `s` between its newline characters; a final newline ends
/// the last line rather than starting an empty one, and each line loses a
/// trailing carriage return (`str::lines`).
pub open spec fn lines(s: Seq<char>) -> Seq<Seq<char>> {
    line_pieces(s, Seq::empty(), Seq::empty())
}

/// Strips one trailing carriage return.
pub open spec fn strip_cr(l: Seq<char>) -> Seq<char> {
    if l.len() > 0 && l.last() == '\r' {
        l.drop_last()
    } else {
        l
    }
}

/// Splitting helper for `lines`: `done` holds the finished lines, `cur` the
/// current unfinished one.
pub open spec fn line_pieces(s: Seq<char>, done: Seq<Seq<char>>, cur: Seq<char>) -> Seq<Seq<char>>
    decreases s.len(),
{
    if s.len() == 0 {
        if cur.len() == 0 {
            done
        } else {
            done.push(strip_cr(cur))
        }
    } else if s[0] == '\n' {
        line_pieces(s.drop_first(), done.push(strip_cr(cur)), Seq::empty())
    } else {
        line_pieces(s.drop_first(), done, cur.push(s[0]))
    }
}

/// The maximal runs of non-white-space characters of `s`
/// (`str::split_whitespace`).
pub open spec fn words(s: Seq<char>) -> Seq<Seq<char>> {
    word_pieces(s, Seq::empty(), Seq::empty())
}

/// Splitting helper for `words`.
pub open spec fn word_pieces(s: Seq<char>, done: Seq<Seq<char>>, cur: Seq<char>) -> Seq<Seq<char>>
    decreases s.len(),
{
    if s.len() == 0 {
        if cur.len() == 0 {
            done
        } else {
            done.push(cur)
        }
    } else if is_ws(s[0]) {
        if cur.len() == 0 {
            word_pieces(s.drop_first(), done, cur)
        } else {
            word_pieces(s.drop_first(), done.push(cur), Seq::empty())
        }
    } else {
        word_pieces(s.drop_first(), done, cur.push(s[0]))
    }
}

/// The parts joined with `sep` between consecutive parts (`join`).
pub open spec fn join(parts: Seq<Seq<char>>, sep: Seq<char>) -> Seq<char>
    decreases parts.len(),
{
    if parts.len() == 0 {
        Seq::empty()
    } else if parts.len() == 1 {
        parts[0]
    } else {
        join(parts.drop_last(), sep) + sep + parts.last()
    }
}

/// The decimal digit for `d < 10`.
pub open spec fn digit_char(d: nat) -> char {
    if d == 0 { '0' }
    else if d == 1 { '1' }
    else if d == 2 { '2' }
    else if d == 3 { '3' }
    else if d == 4 { '4' }
    else if d == 5 { '5' }
    else if d == 6 { '6' }
    else if d == 7 { '7' }
    else if d == 8 { '8' }
    else { '9' }
}

/// The decimal representation of `n`, without leading zeros.
pub open spec fn decimal(n: nat) -> Seq<char>
    decreases n,
{
    if n < 10 {
        seq![digit_char(n)]
    } else {
        decimal(n / 10).push(digit_char(n % 10))
    }
}

/// A character below 128.
pub open spec fn is_ascii_char(c: char) -> bool {
    (c as u32) < 128
}

/// Every character of `s` is below 128.
pub open spec fn is_ascii_seq(s: Seq<char>) -> bool {
    forall|i: int| 0 <= i < s.len() ==> is_ascii_char(#[trigger] s[i])
}

/// ASCII lower-casing of one character.
pub open spec fn ascii_lower(c: char) -> char {
    if 'A' <= c && c <= 'Z' {
        ((c as u32) + 32) as char
    } else {
        c
    }
}

/// ASCII upper-casing of one character.
pub open spec fn ascii_upper(c: char) -> char {
    if 'a' <= c && c <= 'z' {
        ((c as u32) - 32) as char
    } else {
        c
    }
}

/// What `str::to_lowercase` returns for the characters `s`.
pub uninterp spec fn lowercase_of(s: Seq<char>) -> Seq<char>;

/// What `str::to_uppercase` returns for the characters `s`.
pub uninterp spec fn uppercase_of(s: Seq<char>) -> Seq<char>;

/// The lower-cased form of `s`: its ASCII lower-casing where `s` is ASCII,
/// as the documentation of `str::to_lowercase` fixes it there, and what
/// `str::to_lowercase` returns elsewhere.
pub open spec fn lower_text(s: Seq<char>) -> Seq<char> {
    if is_ascii_seq(s) {
        s.map_values(|c: char| ascii_lower(c))
    } else {
        lowercase_of(s)
    }
}

/// The upper-cased form of `s`: its ASCII upper-casing where `s` is ASCII,
/// as the documentation of `str::to_uppercase` fixes it there, and what
/// `str::to_uppercase` returns elsewhere.
pub open spec fn upper_text(s: Seq<char>) -> Seq<char> {
    if is_ascii_seq(s) {
        s.map_values(|c: char| ascii_upper(c))
    } else {
        uppercase_of(s)
    }
}

/// Wraps `String::push`: appends one character.
#[verifier::external_body]
pub(crate) fn push_char(s: &mut String, c: char)
    ensures
        final(s)@ == old(s)@.push(c),
{
    s.push(c);
}

/// Wraps `str::to_lowercase`.  Its result is named by `lowercase_of`; on an
/// ASCII input the documentation fixes it to ASCII lower-casing.
#[verifier::external_body]
pub(crate) fn to_lowercase(s: &str) -> (r: String)
    ensures
        r@ == lowercase_of(s@),
        is_ascii_seq(s@) ==> r@ == s@.map_values(|c: char| ascii_lower(c)),
{
    s.to_lowercase()
}

/// Wraps `str::to_uppercase`.  Its result is named by `uppercase_of`; on an
/// ASCII input the documentation fixes it to ASCII upper-casing.
#[verifier::external_body]
pub(crate) fn to_uppercase(s: &str) -> (r: String)
    ensures
        r@ == uppercase_of(s@),
        is_ascii_seq(s@) ==> r@ == s@.map_values(|c: char| ascii_upper(c)),
{
    s.to_uppercase()
}

/// A fresh string holding the characters of a literal or slice.
pub fn string_of_str(s: &str) -> (r: String)
    ensures
        r@ == s@,
{
    String::from_str(s)
}

/// The characters of `s`, in order.
pub fn chars_of(s: &str) -> (v: Vec<char>)
    ensures
        v@ == s@,
{
    let mut v: Vec<char> = Vec::new();
    for c in it: s.chars()
        invariant
            v@ == it.seq().take(it.index() as int),
            it.seq() == s@,
    {
        v.push(c);
    }
    v
}

/// A string made of the characters `v`.
pub fn string_of_chars(v: &Vec<char>) -> (s: String)
    ensures
        s@ == v@,
{
    let mut s = String::new();
    let mut i: usize = 0;
    while i < v.len()
        invariant
            i <= v.len(),
            s@ == v@.take(i as int),
        decreases v.len() - i,
    {
        push_char(&mut s, v[i]);
        assert(v@.take(i as int + 1) =~= v@.take(i as int).push(v@[i as int]));
        i = i + 1;
    }
    assert(v@.take(v.len() as int) =~= v@);
    s
}

/// Appends the characters `v` to `s`.
pub(crate) fn push_chars(s: &mut String, v: &Vec<char>)
    ensures
        final(s)@ == old(s)@ + v@,
{
    let ghost start = s@;
    let mut i: usize = 0;
    while i < v.len()
        invariant
            i <= v.len(),
            s@ == start + v@.take(i as int),
        decreases v.len() - i,
    {
        push_char(s, v[i]);
        assert(v@.take(i as int + 1) =~= v@.take(i as int).push(v@[i as int]));
        assert(start + v@.take(i as int + 1) =~= (start + v@.take(i as int)).push(v@[i as int]));
        i = i + 1;
    }
    assert(v@.take(v.len() as int) =~= v@);
}

/// Whether `c` has the Unicode `White_Space` property (`char::is_whitespace`).
pub fn is_whitespace(c: char) -> (b: bool)
    ensures
        b == is_ws(c),
{
    let u = c as u32;
    (9 <= u && u <= 13) || u == 32 || u == 0x85 || u == 0xA0 || u == 0x1680 || (0x2000 <= u
        && u <= 0x200A) || u == 0x2028 || u == 0x2029 || u == 0x202F || u == 0x205F || u
        == 0x3000
}

proof fn lemma_trim_start_skip(s: Seq<char>, i: int)
    requires
        0 <= i <= s.len(),
        forall|k: int| 0 <= k < i ==> is_ws(#[trigger] s[k]),
    ensures
        trim_start(s) == trim_start(s.skip(i)),
    decreases i,
{
    if i > 0 {
        assert(s.drop_first().skip(i - 1) =~= s.skip(i));
        lemma_trim_start_skip(s.drop_first(), i - 1);
    } else {
        assert(s.skip(0) =~= s);
    }
}

proof fn lemma_trim_end_take(s: Seq<char>, j: int)
    requires
        0 <= j <= s.len(),
        forall|k: int| j <= k < s.len() ==> is_ws(#[trigger] s[k]),
    ensures
        trim_end(s) == trim_end(s.take(j)),
    decreases s.len() - j,
{
    if j < s.len() {
        assert(s.drop_last().take(j) =~= s.take(j));
        lemma_trim_end_take(s.drop_last(), j);
    } else {
        assert(s.take(j) =~= s);
    }
}

/// The bounds `(a, b)` with `v[a..b]` the trimmed characters of `v`.
pub fn trim_bounds(v: &Vec<char>) -> (r: (usize, usize))
    ensures
        r.0 <= r.1 <= v.len(),
        v@.subrange(r.0 as int, r.1 as int) == trim(v@),
{
    let mut a: usize = 0;
    while a < v.len() && is_whitespace(v[a])
        invariant
            a <= v.len(),
            forall|k: int| 0 <= k < a ==> is_ws(#[trigger] v@[k]),
        decreases v.len() - a,
    {
        a = a + 1;
    }
    proof {
        lemma_trim_start_skip(v@, a as int);
    }
    let mut b: usize = v.len();
    while b > a && is_whitespace(v[b - 1])
        invariant
            a <= b <= v.len(),
            forall|k: int| b <= k < v.len() ==> is_ws(#[trigger] v@[k]),
        decreases b,
    {
        b = b - 1;
    }
    proof {
        let t = v@.skip(a as int);
        assert forall|k: int| b - a <= k < t.len() implies is_ws(#[trigger] t[k]) by {
            assert(t[k] == v@[k + a]);
        }
        lemma_trim_end_take(t, b - a);
        assert(t.take(b - a) =~= v@.subrange(a as int, b as int));
        if a == b {
        } else {
            assert(!is_ws(t[0]));
            assert(trim_start(t) == t);
        }
        if a < b {
            assert(trim_start(v@.skip(a as int)) == v@.skip(a as int));
        } else {
            assert(a == v.len() || !is_ws(v@[a as int]));
            if a < v.len() {
                assert(false);
            }
            assert(v@.skip(a as int) =~= Seq::<char>::empty());
        }
    }
    (a, b)
}

/// The characters of `v` without leading and trailing white space.
pub fn trim_chars(v: &Vec<char>) -> (r: Vec<char>)
    ensures
        r@ == trim(v@),
{
    let (a, b) = trim_bounds(v);
    let mut r: Vec<char> = Vec::new();
    let mut i: usize = a;
    while i < b
        invariant
            a <= i <= b <= v.len(),
            r@ == v@.subrange(a as int, i as int),
        decreases b - i,
    {
        r.push(v[i]);
        assert(v@.subrange(a as int, i as int + 1) =~= v@.subrange(a as int, i as int).push(
            v@[i as int],
        ));
        i = i + 1;
    }
    r
}

/// `s` without leading and trailing white space (`str::trim`), as a new string.
pub fn trim_str(s: &str) -> (r: String)
    ensures
        r@ == trim(s@),
{
    let v = chars_of(s);
    let t = trim_chars(&v);
    string_of_chars(&t)
}

/// Whether `s` holds nothing but white space (`s.trim().is_empty()`).
pub fn is_blank(s: &str) -> (b: bool)
    ensures
        b == (trim(s@).len() == 0),
{
    let v = chars_of(s);
    let (a, e) = trim_bounds(&v);
    a == e
}

/// Whether `pat` occurs in `v` at index `i`.
pub fn occurs_at_exec(v: &Vec<char>, pat: &Vec<char>, i: usize) -> (b: bool)
    ensures
        b == occurs_at(v@, pat@, i as int),
{
    if i > v.len() || pat.len() > v.len() - i {
        return false;
    }
    let mut k: usize = 0;
    while k < pat.len()
        invariant
            k <= pat.len(),
            i + pat.len() <= v.len(),
            forall|j: int| 0 <= j < k ==> v@[i + j] == pat@[j],
        decreases pat.len() - k,
    {
        if v[i + k] != pat[k] {
            assert(v@.subrange(i as int, i + pat.len())[k as int] != pat@[k as int]);
            return false;
        }
        k = k + 1;
    }
    assert(v@.subrange(i as int, i + pat.len()) =~= pat@);
    true
}

/// Whether `pat` occurs somewhere in `v` (`str::contains`).
pub fn contains_exec(v: &Vec<char>, pat: &Vec<char>) -> (b: bool)
    ensures
        b == contains(v@, pat@),
{
    let mut i: usize = 0;
    while i < v.len()
        invariant
            i <= v.len(),
            forall|j: int| 0 <= j < i ==> !occurs_at(v@, pat@, j),
        decreases v.len() - i,
    {
        if occurs_at_exec(v, pat, i) {
            return true;
        }
        i = i + 1;
    }
    if occurs_at_exec(v, pat, i) {
        return true;
    }
    assert forall|j: int| !occurs_at(v@, pat@, j) by {
        if 0 <= j <= i {
        } else {
        }
    }
    false
}

/// Whether `pat` occurs in the string `s`.
pub fn str_contains(s: &str, pat: &str) -> (b: bool)
    ensures
        b == contains(s@, pat@),
{
    let v = chars_of(s);
    let p = chars_of(pat);
    contains_exec(&v, &p)
}

/// Whether the two strings hold the same characters.
pub fn str_eq(a: &str, b: &str) -> (r: bool)
    ensures
        r == (a@ == b@),
{
    let va = chars_of(a);
    let vb = chars_of(b);
    if va.len() != vb.len() {
        assert(a@.len() != b@.len());
        return false;
    }
    let mut i: usize = 0;
    while i < va.len()
        invariant
            i <= va.len(),
            va.len() == vb.len(),
            va@ == a@,
            vb@ == b@,
            forall|j: int| 0 <= j < i ==> va@[j] == vb@[j],
        decreases va.len() - i,
    {
        if va[i] != vb[i] {
            assert(a@[i as int] != b@[i as int]);
            return false;
        }
        i = i + 1;
    }
    assert(va@ =~= vb@);
    true
}

proof fn lemma_replace_step(s: Seq<char>, pat: Seq<char>, rep: Seq<char>, i: int)
    requires
        0 <= i < s.len(),
        pat.len() > 0,
    ensures
        occurs_at(s, pat, i) ==> replace(s.skip(i), pat, rep) == rep + replace(
            s.skip(i + pat.len()),
            pat,
            rep,
        ),
        !occurs_at(s, pat, i) ==> replace(s.skip(i), pat, rep) == seq![s[i]] + replace(
            s.skip(i + 1),
            pat,
            rep,
        ),
{
    let t = s.skip(i);
    assert(t.drop_first() =~= s.skip(i + 1));
    if i + pat.len() <= s.len() {
        assert(t.skip(pat.len() as int) =~= s.skip(i + pat.len()));
        assert(t.take(pat.len() as int) =~= s.subrange(i, i + pat.len()));
    }
}

/// `s` with every occurrence of `pat` replaced by `rep` (`str::replace`).
pub fn replace_exec(s: &Vec<char>, pat: &Vec<char>, rep: &Vec<char>) -> (r: Vec<char>)
    requires
        pat.len() > 0,
    ensures
        r@ == replace(s@, pat@, rep@),
{
    let mut out: Vec<char> = Vec::new();
    let mut i: usize = 0;
    assert(s@.skip(0) =~= s@);
    while i < s.len()
        invariant
            i <= s.len(),
            pat.len() > 0,
            out@ + replace(s@.skip(i as int), pat@, rep@) == replace(s@, pat@, rep@),
        decreases s.len() - i,
    {
        proof {
            lemma_replace_step(s@, pat@, rep@, i as int);
        }
        if occurs_at_exec(s, pat, i) {
            let ghost before = out@;
            let mut k: usize = 0;
            while k < rep.len()
                invariant
                    k <= rep.len(),
                    out@ == before + rep@.take(k as int),
                decreases rep.len() - k,
            {
                out.push(rep[k]);
                assert(before + rep@.take(k as int + 1) =~= (before + rep@.take(k as int)).push(
                    rep@[k as int],
                ));
                k = k + 1;
            }
            assert(rep@.take(rep.len() as int) =~= rep@);
            assert(out@ + replace(s@.skip(i + pat.len()), pat@, rep@) =~= before + (rep@
                + replace(s@.skip(i + pat.len()), pat@, rep@)));
            i = i + pat.len();
        } else {
            let ghost before = out@;
            out.push(s[i]);
            assert(out@ + replace(s@.skip(i + 1), pat@, rep@) =~= before + (seq![s@[i as int]]
                + replace(s@.skip(i + 1), pat@, rep@)));
            i = i + 1;
        }
    }
    assert(s@.skip(i as int) =~= Seq::<char>::empty());
    assert(out@ + Seq::<char>::empty() =~= out@);
    out
}

/// A character that continues a word: an ASCII letter or digit, or `_`.
pub open spec fn is_word_char(c: char) -> bool {
    ('a' <= c && c <= 'z') || ('A' <= c && c <= 'Z') || ('0' <= c && c <= '9') || c == '_'
}

/// `s` begins with `pat`, and no word character follows it there.
pub open spec fn word_at_start(s: Seq<char>, pat: Seq<char>) -> bool {
    &&& pat.len() <= s.len()
    &&& s.take(pat.len() as int) == pat
    &&& (s.len() == pat.len() || !is_word_char(s[pat.len() as int]))
}

/// Every occurrence of `pat` in `s` that no word character follows,
/// scanned from the left without overlap, replaced by `rep`.
pub open spec fn replace_word(s: Seq<char>, pat: Seq<char>, rep: Seq<char>) -> Seq<char>
    decreases s.len(),
{
    if pat.len() == 0 || s.len() < pat.len() {
        s
    } else if word_at_start(s, pat) {
        rep + replace_word(s.skip(pat.len() as int), pat, rep)
    } else {
        seq![s[0]] + replace_word(s.drop_first(), pat, rep)
    }
}

/// Whether `c` continues a word.
fn is_word_char_exec(c: char) -> (b: bool)
    ensures
        b == is_word_char(c),
{
    ('a' <= c && c <= 'z') || ('A' <= c && c <= 'Z') || ('0' <= c && c <= '9') || c == '_'
}

proof fn lemma_replace_word_step(s: Seq<char>, pat: Seq<char>, rep: Seq<char>, i: int)
    requires
        0 <= i < s.len(),
        pat.len() > 0,
    ensures
        (occurs_at(s, pat, i) && (i + pat.len() == s.len() || !is_word_char(s[i + pat.len()])))
            ==> replace_word(s.skip(i), pat, rep) == rep + replace_word(s.skip(i + pat.len()), pat, rep),
        !(occurs_at(s, pat, i) && (i + pat.len() == s.len() || !is_word_char(s[i + pat.len()])))
            ==> replace_word(s.skip(i), pat, rep) == seq![s[i]] + replace_word(s.skip(i + 1), pat, rep),
{
    let t = s.skip(i);
    assert(t.drop_first() =~= s.skip(i + 1));
    if i + pat.len() <= s.len() {
        assert(t.skip(pat.len() as int) =~= s.skip(i + pat.len()));
        assert(t.take(pat.len() as int) =~= s.subrange(i, i + pat.len()));
        if i + pat.len() < s.len() {
            assert(t[pat.len() as int] == s[i + pat.len()]);
        }
    }
}

/// `s` with every occurrence of `pat` that no word character follows
/// replaced by `rep`.
pub fn replace_word_exec(s: &Vec<char>, pat: &Vec<char>, rep: &Vec<char>) -> (r: Vec<char>)
    requires
        pat.len() > 0,
    ensures
        r@ == replace_word(s@, pat@, rep@),
{
    let mut out: Vec<char> = Vec::new();
    let mut i: usize = 0;
    assert(s@.skip(0) =~= s@);
    while i < s.len()
        invariant
            i <= s.len(),
            pat.len() > 0,
            out@ + replace_word(s@.skip(i as int), pat@, rep@) == replace_word(s@, pat@, rep@),
        decreases s.len() - i,
    {
        proof {
            lemma_replace_word_step(s@, pat@, rep@, i as int);
        }
        let at_word = occurs_at_exec(s, pat, i) && (i + pat.len() == s.len() || !is_word_char_exec(
            s[i + pat.len()],
        ));
        if at_word {
            let ghost before = out@;
            append_chars(&mut out, rep);
            assert(out@ + replace_word(s@.skip(i + pat.len()), pat@, rep@) =~= before + (rep@
                + replace_word(s@.skip(i + pat.len()), pat@, rep@)));
            i = i + pat.len();
        } else {
            let ghost before = out@;
            out.push(s[i]);
            assert(out@ + replace_word(s@.skip(i + 1), pat@, rep@) =~= before + (seq![s@[i as int]]
                + replace_word(s@.skip(i + 1), pat@, rep@)));
            i = i + 1;
        }
    }
    assert(s@.skip(i as int) =~= Seq::<char>::empty());
    assert(out@ + Seq::<char>::empty() =~= out@);
    out
}

/// `s` with every occurrence of the literal `pat` replaced by `rep`.
pub fn replace_str(s: &Vec<char>, pat: &str, rep: &str) -> (r: Vec<char>)
    requires
        pat@.len() > 0,
    ensures
        r@ == replace(s@, pat@, rep@),
{
    let p = chars_of(pat);
    let q = chars_of(rep);
    replace_exec(s, &p, &q)
}

proof fn lemma_line_pieces_step(s: Seq<char>, i: int, done: Seq<Seq<char>>, cur: Seq<char>)
    requires
        0 <= i < s.len(),
    ensures
        s[i] == '\n' ==> line_pieces(s.skip(i), done, cur) == line_pieces(
            s.skip(i + 1),
            done.push(strip_cr(cur)),
            Seq::empty(),
        ),
        s[i] != '\n' ==> line_pieces(s.skip(i), done, cur) == line_pieces(
            s.skip(i + 1),
            done,
            cur.push(s[i]),
        ),
{
    assert(s.skip(i).drop_first() =~= s.skip(i + 1));
}

/// Strips one trailing carriage return from a line.
fn strip_cr_exec(l: Vec<char>) -> (r: Vec<char>)
    ensures
        r@ == strip_cr(l@),
{
    let mut l = l;
    if l.len() > 0 && l[l.len() - 1] == '\r' {
        l.pop();
    }
    l
}

/// The lines of `s` (`str::lines`).
pub fn lines_exec(s: &Vec<char>) -> (r: Vec<Vec<char>>)
    ensures
        vecs_view(r@) == lines(s@),
{
    let mut done: Vec<Vec<char>> = Vec::new();
    let mut cur: Vec<char> = Vec::new();
    let mut i: usize = 0;
    assert(s@.skip(0) =~= s@);
    assert(vecs_view(done@) =~= Seq::<Seq<char>>::empty());
    while i < s.len()
        invariant
            i <= s.len(),
            line_pieces(s@.skip(i as int), vecs_view(done@), cur@) == lines(
                s@,
            ),
        decreases s.len() - i,
    {
        proof {
            lemma_line_pieces_step(s@, i as int, vecs_view(done@), cur@);
        }
        if s[i] == '\n' {
            let finished = strip_cr_exec(cur);
            let ghost prev = vecs_view(done@);
            done.push(finished);
            assert(vecs_view(done@) =~= prev.push(finished@));
            cur = Vec::new();
            assert(cur@ =~= Seq::<char>::empty());
        } else {
            cur.push(s[i]);
        }
        i = i + 1;
    }
    assert(s@.skip(i as int) =~= Seq::<char>::empty());
    if cur.len() > 0 {
        let finished = strip_cr_exec(cur);
        let ghost prev = vecs_view(done@);
        done.push(finished);
        assert(vecs_view(done@) =~= prev.push(finished@));
    }
    done
}

proof fn lemma_word_pieces_step(s: Seq<char>, i: int, done: Seq<Seq<char>>, cur: Seq<char>)
    requires
        0 <= i < s.len(),
    ensures
        word_pieces(s.skip(i), done, cur) == (if is_ws(s[i]) {
            if cur.len() == 0 {
                word_pieces(s.skip(i + 1), done, cur)
            } else {
                word_pieces(s.skip(i + 1), done.push(cur), Seq::empty())
            }
        } else {
            word_pieces(s.skip(i + 1), done, cur.push(s[i]))
        }),
{
    assert(s.skip(i).drop_first() =~= s.skip(i + 1));
}

/// The white-space separated words of `s` (`str::split_whitespace`).
pub fn words_exec(s: &Vec<char>) -> (r: Vec<Vec<char>>)
    ensures
        vecs_view(r@) == words(s@),
{
    let mut done: Vec<Vec<char>> = Vec::new();
    let mut cur: Vec<char> = Vec::new();
    let mut i: usize = 0;
    assert(s@.skip(0) =~= s@);
    assert(vecs_view(done@) =~= Seq::<Seq<char>>::empty());
    while i < s.len()
        invariant
            i <= s.len(),
            word_pieces(s@.skip(i as int), vecs_view(done@), cur@) == words(
                s@,
            ),
        decreases s.len() - i,
    {
        proof {
            lemma_word_pieces_step(s@, i as int, vecs_view(done@), cur@);
        }
        if is_whitespace(s[i]) {
            if cur.len() > 0 {
                let ghost prev = vecs_view(done@);
                let ghost c = cur@;
                done.push(cur);
                assert(vecs_view(done@) =~= prev.push(c));
                cur = Vec::new();
                assert(cur@ =~= Seq::<char>::empty());
            }
        } else {
            cur.push(s[i]);
        }
        i = i + 1;
    }
    assert(s@.skip(i as int) =~= Seq::<char>::empty());
    if cur.len() > 0 {
        let ghost prev = vecs_view(done@);
        let ghost c = cur@;
        done.push(cur);
        assert(vecs_view(done@) =~= prev.push(c));
    }
    done
}

/// The parts joined with `sep` between consecutive parts.
pub fn join_exec(parts: &Vec<Vec<char>>, sep: &Vec<char>) -> (r: Vec<char>)
    ensures
        r@ == join(vecs_view(parts@), sep@),
{
    let ghost ps = vecs_view(parts@);
    let mut out: Vec<char> = Vec::new();
    let mut i: usize = 0;
    assert(ps.take(0) =~= Seq::<Seq<char>>::empty());
    while i < parts.len()
        invariant
            i <= parts.len(),
            ps == vecs_view(parts@),
            out@ == join(ps.take(i as int), sep@),
        decreases parts.len() - i,
    {
        let ghost before = out@;
        if i > 0 {
            append_chars(&mut out, sep);
        }
        append_chars(&mut out, &parts[i]);
        assert(ps.take(i as int + 1).drop_last() =~= ps.take(i as int));
        assert(ps.take(i as int + 1).last() == parts@[i as int]@);
        if i == 0 {
            assert(before =~= Seq::<char>::empty());
            assert(out@ =~= parts@[0]@);
        }
        i = i + 1;
    }
    assert(ps.take(parts.len() as int) =~= ps);
    out
}

/// Appends `v` to `out`.
pub fn append_chars(out: &mut Vec<char>, v: &Vec<char>)
    ensures
        final(out)@ == old(out)@ + v@,
{
    let ghost start = out@;
    let mut k: usize = 0;
    while k < v.len()
        invariant
            k <= v.len(),
            out@ == start + v@.take(k as int),
        decreases v.len() - k,
    {
        out.push(v[k]);
        assert(start + v@.take(k as int + 1) =~= (start + v@.take(k as int)).push(v@[k as int]));
        k = k + 1;
    }
    assert(v@.take(v.len() as int) =~= v@);
}

/// Appends the characters of `s` to `out`.
pub fn append_str(out: &mut Vec<char>, s: &str)
    ensures
        final(out)@ == old(out)@ + s@,
{
    let v = chars_of(s);
    append_chars(out, &v);
}

/// The decimal digit for `d < 10`.
fn digit_exec(d: usize) -> (c: char)
    requires
        d < 10,
    ensures
        c == digit_char(d as nat),
{
    if d == 0 { '0' }
    else if d == 1 { '1' }
    else if d == 2 { '2' }
    else if d == 3 { '3' }
    else if d == 4 { '4' }
    else if d == 5 { '5' }
    else if d == 6 { '6' }
    else if d == 7 { '7' }
    else if d == 8 { '8' }
    else { '9' }
}

/// The decimal representation of `n` (`usize::to_string`).
pub fn decimal_exec(n: usize) -> (r: Vec<char>)
    ensures
        r@ == decimal(n as nat),
    decreases n,
{
    if n < 10 {
        let mut v: Vec<char> = Vec::new();
        v.push(digit_exec(n));
        assert(v@ =~= seq![digit_char(n as nat)]);
        v
    } else {
        let mut v = decimal_exec(n / 10);
        v.push(digit_exec(n % 10));
        v
    }
}

/// The decimal representation of `n`, as a string.
pub fn decimal_string(n: usize) -> (r: String)
    ensures
        r@ == decimal(n as nat),
{
    let v = decimal_exec(n);
    string_of_chars(&v)
}

/// The views of a list of character vectors.
pub open spec fn vecs_view(v: Seq<Vec<char>>) -> Seq<Seq<char>> {
    v.map_values(|l: Vec<char>| l@)
}

/// The views of a list of strings.
pub open spec fn strings_view(v: Seq<String>) -> Seq<Seq<char>> {
    v.map_values(|s: String| s@)
}

/// The strings joined with `sep` between consecutive ones (`[String]::join`).
pub fn join_strings(parts: &[String], sep: &str) -> (r: String)
    ensures
        r@ == join(strings_view(parts@), sep@),
{
    let ghost ps = strings_view(parts@);
    let mut out = String::new();
    let mut i: usize = 0;
    assert(ps.take(0) =~= Seq::<Seq<char>>::empty());
    while i < parts.len()
        invariant
            i <= parts.len(),
            ps == strings_view(parts@),
            out@ == join(ps.take(i as int), sep@),
        decreases parts.len() - i,
    {
        let ghost before = out@;
        if i > 0 {
            out.append(sep);
        }
        out.append(parts[i].as_str());
        assert(ps.take(i as int + 1).drop_last() =~= ps.take(i as int));
        assert(ps.take(i as int + 1).last() == parts@[i as int]@);
        if i == 0 {
            assert(before =~= Seq::<char>::empty());
            assert(out@ =~= parts@[0]@);
        }
        i = i + 1;
    }
    assert(ps.take(parts.len() as int) =~= ps);
    out
}

/// Whether the characters of `v` are those of `w`.
pub fn chars_eq_str(v: &Vec<char>, w: &str) -> (b: bool)
    ensures
        b == (v@ == w@),
{
    let x = chars_of(w);
    if v.len() != x.len() {
        return false;
    }
    let mut i: usize = 0;
    while i < v.len()
        invariant
            i <= v.len(),
            v.len() == x.len(),
            x@ == w@,
            forall|j: int| 0 <= j < i ==> v@[j] == x@[j],
        decreases v.len() - i,
    {
        if v[i] != x[i] {
            return false;
        }
        i = i + 1;
    }
    assert(v@ =~= x@);
    true
}

/// Whether `v` begins with the characters of `w`.
pub fn starts_with_str(v: &Vec<char>, w: &str) -> (b: bool)
    ensures
        b == starts_with(v@, w@),
{
    let x = chars_of(w);
    let b = occurs_at_exec(v, &x, 0);
    assert(b == starts_with(v@, w@)) by {
        assert(v@.subrange(0, x@.len() as int) =~= v@.take(x@.len() as int));
    }
    b
}

/// Whether `v` ends with the character `c`.
pub fn ends_with_char(v: &Vec<char>, c: char) -> (b: bool)
    ensures
        b == (v@.len() > 0 && v@.last() == c),
{
    v.len() > 0 && v[v.len() - 1] == c
}

/// Replacing a pattern by one no longer never lengthens the text, and
/// shortens it when the pattern occurs.
pub proof fn lemma_replace_shrinks(s: Seq<char>, pat: Seq<char>, rep: Seq<char>)
    requires
        pat.len() > 0,
        rep.len() <= pat.len(),
    ensures
        replace(s, pat, rep).len() <= s.len(),
        contains(s, pat) && rep.len() < pat.len() ==> replace(s, pat, rep).len() < s.len(),
    decreases s.len(),
{
    if s.len() < pat.len() {
        if contains(s, pat) {
            let i = choose|i: int| occurs_at(s, pat, i);
            assert(false);
        }
    } else if s.take(pat.len() as int) == pat {
        lemma_replace_shrinks(s.skip(pat.len() as int), pat, rep);
    } else {
        lemma_replace_shrinks(s.drop_first(), pat, rep);
        if contains(s, pat) {
            let i = choose|i: int| occurs_at(s, pat, i);
            if i == 0 {
                assert(s.subrange(0, pat.len() as int) =~= s.take(pat.len() as int));
            } else {
                assert(s.drop_first().subrange(i - 1, i - 1 + pat.len()) =~= s.subrange(i, i + pat.len()));
                assert(occurs_at(s.drop_first(), pat, i - 1));
            }
        }
    }
}

/// `s` with every run of two spaces replaced by one, repeatedly, until no
/// two spaces stand side by side.
pub open spec fn squeeze_spaces(s: Seq<char>) -> Seq<char>
    decreases s.len(),
{
    if contains(s, seq![' ', ' ']) {
        proof {
            lemma_replace_shrinks(s, seq![' ', ' '], seq![' ']);
        }
        squeeze_spaces(replace(s, seq![' ', ' '], seq![' ']))
    } else {
        s
    }
}

/// No two spaces stand side by side once they have been squeezed.
pub proof fn lemma_squeezed_has_no_double_space(s: Seq<char>)
    ensures
        !contains(squeeze_spaces(s), seq![' ', ' ']),
    decreases s.len(),
{
    if contains(s, seq![' ', ' ']) {
        lemma_replace_shrinks(s, seq![' ', ' '], seq![' ']);
        lemma_squeezed_has_no_double_space(replace(s, seq![' ', ' '], seq![' ']));
    }
}

/// A pattern absent from `s` is absent from `s` without its first character.
proof fn lemma_absent_drop_first(s: Seq<char>, pat: Seq<char>)
    requires
        s.len() > 0,
        !contains(s, pat),
    ensures
        !contains(s.drop_first(), pat),
{
    if contains(s.drop_first(), pat) {
        let i = choose|i: int| occurs_at(s.drop_first(), pat, i);
        assert(s.subrange(i + 1, i + 1 + pat.len()) =~= s.drop_first().subrange(i, i + pat.len()));
        assert(occurs_at(s, pat, i + 1));
    }
}

/// A pattern absent from `s` is absent from `s` without its last character.
proof fn lemma_absent_drop_last(s: Seq<char>, pat: Seq<char>)
    requires
        s.len() > 0,
        !contains(s, pat),
    ensures
        !contains(s.drop_last(), pat),
{
    if contains(s.drop_last(), pat) {
        let i = choose|i: int| occurs_at(s.drop_last(), pat, i);
        assert(s.subrange(i, i + pat.len()) =~= s.drop_last().subrange(i, i + pat.len()));
        assert(occurs_at(s, pat, i));
    }
}

/// Trimming brings no pattern in that was not there.
pub proof fn lemma_trim_keeps_absent(s: Seq<char>, pat: Seq<char>)
    requires
        !contains(s, pat),
    ensures
        !contains(trim_start(s), pat),
        !contains(trim(s), pat),
    decreases s.len(),
{
    if s.len() > 0 && is_ws(s[0]) {
        lemma_absent_drop_first(s, pat);
        lemma_trim_keeps_absent(s.drop_first(), pat);
    }
    lemma_trim_end_keeps_absent(trim_start(s), pat);
}

proof fn lemma_trim_end_keeps_absent(s: Seq<char>, pat: Seq<char>)
    requires
        !contains(s, pat),
    ensures
        !contains(trim_end(s), pat),
    decreases s.len(),
{
    if s.len() > 0 && is_ws(s.last()) {
        lemma_absent_drop_last(s, pat);
        lemma_trim_end_keeps_absent(s.drop_last(), pat);
    }
}

/// A newline after text with no two adjacent spaces makes none.
pub proof fn lemma_newline_keeps_no_double_space(s: Seq<char>)
    requires
        !contains(s, seq![' ', ' ']),
    ensures
        !contains(s.push('\n'), seq![' ', ' ']),
{
    let pat = seq![' ', ' '];
    if contains(s.push('\n'), pat) {
        let i = choose|i: int| occurs_at(s.push('\n'), pat, i);
        if i + 2 <= s.len() {
            assert(s.subrange(i, i + 2) =~= s.push('\n').subrange(i, i + 2));
            assert(occurs_at(s, pat, i));
        } else {
            assert(s.push('\n').subrange(i, i + 2)[1] == '\n');
        }
    }
}

/// Text that begins with a character other than white space is not blank.
pub proof fn lemma_not_blank(s: Seq<char>)
    requires
        s.len() > 0,
        !is_ws(s[0]),
    ensures
        trim_start(s) == s,
        trim(s).len() > 0,
{
    lemma_trim_end_not_blank(s);
}

proof fn lemma_trim_end_not_blank(s: Seq<char>)
    requires
        s.len() > 0,
        !is_ws(s[0]),
    ensures
        trim_end(s).len() > 0,
    decreases s.len(),
{
    if is_ws(s.last()) {
        lemma_trim_end_not_blank(s.drop_last());
    }
}

/// Dropping leading white space leaves text that is empty or begins with
/// another character.
proof fn lemma_trim_start_first(s: Seq<char>)
    ensures
        trim_start(s).len() == 0 || !is_ws(trim_start(s)[0]),
    decreases s.len(),
{
    if s.len() > 0 && is_ws(s[0]) {
        lemma_trim_start_first(s.drop_first());
    }
}

/// Dropping trailing white space keeps a prefix that is empty or ends with
/// another character.
proof fn lemma_trim_end_prefix(s: Seq<char>)
    ensures
        trim_end(s).len() <= s.len(),
        trim_end(s) == s.take(trim_end(s).len() as int),
        trim_end(s).len() == 0 || !is_ws(trim_end(s).last()),
    decreases s.len(),
{
    if s.len() > 0 && is_ws(s.last()) {
        lemma_trim_end_prefix(s.drop_last());
        assert(s.drop_last().take(trim_end(s).len() as int) =~= s.take(trim_end(s).len() as int));
    } else {
        assert(s.take(s.len() as int) =~= s);
    }
}

/// Trimmed text is empty or ends with a character other than white space.
pub proof fn lemma_trim_last(s: Seq<char>)
    ensures
        trim(s).len() == 0 || !is_ws(trim(s).last()),
{
    lemma_trim_end_prefix(trim_start(s));
}

/// Joined parts end as their last part does, when that part is not empty.
pub proof fn lemma_join_last(parts: Seq<Seq<char>>, sep: Seq<char>)
    requires
        parts.len() > 0,
        parts.last().len() > 0,
    ensures
        join(parts, sep).len() > 0,
        join(parts, sep).last() == parts.last().last(),
{
    if parts.len() > 1 {
        let front = join(parts.drop_last(), sep) + sep;
        assert(join(parts, sep) == front + parts.last());
        assert((front + parts.last())[front.len() + parts.last().len() - 1] == parts.last()[parts.last().len() - 1]);
    }
}

/// `s` with every white-space character dropped.
pub open spec fn drop_ws(s: Seq<char>) -> Seq<char>
    decreases s.len(),
{
    if s.len() == 0 {
        Seq::empty()
    } else if is_ws(s[0]) {
        drop_ws(s.drop_first())
    } else {
        seq![s[0]] + drop_ws(s.drop_first())
    }
}

/// Dropping white space from joined text drops it from each part.
pub proof fn lemma_drop_ws_concat(a: Seq<char>, b: Seq<char>)
    ensures
        drop_ws(a + b) == drop_ws(a) + drop_ws(b),
    decreases a.len(),
{
    if a.len() == 0 {
        assert(a + b =~= b);
        assert(drop_ws(a) + drop_ws(b) =~= drop_ws(b));
    } else {
        assert((a + b).drop_first() =~= a.drop_first() + b);
        lemma_drop_ws_concat(a.drop_first(), b);
        if !is_ws(a[0]) {
            assert(seq![a[0]] + (drop_ws(a.drop_first()) + drop_ws(b)) =~= (seq![a[0]] + drop_ws(a.drop_first()))
                + drop_ws(b));
        }
    }
}

/// Text of white space alone leaves nothing; text with none is kept.
pub proof fn lemma_drop_ws_pure(s: Seq<char>)
    ensures
        (forall|j: int| 0 <= j < s.len() ==> is_ws(#[trigger] s[j])) ==> drop_ws(s) == Seq::<char>::empty(),
        (forall|j: int| 0 <= j < s.len() ==> !is_ws(#[trigger] s[j])) ==> drop_ws(s) == s,
    decreases s.len(),
{
    if s.len() > 0 {
        lemma_drop_ws_pure(s.drop_first());
        if forall|j: int| 0 <= j < s.len() ==> is_ws(#[trigger] s[j]) {
            assert forall|j: int| 0 <= j < s.drop_first().len() implies is_ws(#[trigger] s.drop_first()[j]) by {
                assert(s.drop_first()[j] == s[j + 1]);
            }
        }
        if forall|j: int| 0 <= j < s.len() ==> !is_ws(#[trigger] s[j]) {
            assert forall|j: int| 0 <= j < s.drop_first().len() implies !is_ws(#[trigger] s.drop_first()[j]) by {
                assert(s.drop_first()[j] == s[j + 1]);
            }
            assert(seq![s[0]] + s.drop_first() =~= s);
        }
    }
}

/// Replacing a pattern by text that differs from it only in white space
/// changes only white space.
pub proof fn lemma_drop_ws_replace(s: Seq<char>, pat: Seq<char>, rep: Seq<char>)
    requires
        drop_ws(pat) == drop_ws(rep),
    ensures
        drop_ws(replace(s, pat, rep)) == drop_ws(s),
    decreases s.len(),
{
    if pat.len() == 0 || s.len() < pat.len() {
    } else if s.take(pat.len() as int) == pat {
        let rest = s.skip(pat.len() as int);
        lemma_drop_ws_replace(rest, pat, rep);
        lemma_drop_ws_concat(rep, replace(rest, pat, rep));
        assert(s =~= pat + rest);
        lemma_drop_ws_concat(pat, rest);
    } else {
        lemma_drop_ws_replace(s.drop_first(), pat, rep);
        lemma_drop_ws_concat(seq![s[0]], replace(s.drop_first(), pat, rep));
        assert(s =~= seq![s[0]] + s.drop_first());
        lemma_drop_ws_concat(seq![s[0]], s.drop_first());
    }
}

/// The whole-word form of `lemma_drop_ws_replace`.
pub proof fn lemma_drop_ws_replace_word(s: Seq<char>, pat: Seq<char>, rep: Seq<char>)
    requires
        drop_ws(pat) == drop_ws(rep),
    ensures
        drop_ws(replace_word(s, pat, rep)) == drop_ws(s),
    decreases s.len(),
{
    if pat.len() == 0 || s.len() < pat.len() {
    } else if word_at_start(s, pat) {
        let rest = s.skip(pat.len() as int);
        lemma_drop_ws_replace_word(rest, pat, rep);
        lemma_drop_ws_concat(rep, replace_word(rest, pat, rep));
        assert(s =~= pat + rest);
        lemma_drop_ws_concat(pat, rest);
    } else {
        lemma_drop_ws_replace_word(s.drop_first(), pat, rep);
        lemma_drop_ws_concat(seq![s[0]], replace_word(s.drop_first(), pat, rep));
        assert(s =~= seq![s[0]] + s.drop_first());
        lemma_drop_ws_concat(seq![s[0]], s.drop_first());
    }
}

/// Squeezing spaces changes only white space.
pub proof fn lemma_drop_ws_squeeze(s: Seq<char>)
    ensures
        drop_ws(squeeze_spaces(s)) == drop_ws(s),
    decreases s.len(),
{
    if contains(s, seq![' ', ' ']) {
        lemma_replace_shrinks(s, seq![' ', ' '], seq![' ']);
        lemma_drop_ws_pure(seq![' ', ' ']);
        lemma_drop_ws_pure(seq![' ']);
        assert(is_ws(' '));
        lemma_drop_ws_replace(s, seq![' ', ' '], seq![' ']);
        lemma_drop_ws_squeeze(replace(s, seq![' ', ' '], seq![' ']));
    }
}

/// Trimming changes only white space.
pub proof fn lemma_drop_ws_trim(s: Seq<char>)
    ensures
        drop_ws(trim(s)) == drop_ws(s),
{
    lemma_drop_ws_trim_start(s);
    lemma_drop_ws_trim_end(trim_start(s));
}

proof fn lemma_drop_ws_trim_start(s: Seq<char>)
    ensures
        drop_ws(trim_start(s)) == drop_ws(s),
    decreases s.len(),
{
    if s.len() > 0 && is_ws(s[0]) {
        lemma_drop_ws_trim_start(s.drop_first());
    }
}

proof fn lemma_drop_ws_trim_end(s: Seq<char>)
    ensures
        drop_ws(trim_end(s)) == drop_ws(s),
    decreases s.len(),
{
    if s.len() > 0 && is_ws(s.last()) {
        lemma_drop_ws_trim_end(s.drop_last());
        assert(s =~= s.drop_last() + seq![s.last()]);
        lemma_drop_ws_concat(s.drop_last(), seq![s.last()]);
        lemma_drop_ws_pure(seq![s.last()]);
        assert(drop_ws(s.drop_last()) + Seq::<char>::empty() =~= drop_ws(s.drop_last()));
    }
}

/// The parts, each with its white space dropped, one after another.
pub open spec fn drop_ws_all(parts: Seq<Seq<char>>) -> Seq<char>
    decreases parts.len(),
{
    if parts.len() == 0 {
        Seq::empty()
    } else {
        drop_ws_all(parts.drop_last()) + drop_ws(parts.last())
    }
}

pub proof fn lemma_drop_ws_join(parts: Seq<Seq<char>>, sep: Seq<char>)
    requires
        drop_ws(sep) == Seq::<char>::empty(),
    ensures
        drop_ws(join(parts, sep)) == drop_ws_all(parts),
    decreases parts.len(),
{
    if parts.len() == 1 {
        assert(parts.drop_last() =~= Seq::<Seq<char>>::empty());
        assert(drop_ws_all(parts.drop_last()) == Seq::<char>::empty());
        assert(drop_ws_all(parts) =~= drop_ws(parts[0]));
    } else if parts.len() > 1 {
        lemma_drop_ws_join(parts.drop_last(), sep);
        lemma_drop_ws_concat(join(parts.drop_last(), sep) + sep, parts.last());
        lemma_drop_ws_concat(join(parts.drop_last(), sep), sep);
        assert(drop_ws_all(parts.drop_last()) + Seq::<char>::empty() =~= drop_ws_all(parts.drop_last()));
    }
}

proof fn lemma_drop_ws_word_pieces(s: Seq<char>, done: Seq<Seq<char>>, cur: Seq<char>)
    ensures
        drop_ws_all(word_pieces(s, done, cur)) == drop_ws_all(done) + drop_ws(cur) + drop_ws(s),
    decreases s.len(),
{
    if s.len() == 0 {
        if cur.len() == 0 {
            assert(drop_ws_all(done) + drop_ws(cur) + drop_ws(s) =~= drop_ws_all(done));
        } else {
            assert(done.push(cur).drop_last() =~= done);
            assert(drop_ws_all(done) + drop_ws(cur) + drop_ws(s) =~= drop_ws_all(done) + drop_ws(cur));
        }
    } else if is_ws(s[0]) {
        if cur.len() == 0 {
            lemma_drop_ws_word_pieces(s.drop_first(), done, cur);
        } else {
            lemma_drop_ws_word_pieces(s.drop_first(), done.push(cur), Seq::empty());
            assert(done.push(cur).drop_last() =~= done);
            assert(drop_ws_all(done.push(cur)) + drop_ws(Seq::<char>::empty()) + drop_ws(s.drop_first())
                =~= drop_ws_all(done) + drop_ws(cur) + drop_ws(s));
        }
    } else {
        lemma_drop_ws_word_pieces(s.drop_first(), done, cur.push(s[0]));
        assert(cur.push(s[0]) =~= cur + seq![s[0]]);
        lemma_drop_ws_concat(cur, seq![s[0]]);
        lemma_drop_ws_pure(seq![s[0]]);
        assert(drop_ws(seq![s[0]]) == seq![s[0]]);
        assert(drop_ws_all(done) + (drop_ws(cur) + seq![s[0]]) + drop_ws(s.drop_first())
            =~= drop_ws_all(done) + drop_ws(cur) + drop_ws(s));
    }
}

proof fn lemma_drop_ws_strip_cr(l: Seq<char>)
    ensures
        drop_ws(strip_cr(l)) == drop_ws(l),
{
    if l.len() > 0 && l.last() == '\r' {
        assert(l =~= l.drop_last() + seq!['\r']);
        lemma_drop_ws_concat(l.drop_last(), seq!['\r']);
        assert(is_ws('\r'));
        lemma_drop_ws_pure(seq!['\r']);
        assert(drop_ws(l.drop_last()) + Seq::<char>::empty() =~= drop_ws(l.drop_last()));
    }
}

proof fn lemma_drop_ws_line_pieces(s: Seq<char>, done: Seq<Seq<char>>, cur: Seq<char>)
    ensures
        drop_ws_all(line_pieces(s, done, cur)) == drop_ws_all(done) + drop_ws(cur) + drop_ws(s),
    decreases s.len(),
{
    lemma_drop_ws_strip_cr(cur);
    if s.len() == 0 {
        if cur.len() == 0 {
            assert(drop_ws_all(done) + drop_ws(cur) + drop_ws(s) =~= drop_ws_all(done));
        } else {
            assert(done.push(strip_cr(cur)).drop_last() =~= done);
            assert(drop_ws_all(done) + drop_ws(cur) + drop_ws(s) =~= drop_ws_all(done) + drop_ws(cur));
        }
    } else if s[0] == '\n' {
        lemma_drop_ws_line_pieces(s.drop_first(), done.push(strip_cr(cur)), Seq::empty());
        assert(done.push(strip_cr(cur)).drop_last() =~= done);
        assert(is_ws('\n'));
        assert(drop_ws_all(done.push(strip_cr(cur))) + drop_ws(Seq::<char>::empty()) + drop_ws(s.drop_first())
            =~= drop_ws_all(done) + drop_ws(cur) + drop_ws(s));
    } else {
        lemma_drop_ws_line_pieces(s.drop_first(), done, cur.push(s[0]));
        assert(cur.push(s[0]) =~= cur + seq![s[0]]);
        lemma_drop_ws_concat(cur, seq![s[0]]);
        lemma_drop_ws_pure(seq![s[0]]);
        if is_ws(s[0]) {
            assert(drop_ws_all(done) + (drop_ws(cur) + Seq::<char>::empty()) + drop_ws(s.drop_first())
                =~= drop_ws_all(done) + drop_ws(cur) + drop_ws(s));
        } else {
            assert(drop_ws_all(done) + (drop_ws(cur) + seq![s[0]]) + drop_ws(s.drop_first())
                =~= drop_ws_all(done) + drop_ws(cur) + drop_ws(s));
        }
    }
}

/// Splitting into lines drops only line breaks and carriage returns.
pub proof fn lemma_drop_ws_lines(s: Seq<char>)
    ensures
        drop_ws_all(lines(s)) == drop_ws(s),
{
    lemma_drop_ws_line_pieces(s, Seq::empty(), Seq::empty());
    assert(drop_ws_all(Seq::<Seq<char>>::empty()) + drop_ws(Seq::<char>::empty()) + drop_ws(s) =~= drop_ws(s));
}

/// Splitting into words and joining them with spaces changes only white
/// space.
pub proof fn lemma_drop_ws_words(s: Seq<char>)
    ensures
        drop_ws(join(words(s), " "@)) == drop_ws(s),
{
    reveal_strlit(" ");
    lemma_drop_ws_pure(" "@);
    assert(is_ws(' '));
    lemma_drop_ws_join(words(s), " "@);
    lemma_drop_ws_word_pieces(s, Seq::empty(), Seq::empty());
    assert(drop_ws_all(Seq::<Seq<char>>::empty()) + drop_ws(Seq::<char>::empty()) + drop_ws(s) =~= drop_ws(s));
}

/// Trimming trimmed text changes nothing.
pub proof fn lemma_trim_idempotent(s: Seq<char>)
    ensures
        trim(trim(s)) == trim(s),
{
    let u = trim_start(s);
    let v = trim_end(u);
    lemma_trim_start_first(s);
    lemma_trim_end_prefix(u);
    if v.len() > 0 {
        assert(v[0] == u[0]);
        assert(trim_start(v) == v);
        assert(trim_end(v) == v);
    } else {
        assert(trim_start(v) == v);
        assert(trim_end(v) == v);
    }
}

/// Replaces double spaces by single ones until none are left.
pub fn squeeze_spaces_exec(v: &Vec<char>) -> (r: Vec<char>)
    ensures
        r@ == squeeze_spaces(v@),
{
    let mut two: Vec<char> = Vec::new();
    two.push(' ');
    two.push(' ');
    let mut one: Vec<char> = Vec::new();
    one.push(' ');
    assert(two@ =~= seq![' ', ' ']);
    assert(one@ =~= seq![' ']);
    let mut cur = chars_clone(v);
    while contains_exec(&cur, &two)
        invariant
            two@ == seq![' ', ' '],
            one@ == seq![' '],
            squeeze_spaces(cur@) == squeeze_spaces(v@),
        decreases cur@.len(),
    {
        proof {
            lemma_replace_shrinks(cur@, two@, one@);
        }
        cur = replace_exec(&cur, &two, &one);
    }
    cur
}

/// A copy of a character vector.
pub fn chars_clone(v: &Vec<char>) -> (r: Vec<char>)
    ensures
        r@ == v@,
{
    let mut out: Vec<char> = Vec::new();
    append_chars(&mut out, v);
    assert(out@ =~= v@);
    out
}

} // verus!
