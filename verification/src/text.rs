//! Character-level string operations with their mathematical meaning.
//!
//! Every string is modelled by its sequence of Unicode scalar values
//! (`Seq<char>`, the view of `str` and `String`).
use vstd::prelude::*;

verus! {

// ---------------------------------------------------------------------------
// Specifications
// ---------------------------------------------------------------------------

/// `p` is a prefix of `s`.
pub open spec fn has_prefix(s: Seq<char>, p: Seq<char>) -> bool {
    p.len() <= s.len() && s.subrange(0, p.len() as int) == p
}

/// `p` occurs in `s` starting at position `i`.
pub open spec fn occurs_at(s: Seq<char>, p: Seq<char>, i: int) -> bool {
    0 <= i && i + p.len() <= s.len() && s.subrange(i, i + p.len()) == p
}

/// `p` occurs somewhere in `s` (the empty sequence occurs in every sequence).
pub open spec fn contains_seq(s: Seq<char>, p: Seq<char>) -> bool {
    exists|i: int| occurs_at(s, p, i)
}

/// Position of the first `c` in `s`, or `s.len()` when there is none.
pub open spec fn first_pos(s: Seq<char>, c: char) -> int
    decreases s.len(),
{
    if s.len() == 0 {
        0
    } else if s[0] == c {
        0
    } else {
        1 + first_pos(s.drop_first(), c)
    }
}

/// Position of the last `c` in `s`, or `-1` when there is none.
pub open spec fn last_pos(s: Seq<char>, c: char) -> int
    decreases s.len(),
{
    if s.len() == 0 {
        -1
    } else if s.last() == c {
        s.len() - 1
    } else {
        last_pos(s.drop_last(), c)
    }
}

/// Position of the last `a` or `b` in `s`, or `-1` when there is none.
pub open spec fn last_pos_either(s: Seq<char>, a: char, b: char) -> int
    decreases s.len(),
{
    if s.len() == 0 {
        -1
    } else if s.last() == a || s.last() == b {
        s.len() - 1
    } else {
        last_pos_either(s.drop_last(), a, b)
    }
}

/// What comes after the last `a` or `b` (`s.rsplit([a, b]).next()`).
pub open spec fn after_last_either(s: Seq<char>, a: char, b: char) -> Seq<char> {
    s.skip(last_pos_either(s, a, b) + 1)
}

/// What comes before the first `c` (all of `s` when `c` does not occur):
/// the first item of `s.split(c)`.
pub open spec fn before_first(s: Seq<char>, c: char) -> Seq<char> {
    s.take(first_pos(s, c))
}

/// What comes after the last `c` (all of `s` when `c` does not occur):
/// the first item of `s.rsplit(c)`.
pub open spec fn after_last(s: Seq<char>, c: char) -> Seq<char> {
    s.skip(last_pos(s, c) + 1)
}

/// The pieces of `s` between the occurrences of `c`, in order (`s.split(c)`).
pub open spec fn split_on(s: Seq<char>, c: char) -> Seq<Seq<char>>
    decreases s.len(),
{
    if first_pos(s, c) >= s.len() {
        seq![s]
    } else {
        proof {
            lemma_first_pos(s, c);
        }
        seq![s.take(first_pos(s, c))] + split_on(s.skip(first_pos(s, c) + 1), c)
    }
}

/// Left-to-right replacement of every non-overlapping occurrence of a
/// non-empty pattern `p` by `r`.
pub open spec fn replace_all(s: Seq<char>, p: Seq<char>, r: Seq<char>) -> Seq<char>
    recommends
        p.len() > 0,
    decreases s.len(),
{
    if p.len() == 0 || s.len() < p.len() {
        s
    } else if s.take(p.len() as int) == p {
        r + replace_all(s.skip(p.len() as int), p, r)
    } else {
        seq![s[0]] + replace_all(s.drop_first(), p, r)
    }
}

/// Unicode `White_Space`, the property behind `char::is_whitespace`.
pub open spec fn is_white(c: char) -> bool {
    let u = c as u32;
    (0x9 <= u && u <= 0xD) || u == 0x20 || u == 0x85 || u == 0xA0 || u == 0x1680 || (0x2000
        <= u && u <= 0x200A) || u == 0x2028 || u == 0x2029 || u == 0x202F || u == 0x205F || u
        == 0x3000
}

/// `s` without its leading white space.
pub open spec fn trim_start(s: Seq<char>) -> Seq<char>
    decreases s.len(),
{
    if s.len() > 0 && is_white(s[0]) {
        trim_start(s.drop_first())
    } else {
        s
    }
}

/// `s` without its trailing white space.
pub open spec fn trim_end(s: Seq<char>) -> Seq<char>
    decreases s.len(),
{
    if s.len() > 0 && is_white(s.last()) {
        trim_end(s.drop_last())
    } else {
        s
    }
}

/// `s` without leading and trailing white space (`str::trim`).
pub open spec fn trim(s: Seq<char>) -> Seq<char> {
    trim_end(trim_start(s))
}

/// The character of a decimal digit.
pub open spec fn digit_char(d: nat) -> char
    recommends
        d < 10,
{
    if d == 0 {
        '0'
    } else if d == 1 {
        '1'
    } else if d == 2 {
        '2'
    } else if d == 3 {
        '3'
    } else if d == 4 {
        '4'
    } else if d == 5 {
        '5'
    } else if d == 6 {
        '6'
    } else if d == 7 {
        '7'
    } else if d == 8 {
        '8'
    } else {
        '9'
    }
}

/// Decimal text of a natural number, without leading zeros.
pub open spec fn nat_text(n: nat) -> Seq<char>
    decreases n,
{
    if n < 10 {
        seq![digit_char(n)]
    } else {
        nat_text(n / 10).push(digit_char(n % 10))
    }
}

/// Decimal text of an integer, as `Display` writes it.
pub open spec fn int_text(i: int) -> Seq<char> {
    if i < 0 {
        seq!['-'] + nat_text((-i) as nat)
    } else {
        nat_text(i as nat)
    }
}

/// An ASCII letter or digit.
pub open spec fn is_ascii_alnum(c: char) -> bool {
    ('a' <= c && c <= 'z') || ('A' <= c && c <= 'Z') || ('0' <= c && c <= '9')
}

/// Lower-case form of an ASCII character; other characters are unchanged.
pub open spec fn ascii_lower(c: char) -> char {
    if 'A' <= c && c <= 'Z' {
        ((c as u32) + 32) as char
    } else {
        c
    }
}

/// Every character is ASCII.
pub open spec fn all_ascii(s: Seq<char>) -> bool {
    forall|i: int| 0 <= i < s.len() ==> (s[i] as u32) < 128
}

/// Character-wise ASCII lower-case form.
pub open spec fn ascii_lower_seq(s: Seq<char>) -> Seq<char> {
    s.map_values(|c: char| ascii_lower(c))
}

/// Upper-case form of an ASCII character; other characters are unchanged.
pub open spec fn ascii_upper(c: char) -> char {
    if 'a' <= c && c <= 'z' {
        ((c as u32) - 32) as char
    } else {
        c
    }
}

/// Character-wise ASCII upper-case form.
pub open spec fn ascii_upper_seq(s: Seq<char>) -> Seq<char> {
    s.map_values(|c: char| ascii_upper(c))
}

/// The lower-case and upper-case forms of an ASCII text are ASCII, and
/// lower-casing either gives the text's lower-case form.
pub proof fn lemma_ascii_case(s: Seq<char>)
    requires
        all_ascii(s),
    ensures
        all_ascii(ascii_lower_seq(s)),
        all_ascii(ascii_upper_seq(s)),
        ascii_lower_seq(ascii_lower_seq(s)) == ascii_lower_seq(s),
        ascii_lower_seq(ascii_upper_seq(s)) == ascii_lower_seq(s),
{
    assert forall|i: int| 0 <= i < s.len() implies (#[trigger] ascii_lower_seq(s)[i] as u32) < 128
        && (ascii_upper_seq(s)[i] as u32) < 128 by {
        assert((s[i] as u32) < 128);
    }
    assert(ascii_lower_seq(ascii_lower_seq(s)) =~= ascii_lower_seq(s));
    assert(ascii_lower_seq(ascii_upper_seq(s)) =~= ascii_lower_seq(s));
}

/// What `str::to_lowercase` returns for a string (Unicode lower-case mapping).
pub uninterp spec fn lowercase_of(s: Seq<char>) -> Seq<char>;

/// What `char::is_alphanumeric` returns for a character (Unicode Alphabetic or Numeric).
pub uninterp spec fn alphanumeric_of(c: char) -> bool;

// ---------------------------------------------------------------------------
// Lemmas
// ---------------------------------------------------------------------------

pub proof fn lemma_first_pos(s: Seq<char>, c: char)
    ensures
        0 <= first_pos(s, c) <= s.len(),
        first_pos(s, c) < s.len() ==> s[first_pos(s, c)] == c,
        forall|j: int| 0 <= j < first_pos(s, c) ==> s[j] != c,
    decreases s.len(),
{
    if s.len() > 0 && s[0] != c {
        lemma_first_pos(s.drop_first(), c);
        assert forall|j: int| 0 <= j < first_pos(s, c) implies s[j] != c by {
            if j > 0 {
                assert(s[j] == s.drop_first()[j - 1]);
            }
        }
    }
}

/// `first_pos` is the only position meeting its characterisation.
pub proof fn lemma_first_pos_unique(s: Seq<char>, c: char, k: int)
    requires
        0 <= k <= s.len(),
        k < s.len() ==> s[k] == c,
        forall|j: int| 0 <= j < k ==> s[j] != c,
    ensures
        first_pos(s, c) == k,
{
    lemma_first_pos(s, c);
}

/// `split_on` always yields at least one piece; the first is what comes
/// before the first separator.
pub proof fn lemma_split_on_first(s: Seq<char>, c: char)
    ensures
        split_on(s, c).len() >= 1,
        split_on(s, c)[0] == before_first(s, c),
{
    lemma_first_pos(s, c);
    if first_pos(s, c) >= s.len() {
        assert(s.take(first_pos(s, c)) =~= s);
    }
}

pub proof fn lemma_last_pos(s: Seq<char>, c: char)
    ensures
        -1 <= last_pos(s, c) < s.len(),
        last_pos(s, c) >= 0 ==> s[last_pos(s, c)] == c,
        forall|j: int| last_pos(s, c) < j < s.len() ==> s[j] != c,
    decreases s.len(),
{
    if s.len() > 0 && s.last() != c {
        lemma_last_pos(s.drop_last(), c);
        assert forall|j: int| last_pos(s, c) < j < s.len() implies s[j] != c by {
            if j < s.len() - 1 {
                assert(s[j] == s.drop_last()[j]);
            }
        }
    }
}

pub proof fn lemma_last_pos_unique(s: Seq<char>, c: char, k: int)
    requires
        -1 <= k < s.len(),
        k >= 0 ==> s[k] == c,
        forall|j: int| k < j < s.len() ==> s[j] != c,
    ensures
        last_pos(s, c) == k,
{
    lemma_last_pos(s, c);
}

pub proof fn lemma_last_pos_either(s: Seq<char>, a: char, b: char)
    ensures
        -1 <= last_pos_either(s, a, b) < s.len(),
        last_pos_either(s, a, b) >= 0 ==> (s[last_pos_either(s, a, b)] == a || s[last_pos_either(
            s,
            a,
            b,
        )] == b),
        forall|j: int| last_pos_either(s, a, b) < j < s.len() ==> s[j] != a && s[j] != b,
    decreases s.len(),
{
    if s.len() > 0 && s.last() != a && s.last() != b {
        lemma_last_pos_either(s.drop_last(), a, b);
        assert forall|j: int| last_pos_either(s, a, b) < j < s.len() implies s[j] != a && s[j]
            != b by {
            if j < s.len() - 1 {
                assert(s[j] == s.drop_last()[j]);
            }
        }
    }
}

pub proof fn lemma_last_pos_either_unique(s: Seq<char>, a: char, b: char, k: int)
    requires
        -1 <= k < s.len(),
        k >= 0 ==> (s[k] == a || s[k] == b),
        forall|j: int| k < j < s.len() ==> s[j] != a && s[j] != b,
    ensures
        last_pos_either(s, a, b) == k,
{
    lemma_last_pos_either(s, a, b);
}

pub proof fn lemma_trim_start_skip(s: Seq<char>, i: int)
    requires
        0 <= i <= s.len(),
        forall|j: int| 0 <= j < i ==> is_white(s[j]),
    ensures
        trim_start(s) == trim_start(s.skip(i)),
    decreases i,
{
    if i > 0 {
        assert(is_white(s[0]));
        assert(s.drop_first().skip(i - 1) =~= s.skip(i));
        assert forall|j: int| 0 <= j < i - 1 implies is_white(s.drop_first()[j]) by {
            assert(s.drop_first()[j] == s[j + 1]);
        }
        lemma_trim_start_skip(s.drop_first(), i - 1);
    } else {
        assert(s.skip(0) =~= s);
    }
}

pub proof fn lemma_trim_end_take(s: Seq<char>, k: int)
    requires
        0 <= k <= s.len(),
        forall|j: int| k <= j < s.len() ==> is_white(s[j]),
    ensures
        trim_end(s) == trim_end(s.take(k)),
    decreases s.len() - k,
{
    if k < s.len() {
        assert(s.drop_last().take(k) =~= s.take(k));
        lemma_trim_end_take(s.drop_last(), k);
    } else {
        assert(s.take(k) =~= s);
    }
}

pub proof fn lemma_nat_text_len(n: nat)
    ensures
        nat_text(n).len() >= 1,
    decreases n,
{
    if n >= 10 {
        lemma_nat_text_len(n / 10);
    }
}

// ---------------------------------------------------------------------------
// Outside calls
// ---------------------------------------------------------------------------

/// `str::to_lowercase`: the Unicode lower-case form of `s`. What it returns is
/// named `lowercase_of`; the one fact stated of it is that a string of ASCII
/// characters is mapped character by character to its ASCII lower-case form.
#[verifier::external_body]
pub(crate) fn to_lowercase(s: &str) -> (r: String)
    ensures
        r@ == lowercase_of(s@),
        all_ascii(s@) ==> r@ == ascii_lower_seq(s@),
{
    s.to_lowercase()
}

/// `char::is_alphanumeric`. What it returns is named `alphanumeric_of`; for
/// an ASCII character it is stated to be exactly "ASCII letter or digit".
#[verifier::external_body]
pub(crate) fn is_alphanumeric(c: char) -> (r: bool)
    ensures
        r == alphanumeric_of(c),
        (c as u32) < 128 ==> (r <==> is_ascii_alnum(c)),
{
    c.is_alphanumeric()
}

/// `String::push`: appends one character.
#[verifier::external_body]
pub(crate) fn push_char(s: &mut String, c: char)
    ensures
        final(s)@ == old(s)@.push(c),
{
    s.push(c);
}

/// `String::push_str`: appends a string slice.
#[verifier::external_body]
pub(crate) fn push_str(s: &mut String, t: &str)
    ensures
        final(s)@ == old(s)@ + t@,
{
    s.push_str(t);
}

/// An owned copy of a string slice.
pub fn owned(s: &str) -> (r: String)
    ensures
        r@ == s@,
{
    s.to_owned()
}

// ---------------------------------------------------------------------------
// Executable operations
// ---------------------------------------------------------------------------

/// Unicode white space test (`char::is_whitespace`).
pub fn char_is_white(c: char) -> (r: bool)
    ensures
        r == is_white(c),
{
    let u = c as u32;
    (0x9 <= u && u <= 0xD) || u == 0x20 || u == 0x85 || u == 0xA0 || u == 0x1680 || (0x2000
        <= u && u <= 0x200A) || u == 0x2028 || u == 0x2029 || u == 0x202F || u == 0x205F || u
        == 0x3000
}

/// The character sequence of a string slice as a vector.
pub fn chars_of(s: &str) -> (r: Vec<char>)
    ensures
        r@ == s@,
{
    let mut r: Vec<char> = Vec::new();
    for c in it: s.chars()
        invariant
            r@ == it.seq().take(it.index() as int),
            it.seq() == s@,
    {
        r.push(c);
    }
    r
}

/// A string made of `v[from..to]`.
pub fn string_of_range(v: &Vec<char>, from: usize, to: usize) -> (r: String)
    requires
        from <= to <= v.len(),
    ensures
        r@ == v@.subrange(from as int, to as int),
{
    let mut r = String::new();
    let mut i = from;
    while i < to
        invariant
            from <= i <= to <= v.len(),
            r@ == v@.subrange(from as int, i as int),
        decreases to - i,
    {
        push_char(&mut r, v[i]);
        assert(v@.subrange(from as int, i + 1) =~= v@.subrange(from as int, i as int).push(v@[i as int]));
        i += 1;
    }
    r
}

/// A string made of all of `v`.
pub fn string_of(v: &Vec<char>) -> (r: String)
    ensures
        r@ == v@,
{
    let r = string_of_range(v, 0, v.len());
    assert(v@.subrange(0, v@.len() as int) =~= v@);
    r
}

/// `s` starts with `p`.
pub fn starts_with(s: &str, p: &str) -> (r: bool)
    ensures
        r == has_prefix(s@, p@),
{
    let sv = chars_of(s);
    let pv = chars_of(p);
    vec_has_prefix_at(&sv, &pv, 0)
}

/// `p` occurs in `s` at position `i`.
pub fn vec_has_prefix_at(s: &Vec<char>, p: &Vec<char>, i: usize) -> (r: bool)
    requires
        i <= s.len(),
    ensures
        r == occurs_at(s@, p@, i as int),
        i == 0 ==> (r == has_prefix(s@, p@)),
{
    if p.len() > s.len() - i {
        return false;
    }
    let mut k: usize = 0;
    while k < p.len()
        invariant
            i + p.len() <= s.len(),
            k <= p.len(),
            forall|j: int| 0 <= j < k ==> s@[i + j] == p@[j],
        decreases p.len() - k,
    {
        if s[i + k] != p[k] {
            assert(s@.subrange(i as int, i + p.len())[k as int] != p@[k as int]);
            return false;
        }
        k += 1;
    }
    assert(s@.subrange(i as int, i + p.len()) =~= p@);
    true
}

/// `p` occurs somewhere in `s`.
pub fn vec_contains(s: &Vec<char>, p: &Vec<char>) -> (r: bool)
    ensures
        r == contains_seq(s@, p@),
{
    if p.len() > s.len() {
        return false;
    }
    if p.len() == 0 {
        assert(s@.subrange(0, 0) =~= p@);
        assert(occurs_at(s@, p@, 0));
        return true;
    }
    let mut i: usize = 0;
    while i <= s.len() - p.len()
        invariant
            1 <= p.len() <= s.len(),
            i <= s.len() - p.len() + 1,
            forall|j: int| 0 <= j < i ==> !occurs_at(s@, p@, j),
        decreases s.len() - p.len() + 1 - i,
    {
        if vec_has_prefix_at(s, p, i) {
            return true;
        }
        i += 1;
    }
    assert forall|j: int| !occurs_at(s@, p@, j) by {
        if occurs_at(s@, p@, j) {
            assert(j < i);
        }
    }
    false
}

/// `p` occurs somewhere in `s` (`str::contains` with a string pattern).
pub fn contains(s: &str, p: &str) -> (r: bool)
    ensures
        r == contains_seq(s@, p@),
{
    let sv = chars_of(s);
    let pv = chars_of(p);
    vec_contains(&sv, &pv)
}

/// `s` equals `t`.
pub fn str_eq(s: &str, t: &str) -> (r: bool)
    ensures
        r == (s@ == t@),
{
    let sv = chars_of(s);
    let tv = chars_of(t);
    if sv.len() != tv.len() {
        return false;
    }
    let r = vec_has_prefix_at(&sv, &tv, 0);
    assert(sv@ =~= sv@.subrange(0, tv@.len() as int));
    r
}

/// Position of the first `c` in `v` (`v.len()` when absent).
pub fn vec_first_pos(v: &Vec<char>, c: char) -> (r: usize)
    ensures
        r == first_pos(v@, c),
{
    let mut i: usize = 0;
    while i < v.len()
        invariant
            i <= v.len(),
            forall|j: int| 0 <= j < i ==> v@[j] != c,
        decreases v.len() - i,
    {
        if v[i] == c {
            proof {
                lemma_first_pos_unique(v@, c, i as int);
            }
            return i;
        }
        i += 1;
    }
    proof {
        lemma_first_pos_unique(v@, c, i as int);
    }
    i
}

/// Position of the last `c` in `v`, if any.
pub fn vec_last_pos(v: &Vec<char>, c: char) -> (r: Option<usize>)
    ensures
        r matches Some(k) ==> k == last_pos(v@, c),
        r is None ==> last_pos(v@, c) == -1,
{
    let mut i: usize = v.len();
    while i > 0
        invariant
            i <= v.len(),
            forall|j: int| i <= j < v.len() ==> v@[j] != c,
        decreases i,
    {
        if v[i - 1] == c {
            proof {
                lemma_last_pos_unique(v@, c, i - 1);
            }
            return Some(i - 1);
        }
        i -= 1;
    }
    proof {
        lemma_last_pos_unique(v@, c, -1);
    }
    None
}

/// The part of `s` before the first `c` (`s.split(c).next()`).
pub fn prefix_before(s: &str, c: char) -> (r: String)
    ensures
        r@ == before_first(s@, c),
{
    let v = chars_of(s);
    let k = vec_first_pos(&v, c);
    proof {
        lemma_first_pos(v@, c);
    }
    string_of_range(&v, 0, k)
}

/// The part of `s` after the last `c` (`s.rsplit(c).next()`).
pub fn suffix_after(s: &str, c: char) -> (r: String)
    ensures
        r@ == after_last(s@, c),
{
    let v = chars_of(s);
    let k = vec_last_pos(&v, c);
    proof {
        lemma_last_pos(v@, c);
    }
    match k {
        Some(k) => {
            assert(k < v@.len());
            string_of_range(&v, k + 1, v.len())
        },
        None => {
            assert(v@.skip(0) =~= v@.subrange(0, v@.len() as int));
            string_of_range(&v, 0, v.len())
        },
    }
}

/// The part of `s` after the last `a` or `b` (`s.rsplit([a, b]).next()`).
pub fn suffix_after_either(s: &str, a: char, b: char) -> (r: String)
    ensures
        r@ == after_last_either(s@, a, b),
{
    let v = chars_of(s);
    let mut i: usize = v.len();
    while i > 0
        invariant
            i <= v.len(),
            v@ == s@,
            forall|j: int| i <= j < v.len() ==> v@[j] != a && v@[j] != b,
        decreases i,
    {
        if v[i - 1] == a || v[i - 1] == b {
            proof {
                lemma_last_pos_either_unique(v@, a, b, i - 1);
            }
            return string_of_range(&v, i, v.len());
        }
        i -= 1;
    }
    proof {
        lemma_last_pos_either_unique(v@, a, b, -1);
    }
    assert(v@.skip(0) =~= v@.subrange(0, v@.len() as int));
    string_of_range(&v, 0, v.len())
}

/// The pieces of `s` between the occurrences of `c` (`s.split(c)`).
pub fn split_pieces(s: &str, c: char) -> (r: Vec<String>)
    ensures
        r@.map_values(|p: String| p@) == split_on(s@, c),
{
    let v = chars_of(s);
    let mut out: Vec<String> = Vec::new();
    let mut start: usize = 0;
    assert(v@.skip(0) =~= v@);
    assert(out@.map_values(|p: String| p@) + split_on(v@, c) =~= split_on(v@, c));
    loop
        invariant
            start <= v.len(),
            v@ == s@,
            out@.map_values(|p: String| p@) + split_on(v@.skip(start as int), c) == split_on(
                v@,
                c,
            ),
        decreases v.len() - start,
    {
        let ghost rest = v@.skip(start as int);
        let mut k: usize = start;
        while k < v.len() && v[k] != c
            invariant
                start <= k <= v.len(),
                forall|j: int| start <= j < k ==> v@[j] != c,
            decreases v.len() - k,
        {
            k += 1;
        }
        proof {
            assert forall|j: int| 0 <= j < k - start implies rest[j] != c by {
                assert(rest[j] == v@[start + j]);
            }
            if k < v.len() {
                assert(rest[k - start] == v@[k as int]);
            }
            lemma_first_pos_unique(rest, c, k - start);
        }
        let piece = string_of_range(&v, start, k);
        let ghost before = out@;
        out.push(piece);
        assert(rest.take(k - start) =~= v@.subrange(start as int, k as int));
        if k == v.len() {
            assert(out@.map_values(|p: String| p@) =~= before.map_values(|p: String| p@) + seq![
                rest,
            ]);
            assert(rest.take(k - start) =~= rest);
            return out;
        }
        assert(rest.skip(k - start + 1) =~= v@.skip(k + 1));
        assert(out@.map_values(|p: String| p@) =~= before.map_values(|p: String| p@) + seq![
            rest.take(k - start),
        ]);
        start = k + 1;
    }
}

/// `s` without a leading `p`, if `s` starts with `p` (`str::strip_prefix`).
pub fn strip_prefix(s: &str, p: &str) -> (r: Option<String>)
    ensures
        has_prefix(s@, p@) <==> r is Some,
        r matches Some(t) ==> t@ == s@.skip(p@.len() as int),
{
    let sv = chars_of(s);
    let pv = chars_of(p);
    if vec_has_prefix_at(&sv, &pv, 0) {
        Some(string_of_range(&sv, pv.len(), sv.len()))
    } else {
        None
    }
}

/// `s` without leading and trailing white space (`str::trim`).
pub fn trimmed(s: &str) -> (r: String)
    ensures
        r@ == trim(s@),
{
    let v = chars_of(s);
    let mut a: usize = 0;
    while a < v.len() && char_is_white(v[a])
        invariant
            a <= v.len(),
            forall|j: int| 0 <= j < a ==> is_white(v@[j]),
        decreases v.len() - a,
    {
        a += 1;
    }
    proof {
        lemma_trim_start_skip(v@, a as int);
        if a < v.len() {
            assert(v@.skip(a as int)[0] == v@[a as int]);
        }
    }
    assert(trim_start(v@) == v@.skip(a as int));
    let mut b: usize = v.len();
    while b > a && char_is_white(v[b - 1])
        invariant
            a <= b <= v.len(),
            forall|j: int| b <= j < v.len() ==> is_white(v@[j]),
        decreases b,
    {
        b -= 1;
    }
    let ghost t = v@.skip(a as int);
    proof {
        assert forall|j: int| (b - a) <= j < t.len() implies is_white(t[j]) by {
            assert(t[j] == v@[a + j]);
        }
        lemma_trim_end_take(t, (b - a) as int);
        let u = t.take((b - a) as int);
        if b > a {
            assert(u.last() == v@[b - 1]);
        }
        assert(u =~= v@.subrange(a as int, b as int));
    }
    string_of_range(&v, a, b)
}

/// Left-to-right replacement of every occurrence of `p` (non-empty) by `r`
/// (`str::replace`).
pub fn replace(s: &str, p: &str, with: &str) -> (r: String)
    requires
        p@.len() > 0,
    ensures
        r@ == replace_all(s@, p@, with@),
{
    let sv = chars_of(s);
    let pv = chars_of(p);
    let mut out = String::new();
    let mut i: usize = 0;
    assert(sv@.skip(0) =~= sv@);
    assert(out@ + replace_all(sv@, pv@, with@) =~= replace_all(sv@, pv@, with@));
    while i < sv.len()
        invariant
            i <= sv.len(),
            pv@.len() > 0,
            sv@ == s@,
            pv@ == p@,
            out@ + replace_all(sv@.skip(i as int), pv@, with@) == replace_all(sv@, pv@, with@),
        decreases sv.len() - i,
    {
        let ghost rest = sv@.skip(i as int);
        if pv.len() <= sv.len() - i && vec_has_prefix_at(&sv, &pv, i) {
            assert(rest.take(pv@.len() as int) =~= sv@.subrange(i as int, i + pv@.len()));
            assert(rest.skip(pv@.len() as int) =~= sv@.skip(i + pv@.len()));
            let ghost old_out = out@;
            push_str(&mut out, with);
            assert(out@ + replace_all(sv@.skip(i + pv@.len()), pv@, with@) =~= old_out + replace_all(
                rest,
                pv@,
                with@,
            ));
            i = i + pv.len();
        } else {
            let ghost old_out = out@;
            push_char(&mut out, sv[i]);
            assert(rest.drop_first() =~= sv@.skip(i + 1));
            proof {
                if pv@.len() <= rest.len() {
                    assert(rest.take(pv@.len() as int) != pv@) by {
                        if rest.take(pv@.len() as int) == pv@ {
                            assert(sv@.subrange(i as int, i + pv@.len()) =~= rest.take(
                                pv@.len() as int,
                            ));
                        }
                    }
                }
            }
            assert(out@ + replace_all(sv@.skip(i + 1), pv@, with@) =~= old_out + replace_all(
                rest,
                pv@,
                with@,
            ));
            i = i + 1;
        }
    }
    assert(sv@.skip(i as int) =~= Seq::<char>::empty());
    out
}

/// The character sequences of a list of string slices.
pub open spec fn views(l: Seq<&str>) -> Seq<Seq<char>> {
    l.map_values(|x: &str| x@)
}

/// `s` is one of the strings of `list` (`<[&str]>::contains`).
pub fn in_list(s: &str, list: &[&str]) -> (r: bool)
    ensures
        r == views(list@).contains(s@),
{
    let mut i: usize = 0;
    while i < list.len()
        invariant
            i <= list@.len(),
            forall|j: int| 0 <= j < i ==> list@[j]@ != s@,
        decreases list.len() - i,
    {
        if str_eq(list[i], s) {
            assert(views(list@)[i as int] == s@);
            return true;
        }
        i += 1;
    }
    assert forall|j: int| 0 <= j < views(list@).len() implies views(list@)[j] != s@ by {
        assert(views(list@)[j] == list@[j]@);
    }
    false
}

/// Decimal text of an unsigned number (`Display` for integers).
pub fn nat_to_text(n: u128) -> (r: String)
    ensures
        r@ == nat_text(n as nat),
    decreases n,
{
    if n < 10 {
        let mut r = String::new();
        push_char(&mut r, digit(n as u8));
        r
    } else {
        let mut r = nat_to_text(n / 10);
        push_char(&mut r, digit((n % 10) as u8));
        r
    }
}

/// The character of a decimal digit.
pub fn digit(d: u8) -> (c: char)
    requires
        d < 10,
    ensures
        c == digit_char(d as nat),
{
    if d == 0 {
        '0'
    } else if d == 1 {
        '1'
    } else if d == 2 {
        '2'
    } else if d == 3 {
        '3'
    } else if d == 4 {
        '4'
    } else if d == 5 {
        '5'
    } else if d == 6 {
        '6'
    } else if d == 7 {
        '7'
    } else if d == 8 {
        '8'
    } else {
        '9'
    }
}

/// Decimal text of a signed number (`Display` for integers).
pub fn int_to_text(i: i128) -> (r: String)
    requires
        i > i128::MIN,
    ensures
        r@ == int_text(i as int),
{
    if i < 0 {
        let mut r = String::new();
        push_char(&mut r, '-');
        let t = nat_to_text((-i) as u128);
        push_str(&mut r, t.as_str());
        r
    } else {
        nat_to_text(i as u128)
    }
}

} // verus!
