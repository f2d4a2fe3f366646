//! Character-sequence utilities shared by the detection strategies: substring
//! search (case-sensitive and ASCII-case-insensitive), first-occurrence
//! scanning, trimming, and conversions between strings and character vectors.

use vstd::prelude::*;

verus! {

use vstd::string::StrSliceExecFns;

/// Relies on std's `String::push`: appends one character at the end.
pub assume_specification[ String::push ](s: &mut String, ch: char)
    ensures
        final(s)@ == old(s)@.push(ch),
;

/// ASCII lower-casing of a single character; everything outside `A`..`Z` is
/// left unchanged.
pub open spec fn lower_char(c: char) -> char {
    if 'A' <= c && c <= 'Z' {
        ((c as u32) + 32) as char
    } else {
        c
    }
}

/// ASCII upper-casing of a single character; everything outside `a`..`z` is
/// left unchanged.
pub open spec fn upper_char(c: char) -> char {
    if 'a' <= c && c <= 'z' {
        ((c as u32) - 32) as char
    } else {
        c
    }
}

/// ASCII lower-casing of a whole sequence.
pub open spec fn lower_seq(s: Seq<char>) -> Seq<char> {
    s.map_values(|c: char| lower_char(c))
}

/// `needle` occurs in `hay` starting at position `i`.
pub open spec fn matches_at(hay: Seq<char>, needle: Seq<char>, i: int) -> bool {
    0 <= i && i + needle.len() <= hay.len() && hay.subrange(i, i + needle.len()) == needle
}

/// `needle` occurs somewhere in `hay`.
pub open spec fn contains_seq(hay: Seq<char>, needle: Seq<char>) -> bool {
    exists|i: int| matches_at(hay, needle, i)
}

/// `needle` (given lower-case) occurs in `hay` up to ASCII case.
pub open spec fn contains_ci(hay: Seq<char>, needle: Seq<char>) -> bool {
    contains_seq(lower_seq(hay), needle)
}

/// Position of the first occurrence of `c` in `s`, if any.
pub open spec fn first_pos(s: Seq<char>, c: char) -> Option<int>
    decreases s.len(),
{
    if s.len() == 0 {
        None
    } else if s[0] == c {
        Some(0int)
    } else {
        match first_pos(s.drop_first(), c) {
            Some(i) => Some(i + 1),
            None => None,
        }
    }
}

/// `first_pos` really is the least position holding `c`.
pub proof fn lemma_first_pos(s: Seq<char>, c: char)
    ensures
        match first_pos(s, c) {
            Some(i) => 0 <= i < s.len() && s[i] == c && (forall|k: int|
                0 <= k < i ==> s[k] != c),
            None => forall|k: int| 0 <= k < s.len() ==> s[k] != c,
        },
    decreases s.len(),
{
    if s.len() != 0 && s[0] != c {
        lemma_first_pos(s.drop_first(), c);
        match first_pos(s.drop_first(), c) {
            Some(i) => {
                assert forall|k: int| 0 <= k < i + 1 implies s[k] != c by {
                    if k > 0 {
                        assert(s.drop_first()[k - 1] != c);
                    }
                }
            }
            None => {
                assert forall|k: int| 0 <= k < s.len() implies s[k] != c by {
                    if k > 0 {
                        assert(s.drop_first()[k - 1] != c);
                    }
                }
            }
        }
    }
}

/// A position that holds `c`, with nothing but other characters before it,
/// determines `first_pos`.
pub proof fn lemma_first_pos_is(s: Seq<char>, c: char, i: int)
    requires
        0 <= i < s.len(),
        s[i] == c,
        forall|k: int| 0 <= k < i ==> s[k] != c,
    ensures
        first_pos(s, c) == Some(i),
{
    lemma_first_pos(s, c);
    match first_pos(s, c) {
        Some(j) => {
            if j < i {
                assert(s[j] != c);
            } else if j > i {
                assert(s[i] != c);
            }
        }
        None => {
            assert(s[i] != c);
        }
    }
}

/// When no position holds `c`, `first_pos` is `None`.
pub proof fn lemma_first_pos_absent(s: Seq<char>, c: char)
    requires
        forall|k: int| 0 <= k < s.len() ==> s[k] != c,
    ensures
        first_pos(s, c) is None,
{
    lemma_first_pos(s, c);
    match first_pos(s, c) {
        Some(j) => {
            assert(s[j] != c);
        }
        None => {}
    }
}

/// Copies the characters of a string slice into a vector, so the scanners can
/// index them directly.
pub fn to_chars(s: &str) -> (v: Vec<char>)
    ensures
        v@ == s@,
{
    let n = s.unicode_len();
    let mut v: Vec<char> = Vec::new();
    let mut i: usize = 0;
    while i < n
        invariant
            n == s@.len(),
            i <= n,
            v@ =~= s@.subrange(0, i as int),
        decreases n - i,
    {
        v.push(s.get_char(i));
        i += 1;
    }
    assert(v@ =~= s@);
    v
}

/// Builds a `String` back out of a character vector.
pub fn chars_to_string(v: &Vec<char>) -> (s: String)
    ensures
        s@ == v@,
{
    let mut s = String::new();
    let mut i: usize = 0;
    while i < v.len()
        invariant
            i <= v@.len(),
            s@ =~= v@.subrange(0, i as int),
        decreases v@.len() - i,
    {
        s.push(v[i]);
        i += 1;
    }
    assert(s@ =~= v@);
    s
}

/// Character-for-character equality of two vectors.
pub fn chars_eq(a: &Vec<char>, b: &Vec<char>) -> (r: bool)
    ensures
        r == (a@ == b@),
{
    if a.len() != b.len() {
        return false;
    }
    let mut i: usize = 0;
    while i < a.len()
        invariant
            a@.len() == b@.len(),
            i <= a@.len(),
            forall|k: int| 0 <= k < i ==> a@[k] == b@[k],
        decreases a@.len() - i,
    {
        if a[i] != b[i] {
            return false;
        }
        i += 1;
    }
    assert(a@ =~= b@);
    true
}

/// String-slice equality by content.
pub fn str_eq(a: &str, b: &str) -> (r: bool)
    ensures
        r == (a@ == b@),
{
    let va = to_chars(a);
    let vb = to_chars(b);
    chars_eq(&va, &vb)
}

/// ASCII lower-casing, executable form.
pub fn lower_char_exec(c: char) -> (r: char)
    ensures
        r == lower_char(c),
{
    let u = c as u32;
    if 65 <= u && u <= 90 {
        ((u + 32) as u8) as char
    } else {
        c
    }
}

/// Does `needle` occur in `hay` at exactly position `i`?
pub(crate) fn match_at_exec(hay: &Vec<char>, needle: &Vec<char>, i: usize) -> (r: bool)
    requires
        i + needle@.len() <= hay@.len(),
    ensures
        r == matches_at(hay@, needle@, i as int),
{
    let _hay_len = hay.len();
    assert(hay@.len() <= usize::MAX);
    let mut j: usize = 0;
    while j < needle.len()
        invariant
            hay@.len() <= usize::MAX,
            i + needle@.len() <= hay@.len(),
            j <= needle@.len(),
            forall|k: int| 0 <= k < j ==> hay@[i + k] == needle@[k],
        decreases needle@.len() - j,
    {
        if hay[i + j] != needle[j] {
            assert(!matches_at(hay@, needle@, i as int)) by {
                assert(hay@.subrange(i as int, i + needle@.len())[j as int] == hay@[i + j]);
            }
            return false;
        }
        j += 1;
    }
    assert(hay@.subrange(i as int, i + needle@.len()) =~= needle@);
    true
}

/// Substring search.
pub fn contains_chars(hay: &Vec<char>, needle: &Vec<char>) -> (r: bool)
    ensures
        r == contains_seq(hay@, needle@),
{
    if needle.len() > hay.len() {
        assert(!contains_seq(hay@, needle@)) by {
            if contains_seq(hay@, needle@) {
                let j = choose|j: int| matches_at(hay@, needle@, j);
            }
        }
        return false;
    }
    if needle.len() == 0 {
        assert(matches_at(hay@, needle@, 0)) by {
            assert(hay@.subrange(0, 0) =~= needle@);
        }
        return true;
    }
    let bound = hay.len() - needle.len();
    let mut i: usize = 0;
    while i <= bound
        invariant
            1 <= needle@.len() <= hay@.len(),
            hay@.len() <= usize::MAX,
            bound == hay@.len() - needle@.len(),
            i <= bound + 1,
            forall|j: int| 0 <= j < i ==> !matches_at(hay@, needle@, j),
        decreases bound + 1 - i,
    {
        if match_at_exec(hay, needle, i) {
            assert(matches_at(hay@, needle@, i as int));
            return true;
        }
        i += 1;
    }
    assert(!contains_seq(hay@, needle@)) by {
        if contains_seq(hay@, needle@) {
            let j = choose|j: int| matches_at(hay@, needle@, j);
            assert(j <= bound);
        }
    }
    false
}

/// Does `needle` (given lower-case) occur in `hay` at position `i`, up to
/// ASCII case?
fn match_at_ci_exec(hay: &Vec<char>, needle: &Vec<char>, i: usize) -> (r: bool)
    requires
        i + needle@.len() <= hay@.len(),
    ensures
        r == matches_at(lower_seq(hay@), needle@, i as int),
{
    let ghost low = lower_seq(hay@);
    assert(low.len() == hay@.len());
    let _hay_len = hay.len();
    assert(hay@.len() <= usize::MAX);
    let mut j: usize = 0;
    while j < needle.len()
        invariant
            low == lower_seq(hay@),
            low.len() == hay@.len(),
            hay@.len() <= usize::MAX,
            i + needle@.len() <= hay@.len(),
            j <= needle@.len(),
            forall|k: int| 0 <= k < j ==> low[i + k] == needle@[k],
        decreases needle@.len() - j,
    {
        let lc = lower_char_exec(hay[i + j]);
        assert(low[i + j] == lower_char(hay@[i + j]));
        if lc != needle[j] {
            assert(!matches_at(low, needle@, i as int)) by {
                assert(low.subrange(i as int, i + needle@.len())[j as int] == low[i + j]);
            }
            return false;
        }
        j += 1;
    }
    assert(low.subrange(i as int, i + needle@.len()) =~= needle@);
    true
}

/// Case-insensitive substring search, for a lower-case `needle`.
pub fn contains_chars_ci(hay: &Vec<char>, needle: &Vec<char>) -> (r: bool)
    ensures
        r == contains_ci(hay@, needle@),
{
    let ghost low = lower_seq(hay@);
    assert(low.len() == hay@.len());
    if needle.len() > hay.len() {
        assert(!contains_seq(low, needle@)) by {
            if contains_seq(low, needle@) {
                let j = choose|j: int| matches_at(low, needle@, j);
            }
        }
        return false;
    }
    if needle.len() == 0 {
        assert(matches_at(low, needle@, 0)) by {
            assert(low.subrange(0, 0) =~= needle@);
        }
        return true;
    }
    let bound = hay.len() - needle.len();
    let mut i: usize = 0;
    while i <= bound
        invariant
            low == lower_seq(hay@),
            low.len() == hay@.len(),
            1 <= needle@.len() <= hay@.len(),
            hay@.len() <= usize::MAX,
            bound == hay@.len() - needle@.len(),
            i <= bound + 1,
            forall|j: int| 0 <= j < i ==> !matches_at(low, needle@, j),
        decreases bound + 1 - i,
    {
        if match_at_ci_exec(hay, needle, i) {
            assert(matches_at(low, needle@, i as int));
            return true;
        }
        i += 1;
    }
    assert(!contains_seq(low, needle@)) by {
        if contains_seq(low, needle@) {
            let j = choose|j: int| matches_at(low, needle@, j);
            assert(j <= bound);
        }
    }
    false
}

/// First occurrence of `c` in `v` at or after `from`, as the least such
/// position.
pub fn find_char_from(v: &Vec<char>, c: char, from: usize) -> (r: Option<usize>)
    requires
        from <= v@.len(),
    ensures
        match r {
            Some(j) => from <= j < v@.len() && v@[j as int] == c && (forall|k: int|
                from <= k < j ==> v@[k] != c),
            None => forall|k: int| from <= k < v@.len() ==> v@[k] != c,
        },
{
    let mut i: usize = from;
    while i < v.len()
        invariant
            from <= i <= v@.len(),
            forall|k: int| from <= k < i ==> v@[k] != c,
        decreases v@.len() - i,
    {
        if v[i] == c {
            return Some(i);
        }
        i += 1;
    }
    None
}

/// First occurrence of `c` in `v` within `from..to`, as the least such
/// position.
pub fn find_char_in_range(v: &Vec<char>, c: char, from: usize, to: usize) -> (r: Option<usize>)
    requires
        from <= to <= v@.len(),
    ensures
        match r {
            Some(j) => from <= j < to && v@[j as int] == c && (forall|k: int|
                from <= k < j ==> v@[k] != c),
            None => forall|k: int| from <= k < to ==> v@[k] != c,
        },
{
    let mut i: usize = from;
    while i < to
        invariant
            from <= i <= to <= v@.len(),
            forall|k: int| from <= k < i ==> v@[k] != c,
        decreases to - i,
    {
        if v[i] == c {
            return Some(i);
        }
        i += 1;
    }
    None
}

/// Copies `v[from..to]` into a fresh vector.
pub fn copy_range(v: &Vec<char>, from: usize, to: usize) -> (r: Vec<char>)
    requires
        from <= to <= v@.len(),
    ensures
        r@ == v@.subrange(from as int, to as int),
{
    let mut r: Vec<char> = Vec::new();
    let mut i: usize = from;
    while i < to
        invariant
            from <= i <= to <= v@.len(),
            r@ =~= v@.subrange(from as int, i as int),
        decreases to - i,
    {
        r.push(v[i]);
        i += 1;
    }
    assert(r@ =~= v@.subrange(from as int, to as int));
    r
}

/// The white-space characters recognised by the trimmer: ASCII blanks and
/// line controls.
pub open spec fn is_space(c: char) -> bool {
    c == ' ' || c == '\t' || c == '\n' || c == '\r' || c == '\u{b}' || c == '\u{c}'
}

/// Executable form of `is_space`.
pub fn is_space_exec(c: char) -> (r: bool)
    ensures
        r == is_space(c),
{
    c == ' ' || c == '\t' || c == '\n' || c == '\r' || c == '\u{b}' || c == '\u{c}'
}

/// `s` with leading white space removed.
pub open spec fn trim_front(s: Seq<char>) -> Seq<char>
    decreases s.len(),
{
    if s.len() > 0 && is_space(s[0]) {
        trim_front(s.drop_first())
    } else {
        s
    }
}

/// `s` with trailing white space removed.
pub open spec fn trim_back(s: Seq<char>) -> Seq<char>
    decreases s.len(),
{
    if s.len() > 0 && is_space(s[s.len() - 1]) {
        trim_back(s.drop_last())
    } else {
        s
    }
}

/// `s` with white space removed from both ends.
pub open spec fn trim_seq(s: Seq<char>) -> Seq<char> {
    trim_back(trim_front(s))
}

/// `trim_front` keeps exactly the suffix from the first non-space position.
proof fn lemma_trim_front_at(s: Seq<char>, i: int)
    requires
        0 <= i <= s.len(),
        forall|k: int| 0 <= k < i ==> is_space(s[k]),
        i < s.len() ==> !is_space(s[i]),
    ensures
        trim_front(s) =~= s.subrange(i, s.len() as int),
    decreases i,
{
    if i == 0 {
        assert(trim_front(s) =~= s.subrange(0, s.len() as int));
    } else {
        lemma_trim_front_at(s.drop_first(), i - 1);
        assert(s.drop_first().subrange(i - 1, s.drop_first().len() as int) =~= s.subrange(
            i,
            s.len() as int,
        ));
    }
}

/// `trim_back` keeps exactly the prefix up to the last non-space position.
proof fn lemma_trim_back_at(s: Seq<char>, i: int)
    requires
        0 <= i <= s.len(),
        forall|k: int| i <= k < s.len() ==> is_space(s[k]),
        i > 0 ==> !is_space(s[i - 1]),
    ensures
        trim_back(s) =~= s.subrange(0, i),
    decreases s.len() - i,
{
    if i == s.len() {
        if s.len() > 0 && is_space(s[s.len() - 1]) {
            assert(!is_space(s[i - 1]));
        }
        assert(trim_back(s) =~= s.subrange(0, i));
    } else {
        lemma_trim_back_at(s.drop_last(), i);
        assert(s.drop_last().subrange(0, i) =~= s.subrange(0, i));
    }
}

/// Trims white space from both ends of a character vector.
pub fn trim_chars(v: &Vec<char>) -> (r: Vec<char>)
    ensures
        r@ == trim_seq(v@),
{
    let mut lo: usize = 0;
    while lo < v.len() && is_space_exec(v[lo])
        invariant
            lo <= v@.len(),
            forall|k: int| 0 <= k < lo ==> is_space(v@[k]),
        decreases v@.len() - lo,
    {
        lo += 1;
    }
    proof {
        lemma_trim_front_at(v@, lo as int);
    }
    let ghost front = v@.subrange(lo as int, v@.len() as int);
    let mut hi: usize = v.len();
    while hi > lo && is_space_exec(v[hi - 1])
        invariant
            lo <= hi <= v@.len(),
            forall|k: int| hi <= k < v@.len() ==> is_space(v@[k]),
        decreases hi,
    {
        hi -= 1;
    }
    proof {
        assert(forall|k: int| (hi - lo) <= k < front.len() ==> is_space(front[k]));
        lemma_trim_back_at(front, hi - lo);
    }
    let mut r: Vec<char> = Vec::new();
    let mut i: usize = lo;
    while i < hi
        invariant
            lo <= i <= hi <= v@.len(),
            r@ =~= v@.subrange(lo as int, i as int),
        decreases hi - i,
    {
        r.push(v[i]);
        i += 1;
    }
    assert(r@ =~= front.subrange(0, hi - lo));
    r
}

} // verus!
