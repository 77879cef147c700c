//! Character-level helpers: Unicode whitespace, trimming and searching.
use vstd::prelude::*;

verus! {

/// Unicode `White_Space`: the characters that `char::is_whitespace` accepts.
pub open spec fn is_ws(c: char) -> bool {
    let u = c as u32;
    (0x09 <= u && u <= 0x0D) || u == 0x20 || u == 0x85 || u == 0xA0 || u == 0x1680
        || (0x2000 <= u && u <= 0x200A) || u == 0x2028 || u == 0x2029 || u == 0x202F
        || u == 0x205F || u == 0x3000
}

/// `s` with its leading whitespace removed.
pub open spec fn trim_start(s: Seq<char>) -> Seq<char>
    decreases s.len(),
{
    if s.len() > 0 && is_ws(s[0]) {
        trim_start(s.drop_first())
    } else {
        s
    }
}

/// `s` with its trailing whitespace removed.
pub open spec fn trim_end(s: Seq<char>) -> Seq<char>
    decreases s.len(),
{
    if s.len() > 0 && is_ws(s.last()) {
        trim_end(s.drop_last())
    } else {
        s
    }
}

/// `s` with whitespace removed at both ends.
pub open spec fn trim(s: Seq<char>) -> Seq<char> {
    trim_end(trim_start(s))
}

/// Neither end of `s` is whitespace.
pub open spec fn is_trimmed(s: Seq<char>) -> bool {
    s.len() == 0 || (!is_ws(s[0]) && !is_ws(s.last()))
}

/// Every character of `s` is whitespace.
pub open spec fn is_blank(s: Seq<char>) -> bool {
    forall|i: int| 0 <= i < s.len() ==> is_ws(#[trigger] s[i])
}

/// `i` is the position of the first `c` in `s`.
pub open spec fn is_first(s: Seq<char>, c: char, i: int) -> bool {
    0 <= i < s.len() && s[i] == c && forall|j: int| 0 <= j < i ==> s[j] != c
}

/// The position of the first `c` in `s`, if there is one.
pub open spec fn first_index(s: Seq<char>, c: char) -> Option<int> {
    if exists|i: int| is_first(s, c, i) {
        Some(choose|i: int| is_first(s, c, i))
    } else {
        None
    }
}

/// `s` holds no `c`.
pub open spec fn lacks(s: Seq<char>, c: char) -> bool {
    forall|i: int| 0 <= i < s.len() ==> s[i] != c
}

/// The first occurrence is unique, so `first_index` names it.
pub proof fn lemma_first_index(s: Seq<char>, c: char, i: int)
    requires
        is_first(s, c, i),
    ensures
        first_index(s, c) == Some(i),
{
    let k = choose|k: int| is_first(s, c, k);
    assert(is_first(s, c, k));
    if k < i {
        assert(s[k] != c);
    } else if i < k {
        assert(s[i] != c);
    }
}

/// Without any `c` there is no first one.
pub proof fn lemma_first_index_none(s: Seq<char>, c: char)
    requires
        lacks(s, c),
    ensures
        first_index(s, c) is None,
{
    assert forall|i: int| !is_first(s, c, i) by {
        if 0 <= i < s.len() {
            assert(s[i] != c);
        }
    }
}

/// A string with whitespace-free ends is its own trim.
pub proof fn lemma_trim_trimmed(s: Seq<char>)
    requires
        is_trimmed(s),
    ensures
        trim(s) == s,
{
}

/// Whitespace in front is dropped by the trim.
pub proof fn lemma_trim_start_ws_prefix(w: Seq<char>, s: Seq<char>)
    requires
        is_blank(w),
    ensures
        trim_start(w + s) == trim_start(s),
    decreases w.len(),
{
    if w.len() > 0 {
        assert((w + s).drop_first() =~= w.drop_first() + s);
        lemma_trim_start_ws_prefix(w.drop_first(), s);
    } else {
        assert(w + s =~= s);
    }
}

/// A blank string trims to nothing.
pub proof fn lemma_trim_blank(s: Seq<char>)
    requires
        is_blank(s),
    ensures
        trim(s).len() == 0,
{
    lemma_trim_start_ws_prefix(s, Seq::empty());
    assert(s + Seq::<char>::empty() =~= s);
}

/// `char::is_whitespace`, decided by the code point.
pub fn is_whitespace(c: char) -> (r: bool)
    ensures
        r == is_ws(c),
{
    let u = c as u32;
    (0x09 <= u && u <= 0x0D) || u == 0x20 || u == 0x85 || u == 0xA0 || u == 0x1680 || (0x2000
        <= u && u <= 0x200A) || u == 0x2028 || u == 0x2029 || u == 0x202F || u == 0x205F || u
        == 0x3000
}

/// Removes leading and trailing whitespace.
pub fn trim_str(s: &str) -> (r: String)
    ensures
        r@ == trim(s@),
{
    let n = s.unicode_len();
    let mut i: usize = 0;
    assert(s@.skip(0) =~= s@);
    while i < n && is_whitespace(s.get_char(i))
        invariant
            n == s@.len(),
            i <= n,
            trim_start(s@) == trim_start(s@.skip(i as int)),
        decreases n - i,
    {
        assert(s@.skip(i as int).drop_first() =~= s@.skip(i + 1));
        i = i + 1;
    }
    assert(trim_start(s@) == s@.skip(i as int));
    let mut j: usize = n;
    while j > i && is_whitespace(s.get_char(j - 1))
        invariant
            n == s@.len(),
            i <= j <= n,
            trim_end(s@.skip(i as int)) == trim_end(s@.subrange(i as int, j as int)),
        decreases j,
    {
        assert(s@.subrange(i as int, j as int).drop_last() =~= s@.subrange(i as int, j - 1));
        j = j - 1;
    }
    assert(s@.skip(i as int) =~= s@.subrange(i as int, n as int));
    let part = s.substring_char(i, j);
    String::from_str(part)
}

/// The position of the first `c` in `s`, if any.
pub fn find_char(s: &str, c: char) -> (r: Option<usize>)
    ensures
        r matches Some(i) ==> first_index(s@, c) == Some(i as int),
        r is None ==> first_index(s@, c) is None,
{
    let n = s.unicode_len();
    let mut i: usize = 0;
    while i < n
        invariant
            n == s@.len(),
            i <= n,
            forall|j: int| 0 <= j < i ==> s@[j] != c,
        decreases n - i,
    {
        if s.get_char(i) == c {
            proof {
                lemma_first_index(s@, c, i as int);
            }
            return Some(i);
        }
        i = i + 1;
    }
    proof {
        lemma_first_index_none(s@, c);
    }
    None
}

} // verus!
