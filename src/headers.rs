//! Header blocks: free-form `Name: Value` lines read into ordered pairs, and
//! ordered pairs rendered back into such lines.
use vstd::prelude::*;
use crate::text::{
    find_char, trim_str,
    first_index, is_first, is_trimmed, is_ws, lacks, lemma_first_index, lemma_first_index_none,
    lemma_trim_trimmed, trim, trim_end, trim_start,
};

verus! {

/// A header as the contracts see it: its name and its value.
pub type HeaderSpec = (Seq<char>, Seq<char>);

/// The pairs of a vector of `(name, value)` strings.
pub open spec fn pairs_view(v: Seq<(String, String)>) -> Seq<HeaderSpec> {
    v.map_values(|p: (String, String)| (p.0@, p.1@))
}

/// The header that one line holds: the line is trimmed, skipped when empty or
/// without `:`, and otherwise cut at its first `:` into a trimmed name and a
/// trimmed value.
pub open spec fn header_of_line(l: Seq<char>) -> Option<HeaderSpec> {
    let t = trim(l);
    if t.len() == 0 {
        None
    } else {
        match first_index(t, ':') {
            Some(k) => Some((trim(t.take(k)), trim(t.skip(k + 1)))),
            None => None,
        }
    }
}

/// The headers that one line contributes: none or one.
pub open spec fn line_headers(l: Seq<char>) -> Seq<HeaderSpec> {
    match header_of_line(l) {
        Some(h) => seq![h],
        None => Seq::empty(),
    }
}

/// The headers of a block: the block is cut into lines at each `\n`, and the
/// headers of the lines follow one another in line order.
pub open spec fn headers_of(s: Seq<char>) -> Seq<HeaderSpec>
    decreases s.len(),
{
    if exists|i: int| is_first(s, '\n', i) {
        let i = choose|i: int| is_first(s, '\n', i);
        line_headers(s.take(i)) + headers_of(s.skip(i + 1))
    } else {
        line_headers(s)
    }
}

/// `name: value`, without the line break.
pub open spec fn line_text(name: Seq<char>, value: Seq<char>) -> Seq<char> {
    name + seq![':', ' '] + value
}

/// `name: value` and a line break.
pub open spec fn header_line(name: Seq<char>, value: Seq<char>) -> Seq<char> {
    line_text(name, value) + seq!['\n']
}

/// The text block of `hs`: one `Name: Value` line per header, in order.
pub open spec fn flatten(hs: Seq<HeaderSpec>) -> Seq<char>
    decreases hs.len(),
{
    if hs.len() == 0 {
        Seq::empty()
    } else {
        flatten(hs.drop_last()) + header_line(hs.last().0, hs.last().1)
    }
}

/// A header that its own line reads back unchanged: the name holds no `:`,
/// neither part holds a line break, and neither has whitespace at its ends.
pub open spec fn is_plain_header(h: HeaderSpec) -> bool {
    lacks(h.0, ':') && lacks(h.0, '\n') && lacks(h.1, '\n') && is_trimmed(h.0) && is_trimmed(h.1)
}

/// The lines of a block can be taken from the front.
pub proof fn lemma_flatten_front(h: HeaderSpec, rest: Seq<HeaderSpec>)
    ensures
        flatten(seq![h] + rest) == header_line(h.0, h.1) + flatten(rest),
    decreases rest.len(),
{
    if rest.len() == 0 {
        assert(seq![h] + rest =~= seq![h]);
        assert(seq![h].drop_last() =~= Seq::<HeaderSpec>::empty());
        assert(flatten(seq![h].drop_last()) =~= Seq::<char>::empty());
        assert(Seq::<char>::empty() + header_line(h.0, h.1) =~= header_line(h.0, h.1));
        assert(flatten(rest) =~= Seq::<char>::empty());
        assert(header_line(h.0, h.1) + Seq::<char>::empty() =~= header_line(h.0, h.1));
    } else {
        let all = seq![h] + rest;
        assert(all.drop_last() =~= seq![h] + rest.drop_last());
        assert(all.last() == rest.last());
        lemma_flatten_front(h, rest.drop_last());
        let l = header_line(h.0, h.1);
        let r = header_line(rest.last().0, rest.last().1);
        assert(l + flatten(rest.drop_last()) + r =~= l + (flatten(rest.drop_last()) + r));
    }
}

/// A plain header's line reads back as that header.
pub proof fn lemma_line_reads_back(h: HeaderSpec)
    requires
        is_plain_header(h),
    ensures
        header_of_line(line_text(h.0, h.1)) == Some(h),
{
    let (n, v) = h;
    let l = line_text(n, v);
    let t = trim(l);
    if v.len() > 0 {
        assert(l.last() == v.last());
        if n.len() > 0 {
            assert(l[0] == n[0]);
        } else {
            assert(l[0] == ':');
        }
        lemma_trim_trimmed(l);
        assert(t == l);
    } else {
        let m = n + seq![':'];
        assert(l.drop_last() =~= m);
        assert(m.last() == ':');
        assert(l.len() > 0 && l.last() == ' ');
        assert(is_ws(' '));
        assert(trim_end(l) == trim_end(m));
        assert(trim_end(l) == m);
        if n.len() > 0 {
            assert(l[0] == n[0]);
            assert(m[0] == n[0]);
        } else {
            assert(l[0] == ':');
        }
        assert(trim_start(l) == l);
        assert(t == m);
    }
    assert(t.len() > 0);
    assert(is_first(t, ':', n.len() as int)) by {
        assert forall|j: int| 0 <= j < n.len() implies t[j] != ':' by {
            assert(t[j] == n[j]);
        }
    }
    lemma_first_index(t, ':', n.len() as int);
    assert(t.take(n.len() as int) =~= n);
    lemma_trim_trimmed(n);
    let after = t.skip(n.len() as int + 1);
    if v.len() > 0 {
        assert(after =~= seq![' '] + v);
        assert(after.drop_first() =~= v);
        assert(trim_start(after) == trim_start(v));
        lemma_trim_trimmed(v);
        if v.len() > 0 {
            assert(trim_start(v) == v);
        }
        assert(trim(after) == v);
    } else {
        assert(after =~= Seq::<char>::empty());
        assert(trim(after) =~= v);
    }
}

/// Reading the text block of plain headers gives those headers back.
pub proof fn lemma_headers_of_flatten(hs: Seq<HeaderSpec>)
    requires
        forall|i: int| 0 <= i < hs.len() ==> is_plain_header(#[trigger] hs[i]),
    ensures
        headers_of(flatten(hs)) == hs,
    decreases hs.len(),
{
    if hs.len() == 0 {
        let s = flatten(hs);
        assert(s =~= Seq::<char>::empty());
        lemma_first_index_none(s, '\n');
        assert(trim(s) =~= Seq::<char>::empty());
    } else {
        let h = hs[0];
        let rest = hs.drop_first();
        assert(hs =~= seq![h] + rest);
        lemma_flatten_front(h, rest);
        assert(is_plain_header(h));
        assert forall|i: int| 0 <= i < rest.len() implies is_plain_header(#[trigger] rest[i]) by {
            assert(rest[i] == hs[i + 1]);
        }
        lemma_headers_of_flatten(rest);
        let l = line_text(h.0, h.1);
        let s = flatten(hs);
        assert(s =~= l + seq!['\n'] + flatten(rest));
        assert(is_first(s, '\n', l.len() as int)) by {
            assert forall|j: int| 0 <= j < l.len() implies s[j] != '\n' by {
                assert(s[j] == l[j]);
                if j < h.0.len() {
                    assert(l[j] == h.0[j]);
                } else if j >= h.0.len() + 2 {
                    assert(l[j] == h.1[j - h.0.len() - 2]);
                }
            }
        }
        lemma_first_index(s, '\n', l.len() as int);
        assert(s.take(l.len() as int) =~= l);
        assert(s.skip(l.len() as int + 1) =~= flatten(rest));
        lemma_line_reads_back(h);
        assert(seq![h] + rest =~= hs);
    }
}

/// Reading a block of plain headers and rendering what was read reproduces
/// the block, and what was read is the headers that the block was made from.
pub proof fn lemma_header_block_round_trip(hs: Seq<HeaderSpec>)
    requires
        forall|i: int| 0 <= i < hs.len() ==> is_plain_header(#[trigger] hs[i]),
    ensures
        headers_of(flatten(hs)) == hs,
        flatten(headers_of(flatten(hs))) == flatten(hs),
{
    lemma_headers_of_flatten(hs);
}

/// Reads one line of a header block: `None` where the line is empty after
/// trimming or holds no `:`, else the trimmed name before the first `:` and
/// the trimmed value after it.
pub fn parse_header_line(line: &str) -> (r: Option<(String, String)>)
    ensures
        r matches Some(p) ==> header_of_line(line@) == Some((p.0@, p.1@)),
        r is None ==> header_of_line(line@) is None,
{
    let t = trim_str(line);
    let ts = t.as_str();
    let n = ts.unicode_len();
    if n == 0 {
        return None;
    }
    match find_char(ts, ':') {
        Some(k) => {
            let name = trim_str(ts.substring_char(0, k));
            let value = trim_str(ts.substring_char(k + 1, n));
            assert(t@.take(k as int) =~= t@.subrange(0, k as int));
            assert(t@.skip(k + 1) =~= t@.subrange(k + 1, n as int));
            Some((name, value))
        },
        None => None,
    }
}

/// Appends the header of one line, if it has one.
fn push_line_header(out: &mut Vec<(String, String)>, line: &str)
    ensures
        pairs_view(final(out)@) == pairs_view(old(out)@) + line_headers(line@),
{
    match parse_header_line(line) {
        Some(p) => {
            out.push(p);
            assert(pairs_view(final(out)@) =~= pairs_view(old(out)@) + line_headers(line@));
        },
        None => {
            assert(pairs_view(old(out)@) + line_headers(line@) =~= pairs_view(old(out)@));
        },
    }
}

/// Reads a header block into `(name, value)` pairs in line order. Lines that
/// are blank or hold no `:` are skipped; names may repeat.
pub fn parse_headers(text: &str) -> (r: Vec<(String, String)>)
    ensures
        pairs_view(r@) == headers_of(text@),
{
    let n = text.unicode_len();
    let mut out: Vec<(String, String)> = Vec::new();
    let mut start: usize = 0;
    let mut i: usize = 0;
    assert(text@.skip(0) =~= text@);
    assert(pairs_view(out@) =~= Seq::empty());
    assert(Seq::<HeaderSpec>::empty() + headers_of(text@) =~= headers_of(text@));
    while i < n
        invariant
            n == text@.len(),
            start <= i <= n,
            forall|j: int| start <= j < i ==> text@[j] != '\n',
            pairs_view(out@) + headers_of(text@.skip(start as int)) == headers_of(text@),
        decreases n - i,
    {
        if text.get_char(i) == '\n' {
            let ghost rest = text@.skip(start as int);
            let line = text.substring_char(start, i);
            proof {
                let k = i - start;
                assert(is_first(rest, '\n', k)) by {
                    assert forall|j: int| 0 <= j < k implies rest[j] != '\n' by {
                        assert(rest[j] == text@[start + j]);
                    }
                }
                lemma_first_index(rest, '\n', k);
                assert(rest.take(k) =~= line@);
                assert(rest.skip(k + 1) =~= text@.skip(i + 1));
                assert(headers_of(rest) == line_headers(line@) + headers_of(text@.skip(i + 1)));
            }
            let ghost before = pairs_view(out@);
            push_line_header(&mut out, line);
            assert(pairs_view(out@) + headers_of(text@.skip(i + 1)) =~= before + (line_headers(
                line@,
            ) + headers_of(text@.skip(i + 1))));
            start = i + 1;
        }
        i = i + 1;
    }
    let line = text.substring_char(start, n);
    proof {
        let rest = text@.skip(start as int);
        assert(rest =~= line@);
        lemma_first_index_none(rest, '\n');
    }
    push_line_header(&mut out, line);
    out
}

/// Appends `name: value` and a line break.
fn push_header_line(out: &mut String, name: &str, value: &str)
    ensures
        final(out)@ == old(out)@ + header_line(name@, value@),
{
    out.append(name);
    proof {
        reveal_strlit(": ");
        reveal_strlit("\n");
    }
    out.append(": ");
    out.append(value);
    out.append("\n");
    assert(final(out)@ =~= old(out)@ + header_line(name@, value@));
}

/// Renders pairs as a header block: `name: value` and a line break for each,
/// in order.
pub fn flatten_headers(pairs: &Vec<(String, String)>) -> (r: String)
    ensures
        r@ == flatten(pairs_view(pairs@)),
{
    let mut out = String::new();
    let mut i: usize = 0;
    while i < pairs.len()
        invariant
            i <= pairs@.len(),
            out@ == flatten(pairs_view(pairs@.take(i as int))),
        decreases pairs@.len() - i,
    {
        let ghost hs = pairs_view(pairs@.take(i + 1));
        assert(hs.drop_last() =~= pairs_view(pairs@.take(i as int)));
        push_header_line(&mut out, pairs[i].0.as_str(), pairs[i].1.as_str());
        i = i + 1;
    }
    assert(pairs@.take(i as int) =~= pairs@);
    out
}

} // verus!
