//! The INI codec: a bidirectional mapping between the on-disk
//! `[section]` / `key=value` text and an in-memory section table, plus the
//! flattening of a table into `section.name` keys and its inverse.
//!
//! A document is held as a list of sections, each with a list of key/value
//! entries; section names are unique and so are the keys within a section.
//! Its meaning is the map of maps `doc_view`.

use vstd::prelude::*;
use vstd::string::*;
use crate::strutil::{str_eq, pairs_to_map, distinct_keys, spec_join_key, join_key, upsert_pair,
    lemma_pairs_to_map_update, lemma_pairs_to_map_dom};

verus! {

/// One parsed section: its name and its key/value entries.
pub type IniSections = Vec<(String, Vec<(String, String)>)>;

/// The view of a document: sections and entries as character sequences.
pub type DocView = Seq<(Seq<char>, Seq<(Seq<char>, Seq<char>)>)>;

/// Well-formed document: distinct section names, distinct keys per section.
pub open spec fn wf_doc(d: DocView) -> bool {
    &&& forall|i: int, j: int| 0 <= i < j < d.len() ==> d[i].0 !== d[j].0
    &&& forall|i: int| 0 <= i < d.len() ==> distinct_keys(#[trigger] d[i].1)
}

/// The mapping a document describes.
pub open spec fn doc_view(d: DocView) -> Map<Seq<char>, Map<Seq<char>, Seq<char>>>
    decreases d.len(),
{
    if d.len() == 0 {
        Map::empty()
    } else {
        doc_view(d.drop_last()).insert(d.last().0, pairs_to_map(d.last().1))
    }
}

/// The entries of one section of the mapping, or empty where there is none.
pub open spec fn section_of(
    m: Map<Seq<char>, Map<Seq<char>, Seq<char>>>,
    s: Seq<char>,
) -> Map<Seq<char>, Seq<char>> {
    if m.dom().contains(s) {
        m[s]
    } else {
        Map::empty()
    }
}

pub proof fn lemma_doc_view_dom(d: DocView, s: Seq<char>)
    ensures
        doc_view(d).dom().contains(s) <==> exists|i: int| 0 <= i < d.len() && d[i].0 == s,
    decreases d.len(),
{
    if d.len() > 0 {
        lemma_doc_view_dom(d.drop_last(), s);
        if d.last().0 == s {
            assert(d[d.len() - 1].0 == s);
        } else {
            assert(forall|i: int| 0 <= i < d.len() - 1 ==> d.drop_last()[i] == d[i]);
        }
    }
}

pub proof fn lemma_doc_view_index(d: DocView, i: int)
    requires
        wf_doc(d),
        0 <= i < d.len(),
    ensures
        doc_view(d).dom().contains(d[i].0),
        doc_view(d)[d[i].0] == pairs_to_map(d[i].1),
    decreases d.len(),
{
    if i == d.len() - 1 {
        lemma_doc_view_dom(d, d[i].0);
    } else {
        assert(forall|j: int| 0 <= j < d.len() - 1 ==> d.drop_last()[j] == d[j]);
        lemma_doc_view_index(d.drop_last(), i);
        assert(d[i].0 !== d.last().0);
    }
}

pub proof fn lemma_doc_view_update(d: DocView, i: int, entries: Seq<(Seq<char>, Seq<char>)>)
    requires
        wf_doc(d),
        0 <= i < d.len(),
    ensures
        doc_view(d.update(i, (d[i].0, entries))) == doc_view(d).insert(
            d[i].0,
            pairs_to_map(entries),
        ),
    decreases d.len(),
{
    let t = d.update(i, (d[i].0, entries));
    if i == d.len() - 1 {
        assert(t.drop_last() =~= d.drop_last());
        assert(t.last() == (d[i].0, entries));
    } else {
        assert(forall|j: int| 0 <= j < d.len() - 1 ==> d.drop_last()[j] == d[j]);
        lemma_doc_view_update(d.drop_last(), i, entries);
        assert(t.drop_last() =~= d.drop_last().update(i, (d[i].0, entries)));
        assert(t.last() == d.last());
        assert(d.last().0 !== d[i].0);
        assert(doc_view(t) =~= doc_view(d).insert(d[i].0, pairs_to_map(entries)));
    }
}

/// Inserts a key/value under a section, creating the section on first use.
pub fn doc_insert(doc: &mut IniSections, section: &str, key: String, value: String)
    requires
        wf_doc(old(doc).deep_view()),
    ensures
        wf_doc(final(doc).deep_view()),
        doc_view(final(doc).deep_view()) == doc_view(old(doc).deep_view()).insert(
            section@,
            section_of(doc_view(old(doc).deep_view()), section@).insert(key@, value@),
        ),
{
    let ghost d0 = doc.deep_view();
    let n = doc.len();
    let mut i: usize = 0;
    while i < n
        invariant
            0 <= i <= n,
            n == doc.len(),
            *doc == *old(doc),
            d0 == doc.deep_view(),
            wf_doc(d0),
            forall|j: int| 0 <= j < i ==> d0[j].0 !== section@,
        decreases n - i,
    {
        if str_eq(doc[i].0.as_str(), section) {
            proof {
                lemma_doc_view_index(d0, i as int);
            }
            let mut sec = doc.remove(i);
            let ghost entries0 = sec.1.deep_view();
            upsert_pair(&mut sec.1, key, value);
            let ghost entries1 = sec.1.deep_view();
            doc.insert(i, sec);
            proof {
                assert(doc.deep_view() =~= d0.update(i as int, (section@, entries1)));
                assert(d0[i as int].0 == section@);
                lemma_doc_view_update(d0, i as int, entries1);
                assert(section_of(doc_view(d0), section@) == pairs_to_map(entries0));
                assert(forall|j: int|
                    0 <= j < doc.deep_view().len() && j != i ==> doc.deep_view()[j] == d0[j]);
                assert(wf_doc(doc.deep_view()));
            }
            return ;
        }
        i += 1;
    }
    proof {
        lemma_doc_view_dom(d0, section@);
        assert(!doc_view(d0).dom().contains(section@));
    }
    let mut entries: Vec<(String, String)> = Vec::new();
    entries.push((key, value));
    let ghost ev = entries.deep_view();
    doc.push((section.to_owned(), entries));
    proof {
        assert(ev.len() == 1);
        assert(ev.last() == (key@, value@));
        assert(ev.drop_last() =~= Seq::<(Seq<char>, Seq<char>)>::empty());
        assert(pairs_to_map(ev.drop_last()) =~= Map::<Seq<char>, Seq<char>>::empty());
        assert(pairs_to_map(ev) =~= Map::<Seq<char>, Seq<char>>::empty().insert(key@, value@));
        let d1 = doc.deep_view();
        assert(d1.drop_last() =~= d0);
        assert(d1.last() == (section@, ev));
        assert(wf_doc(d1)) by {
            assert(forall|j: int| 0 <= j < d0.len() ==> d1[j] == d0[j]);
        }
        assert(section_of(doc_view(d0), section@) =~= Map::<Seq<char>, Seq<char>>::empty());
    }
}

// ------------------------------------------------------------------
// Text helpers: whitespace trimming and searching.
// ------------------------------------------------------------------

pub open spec fn is_space(c: char) -> bool {
    c == ' ' || c == '\t' || c == '\r'
}

pub open spec fn trim_front(s: Seq<char>) -> Seq<char>
    decreases s.len(),
{
    if s.len() > 0 && is_space(s[0]) {
        trim_front(s.drop_first())
    } else {
        s
    }
}

pub open spec fn trim_back(s: Seq<char>) -> Seq<char>
    decreases s.len(),
{
    if s.len() > 0 && is_space(s.last()) {
        trim_back(s.drop_last())
    } else {
        s
    }
}

/// The sequence with leading and trailing spaces, tabs and carriage
/// returns removed.
pub open spec fn spec_trim(s: Seq<char>) -> Seq<char> {
    trim_back(trim_front(s))
}

proof fn lemma_trim_front_skip(s: Seq<char>, a: int)
    requires
        0 <= a <= s.len(),
        forall|k: int| 0 <= k < a ==> is_space(s[k]),
        a == s.len() || !is_space(s[a]),
    ensures
        trim_front(s) == s.subrange(a, s.len() as int),
    decreases a,
{
    if a == 0 {
        assert(trim_front(s) == s);
        assert(s.subrange(0, s.len() as int) =~= s);
    } else {
        let t = s.drop_first();
        assert(is_space(s[0]));
        assert(forall|k: int| 0 <= k < a - 1 ==> t[k] == s[k + 1]);
        lemma_trim_front_skip(t, a - 1);
        assert(t.subrange(a - 1, t.len() as int) =~= s.subrange(a, s.len() as int));
    }
}

proof fn lemma_trim_back_skip(s: Seq<char>, b: int)
    requires
        0 <= b <= s.len(),
        forall|k: int| b <= k < s.len() ==> is_space(s[k]),
        b == 0 || !is_space(s[b - 1]),
    ensures
        trim_back(s) == s.subrange(0, b),
    decreases s.len() - b,
{
    if b == s.len() {
        assert(trim_back(s) == s);
        assert(s.subrange(0, b) =~= s);
    } else {
        let t = s.drop_last();
        assert(is_space(s.last()));
        lemma_trim_back_skip(t, b);
        assert(t.subrange(0, b) =~= s.subrange(0, b));
    }
}

/// The first index at or after `lo` holding no space, else `hi`.
fn scan_spaces(s: &str, lo: usize, hi: usize) -> (a: usize)
    requires
        lo <= hi <= s@.len(),
    ensures
        lo <= a <= hi,
        forall|k: int| lo <= k < a ==> is_space(s@[k]),
        a < hi ==> !is_space(s@[a as int]),
{
    let mut a: usize = lo;
    while a < hi
        invariant
            lo <= a <= hi <= s@.len(),
            forall|k: int| lo <= k < a ==> is_space(s@[k]),
        decreases hi - a,
    {
        let c = s.get_char(a);
        if c == ' ' || c == '\t' || c == '\r' {
            a += 1;
        } else {
            assert(!is_space(s@[a as int]));
            return a;
        }
    }
    a
}

/// The bound below `hi` after trailing spaces, scanning no lower than `lo`.
fn scan_spaces_back(s: &str, lo: usize, hi: usize) -> (b: usize)
    requires
        lo <= hi <= s@.len(),
    ensures
        lo <= b <= hi,
        forall|k: int| b <= k < hi ==> is_space(s@[k]),
        b > lo ==> !is_space(s@[b - 1]),
{
    let mut b: usize = hi;
    while b > lo
        invariant
            lo <= b <= hi <= s@.len(),
            forall|k: int| b <= k < hi ==> is_space(s@[k]),
        decreases b,
    {
        let c = s.get_char(b - 1);
        if c == ' ' || c == '\t' || c == '\r' {
            assert(is_space(s@[b - 1]));
            b -= 1;
        } else {
            assert(!is_space(s@[b - 1]));
            return b;
        }
    }
    b
}

/// The bounds of the trimmed part of `s[lo..hi]`.
pub fn trim_bounds(s: &str, lo: usize, hi: usize) -> (r: (usize, usize))
    requires
        lo <= hi <= s@.len(),
    ensures
        lo <= r.0 <= r.1 <= hi,
        s@.subrange(r.0 as int, r.1 as int) == spec_trim(s@.subrange(lo as int, hi as int)),
{
    let ghost x = s@.subrange(lo as int, hi as int);
    proof {
        assert(forall|k: int| 0 <= k < x.len() ==> x[k] == s@[k + lo]);
    }
    let a = scan_spaces(s, lo, hi);
    proof {
        lemma_trim_front_skip(x, a - lo);
        assert(x.subrange(a - lo, x.len() as int) =~= s@.subrange(a as int, hi as int));
    }
    if a == hi {
        proof {
            assert(trim_front(x).len() == 0);
            assert(trim_back(trim_front(x)) == trim_front(x));
            assert(s@.subrange(hi as int, hi as int) =~= trim_front(x));
        }
        return (hi, hi);
    }
    let ghost y = s@.subrange(a as int, hi as int);
    proof {
        assert(forall|k: int| 0 <= k < y.len() ==> y[k] == s@[k + a]);
    }
    let b = scan_spaces_back(s, a + 1, hi);
    proof {
        if b == a + 1 {
            assert(!is_space(s@[a as int]));
            assert(!is_space(s@[b - 1]));
        }
        lemma_trim_back_skip(y, b - a);
        assert(y.subrange(0, b - a) =~= s@.subrange(a as int, b as int));
    }
    (a, b)
}

/// The position of the first occurrence of a character, else -1.
pub open spec fn index_of_first(s: Seq<char>, t: char) -> int
    decreases s.len(),
{
    if s.len() == 0 {
        -1
    } else if s[0] == t {
        0
    } else {
        let r = index_of_first(s.drop_first(), t);
        if r == -1 {
            -1
        } else {
            r + 1
        }
    }
}

pub proof fn lemma_index_of_first_found(s: Seq<char>, t: char, e: int)
    requires
        0 <= e < s.len(),
        s[e] == t,
        forall|k: int| 0 <= k < e ==> s[k] != t,
    ensures
        index_of_first(s, t) == e,
    decreases s.len(),
{
    if e > 0 {
        let r = s.drop_first();
        assert(forall|k: int| 0 <= k < r.len() ==> r[k] == s[k + 1]);
        lemma_index_of_first_found(r, t, e - 1);
    }
}

pub proof fn lemma_index_of_first_none(s: Seq<char>, t: char)
    requires
        forall|k: int| 0 <= k < s.len() ==> s[k] != t,
    ensures
        index_of_first(s, t) == -1,
    decreases s.len(),
{
    if s.len() > 0 {
        let r = s.drop_first();
        assert(forall|k: int| 0 <= k < r.len() ==> r[k] == s[k + 1]);
        lemma_index_of_first_none(r, t);
    }
}

/// The index of the first occurrence of `t` in `s[lo..hi]`, or `hi`.
pub fn find_char(s: &str, lo: usize, hi: usize, t: char) -> (i: usize)
    requires
        lo <= hi <= s@.len(),
    ensures
        lo <= i <= hi,
        forall|k: int| lo <= k < i ==> s@[k] != t,
        i < hi ==> s@[i as int] == t,
{
    let mut i: usize = lo;
    while i < hi
        invariant
            lo <= i <= hi <= s@.len(),
            forall|k: int| lo <= k < i ==> s@[k] != t,
        decreases hi - i,
    {
        let c = s.get_char(i);
        if c == t {
            return i;
        }
        i += 1;
    }
    i
}

// ------------------------------------------------------------------
// Parsing.
// ------------------------------------------------------------------

/// The lines of a text, split at every newline.
pub open spec fn split_lines(s: Seq<char>) -> Seq<Seq<char>>
    decreases s.len(),
{
    let i = index_of_first(s, '\n');
    if 0 <= i < s.len() {
        seq![s.subrange(0, i)] + split_lines(s.subrange(i + 1, s.len() as int))
    } else {
        seq![s]
    }
}

/// Processes lines in order: empty and comment lines are skipped, a
/// `[name]` header switches the current section, and a `key=value` line
/// inserts under the current section; lines before any header and lines
/// without `=` are dropped. Sections never gain an entry do not appear.
pub open spec fn parse_lines(
    lines: Seq<Seq<char>>,
    cur: Option<Seq<char>>,
    acc: Map<Seq<char>, Map<Seq<char>, Seq<char>>>,
) -> Map<Seq<char>, Map<Seq<char>, Seq<char>>>
    decreases lines.len(),
{
    if lines.len() == 0 {
        acc
    } else {
        let l = spec_trim(lines[0]);
        let rest = lines.drop_first();
        if l.len() == 0 {
            parse_lines(rest, cur, acc)
        } else if l[0] == ';' || l[0] == '#' {
            parse_lines(rest, cur, acc)
        } else if l.len() >= 2 && l[0] == '[' && l.last() == ']' {
            parse_lines(rest, Some(spec_trim(l.subrange(1, l.len() - 1))), acc)
        } else {
            let e = index_of_first(l, '=');
            if e == -1 {
                parse_lines(rest, cur, acc)
            } else {
                match cur {
                    Option::None => parse_lines(rest, cur, acc),
                    Option::Some(sec) => {
                        let k = spec_trim(l.subrange(0, e));
                        let v = spec_trim(l.subrange(e + 1, l.len() as int));
                        parse_lines(rest, cur, acc.insert(sec, section_of(acc, sec).insert(k, v)))
                    },
                }
            }
        }
    }
}

/// The section table described by an INI text.
pub open spec fn spec_parse_ini(content: Seq<char>) -> Map<Seq<char>, Map<Seq<char>, Seq<char>>> {
    parse_lines(split_lines(content), Option::None, Map::empty())
}

/// Parses INI text into a section table. Unknown line forms are skipped
/// and a section without entries is dropped, so a malformed text yields
/// what its well-formed lines describe.
pub fn parse_ini_file(content: &str) -> (r: IniSections)
    requires
        content@.len() < usize::MAX,
    ensures
        wf_doc(r.deep_view()),
        doc_view(r.deep_view()) == spec_parse_ini(content@),
{
    let n = content.unicode_len();
    proof {
        assert(content@.subrange(0, n as int) =~= content@);
    }
    let mut doc: IniSections = Vec::new();
    let mut cur: Option<String> = None;
    let mut pos: usize = 0;
    proof {
        assert(doc.deep_view() =~= Seq::<(Seq<char>, Seq<(Seq<char>, Seq<char>)>)>::empty());
        assert(doc_view(doc.deep_view()) =~= Map::<Seq<char>, Map<Seq<char>, Seq<char>>>::empty());
    }
    let ghost mut lines_rest: Seq<Seq<char>> = split_lines(content@);
    while pos <= n
        invariant
            pos <= n + 1,
            n == content@.len(),
            n < usize::MAX,
            wf_doc(doc.deep_view()),
            pos <= n ==> lines_rest == split_lines(content@.subrange(pos as int, n as int)),
            pos == n + 1 ==> lines_rest.len() == 0,
            parse_lines(lines_rest, cur.deep_view(), doc_view(doc.deep_view())) == spec_parse_ini(
                content@,
            ),
        decreases n + 1 - pos,
    {
        let ghost suffix = content@.subrange(pos as int, n as int);
        let le = find_char(content, pos, n, '\n');
        let ghost line = content@.subrange(pos as int, le as int);
        proof {
            assert(forall|k: int| 0 <= k < suffix.len() ==> suffix[k] == content@[k + pos]);
            if le < n {
                lemma_index_of_first_found(suffix, '\n', le - pos);
                assert(suffix.subrange(0, le - pos) =~= line);
                assert(suffix.subrange(le - pos + 1, suffix.len() as int) =~= content@.subrange(
                    le + 1,
                    n as int,
                ));
                assert(split_lines(suffix) == seq![line] + split_lines(
                    content@.subrange(le + 1, n as int),
                ));
            } else {
                lemma_index_of_first_none(suffix, '\n');
                assert(suffix =~= line);
                assert(split_lines(suffix) == seq![line]);
            }
            assert(lines_rest[0] == line);
        }
        let ghost rest_after = lines_rest.drop_first();
        proof {
            if le < n {
                assert(rest_after =~= split_lines(content@.subrange(le + 1, n as int)));
            } else {
                assert(rest_after =~= Seq::<Seq<char>>::empty());
            }
        }
        // process the line [pos, le)
        let (a, b) = trim_bounds(content, pos, le);
        let ghost l = spec_trim(line);
        proof {
            assert(l == content@.subrange(a as int, b as int));
            assert(forall|k: int| 0 <= k < l.len() ==> l[k] == content@[k + a]);
        }
        if a == b {
            // empty line
        } else {
            let c0 = content.get_char(a);
            assert(c0 == l[0]);
            if c0 == ';' || c0 == '#' {
                // comment
            } else if b - a >= 2 && c0 == '[' && content.get_char(b - 1) == ']' {
                // section header
                assert(l.last() == content@[b - 1]);
                let (a2, b2) = trim_bounds(content, a + 1, b - 1);
                proof {
                    assert(content@.subrange(a + 1, b - 1) =~= l.subrange(1, l.len() - 1));
                }
                let name = content.substring_char(a2, b2).to_owned();
                assert(name@ == spec_trim(l.subrange(1, l.len() - 1)));
                cur = Some(name);
            } else {
                proof {
                    if l.len() >= 2 && l[0] == '[' && l.last() == ']' {
                        assert(content@[b - 1] == l.last());
                        assert(false);
                    }
                }
                let e = find_char(content, a, b, '=');
                if e == b {
                    proof {
                        lemma_index_of_first_none(l, '=');
                    }
                    // no assignment: skipped
                } else {
                    proof {
                        lemma_index_of_first_found(l, '=', e - a);
                    }
                    match &cur {
                        None => {
                            // entry before any section header: dropped
                        },
                        Some(sec) => {
                            let (ka, kb) = trim_bounds(content, a, e);
                            let (va, vb) = trim_bounds(content, e + 1, b);
                            proof {
                                assert(content@.subrange(a as int, e as int) =~= l.subrange(
                                    0,
                                    e - a,
                                ));
                                assert(content@.subrange(e + 1, b as int) =~= l.subrange(
                                    e - a + 1,
                                    l.len() as int,
                                ));
                            }
                            let key = content.substring_char(ka, kb).to_owned();
                            let value = content.substring_char(va, vb).to_owned();
                            let sec_copy = sec.clone();
                            doc_insert(&mut doc, sec_copy.as_str(), key, value);
                        },
                    }
                }
            }
        }
        pos = le + 1;
        proof {
            lines_rest = rest_after;
        }
    }
    proof {
        assert(lines_rest.len() == 0);
    }
    doc
}

// ------------------------------------------------------------------
// Generation.
// ------------------------------------------------------------------

/// The text of one section's entries, one `key=value` line each.
pub open spec fn gen_entries(ps: Seq<(Seq<char>, Seq<char>)>) -> Seq<char>
    decreases ps.len(),
{
    if ps.len() == 0 {
        Seq::empty()
    } else {
        gen_entries(ps.drop_last()) + ps.last().0 + seq!['='] + ps.last().1 + seq!['\n']
    }
}

/// The text of one section: header, entries, one blank separator line.
pub open spec fn gen_section(s: (Seq<char>, Seq<(Seq<char>, Seq<char>)>)) -> Seq<char> {
    seq!['['] + s.0 + seq![']', '\n'] + gen_entries(s.1) + seq!['\n']
}

/// The text of a whole document, sections in order.
pub open spec fn spec_generate_ini(d: DocView) -> Seq<char>
    decreases d.len(),
{
    if d.len() == 0 {
        Seq::empty()
    } else {
        spec_generate_ini(d.drop_last()) + gen_section(d.last())
    }
}

/// Serializes a section table to INI text: a `[section]` header, one
/// `key=value` line per entry, and a blank line after each section.
pub fn generate_ini_file(doc: &IniSections) -> (r: String)
    ensures
        r@ == spec_generate_ini(doc.deep_view()),
{
    let ghost d = doc.deep_view();
    let mut out = String::new();
    let n = doc.len();
    let mut i: usize = 0;
    proof {
        assert(d.subrange(0, 0) =~= Seq::<(Seq<char>, Seq<(Seq<char>, Seq<char>)>)>::empty());
    }
    while i < n
        invariant
            0 <= i <= n,
            n == doc.len(),
            d == doc.deep_view(),
            out@ == spec_generate_ini(d.subrange(0, i as int)),
        decreases n - i,
    {
        out.append("[");
        out.append(doc[i].0.as_str());
        out.append("]\n");
        let m = doc[i].1.len();
        let ghost ps = d[i as int].1;
        let ghost head = spec_generate_ini(d.subrange(0, i as int)) + seq!['['] + d[i as int].0
            + seq![']', '\n'];
        proof {
            reveal_strlit("[");
            reveal_strlit("]\n");
            assert(out@ =~= head + gen_entries(ps.subrange(0, 0)));
        }
        let mut j: usize = 0;
        while j < m
            invariant
                0 <= j <= m,
                0 <= i < n,
                n == doc.len(),
                m == doc[i as int].1.len(),
                d == doc.deep_view(),
                ps == d[i as int].1,
                out@ == head + gen_entries(ps.subrange(0, j as int)),
            decreases m - j,
        {
            out.append(doc[i].1[j].0.as_str());
            out.append("=");
            out.append(doc[i].1[j].1.as_str());
            out.append("\n");
            proof {
                reveal_strlit("=");
                reveal_strlit("\n");
                assert(ps.subrange(0, j + 1).drop_last() =~= ps.subrange(0, j as int));
                assert(ps.subrange(0, j + 1).last() == ps[j as int]);
                assert(out@ =~= head + gen_entries(ps.subrange(0, j + 1)));
            }
            j += 1;
        }
        out.append("\n");
        proof {
            reveal_strlit("\n");
            assert(ps.subrange(0, m as int) =~= ps);
            assert(d.subrange(0, i + 1).drop_last() =~= d.subrange(0, i as int));
            assert(d.subrange(0, i + 1).last() == d[i as int]);
            assert(out@ =~= spec_generate_ini(d.subrange(0, i + 1)));
        }
        i += 1;
    }
    proof {
        assert(d.subrange(0, n as int) =~= d);
    }
    out
}

// ------------------------------------------------------------------
// Flattening a table into `section.name` keys, and its inverse.
// ------------------------------------------------------------------

/// One section's entries under their flattened keys.
pub open spec fn flat_section(s: (Seq<char>, Seq<(Seq<char>, Seq<char>)>)) -> Seq<
    (Seq<char>, Seq<char>),
> {
    Seq::new(s.1.len(), |j: int| (spec_join_key(s.0, s.1[j].0), s.1[j].1))
}

/// All entries of a document under their flattened keys, in order.
pub open spec fn spec_flatten(d: DocView) -> Seq<(Seq<char>, Seq<char>)>
    decreases d.len(),
{
    if d.len() == 0 {
        Seq::empty()
    } else {
        flat_section(d[0]) + spec_flatten(d.drop_first())
    }
}

proof fn lemma_flatten_snoc(d: DocView, i: int)
    requires
        0 <= i < d.len(),
    ensures
        spec_flatten(d.subrange(0, i + 1)) == spec_flatten(d.subrange(0, i)) + flat_section(d[i]),
    decreases i,
{
    let t = d.subrange(0, i + 1);
    if i == 0 {
        assert(t.drop_first() =~= d.subrange(0, 0));
        assert(spec_flatten(d.subrange(0, 0)) == Seq::<(Seq<char>, Seq<char>)>::empty());
        assert(spec_flatten(t) =~= spec_flatten(d.subrange(0, 0)) + flat_section(d[0]));
    } else {
        let dd = d.drop_first();
        lemma_flatten_snoc(dd, i - 1);
        assert(t[0] == d[0]);
        assert(t.drop_first() =~= dd.subrange(0, i));
        assert(d.subrange(0, i)[0] == d[0]);
        assert(d.subrange(0, i).drop_first() =~= dd.subrange(0, i - 1));
        assert(dd[i - 1] == d[i]);
        assert(spec_flatten(t) == flat_section(d[0]) + (spec_flatten(dd.subrange(0, i - 1))
            + flat_section(d[i])));
        assert(flat_section(d[0]) + (spec_flatten(dd.subrange(0, i - 1)) + flat_section(d[i]))
            =~= (flat_section(d[0]) + spec_flatten(dd.subrange(0, i - 1))) + flat_section(d[i]));
    }
}

/// Flattens a section table into `section.name` keyed pairs, sections and
/// entries in order.
pub fn flatten_for_presets(doc: &IniSections) -> (r: Vec<(String, String)>)
    ensures
        r.deep_view() == spec_flatten(doc.deep_view()),
{
    let ghost d = doc.deep_view();
    let mut r: Vec<(String, String)> = Vec::new();
    let n = doc.len();
    let mut i: usize = 0;
    proof {
        assert(r.deep_view() =~= spec_flatten(d.subrange(0, 0)));
    }
    while i < n
        invariant
            0 <= i <= n,
            n == doc.len(),
            d == doc.deep_view(),
            r.deep_view() == spec_flatten(d.subrange(0, i as int)),
        decreases n - i,
    {
        let m = doc[i].1.len();
        let ghost base = spec_flatten(d.subrange(0, i as int));
        let mut j: usize = 0;
        proof {
            assert(r.deep_view() =~= base + flat_section(d[i as int]).subrange(0, 0));
        }
        while j < m
            invariant
                0 <= j <= m,
                0 <= i < n,
                n == doc.len(),
                m == doc[i as int].1.len(),
                d == doc.deep_view(),
                base == spec_flatten(d.subrange(0, i as int)),
                r.deep_view() == base + flat_section(d[i as int]).subrange(0, j as int),
            decreases m - j,
        {
            let key = join_key(doc[i].0.as_str(), doc[i].1[j].0.as_str());
            let value = doc[i].1[j].1.clone();
            let ghost dv0 = r.deep_view();
            r.push((key, value));
            proof {
                assert(key@ == spec_join_key(d[i as int].0, d[i as int].1[j as int].0));
                assert(value@ == d[i as int].1[j as int].1);
                assert(flat_section(d[i as int])[j as int] == (key@, value@));
                let dv1 = r.deep_view();
                assert(dv1.len() == dv0.len() + 1);
                assert(forall|t: int| 0 <= t < dv0.len() ==> dv1[t] == dv0[t]);
                assert(dv1[dv0.len() as int] == (key@, value@));
                assert(dv1 =~= base + flat_section(d[i as int]).subrange(0, j + 1));
            }
            j += 1;
        }
        proof {
            assert(flat_section(d[i as int]).subrange(0, m as int) =~= flat_section(d[i as int]));
            lemma_flatten_snoc(d, i as int);
        }
        i += 1;
    }
    proof {
        assert(d.subrange(0, n as int) =~= d);
    }
    r
}

/// Splits a flattened key that holds exactly one dot into section and
/// name; any other key yields nothing.
pub open spec fn split_single_dot(k: Seq<char>) -> Option<(Seq<char>, Seq<char>)> {
    let i = index_of_first(k, '.');
    if 0 <= i < k.len() {
        let rest = k.subrange(i + 1, k.len() as int);
        if index_of_first(rest, '.') == -1 {
            Option::Some((k.subrange(0, i), rest))
        } else {
            Option::None
        }
    } else {
        Option::None
    }
}

/// Rebuilds a section table from flattened pairs, in order; a pair whose
/// key does not hold exactly one dot is silently dropped.
pub open spec fn spec_unflatten(
    ps: Seq<(Seq<char>, Seq<char>)>,
    acc: Map<Seq<char>, Map<Seq<char>, Seq<char>>>,
) -> Map<Seq<char>, Map<Seq<char>, Seq<char>>>
    decreases ps.len(),
{
    if ps.len() == 0 {
        acc
    } else {
        let rest = ps.drop_first();
        match split_single_dot(ps[0].0) {
            Option::None => spec_unflatten(rest, acc),
            Option::Some((sec, name)) => spec_unflatten(
                rest,
                acc.insert(sec, section_of(acc, sec).insert(name, ps[0].1)),
            ),
        }
    }
}

/// Rebuilds a section table from `section.name` keyed pairs. A key with
/// no dot or more than one dot is silently dropped.
pub fn unflatten(pairs: &Vec<(String, String)>) -> (r: IniSections)
    ensures
        wf_doc(r.deep_view()),
        doc_view(r.deep_view()) == spec_unflatten(pairs.deep_view(), Map::empty()),
{
    let ghost ps = pairs.deep_view();
    let mut doc: IniSections = Vec::new();
    let n = pairs.len();
    let mut i: usize = 0;
    proof {
        assert(doc.deep_view() =~= Seq::<(Seq<char>, Seq<(Seq<char>, Seq<char>)>)>::empty());
        assert(doc_view(doc.deep_view()) =~= Map::<Seq<char>, Map<Seq<char>, Seq<char>>>::empty());
        assert(ps.subrange(0, ps.len() as int) =~= ps);
    }
    while i < n
        invariant
            0 <= i <= n,
            n == pairs.len(),
            ps == pairs.deep_view(),
            wf_doc(doc.deep_view()),
            spec_unflatten(ps.subrange(i as int, ps.len() as int), doc_view(doc.deep_view()))
                == spec_unflatten(ps, Map::empty()),
        decreases n - i,
    {
        let ghost rem = ps.subrange(i as int, ps.len() as int);
        proof {
            assert(rem[0] == ps[i as int]);
            assert(rem.drop_first() =~= ps.subrange(i + 1, ps.len() as int));
        }
        let key = &pairs[i].0;
        let klen = key.as_str().unicode_len();
        let ghost kv = key@;
        let d1 = find_char(key.as_str(), 0, klen, '.');
        if d1 == klen {
            proof {
                lemma_index_of_first_none(kv, '.');
                assert(split_single_dot(kv) is None);
            }
        } else {
            proof {
                lemma_index_of_first_found(kv, '.', d1 as int);
            }
            let ghost rest = kv.subrange(d1 + 1, kv.len() as int);
            proof {
                assert(forall|k: int| 0 <= k < rest.len() ==> rest[k] == kv[k + d1 + 1]);
            }
            let d2 = find_char(key.as_str(), d1 + 1, klen, '.');
            if d2 < klen {
                proof {
                    lemma_index_of_first_found(rest, '.', d2 - d1 - 1);
                    assert(split_single_dot(kv) is None);
                }
            } else {
                proof {
                    lemma_index_of_first_none(rest, '.');
                    assert(split_single_dot(kv) == Option::Some(
                        (kv.subrange(0, d1 as int), rest),
                    ));
                }
                let section = key.as_str().substring_char(0, d1).to_owned();
                let name = key.as_str().substring_char(d1 + 1, klen).to_owned();
                let value = pairs[i].1.clone();
                doc_insert(&mut doc, section.as_str(), name, value);
            }
        }
        i += 1;
    }
    proof {
        assert(ps.subrange(n as int, ps.len() as int).len() == 0);
    }
    doc
}

// ------------------------------------------------------------------
// The flatten/unflatten round trip.
// ------------------------------------------------------------------

/// A sequence holding no dot.
pub open spec fn dot_free(s: Seq<char>) -> bool {
    forall|k: int| 0 <= k < s.len() ==> s[k] != '.'
}

/// With the first pair's key fresh among the rest, the map of the whole
/// list is the map of the rest plus that pair.
proof fn lemma_ptm_cons(p: (Seq<char>, Seq<char>), rest: Seq<(Seq<char>, Seq<char>)>)
    requires
        forall|j: int| 0 <= j < rest.len() ==> rest[j].0 !== p.0,
    ensures
        pairs_to_map(seq![p] + rest) == pairs_to_map(rest).insert(p.0, p.1),
    decreases rest.len(),
{
    let s = seq![p] + rest;
    if rest.len() == 0 {
        reveal_with_fuel(pairs_to_map, 3);
        assert(s.drop_last() =~= Seq::<(Seq<char>, Seq<char>)>::empty());
        assert(s.last() == p);
        assert(pairs_to_map(s) =~= pairs_to_map(rest).insert(p.0, p.1));
    } else {
        let rd = rest.drop_last();
        assert(forall|j: int| 0 <= j < rd.len() ==> rd[j] == rest[j]);
        lemma_ptm_cons(p, rd);
        assert(s.drop_last() =~= seq![p] + rd);
        assert(s.last() == rest.last());
        assert(pairs_to_map(s) == pairs_to_map(rd).insert(p.0, p.1).insert(
            rest.last().0,
            rest.last().1,
        ));
        assert(rest.last().0 !== p.0);
        assert(pairs_to_map(s) =~= pairs_to_map(rest).insert(p.0, p.1));
    }
}

/// Unflattening a concatenation is unflattening the parts in turn.
proof fn lemma_unflatten_append(
    a: Seq<(Seq<char>, Seq<char>)>,
    b: Seq<(Seq<char>, Seq<char>)>,
    acc: Map<Seq<char>, Map<Seq<char>, Seq<char>>>,
)
    ensures
        spec_unflatten(a + b, acc) == spec_unflatten(b, spec_unflatten(a, acc)),
    decreases a.len(),
{
    if a.len() == 0 {
        assert(a + b =~= b);
    } else {
        let s = a + b;
        assert(s[0] == a[0]);
        assert(s.drop_first() =~= a.drop_first() + b);
        match split_single_dot(a[0].0) {
            Option::None => {
                lemma_unflatten_append(a.drop_first(), b, acc);
            },
            Option::Some((sec, name)) => {
                lemma_unflatten_append(
                    a.drop_first(),
                    b,
                    acc.insert(sec, section_of(acc, sec).insert(name, a[0].1)),
                );
            },
        }
    }
}

/// Splitting a joined dot-free section and name gives them back.
proof fn lemma_split_join(sec: Seq<char>, name: Seq<char>)
    requires
        dot_free(sec),
        dot_free(name),
    ensures
        split_single_dot(spec_join_key(sec, name)) == Option::Some((sec, name)),
{
    let k = spec_join_key(sec, name);
    assert(k.len() == sec.len() + 1 + name.len());
    assert(k[sec.len() as int] == '.');
    assert(forall|j: int| 0 <= j < sec.len() ==> k[j] == sec[j]);
    lemma_index_of_first_found(k, '.', sec.len() as int);
    let rest = k.subrange(sec.len() as int + 1, k.len() as int);
    assert(rest =~= name);
    lemma_index_of_first_none(rest, '.');
    assert(k.subrange(0, sec.len() as int) =~= sec);
}

/// Unflattening the flat pairs of one nonempty section inserts exactly
/// that section's mapping, merged over what the accumulator held for it.
proof fn lemma_unflatten_section(
    sec: Seq<char>,
    entries: Seq<(Seq<char>, Seq<char>)>,
    acc: Map<Seq<char>, Map<Seq<char>, Seq<char>>>,
)
    requires
        dot_free(sec),
        forall|j: int| 0 <= j < entries.len() ==> dot_free(#[trigger] entries[j].0),
        distinct_keys(entries),
        entries.len() > 0,
    ensures
        spec_unflatten(flat_section((sec, entries)), acc) == acc.insert(
            sec,
            section_of(acc, sec).union_prefer_right(pairs_to_map(entries)),
        ),
    decreases entries.len(),
{
    let fs = flat_section((sec, entries));
    let e0 = entries[0];
    lemma_split_join(sec, e0.0);
    assert(fs[0] == (spec_join_key(sec, e0.0), e0.1));
    let s0 = section_of(acc, sec);
    let acc1 = acc.insert(sec, s0.insert(e0.0, e0.1));
    if entries.len() == 1 {
        reveal_with_fuel(spec_unflatten, 3);
        reveal_with_fuel(pairs_to_map, 3);
        assert(fs.drop_first() =~= Seq::<(Seq<char>, Seq<char>)>::empty());
        assert(spec_unflatten(fs, acc) == acc1);
        assert(pairs_to_map(entries) =~= Map::<Seq<char>, Seq<char>>::empty().insert(e0.0, e0.1))
            by {
            assert(entries.drop_last() =~= Seq::<(Seq<char>, Seq<char>)>::empty());
            assert(entries.last() == e0);
        }
        assert(s0.insert(e0.0, e0.1) =~= s0.union_prefer_right(pairs_to_map(entries)));
    } else {
        let rest = entries.drop_first();
        assert(forall|j: int| 0 <= j < rest.len() ==> rest[j] == entries[j + 1]);
        assert(fs.drop_first() =~= flat_section((sec, rest)));
        lemma_unflatten_section(sec, rest, acc1);
        assert(spec_unflatten(fs, acc) == acc1.insert(
            sec,
            section_of(acc1, sec).union_prefer_right(pairs_to_map(rest)),
        ));
        assert(section_of(acc1, sec) == s0.insert(e0.0, e0.1));
        assert(forall|j: int| 0 <= j < rest.len() ==> rest[j].0 !== e0.0);
        lemma_ptm_cons(e0, rest);
        assert(seq![e0] + rest =~= entries);
        assert(pairs_to_map(entries) == pairs_to_map(rest).insert(e0.0, e0.1));
        lemma_pairs_to_map_dom(rest, e0.0);
        assert(!pairs_to_map(rest).dom().contains(e0.0));
        assert(s0.insert(e0.0, e0.1).union_prefer_right(pairs_to_map(rest))
            =~= s0.union_prefer_right(pairs_to_map(entries)));
        assert(acc1.insert(
            sec,
            s0.insert(e0.0, e0.1).union_prefer_right(pairs_to_map(rest)),
        ) =~= acc.insert(sec, s0.union_prefer_right(pairs_to_map(entries))));
    }
}

/// The meaning of a document with its first section set apart.
proof fn lemma_doc_view_cons(s0: (Seq<char>, Seq<(Seq<char>, Seq<char>)>), rest: DocView)
    requires
        forall|j: int| 0 <= j < rest.len() ==> rest[j].0 !== s0.0,
    ensures
        doc_view(seq![s0] + rest) == doc_view(rest).insert(s0.0, pairs_to_map(s0.1)),
    decreases rest.len(),
{
    let d = seq![s0] + rest;
    if rest.len() == 0 {
        reveal_with_fuel(doc_view, 3);
        assert(d.drop_last() =~= Seq::<(Seq<char>, Seq<(Seq<char>, Seq<char>)>)>::empty());
        assert(d.last() == s0);
        assert(doc_view(d) =~= doc_view(rest).insert(s0.0, pairs_to_map(s0.1)));
    } else {
        let rd = rest.drop_last();
        assert(forall|j: int| 0 <= j < rd.len() ==> rd[j] == rest[j]);
        lemma_doc_view_cons(s0, rd);
        assert(d.drop_last() =~= seq![s0] + rd);
        assert(d.last() == rest.last());
        assert(rest.last().0 !== s0.0);
        assert(doc_view(d) =~= doc_view(rest).insert(s0.0, pairs_to_map(s0.1)));
    }
}

/// Unflattening the flattening of a document whose sections are fresh in
/// the accumulator adds exactly the document's mapping.
proof fn lemma_unflatten_flatten(d: DocView, acc: Map<Seq<char>, Map<Seq<char>, Seq<char>>>)
    requires
        wf_doc(d),
        forall|i: int| 0 <= i < d.len() ==> dot_free(#[trigger] d[i].0),
        forall|i: int, j: int|
            0 <= i < d.len() && 0 <= j < d[i].1.len() ==> dot_free(#[trigger] d[i].1[j].0),
        forall|i: int| 0 <= i < d.len() ==> #[trigger] d[i].1.len() > 0,
        forall|i: int| 0 <= i < d.len() ==> !acc.dom().contains(#[trigger] d[i].0),
    ensures
        spec_unflatten(spec_flatten(d), acc) == acc.union_prefer_right(doc_view(d)),
    decreases d.len(),
{
    if d.len() == 0 {
        assert(doc_view(d) =~= Map::<Seq<char>, Map<Seq<char>, Seq<char>>>::empty());
        assert(acc.union_prefer_right(doc_view(d)) =~= acc);
    } else {
        let s0 = d[0];
        let rest = d.drop_first();
        assert(forall|j: int| 0 <= j < rest.len() ==> rest[j] == d[j + 1]);
        lemma_unflatten_append(flat_section(s0), spec_flatten(rest), acc);
        lemma_unflatten_section(s0.0, s0.1, acc);
        assert(section_of(acc, s0.0) =~= Map::<Seq<char>, Seq<char>>::empty());
        let acc1 = acc.insert(s0.0, pairs_to_map(s0.1));
        assert(section_of(acc, s0.0).union_prefer_right(pairs_to_map(s0.1)) =~= pairs_to_map(
            s0.1,
        ));
        lemma_unflatten_flatten(rest, acc1);
        assert(spec_unflatten(spec_flatten(d), acc) == acc1.union_prefer_right(doc_view(rest)));
        lemma_doc_view_cons(s0, rest);
        assert(seq![s0] + rest =~= d);
        assert(doc_view(d) == doc_view(rest).insert(s0.0, pairs_to_map(s0.1)));
        lemma_doc_view_dom(rest, s0.0);
        assert(!doc_view(rest).dom().contains(s0.0));
        assert(acc1.union_prefer_right(doc_view(rest)) =~= acc.union_prefer_right(doc_view(d)));
    }
}

/// Round trip: unflattening the flattening of a table gives the table's
/// mapping back, for tables whose section names and keys hold no dot and
/// whose sections each hold at least one entry. Every flattened key then
/// holds exactly one dot.
pub proof fn lemma_flatten_unflatten_roundtrip(d: DocView)
    requires
        wf_doc(d),
        forall|i: int| 0 <= i < d.len() ==> dot_free(#[trigger] d[i].0),
        forall|i: int, j: int|
            0 <= i < d.len() && 0 <= j < d[i].1.len() ==> dot_free(#[trigger] d[i].1[j].0),
        forall|i: int| 0 <= i < d.len() ==> #[trigger] d[i].1.len() > 0,
    ensures
        spec_unflatten(spec_flatten(d), Map::empty()) == doc_view(d),
{
    let acc = Map::<Seq<char>, Map<Seq<char>, Seq<char>>>::empty();
    lemma_unflatten_flatten(d, acc);
    assert(acc.union_prefer_right(doc_view(d)) =~= doc_view(d));
}

} // verus!
