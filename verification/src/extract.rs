//! Response extractor: pulls structured fields out of the raw, JSON-like
//! response text of the two endpoints.
//!
//! The extraction grammar is stated as recursive spec functions over
//! `Seq<char>`; the executable scanners are verified against them. Extraction
//! is tolerant: text without a structural match yields empty results, never
//! an error.

use vstd::prelude::*;
use crate::chars::{chars_string, push_all, str_chars, subchars};
use crate::find::{
    occurs_at, spec_find, lemma_spec_find, find_from, capture_end, lemma_capture_end,
    find_capture_end, spec_scan_pat, lemma_scan_pat, scan_pat, line_end, lemma_line_end,
    find_line_end, spec_rfind, rfind_in, match_at,
};

verus! {

/// The field shape a candidate title hides in.
pub open spec fn title_pat() -> Seq<char> {
    "\"title\":\""@
}

fn title_pat_vec() -> (r: Vec<char>)
    ensures
        r@ == title_pat(),
        r@.len() == 9,
{
    proof {
        reveal_strlit("\"title\":\"");
    }
    str_chars("\"title\":\"")
}

/// Every title captured at or after `from`: at each occurrence of the title
/// field shape whose value closes with a quote on the same line, the value is
/// collected and the scan resumes after the closing quote; order of
/// appearance is kept and duplicates are kept.
pub open spec fn title_list(s: Seq<char>, from: int) -> Seq<Seq<char>>
    decreases s.len() - from,
    when 0 <= from
    via title_list_dec
{
    if from + 9 > s.len() {
        Seq::empty()
    } else if s.subrange(from, from + 9) == title_pat() {
        match capture_end(s, from + 9) {
            Some(j) => seq![s.subrange(from + 9, j)] + title_list(s, j + 1),
            None => title_list(s, from + 1),
        }
    } else {
        title_list(s, from + 1)
    }
}

#[via_fn]
proof fn title_list_dec(s: Seq<char>, from: int) {
    lemma_capture_end(s, from + 9);
}

/// Positions without a title field do not contribute to the title list.
proof fn lemma_title_skip(s: Seq<char>, a: int, b: int)
    requires
        0 <= a <= b,
        forall|j: int| a <= j < b ==> !occurs_at(s, title_pat(), j),
    ensures
        title_list(s, a) == title_list(s, b),
    decreases b - a,
{
    reveal_strlit("\"title\":\"");
    if a < b {
        if a + 9 > s.len() {
            assert(title_list(s, a) == Seq::<Seq<char>>::empty());
            assert(title_list(s, b) == Seq::<Seq<char>>::empty());
        } else {
            assert(!occurs_at(s, title_pat(), a));
            assert(s.subrange(a, a + 9) != title_pat());
            lemma_title_skip(s, a + 1, b);
        }
    }
}

/// Appending one parsed value keeps the deep view in step.
pub(crate) proof fn lemma_deep_view_push(v1: Vec<String>, v2: Vec<String>, t: String)
    requires
        v2@ == v1@.push(t),
    ensures
        v2.deep_view() == v1.deep_view().push(t@),
{
    assert(v2.deep_view() =~= v1.deep_view().push(t@));
}

/// Collects every title in `raw`, in order of appearance, duplicates kept.
pub fn extract_titles(raw: &str) -> (r: Vec<String>)
    ensures
        r.deep_view() == title_list(raw@, 0),
{
    let s = str_chars(raw);
    let pat = title_pat_vec();
    let mut out: Vec<String> = Vec::new();
    let mut pos: usize = 0;
    proof {
        assert(out.deep_view() =~= Seq::<Seq<char>>::empty());
        assert(Seq::<Seq<char>>::empty() + title_list(s@, 0) =~= title_list(s@, 0));
    }
    loop
        invariant
            s@ == raw@,
            pat@ == title_pat(),
            title_pat().len() == 9,
            pos <= s@.len(),
            title_list(s@, 0) == out.deep_view() + title_list(s@, pos as int),
        decreases s@.len() + 1 - pos,
    {
        let next = find_from(&s, &pat, pos);
        match next {
            None => {
                proof {
                    lemma_spec_find(s@, pat@, pos as int);
                    lemma_title_skip(s@, pos as int, s@.len() as int);
                    assert(title_list(s@, s@.len() as int) == Seq::<Seq<char>>::empty());
                    assert(out.deep_view() + Seq::<Seq<char>>::empty() =~= out.deep_view());
                }
                return out;
            },
            Some(p) => {
                proof {
                    lemma_spec_find(s@, pat@, pos as int);
                    lemma_title_skip(s@, pos as int, p as int);
                }
                let close = find_capture_end(&s, p + 9);
                match close {
                    Some(j) => {
                        let cap = subchars(&s, p + 9, j);
                        let t = chars_string(&cap);
                        let ghost old_out = out;
                        out.push(t);
                        proof {
                            lemma_deep_view_push(old_out, out, t);
                            assert(title_list(s@, p as int) == seq![
                                s@.subrange(p + 9, j as int),
                            ] + title_list(s@, j + 1));
                            assert(out.deep_view() + title_list(s@, j + 1) =~= old_out.deep_view()
                                + title_list(s@, p as int));
                        }
                        pos = j + 1;
                    },
                    None => {
                        proof {
                            assert(title_list(s@, p as int) == title_list(s@, p + 1));
                        }
                        pos = p + 1;
                    },
                }
            },
        }
    }
}

/// The field shape a section heading hides in.
pub open spec fn line_pat() -> Seq<char> {
    "\"line\":\""@
}

fn line_pat_vec() -> (r: Vec<char>)
    ensures
        r@ == line_pat(),
        r@.len() == 8,
{
    proof {
        reveal_strlit("\"line\":\"");
    }
    str_chars("\"line\":\"")
}

/// The field shape a dotted section number hides in.
pub open spec fn num_pat() -> Seq<char> {
    "\"number\":\""@
}

fn num_pat_vec() -> (r: Vec<char>)
    ensures
        r@ == num_pat(),
        r@.len() == 10,
{
    proof {
        reveal_strlit("\"number\":\"");
    }
    str_chars("\"number\":\"")
}

/// How many `.` characters a dotted section number holds.
pub open spec fn dot_count(s: Seq<char>) -> nat
    decreases s.len(),
{
    if s.len() == 0 {
        0
    } else {
        dot_count(s.drop_last()) + (if s.last() == '.' {
            1nat
        } else {
            0nat
        })
    }
}

/// Two spaces for every indentation level.
pub open spec fn indent(n: nat) -> Seq<char> {
    Seq::new(2 * n, |i: int| ' ')
}

/// One rendered table-of-contents line: indentation derived from the dotted
/// number's depth, then the dotted number, then the heading text.
pub open spec fn toc_entry(txt: Seq<char>, num: Seq<char>) -> Seq<char> {
    indent(dot_count(num)) + seq![' '] + num + seq![' '] + txt
}

/// The indentation of a rendered entry is exactly two spaces per `.` in the
/// dotted number, and the rest of the entry follows it unchanged.
pub proof fn lemma_entry_indentation(txt: Seq<char>, num: Seq<char>)
    ensures
        toc_entry(txt, num).len() == 2 * dot_count(num) + num.len() + txt.len() + 2,
        forall|i: int| 0 <= i < 2 * dot_count(num) ==> toc_entry(txt, num)[i] == ' ',
        toc_entry(txt, num).skip(2 * dot_count(num) as int) == seq![' '] + num + seq![' '] + txt,
{
    assert(toc_entry(txt, num).skip(2 * dot_count(num) as int) =~= seq![' '] + num + seq![' ']
        + txt);
}

fn count_dots(num: &Vec<char>) -> (r: usize)
    ensures
        r == dot_count(num@),
{
    let mut cnt: usize = 0;
    let mut i: usize = 0;
    proof {
        assert(num@.subrange(0, 0) =~= Seq::<char>::empty());
    }
    while i < num.len()
        invariant
            i <= num@.len(),
            cnt <= i,
            cnt == dot_count(num@.subrange(0, i as int)),
        decreases num@.len() - i,
    {
        proof {
            assert(num@.subrange(0, i + 1 as int).drop_last() =~= num@.subrange(0, i as int));
            assert(num@.subrange(0, i + 1 as int).last() == num@[i as int]);
        }
        if num[i] == '.' {
            cnt = cnt + 1;
        }
        i = i + 1;
    }
    proof {
        assert(num@.subrange(0, num@.len() as int) =~= num@);
    }
    cnt
}

/// Renders one table-of-contents entry, as `toc_entry` says.
fn make_entry(txt: &Vec<char>, num: &Vec<char>) -> (r: String)
    ensures
        r@ == toc_entry(txt@, num@),
{
    let d = count_dots(num);
    let mut v: Vec<char> = Vec::new();
    let mut i: usize = 0;
    proof {
        assert(v@ =~= indent(0));
    }
    while i < d
        invariant
            i <= d,
            d == dot_count(num@),
            v@ == indent(i as nat),
        decreases d - i,
    {
        v.push(' ');
        v.push(' ');
        proof {
            assert(v@ =~= indent((i + 1) as nat));
        }
        i = i + 1;
    }
    v.push(' ');
    push_all(&mut v, num);
    v.push(' ');
    push_all(&mut v, txt);
    proof {
        assert(v@ =~= toc_entry(txt@, num@));
    }
    chars_string(&v)
}

/// Every rendered table-of-contents entry at or after `from`: at each
/// occurrence of the heading field shape whose value closes on the same line,
/// followed on the same line by the number field shape with its own closed
/// value, the pair is rendered and the scan resumes after the number's
/// closing quote; response order is kept.
pub open spec fn toc_list(s: Seq<char>, from: int) -> Seq<Seq<char>>
    decreases s.len() - from,
    when 0 <= from
    via toc_list_dec
{
    if from + 8 > s.len() {
        Seq::empty()
    } else if s.subrange(from, from + 8) == line_pat() {
        match capture_end(s, from + 8) {
            Some(j) => match spec_scan_pat(s, num_pat(), j + 1) {
                Some(q) => match capture_end(s, q + 10) {
                    Some(k) => seq![
                        toc_entry(s.subrange(from + 8, j), s.subrange(q + 10, k)),
                    ] + toc_list(s, k + 1),
                    None => toc_list(s, from + 1),
                },
                None => toc_list(s, from + 1),
            },
            None => toc_list(s, from + 1),
        }
    } else {
        toc_list(s, from + 1)
    }
}

#[via_fn]
proof fn toc_list_dec(s: Seq<char>, from: int) {
    reveal_strlit("\"number\":\"");
    lemma_capture_end(s, from + 8);
    if 0 <= from && from + 8 <= s.len() {
        match capture_end(s, from + 8) {
            Some(j) => {
                lemma_scan_pat(s, num_pat(), j + 1);
                match spec_scan_pat(s, num_pat(), j + 1) {
                    Some(q) => {
                        lemma_capture_end(s, q + 10);
                    },
                    None => {},
                }
            },
            None => {},
        }
    }
}

/// Positions without a heading field do not contribute to the contents list.
proof fn lemma_toc_skip(s: Seq<char>, a: int, b: int)
    requires
        0 <= a <= b,
        forall|j: int| a <= j < b ==> !occurs_at(s, line_pat(), j),
    ensures
        toc_list(s, a) == toc_list(s, b),
    decreases b - a,
{
    reveal_strlit("\"line\":\"");
    if a < b {
        if a + 8 > s.len() {
            assert(toc_list(s, a) == Seq::<Seq<char>>::empty());
            assert(toc_list(s, b) == Seq::<Seq<char>>::empty());
        } else {
            assert(!occurs_at(s, line_pat(), a));
            assert(s.subrange(a, a + 8) != line_pat());
            lemma_toc_skip(s, a + 1, b);
        }
    }
}

/// Collects every rendered table-of-contents entry of the sections text.
pub(crate) fn extract_toc_chars(s: &Vec<char>) -> (r: Vec<String>)
    ensures
        r.deep_view() == toc_list(s@, 0),
{
    let n = s.len();
    let lpat = line_pat_vec();
    let npat = num_pat_vec();
    let mut out: Vec<String> = Vec::new();
    let mut pos: usize = 0;
    proof {
        assert(out.deep_view() =~= Seq::<Seq<char>>::empty());
        assert(Seq::<Seq<char>>::empty() + toc_list(s@, 0) =~= toc_list(s@, 0));
    }
    loop
        invariant
            lpat@ == line_pat(),
            npat@ == num_pat(),
            line_pat().len() == 8,
            num_pat().len() == 10,
            n == s@.len(),
            pos <= s@.len(),
            toc_list(s@, 0) == out.deep_view() + toc_list(s@, pos as int),
        decreases s@.len() + 1 - pos,
    {
        let next = find_from(s, &lpat, pos);
        match next {
            None => {
                proof {
                    lemma_spec_find(s@, lpat@, pos as int);
                    lemma_toc_skip(s@, pos as int, s@.len() as int);
                    assert(toc_list(s@, s@.len() as int) == Seq::<Seq<char>>::empty());
                    assert(out.deep_view() + Seq::<Seq<char>>::empty() =~= out.deep_view());
                }
                return out;
            },
            Some(p) => {
                proof {
                    lemma_spec_find(s@, lpat@, pos as int);
                    lemma_toc_skip(s@, pos as int, p as int);
                }
                let txt_close = find_capture_end(s, p + 8);
                match txt_close {
                    Some(j) => {
                        let num_at = scan_pat(s, &npat, j + 1);
                        match num_at {
                            Some(q) => {
                                let num_close = find_capture_end(s, q + 10);
                                match num_close {
                                    Some(k) => {
                                        let txt = subchars(s, p + 8, j);
                                        let num = subchars(s, q + 10, k);
                                        let entry = make_entry(&txt, &num);
                                        let ghost old_out = out;
                                        out.push(entry);
                                        proof {
                                            lemma_deep_view_push(old_out, out, entry);
                                            assert(toc_list(s@, p as int) == seq![
                                                toc_entry(
                                                    s@.subrange(p + 8, j as int),
                                                    s@.subrange(q + 10, k as int),
                                                ),
                                            ] + toc_list(s@, k + 1));
                                            assert(out.deep_view() + toc_list(s@, k + 1)
                                                =~= old_out.deep_view() + toc_list(s@, p as int));
                                        }
                                        pos = k + 1;
                                    },
                                    None => {
                                        proof {
                                            assert(toc_list(s@, p as int) == toc_list(s@, p + 1));
                                        }
                                        pos = p + 1;
                                    },
                                }
                            },
                            None => {
                                proof {
                                    assert(toc_list(s@, p as int) == toc_list(s@, p + 1));
                                }
                                pos = p + 1;
                            },
                        }
                    },
                    None => {
                        proof {
                            assert(toc_list(s@, p as int) == toc_list(s@, p + 1));
                        }
                        pos = p + 1;
                    },
                }
            },
        }
    }
}

/// Opening of a template transclusion.
pub open spec fn tpl_open() -> Seq<char> {
    "{{"@
}

/// Closing of a template transclusion.
pub open spec fn tpl_close() -> Seq<char> {
    "}}"@
}

/// Opening tag of a reference block.
pub open spec fn ref_open() -> Seq<char> {
    "<ref>"@
}

/// Closing tag of a reference block.
pub open spec fn ref_close() -> Seq<char> {
    "</ref>"@
}

/// Start of a reference opening tag that carries attributes.
pub open spec fn ref_attr() -> Seq<char> {
    "<ref "@
}

/// End of a tag.
pub open spec fn gt_pat() -> Seq<char> {
    ">"@
}

/// Opening of an embedded file link.
pub open spec fn file_open() -> Seq<char> {
    "[[File"@
}

/// Closing of an embedded file link.
pub open spec fn brk_close() -> Seq<char> {
    "]]"@
}

/// Tail of a stray closing-ref-like tag: `<`, any character, then this.
pub open spec fn cref_tail() -> Seq<char> {
    "ref>"@
}

/// The escaped triple newline sequence.
pub open spec fn tri_nl() -> Seq<char> {
    "\\n\\n\\n"@
}

/// The escaped newline sequence lines are split on.
pub open spec fn nl_pat() -> Seq<char> {
    "\\n"@
}

/// A line that is exactly one quote character: a string-boundary artifact.
pub open spec fn quote_line() -> Seq<char> {
    seq!['"']
}

proof fn reveal_strip_pats()
    ensures
        tpl_open().len() == 2,
        tpl_close().len() == 2,
        ref_open().len() == 5,
        ref_close().len() == 6,
        ref_attr().len() == 5,
        gt_pat().len() == 1,
        file_open().len() == 6,
        brk_close().len() == 2,
        cref_tail().len() == 4,
        tri_nl().len() == 6,
        nl_pat().len() == 2,
{
    reveal_strlit("{{");
    reveal_strlit("}}");
    reveal_strlit("<ref>");
    reveal_strlit("</ref>");
    reveal_strlit("<ref ");
    reveal_strlit(">");
    reveal_strlit("[[File");
    reveal_strlit("]]");
    reveal_strlit("ref>");
    reveal_strlit("\\n\\n\\n");
    reveal_strlit("\\n");
}

/// The executable copies of the markup patterns the cleanup strips.
struct StripPats {
    tpl_open: Vec<char>,
    tpl_close: Vec<char>,
    ref_open: Vec<char>,
    ref_close: Vec<char>,
    ref_attr: Vec<char>,
    gt: Vec<char>,
    file_open: Vec<char>,
    brk_close: Vec<char>,
    cref_tail: Vec<char>,
}

spec fn strip_pats_ok(p: &StripPats) -> bool {
    &&& p.tpl_open@ == tpl_open()
    &&& p.tpl_close@ == tpl_close()
    &&& p.ref_open@ == ref_open()
    &&& p.ref_close@ == ref_close()
    &&& p.ref_attr@ == ref_attr()
    &&& p.gt@ == gt_pat()
    &&& p.file_open@ == file_open()
    &&& p.brk_close@ == brk_close()
    &&& p.cref_tail@ == cref_tail()
}

fn make_strip_pats() -> (p: StripPats)
    ensures
        strip_pats_ok(&p),
{
    StripPats {
        tpl_open: str_chars("{{"),
        tpl_close: str_chars("}}"),
        ref_open: str_chars("<ref>"),
        ref_close: str_chars("</ref>"),
        ref_attr: str_chars("<ref "),
        gt: str_chars(">"),
        file_open: str_chars("[[File"),
        brk_close: str_chars("]]"),
        cref_tail: str_chars("ref>"),
    }
}

/// The end of a removable markup span that starts at `i`: a shortest-match
/// template transclusion, reference block, attributed reference opening tag,
/// embedded file link, or a stray closing-ref-like tag.
pub open spec fn strip_match_end(s: Seq<char>, i: int) -> Option<int> {
    if occurs_at(s, tpl_open(), i) {
        match spec_find(s, tpl_close(), i + 3) {
            Some(j) => Some(j + 2),
            None => None,
        }
    } else if occurs_at(s, ref_open(), i) {
        match spec_find(s, ref_close(), i + 6) {
            Some(j) => Some(j + 6),
            None => None,
        }
    } else if occurs_at(s, ref_attr(), i) {
        match spec_find(s, gt_pat(), i + 6) {
            Some(j) => Some(j + 1),
            None => None,
        }
    } else if occurs_at(s, file_open(), i) {
        match spec_find(s, brk_close(), i + 7) {
            Some(j) => Some(j + 2),
            None => None,
        }
    } else if 0 <= i && i + 6 <= s.len() && s[i] == '<' && s.subrange(i + 2, i + 6)
        == cref_tail() {
        Some(i + 6)
    } else {
        None
    }
}

/// A removable span ends after its start and inside the text.
pub proof fn lemma_strip_match_end(s: Seq<char>, i: int)
    ensures
        strip_match_end(s, i) matches Some(e) ==> i < e <= s.len(),
{
    reveal_strip_pats();
    if occurs_at(s, tpl_open(), i) {
        lemma_spec_find(s, tpl_close(), i + 3);
    } else if occurs_at(s, ref_open(), i) {
        lemma_spec_find(s, ref_close(), i + 6);
    } else if occurs_at(s, ref_attr(), i) {
        lemma_spec_find(s, gt_pat(), i + 6);
    } else if occurs_at(s, file_open(), i) {
        lemma_spec_find(s, brk_close(), i + 7);
    }
}

/// The wikitext with every removable markup span dropped, scanning from `i`.
pub open spec fn strip_from(s: Seq<char>, i: int) -> Seq<char>
    decreases s.len() - i,
    when 0 <= i
    via strip_from_dec
{
    if i >= s.len() {
        Seq::empty()
    } else {
        match strip_match_end(s, i) {
            Some(e) => strip_from(s, e),
            None => seq![s[i]] + strip_from(s, i + 1),
        }
    }
}

#[via_fn]
proof fn strip_from_dec(s: Seq<char>, i: int) {
    lemma_strip_match_end(s, i);
}

/// Finds the end of a removable span, as `strip_match_end` says.
fn strip_end_at(s: &Vec<char>, i: usize, p: &StripPats) -> (r: Option<usize>)
    requires
        strip_pats_ok(p),
        i <= s@.len(),
    ensures
        match r {
            Some(e) => strip_match_end(s@, i as int) == Some(e as int) && i < e <= s@.len(),
            None => strip_match_end(s@, i as int) is None,
        },
{
    proof {
        reveal_strip_pats();
        lemma_strip_match_end(s@, i as int);
    }
    let n = s.len();
    if match_at(s, &p.tpl_open, i) {
        if 3 > n - i {
            return None;
        }
        match find_from(s, &p.tpl_close, i + 3) {
            Some(j) => {
                proof {
                    lemma_spec_find(s@, tpl_close(), i + 3);
                }
                Some(j + 2)
            },
            None => None,
        }
    } else if match_at(s, &p.ref_open, i) {
        if 6 > n - i {
            return None;
        }
        match find_from(s, &p.ref_close, i + 6) {
            Some(j) => {
                proof {
                    lemma_spec_find(s@, ref_close(), i + 6);
                }
                Some(j + 6)
            },
            None => None,
        }
    } else if match_at(s, &p.ref_attr, i) {
        if 6 > n - i {
            return None;
        }
        match find_from(s, &p.gt, i + 6) {
            Some(j) => {
                proof {
                    lemma_spec_find(s@, gt_pat(), i + 6);
                }
                Some(j + 1)
            },
            None => None,
        }
    } else if match_at(s, &p.file_open, i) {
        if 7 > n - i {
            return None;
        }
        match find_from(s, &p.brk_close, i + 7) {
            Some(j) => {
                proof {
                    lemma_spec_find(s@, brk_close(), i + 7);
                }
                Some(j + 2)
            },
            None => None,
        }
    } else if n - i >= 6 && s[i] == '<' && match_at(s, &p.cref_tail, i + 2) {
        Some(i + 6)
    } else {
        proof {
            if 0 <= i as int && i + 6 <= s@.len() && s@[i as int] == '<' && s@.subrange(
                i + 2,
                i + 6,
            ) == cref_tail() {
                assert(occurs_at(s@, cref_tail(), i + 2));
            }
        }
        None
    }
}

/// Drops every removable markup span, as `strip_from` says.
pub(crate) fn strip_markup(s: &Vec<char>) -> (r: Vec<char>)
    ensures
        r@ == strip_from(s@, 0),
{
    let pats = make_strip_pats();
    let n = s.len();
    let mut out: Vec<char> = Vec::new();
    let mut i: usize = 0;
    proof {
        assert(Seq::<char>::empty() + strip_from(s@, 0) =~= strip_from(s@, 0));
    }
    loop
        invariant
            strip_pats_ok(&pats),
            n == s@.len(),
            i <= n,
            strip_from(s@, 0) == out@ + strip_from(s@, i as int),
        decreases n - i,
    {
        if i >= n {
            proof {
                assert(strip_from(s@, i as int) == Seq::<char>::empty());
                assert(out@ + Seq::<char>::empty() =~= out@);
            }
            return out;
        }
        match strip_end_at(s, i, &pats) {
            Some(e) => {
                proof {
                    assert(strip_from(s@, i as int) == strip_from(s@, e as int));
                }
                i = e;
            },
            None => {
                let ghost old_out = out@;
                out.push(s[i]);
                proof {
                    assert(strip_from(s@, i as int) == seq![s@[i as int]] + strip_from(
                        s@,
                        i + 1,
                    ));
                    assert(out@ + strip_from(s@, i + 1) =~= old_out + strip_from(s@, i as int));
                }
                i = i + 1;
            },
        }
    }
}

/// The text with every escaped triple newline dropped, scanning from `i`.
pub open spec fn drop_tri_from(s: Seq<char>, i: int) -> Seq<char>
    decreases s.len() - i,
    when 0 <= i
    via drop_tri_from_dec
{
    if i >= s.len() {
        Seq::empty()
    } else if occurs_at(s, tri_nl(), i) {
        drop_tri_from(s, i + 6)
    } else {
        seq![s[i]] + drop_tri_from(s, i + 1)
    }
}

#[via_fn]
proof fn drop_tri_from_dec(s: Seq<char>, i: int) {
    reveal_strlit("\\n\\n\\n");
}

/// Drops every escaped triple newline, as `drop_tri_from` says.
pub(crate) fn drop_tri_nl(s: &Vec<char>) -> (r: Vec<char>)
    ensures
        r@ == drop_tri_from(s@, 0),
{
    let tri = str_chars("\\n\\n\\n");
    proof {
        reveal_strlit("\\n\\n\\n");
    }
    let n = s.len();
    let mut out: Vec<char> = Vec::new();
    let mut i: usize = 0;
    proof {
        assert(Seq::<char>::empty() + drop_tri_from(s@, 0) =~= drop_tri_from(s@, 0));
    }
    loop
        invariant
            tri@ == tri_nl(),
            tri_nl().len() == 6,
            n == s@.len(),
            i <= n,
            drop_tri_from(s@, 0) == out@ + drop_tri_from(s@, i as int),
        decreases n - i,
    {
        if i >= n {
            proof {
                assert(drop_tri_from(s@, i as int) == Seq::<char>::empty());
                assert(out@ + Seq::<char>::empty() =~= out@);
            }
            return out;
        }
        if match_at(s, &tri, i) {
            proof {
                assert(drop_tri_from(s@, i as int) == drop_tri_from(s@, i + 6));
            }
            i = i + 6;
        } else {
            let ghost old_out = out@;
            out.push(s[i]);
            proof {
                assert(drop_tri_from(s@, i as int) == seq![s@[i as int]] + drop_tri_from(
                    s@,
                    i + 1,
                ));
                assert(out@ + drop_tri_from(s@, i + 1) =~= old_out + drop_tri_from(s@, i as int));
            }
            i = i + 1;
        }
    }
}

/// The renderable lines of the cleaned wikitext from `start` on: the text is
/// split on the escaped newline sequence, a line that is exactly one quote
/// character is dropped, and every kept line gets a trailing line break.
pub open spec fn lines_from(t: Seq<char>, start: int) -> Seq<Seq<char>>
    decreases t.len() - start,
    when 0 <= start <= t.len()
    via lines_from_dec
{
    match spec_find(t, nl_pat(), start) {
        None => {
            let piece = t.subrange(start, t.len() as int);
            if piece == quote_line() {
                Seq::empty()
            } else {
                seq![piece.push('\n')]
            }
        },
        Some(p) => {
            let piece = t.subrange(start, p);
            let rest = lines_from(t, p + 2);
            if piece == quote_line() {
                rest
            } else {
                seq![piece.push('\n')] + rest
            }
        },
    }
}

#[via_fn]
proof fn lines_from_dec(t: Seq<char>, start: int) {
    reveal_strlit("\\n");
    if 0 <= start {
        lemma_spec_find(t, nl_pat(), start);
    }
}

/// Splits the cleaned text into lines, as `lines_from` says.
pub(crate) fn split_lines(t: &Vec<char>) -> (r: Vec<String>)
    ensures
        r.deep_view() == lines_from(t@, 0),
{
    let nl = str_chars("\\n");
    proof {
        reveal_strlit("\\n");
    }
    let n = t.len();
    let mut out: Vec<String> = Vec::new();
    let mut start: usize = 0;
    proof {
        assert(out.deep_view() =~= Seq::<Seq<char>>::empty());
        assert(Seq::<Seq<char>>::empty() + lines_from(t@, 0) =~= lines_from(t@, 0));
        assert(quote_line().len() == 1 && quote_line()[0] == '"');
    }
    loop
        invariant
            nl@ == nl_pat(),
            nl_pat().len() == 2,
            n == t@.len(),
            start <= n,
            lines_from(t@, 0) == out.deep_view() + lines_from(t@, start as int),
        decreases n + 1 - start,
    {
        let next = find_from(t, &nl, start);
        proof {
            lemma_spec_find(t@, nl_pat(), start as int);
            assert(quote_line().len() == 1 && quote_line()[0] == '"');
        }
        match next {
            None => {
                let mut piece = subchars(t, start, n);
                if piece.len() == 1 && piece[0] == '"' {
                    proof {
                        assert(piece@ =~= quote_line());
                        assert(lines_from(t@, start as int) == Seq::<Seq<char>>::empty());
                        assert(out.deep_view() + Seq::<Seq<char>>::empty() =~= out.deep_view());
                    }
                } else {
                    proof {
                        assert(piece@ != quote_line());
                    }
                    piece.push('\n');
                    let line = chars_string(&piece);
                    let ghost old_out = out;
                    out.push(line);
                    proof {
                        lemma_deep_view_push(old_out, out, line);
                        assert(lines_from(t@, start as int) == seq![
                            t@.subrange(start as int, n as int).push('\n'),
                        ]);
                        assert(out.deep_view() =~= old_out.deep_view() + lines_from(
                            t@,
                            start as int,
                        ));
                    }
                }
                return out;
            },
            Some(p) => {
                let mut piece = subchars(t, start, p);
                if piece.len() == 1 && piece[0] == '"' {
                    proof {
                        assert(piece@ =~= quote_line());
                        assert(lines_from(t@, start as int) == lines_from(t@, p + 2));
                    }
                } else {
                    proof {
                        assert(piece@ != quote_line());
                    }
                    piece.push('\n');
                    let line = chars_string(&piece);
                    let ghost old_out = out;
                    out.push(line);
                    proof {
                        lemma_deep_view_push(old_out, out, line);
                        assert(lines_from(t@, start as int) == seq![
                            t@.subrange(start as int, p as int).push('\n'),
                        ] + lines_from(t@, p + 2));
                        assert(out.deep_view() + lines_from(t@, p + 2) =~= old_out.deep_view()
                            + lines_from(t@, start as int));
                    }
                }
                start = p + 2;
            },
        }
    }
}

/// The combined sections-then-wikitext shape.
pub open spec fn sections_pat() -> Seq<char> {
    "\"sections\":"@
}

/// The wikitext field that follows the sections value on the same line.
pub open spec fn wikitext_pat() -> Seq<char> {
    ",\"wikitext\":"@
}

/// Where the one combined `sections`/`wikitext` shape splits, scanning from
/// `from`: the start of the shape, the start of the wikitext field within the
/// same line (the last one that leaves both values non-empty), and the end of
/// the line.
pub open spec fn page_split(s: Seq<char>, from: int) -> Option<(int, int, int)>
    decreases s.len() - from,
    when 0 <= from
{
    if from + 11 > s.len() {
        None
    } else if s.subrange(from, from + 11) == sections_pat() {
        let e = line_end(s, from + 11);
        match spec_rfind(s, wikitext_pat(), from + 12, e - 1) {
            Some(q) => Some((from, q, e)),
            None => page_split(s, from + 1),
        }
    } else {
        page_split(s, from + 1)
    }
}

/// Positions without the sections field do not move the split.
proof fn lemma_split_skip(s: Seq<char>, a: int, b: int)
    requires
        0 <= a <= b,
        forall|j: int| a <= j < b ==> !occurs_at(s, sections_pat(), j),
    ensures
        page_split(s, a) == page_split(s, b),
    decreases b - a,
{
    reveal_strlit("\"sections\":");
    if a < b {
        if a + 11 > s.len() {
            assert(page_split(s, a) is None);
            assert(page_split(s, b) is None);
        } else {
            assert(!occurs_at(s, sections_pat(), a));
            assert(s.subrange(a, a + 11) != sections_pat());
            lemma_split_skip(s, a + 1, b);
        }
    }
}

/// Finds the combined shape, as `page_split` says.
pub(crate) fn find_page_split(s: &Vec<char>) -> (r: Option<(usize, usize, usize)>)
    ensures
        match r {
            Some(t) => page_split(s@, 0) == Some((t.0 as int, t.1 as int, t.2 as int))
                && t.0 + 12 <= t.1 && t.1 + 12 < t.2 && t.2 <= s@.len(),
            None => page_split(s@, 0) is None,
        },
{
    let spat = str_chars("\"sections\":");
    let wpat = str_chars(",\"wikitext\":");
    proof {
        reveal_strlit("\"sections\":");
        reveal_strlit(",\"wikitext\":");
    }
    let n = s.len();
    let mut pos: usize = 0;
    loop
        invariant
            spat@ == sections_pat(),
            wpat@ == wikitext_pat(),
            sections_pat().len() == 11,
            wikitext_pat().len() == 12,
            n == s@.len(),
            pos <= n,
            page_split(s@, 0) == page_split(s@, pos as int),
        decreases n + 1 - pos,
    {
        let next = find_from(s, &spat, pos);
        match next {
            None => {
                proof {
                    lemma_spec_find(s@, spat@, pos as int);
                    lemma_split_skip(s@, pos as int, n as int);
                    assert(page_split(s@, n as int) is None);
                }
                return None;
            },
            Some(p) => {
                proof {
                    lemma_spec_find(s@, spat@, pos as int);
                    lemma_split_skip(s@, pos as int, p as int);
                }
                let e = find_line_end(s, p + 11);
                proof {
                    lemma_line_end(s@, p + 11);
                }
                if 12 > n - p {
                    proof {
                        assert(spec_rfind(s@, wikitext_pat(), p + 12, e - 1) is None);
                        assert(page_split(s@, p as int) == page_split(s@, p + 1));
                    }
                    pos = p + 1;
                } else {
                    let w = rfind_in(s, &wpat, p + 12, e - 1);
                    match w {
                        Some(q) => {
                            return Some((p, q, e));
                        },
                        None => {
                            proof {
                                assert(page_split(s@, p as int) == page_split(s@, p + 1));
                            }
                            pos = p + 1;
                        },
                    }
                }
            },
        }
    }
}

/// Rendered table of contents of a full page-parse response; empty when the
/// combined shape is absent.
pub open spec fn page_toc(s: Seq<char>) -> Seq<Seq<char>> {
    match page_split(s, 0) {
        Some((p, q, e)) => toc_list(s.subrange(p + 11, q), 0),
        None => Seq::empty(),
    }
}

/// Body lines of a full page-parse response: the wikitext value is stripped
/// of markup, escaped triple newlines are collapsed twice, and the rest is
/// split into lines; empty when the combined shape is absent.
pub open spec fn page_body(s: Seq<char>) -> Seq<Seq<char>> {
    match page_split(s, 0) {
        Some((p, q, e)) => lines_from(
            drop_tri_from(drop_tri_from(strip_from(s.subrange(q + 12, e), 0), 0), 0),
            0,
        ),
        None => Seq::empty(),
    }
}

/// Extracts the rendered table of contents and the body lines of a page-parse
/// response.
pub fn extract_page(raw: &str) -> (r: (Vec<String>, Vec<String>))
    ensures
        r.0.deep_view() == page_toc(raw@),
        r.1.deep_view() == page_body(raw@),
{
    let s = str_chars(raw);
    let split = find_page_split(&s);
    match split {
        None => {
            let toc: Vec<String> = Vec::new();
            let body: Vec<String> = Vec::new();
            proof {
                assert(toc.deep_view() =~= page_toc(raw@));
                assert(body.deep_view() =~= page_body(raw@));
            }
            (toc, body)
        },
        Some((p, q, e)) => {
            let sections = subchars(&s, p + 11, q);
            let toc = extract_toc_chars(&sections);
            let w = subchars(&s, q + 12, e);
            let w1 = strip_markup(&w);
            let w2 = drop_tri_nl(&w1);
            let w3 = drop_tri_nl(&w2);
            let body = split_lines(&w3);
            (toc, body)
        },
    }
}

/// Extraction is a pure function of the raw text: the same text always yields
/// the same title list.
pub proof fn lemma_title_extraction_deterministic(raw: Seq<char>, r1: Seq<Seq<char>>, r2: Seq<Seq<char>>)
    requires
        r1 == title_list(raw, 0),
        r2 == title_list(raw, 0),
    ensures
        r1 == r2,
{
}

/// Extraction is a pure function of the raw text: the same text always yields
/// the same table of contents and the same body lines.
pub proof fn lemma_page_extraction_deterministic(
    raw: Seq<char>,
    toc1: Seq<Seq<char>>,
    body1: Seq<Seq<char>>,
    toc2: Seq<Seq<char>>,
    body2: Seq<Seq<char>>,
)
    requires
        toc1 == page_toc(raw),
        body1 == page_body(raw),
        toc2 == page_toc(raw),
        body2 == page_body(raw),
    ensures
        toc1 == toc2,
        body1 == body2,
{
}

} // verus!
