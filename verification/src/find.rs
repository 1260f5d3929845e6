//! Verified substring-search primitives.
//!
//! Each executable scanner has a recursive specification counterpart, so that
//! the extraction grammar in `extract` can be written as plain recursive spec
//! functions over `Seq<char>`.

use vstd::prelude::*;

verus! {

/// `pat` occurs in `s` starting at index `i`.
pub open spec fn occurs_at(s: Seq<char>, pat: Seq<char>, i: int) -> bool {
    0 <= i && i + pat.len() <= s.len() && s.subrange(i, i + pat.len()) == pat
}

/// Index of the first occurrence of `pat` in `s` at or after `from`.
pub open spec fn spec_find(s: Seq<char>, pat: Seq<char>, from: int) -> Option<int>
    decreases s.len() - from,
    when 0 <= from && pat.len() > 0
{
    if from + pat.len() > s.len() {
        None
    } else if s.subrange(from, from + pat.len()) == pat {
        Some(from)
    } else {
        spec_find(s, pat, from + 1)
    }
}

/// `spec_find` returns exactly the first occurrence at or after `from`.
pub proof fn lemma_spec_find(s: Seq<char>, pat: Seq<char>, from: int)
    requires
        0 <= from,
        pat.len() > 0,
    ensures
        match spec_find(s, pat, from) {
            Some(i) => from <= i && occurs_at(s, pat, i) && forall|j: int|
                from <= j < i ==> !occurs_at(s, pat, j),
            None => forall|j: int| from <= j ==> !occurs_at(s, pat, j),
        },
    decreases s.len() - from,
{
    if from + pat.len() > s.len() {
        assert forall|j: int| from <= j implies !occurs_at(s, pat, j) by {}
    } else if s.subrange(from, from + pat.len()) == pat {
    } else {
        lemma_spec_find(s, pat, from + 1);
    }
}

/// Compares `pat` against the characters of `s` starting at `i`.
pub(crate) fn match_at(s: &Vec<char>, pat: &Vec<char>, i: usize) -> (r: bool)
    requires
        pat@.len() > 0,
    ensures
        r == occurs_at(s@, pat@, i as int),
{
    let n = s.len();
    if i > n || pat.len() > n - i {
        return false;
    }
    let mut j: usize = 0;
    while j < pat.len()
        invariant
            n == s@.len(),
            i + pat@.len() <= n,
            j <= pat@.len(),
            forall|k: int| 0 <= k < j ==> s@[i + k] == pat@[k],
        decreases pat@.len() - j,
    {
        if s[i + j] != pat[j] {
            proof {
                assert(s@.subrange(i as int, i + pat@.len())[j as int] != pat@[j as int]);
            }
            return false;
        }
        j = j + 1;
    }
    proof {
        assert(s@.subrange(i as int, i + pat@.len()) =~= pat@);
    }
    true
}

/// First occurrence of `pat` in `s` at or after `from`, as `spec_find` says.
pub(crate) fn find_from(s: &Vec<char>, pat: &Vec<char>, from: usize) -> (r: Option<usize>)
    requires
        pat@.len() > 0,
    ensures
        match r {
            Some(i) => from <= i && spec_find(s@, pat@, from as int) == Some(i as int),
            None => spec_find(s@, pat@, from as int) is None,
        },
{
    let mut i: usize = from;
    loop
        invariant
            from <= i,
            pat@.len() > 0,
            spec_find(s@, pat@, from as int) == spec_find(s@, pat@, i as int),
        decreases s@.len() + pat@.len() - i,
    {
        if i > s.len() || pat.len() > s.len() - i {
            return None;
        }
        if match_at(s, pat, i) {
            return Some(i);
        }
        i = i + 1;
    }
}

/// First `"` at or after `j`, unless a newline comes first.
pub open spec fn spec_scan_quote(s: Seq<char>, j: int) -> Option<int>
    decreases s.len() - j,
    when 0 <= j
{
    if j >= s.len() {
        None
    } else if s[j] == '"' {
        Some(j)
    } else if s[j] == '\n' {
        None
    } else {
        spec_scan_quote(s, j + 1)
    }
}

/// A scan hit lies between its start and the end of the text.
pub proof fn lemma_scan_quote(s: Seq<char>, j: int)
    requires
        0 <= j,
    ensures
        spec_scan_quote(s, j) matches Some(q) ==> j <= q < s.len(),
    decreases s.len() - j,
{
    if j < s.len() && s[j] != '"' && s[j] != '\n' {
        lemma_scan_quote(s, j + 1);
    }
}

/// Scans for the closing quote, as `spec_scan_quote` says.
pub(crate) fn scan_quote(s: &Vec<char>, j: usize) -> (r: Option<usize>)
    ensures
        match r {
            Some(q) => spec_scan_quote(s@, j as int) == Some(q as int) && j <= q < s@.len(),
            None => spec_scan_quote(s@, j as int) is None,
        },
{
    let mut i: usize = j;
    loop
        invariant
            j <= i,
            spec_scan_quote(s@, j as int) == spec_scan_quote(s@, i as int),
        decreases s@.len() - i,
    {
        if i >= s.len() {
            return None;
        }
        if s[i] == '"' {
            return Some(i);
        }
        if s[i] == '\n' {
            return None;
        }
        i = i + 1;
    }
}

/// End of a non-empty lazy quote capture that starts at `start`: the first
/// `"` strictly after `start`, unless a newline intervenes or `start` is
/// itself past the end or a newline.
pub open spec fn capture_end(s: Seq<char>, start: int) -> Option<int> {
    if 0 <= start < s.len() && s[start] != '\n' {
        spec_scan_quote(s, start + 1)
    } else {
        None
    }
}

/// A capture end lies strictly after its start and inside the text.
pub proof fn lemma_capture_end(s: Seq<char>, start: int)
    ensures
        capture_end(s, start) matches Some(j) ==> start + 1 <= j < s.len(),
{
    if 0 <= start < s.len() && s[start] != '\n' {
        lemma_scan_quote(s, start + 1);
    }
}

/// Finds the end of a lazy quote capture, as `capture_end` says.
pub(crate) fn find_capture_end(s: &Vec<char>, start: usize) -> (r: Option<usize>)
    ensures
        match r {
            Some(j) => capture_end(s@, start as int) == Some(j as int) && start < j < s@.len(),
            None => capture_end(s@, start as int) is None,
        },
{
    if start >= s.len() || s[start] == '\n' {
        return None;
    }
    scan_quote(s, start + 1)
}

/// First occurrence of `pat` at or after `j` with no newline in between.
pub open spec fn spec_scan_pat(s: Seq<char>, pat: Seq<char>, j: int) -> Option<int>
    decreases s.len() - j,
    when 0 <= j && pat.len() > 0
{
    if j + pat.len() > s.len() {
        None
    } else if s.subrange(j, j + pat.len()) == pat {
        Some(j)
    } else if s[j] == '\n' {
        None
    } else {
        spec_scan_pat(s, pat, j + 1)
    }
}

/// A pattern scan hit starts no earlier than the scan and fits in the text.
pub proof fn lemma_scan_pat(s: Seq<char>, pat: Seq<char>, j: int)
    requires
        0 <= j,
        pat.len() > 0,
    ensures
        spec_scan_pat(s, pat, j) matches Some(q) ==> j <= q && q + pat.len() <= s.len(),
    decreases s.len() - j,
{
    if j + pat.len() <= s.len() && s.subrange(j, j + pat.len()) != pat && s[j] != '\n' {
        lemma_scan_pat(s, pat, j + 1);
    }
}

/// Scans forward for `pat`, stopping at a newline, as `spec_scan_pat` says.
pub(crate) fn scan_pat(s: &Vec<char>, pat: &Vec<char>, j: usize) -> (r: Option<usize>)
    requires
        pat@.len() > 0,
    ensures
        match r {
            Some(q) => spec_scan_pat(s@, pat@, j as int) == Some(q as int) && j <= q
                && q + pat@.len() <= s@.len(),
            None => spec_scan_pat(s@, pat@, j as int) is None,
        },
{
    let mut i: usize = j;
    loop
        invariant
            j <= i,
            pat@.len() > 0,
            spec_scan_pat(s@, pat@, j as int) == spec_scan_pat(s@, pat@, i as int),
        decreases s@.len() + pat@.len() - i,
    {
        if i > s.len() || pat.len() > s.len() - i {
            return None;
        }
        if match_at(s, pat, i) {
            return Some(i);
        }
        if s[i] == '\n' {
            return None;
        }
        i = i + 1;
    }
}

/// Index of the first newline at or after `i`, or the length of `s`.
pub open spec fn line_end(s: Seq<char>, i: int) -> int
    decreases s.len() - i,
    when 0 <= i
{
    if i >= s.len() {
        s.len() as int
    } else if s[i] == '\n' {
        i
    } else {
        line_end(s, i + 1)
    }
}

/// The line end lies between the scan start and the end of the text.
pub proof fn lemma_line_end(s: Seq<char>, i: int)
    requires
        0 <= i <= s.len(),
    ensures
        i <= line_end(s, i) <= s.len(),
    decreases s.len() - i,
{
    if i < s.len() && s[i] != '\n' {
        lemma_line_end(s, i + 1);
    }
}

/// Finds the end of the current line, as `line_end` says.
pub(crate) fn find_line_end(s: &Vec<char>, i: usize) -> (r: usize)
    requires
        i <= s@.len(),
    ensures
        r == line_end(s@, i as int),
        i <= r <= s@.len(),
{
    let mut j: usize = i;
    loop
        invariant
            i <= j <= s@.len(),
            line_end(s@, i as int) == line_end(s@, j as int),
        decreases s@.len() - j,
    {
        if j >= s.len() {
            return j;
        }
        if s[j] == '\n' {
            return j;
        }
        j = j + 1;
    }
}

/// Last occurrence of `pat` in `s` that starts at or after `lo` and ends at
/// or before `hi`.
pub open spec fn spec_rfind(s: Seq<char>, pat: Seq<char>, lo: int, hi: int) -> Option<int>
    decreases hi - lo,
    when 0 <= lo && pat.len() > 0 && hi <= s.len()
{
    if hi - pat.len() < lo {
        None
    } else if s.subrange(hi - pat.len(), hi) == pat {
        Some(hi - pat.len())
    } else {
        spec_rfind(s, pat, lo, hi - 1)
    }
}

/// Searches backward for `pat`, as `spec_rfind` says.
pub(crate) fn rfind_in(s: &Vec<char>, pat: &Vec<char>, lo: usize, hi: usize) -> (r: Option<usize>)
    requires
        pat@.len() > 0,
        hi <= s@.len(),
    ensures
        match r {
            Some(q) => spec_rfind(s@, pat@, lo as int, hi as int) == Some(q as int) && lo <= q
                && q + pat@.len() <= hi,
            None => spec_rfind(s@, pat@, lo as int, hi as int) is None,
        },
{
    let mut h: usize = hi;
    loop
        invariant
            h <= hi <= s@.len(),
            pat@.len() > 0,
            spec_rfind(s@, pat@, lo as int, hi as int) == spec_rfind(s@, pat@, lo as int, h as int),
        decreases h,
    {
        if h < pat.len() || h - pat.len() < lo {
            return None;
        }
        if match_at(s, pat, h - pat.len()) {
            return Some(h - pat.len());
        }
        h = h - 1;
    }
}

} // verus!
