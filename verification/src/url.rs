//! Query builder: composes the request URL for the two API endpoints.
//!
//! Both builders are pure: the produced URL is a function of the typed
//! parameters alone, which `prefix_url` and `parse_url` state exactly.

use vstd::prelude::*;
use vstd::string::StringExecFns;
use crate::chars::{chars_string, str_chars};

verus! {

/// The two kinds of request the client knows how to build.
#[derive(Clone, Copy, PartialEq, Eq, Structural, Debug)]
pub enum Endpoint {
    PrefixSearch,
    PageParse,
}

/// The decimal digit character for `d`.
pub open spec fn spec_digit(d: int) -> char {
    if d == 0 {
        '0'
    } else if d == 1 {
        '1'
    } else if d == 2 {
        '2'
    } else if d == 3 {
        '3'
    } else if d == 4 {
        '4'
    } else if d == 5 {
        '5'
    } else if d == 6 {
        '6'
    } else if d == 7 {
        '7'
    } else if d == 8 {
        '8'
    } else {
        '9'
    }
}

/// Decimal rendering of a non-negative integer, most significant digit first.
pub open spec fn spec_dec(n: int) -> Seq<char>
    decreases n,
    when 0 <= n
{
    if n < 10 {
        seq![spec_digit(n)]
    } else {
        proof {
            assert(n >= 10 ==> n / 10 < n) by (nonlinear_arith);
        }
        spec_dec(n / 10).push(spec_digit(n % 10))
    }
}

fn digit_char(d: u16) -> (c: char)
    requires
        d < 10,
    ensures
        c == spec_digit(d as int),
{
    if d == 0 {
        '0'
    } else if d == 1 {
        '1'
    } else if d == 2 {
        '2'
    } else if d == 3 {
        '3'
    } else if d == 4 {
        '4'
    } else if d == 5 {
        '5'
    } else if d == 6 {
        '6'
    } else if d == 7 {
        '7'
    } else if d == 8 {
        '8'
    } else {
        '9'
    }
}

/// Renders `n` in decimal, as `spec_dec` says.
fn dec_u16(n: u16) -> (r: Vec<char>)
    ensures
        r@ == spec_dec(n as int),
    decreases n,
{
    if n < 10 {
        let mut v: Vec<char> = Vec::new();
        v.push(digit_char(n));
        proof {
            assert(v@ =~= seq![spec_digit(n as int)]);
        }
        v
    } else {
        proof {
            assert(n >= 10 ==> n / 10 < n) by (nonlinear_arith);
        }
        let mut v = dec_u16(n / 10);
        v.push(digit_char(n % 10));
        v
    }
}

/// Characters that go into a URL as they are; everything else is
/// percent-encoded.
pub open spec fn is_unreserved(c: char) -> bool {
    ('a' as u32 <= c as u32 && c as u32 <= 'z' as u32) || ('A' as u32 <= c as u32 && c as u32
        <= 'Z' as u32) || ('0' as u32 <= c as u32 && c as u32 <= '9' as u32) || c == '-' || c == '_'
        || c == '.' || c == '~'
}

/// The hexadecimal digit character for `d`, upper case.
pub open spec fn hex_digit(d: int) -> char {
    if d < 10 {
        spec_digit(d)
    } else if d == 10 {
        'A'
    } else if d == 11 {
        'B'
    } else if d == 12 {
        'C'
    } else if d == 13 {
        'D'
    } else if d == 14 {
        'E'
    } else {
        'F'
    }
}

/// The UTF-8 bytes of one character.
pub open spec fn utf8_bytes(c: char) -> Seq<u8> {
    let u = c as int;
    if u < 0x80 {
        seq![u as u8]
    } else if u < 0x800 {
        seq![(0xC0 + u / 64) as u8, (0x80 + u % 64) as u8]
    } else if u < 0x10000 {
        seq![(0xE0 + u / 4096) as u8, (0x80 + (u / 64) % 64) as u8, (0x80 + u % 64) as u8]
    } else {
        seq![
            (0xF0 + u / 262144) as u8,
            (0x80 + (u / 4096) % 64) as u8,
            (0x80 + (u / 64) % 64) as u8,
            (0x80 + u % 64) as u8,
        ]
    }
}

/// One byte, percent-encoded.
pub open spec fn pct_byte(b: u8) -> Seq<char> {
    seq!['%', hex_digit(b as int / 16), hex_digit(b as int % 16)]
}

/// A run of bytes, percent-encoded.
pub open spec fn pct_bytes(bs: Seq<u8>) -> Seq<char>
    decreases bs.len(),
{
    if bs.len() == 0 {
        Seq::empty()
    } else {
        pct_bytes(bs.drop_last()) + pct_byte(bs.last())
    }
}

/// One character as it is embedded in a URL: unreserved characters stand as
/// they are, every other character as the percent-encoding of its UTF-8
/// bytes.
pub open spec fn pct_char(c: char) -> Seq<char> {
    if is_unreserved(c) {
        seq![c]
    } else {
        pct_bytes(utf8_bytes(c))
    }
}

/// User text as it is safely embedded in a URL.
pub open spec fn pct_encode(s: Seq<char>) -> Seq<char>
    decreases s.len(),
{
    if s.len() == 0 {
        Seq::empty()
    } else {
        pct_encode(s.drop_last()) + pct_char(s.last())
    }
}

fn hex_char(d: u8) -> (c: char)
    requires
        d < 16,
    ensures
        c == hex_digit(d as int),
{
    if d < 10 {
        digit_char(d as u16)
    } else if d == 10 {
        'A'
    } else if d == 11 {
        'B'
    } else if d == 12 {
        'C'
    } else if d == 13 {
        'D'
    } else if d == 14 {
        'E'
    } else {
        'F'
    }
}

/// Appends the percent-encoding of one byte, as `pct_byte` says.
fn push_pct_byte(out: &mut Vec<char>, b: u8)
    ensures
        final(out)@ == old(out)@ + pct_byte(b),
{
    out.push('%');
    out.push(hex_char(b / 16));
    out.push(hex_char(b % 16));
    proof {
        assert(out@ =~= old(out)@ + pct_byte(b));
    }
}

/// Appends one character as it is embedded in a URL, as `pct_char` says.
fn push_pct_char(out: &mut Vec<char>, c: char)
    ensures
        final(out)@ == old(out)@ + pct_char(c),
{
    let u = c as u32;
    let unreserved = (97 <= u && u <= 122) || (65 <= u && u <= 90) || (48 <= u && u <= 57) || c
        == '-' || c == '_' || c == '.' || c == '~';
    proof {
        assert(97 == 'a' as u32 && 122 == 'z' as u32 && 65 == 'A' as u32 && 90 == 'Z' as u32 && 48
            == '0' as u32 && 57 == '9' as u32);
    }
    if unreserved {
        out.push(c);
        proof {
            assert(out@ =~= old(out)@ + pct_char(c));
        }
        return ;
    }
    let mut bs: Vec<u8> = Vec::new();
    if u < 0x80 {
        bs.push(u as u8);
    } else if u < 0x800 {
        bs.push((0xC0 + u / 64) as u8);
        bs.push((0x80 + u % 64) as u8);
    } else if u < 0x10000 {
        bs.push((0xE0 + u / 4096) as u8);
        bs.push((0x80 + (u / 64) % 64) as u8);
        bs.push((0x80 + u % 64) as u8);
    } else {
        bs.push((0xF0 + u / 262144) as u8);
        bs.push((0x80 + (u / 4096) % 64) as u8);
        bs.push((0x80 + (u / 64) % 64) as u8);
        bs.push((0x80 + u % 64) as u8);
    }
    proof {
        assert(bs@ =~= utf8_bytes(c));
    }
    let mut i: usize = 0;
    proof {
        assert(out@ =~= old(out)@ + pct_bytes(bs@.subrange(0, 0)));
    }
    while i < bs.len()
        invariant
            i <= bs@.len(),
            bs@ == utf8_bytes(c),
            !is_unreserved(c),
            out@ == old(out)@ + pct_bytes(bs@.subrange(0, i as int)),
        decreases bs@.len() - i,
    {
        push_pct_byte(out, bs[i]);
        proof {
            assert(bs@.subrange(0, i + 1 as int).drop_last() =~= bs@.subrange(0, i as int));
            assert(out@ =~= old(out)@ + pct_bytes(bs@.subrange(0, i + 1 as int)));
        }
        i = i + 1;
    }
    proof {
        assert(bs@.subrange(0, bs@.len() as int) =~= bs@);
        assert(out@ =~= old(out)@ + pct_char(c));
    }
}

/// Percent-encodes user text for embedding in a URL, as `pct_encode` says.
fn pct_encode_str(s: &str) -> (r: String)
    ensures
        r@ == pct_encode(s@),
{
    let chars = str_chars(s);
    let mut out: Vec<char> = Vec::new();
    let mut i: usize = 0;
    proof {
        assert(out@ =~= pct_encode(s@.subrange(0, 0)));
    }
    while i < chars.len()
        invariant
            chars@ == s@,
            i <= s@.len(),
            out@ == pct_encode(s@.subrange(0, i as int)),
        decreases s@.len() - i,
    {
        push_pct_char(&mut out, chars[i]);
        proof {
            assert(s@.subrange(0, i + 1 as int).drop_last() =~= s@.subrange(0, i as int));
            assert(s@.subrange(0, i + 1 as int).last() == s@[i as int]);
        }
        i = i + 1;
    }
    proof {
        assert(s@.subrange(0, s@.len() as int) =~= s@);
    }
    chars_string(&out)
}

/// The fixed API base every request URL starts with.
pub open spec fn spec_base_url() -> Seq<char> {
    "https://en.wikipedia.org/w/api.php?format=json"@
}

/// The action selector of the title prefix search endpoint.
pub open spec fn spec_prefix_params() -> Seq<char> {
    "action=query&list=prefixsearch"@
}

/// The action selector of the page parse endpoint.
pub open spec fn spec_parse_params() -> Seq<char> {
    "action=parse&prop=wikitext%7Csections&formatversion=2"@
}

/// Mathematical model of a `PrefixSearch` builder.
pub ghost struct PrefixSearchV {
    pub url: Seq<char>,
    pub params: Seq<char>,
    pub search: Seq<char>,
    pub limit: u16,
    pub offset: u16,
}

/// Mathematical model of a `PageParse` builder.
pub ghost struct PageParseV {
    pub url: Seq<char>,
    pub params: Seq<char>,
    pub page: Seq<char>,
}

/// The URL a prefix search builder renders, as a function of its model.
pub open spec fn prefix_url(v: PrefixSearchV) -> Seq<char> {
    v.url + "&"@ + v.params + "&pssearch="@ + pct_encode(v.search) + "&pslimit="@ + spec_dec(
        v.limit as int,
    ) + "&psoffset="@ + spec_dec(v.offset as int)
}

/// The URL a page parse builder renders, as a function of its model.
pub open spec fn parse_url(v: PageParseV) -> Seq<char> {
    v.url + "&"@ + v.params + "&page="@ + pct_encode(v.page)
}

/// Builder for the title prefix search endpoint.
#[derive(Debug, PartialEq)]
pub struct PrefixSearch<'a> {
    pub url: &'a str,
    pub params: &'a str,
    pub search: &'a str,
    pub limit: u16,
    pub offset: u16,
}

impl<'a> View for PrefixSearch<'a> {
    type V = PrefixSearchV;

    open spec fn view(&self) -> PrefixSearchV {
        PrefixSearchV {
            url: self.url@,
            params: self.params@,
            search: self.search@,
            limit: self.limit,
            offset: self.offset,
        }
    }
}

impl<'a> Default for PrefixSearch<'a> {
    /// A builder for the fixed API base, with an empty search text.
    fn default() -> (r: Self)
        ensures
            r@ == (PrefixSearchV {
                url: spec_base_url(),
                params: spec_prefix_params(),
                search: Seq::<char>::empty(),
                limit: 0,
                offset: 0,
            }),
    {
        proof {
            reveal_strlit("");
        }
        let r = PrefixSearch {
            url: "https://en.wikipedia.org/w/api.php?format=json",
            params: "action=query&list=prefixsearch",
            search: "",
            limit: 0,
            offset: 0,
        };
        proof {
            assert(r.search@ =~= Seq::<char>::empty());
        }
        r
    }
}

impl<'a> PrefixSearch<'a> {
    pub fn new() -> (r: Self)
        ensures
            r@ == (PrefixSearchV {
                url: spec_base_url(),
                params: spec_prefix_params(),
                search: Seq::<char>::empty(),
                limit: 0,
                offset: 0,
            }),
    {
        Self::default()
    }

    pub fn search(self, search: &'a str) -> (r: Self)
        ensures
            r@ == (PrefixSearchV { search: search@, ..self@ }),
    {
        PrefixSearch { search, ..self }
    }

    pub fn limit(self, limit: u16) -> (r: Self)
        ensures
            r@ == (PrefixSearchV { limit: limit, ..self@ }),
    {
        PrefixSearch { limit, ..self }
    }

    pub fn offset(self, offset: u16) -> (r: Self)
        ensures
            r@ == (PrefixSearchV { offset: offset, ..self@ }),
    {
        PrefixSearch { offset, ..self }
    }

    /// Renders the URL; a pure function of the builder's parameters.
    pub fn parse(&self) -> (r: String)
        ensures
            r@ == prefix_url(self@),
    {
        let mut out = String::from_str(self.url);
        out.append("&");
        out.append(self.params);
        out.append("&pssearch=");
        let q = pct_encode_str(self.search);
        out.append(q.as_str());
        out.append("&pslimit=");
        let lim = dec_u16(self.limit);
        let lim_s = chars_string(&lim);
        out.append(lim_s.as_str());
        out.append("&psoffset=");
        let off = dec_u16(self.offset);
        let off_s = chars_string(&off);
        out.append(off_s.as_str());
        proof {
            assert(out@ =~= prefix_url(self@));
        }
        out
    }
}

/// Builder for the page parse endpoint.
#[derive(Debug, PartialEq)]
pub struct PageParse<'a> {
    pub url: &'a str,
    pub params: &'a str,
    pub page: &'a str,
}

impl<'a> View for PageParse<'a> {
    type V = PageParseV;

    open spec fn view(&self) -> PageParseV {
        PageParseV { url: self.url@, params: self.params@, page: self.page@ }
    }
}

impl<'a> Default for PageParse<'a> {
    /// A builder for the fixed API base, with an empty page title.
    fn default() -> (r: Self)
        ensures
            r@ == (PageParseV {
                url: spec_base_url(),
                params: spec_parse_params(),
                page: Seq::<char>::empty(),
            }),
    {
        proof {
            reveal_strlit("");
        }
        let r = PageParse {
            url: "https://en.wikipedia.org/w/api.php?format=json",
            params: "action=parse&prop=wikitext%7Csections&formatversion=2",
            page: "",
        };
        proof {
            assert(r.page@ =~= Seq::<char>::empty());
        }
        r
    }
}

impl<'a> PageParse<'a> {
    pub fn new() -> (r: Self)
        ensures
            r@ == (PageParseV {
                url: spec_base_url(),
                params: spec_parse_params(),
                page: Seq::<char>::empty(),
            }),
    {
        Self::default()
    }

    pub fn page(self, page: &'a str) -> (r: Self)
        ensures
            r@ == (PageParseV { page: page@, ..self@ }),
    {
        PageParse { page, ..self }
    }

    /// Renders the URL; a pure function of the builder's parameters.
    pub fn parse(&self) -> (r: String)
        ensures
            r@ == parse_url(self@),
    {
        let mut out = String::from_str(self.url);
        out.append("&");
        out.append(self.params);
        out.append("&page=");
        let q = pct_encode_str(self.page);
        out.append(q.as_str());
        proof {
            assert(out@ =~= parse_url(self@));
        }
        out
    }
}

/// Setting the search text of a prefix search model.
pub open spec fn with_search(v: PrefixSearchV, s: Seq<char>) -> PrefixSearchV {
    PrefixSearchV { search: s, ..v }
}

/// Setting the result limit of a prefix search model.
pub open spec fn with_limit(v: PrefixSearchV, l: u16) -> PrefixSearchV {
    PrefixSearchV { limit: l, ..v }
}

/// Setting the result offset of a prefix search model.
pub open spec fn with_offset(v: PrefixSearchV, o: u16) -> PrefixSearchV {
    PrefixSearchV { offset: o, ..v }
}

/// The query builder is pure: the rendered URL depends on the parameter
/// values alone, not on the order in which the setters were applied.
pub proof fn lemma_query_builder_pure(v: PrefixSearchV, s: Seq<char>, l: u16, o: u16)
    ensures
        with_limit(with_search(v, s), l) == with_search(with_limit(v, l), s),
        with_offset(with_search(v, s), o) == with_search(with_offset(v, o), s),
        with_offset(with_limit(v, l), o) == with_limit(with_offset(v, o), l),
        prefix_url(with_offset(with_limit(with_search(v, s), l), o)) == prefix_url(
            with_search(with_offset(with_limit(v, l), o), s),
        ),
{
}

/// Two prefix search builders with equal parameters render byte-identical
/// URLs.
pub proof fn lemma_prefix_url_deterministic(a: PrefixSearchV, b: PrefixSearchV)
    requires
        a.url == b.url,
        a.params == b.params,
        a.search == b.search,
        a.limit == b.limit,
        a.offset == b.offset,
    ensures
        prefix_url(a) == prefix_url(b),
{
}

/// Two page parse builders with equal parameters render byte-identical URLs.
pub proof fn lemma_parse_url_deterministic(a: PageParseV, b: PageParseV)
    requires
        a.url == b.url,
        a.params == b.params,
        a.page == b.page,
    ensures
        parse_url(a) == parse_url(b),
{
}

} // verus!
