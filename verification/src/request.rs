//! Retrieval client, without the transport: a `Request` carries the URL built
//! for one endpoint and the structured data extracted from that endpoint's
//! raw response text. Performing the one blocking HTTP GET on `url` is the
//! caller's business; the caller hands the response body text to `extract`.

use vstd::prelude::*;
use crate::extract::{extract_page, extract_titles, page_body, page_toc, title_list};
use crate::url::{
    parse_url, prefix_url, spec_base_url, spec_parse_params, spec_prefix_params, Endpoint,
    PageParse, PageParseV, PrefixSearch, PrefixSearchV,
};

verus! {

/// One request: the URL to fetch and the data extracted from its response.
pub struct Request {
    pub url: String,
    pub endpoint: Endpoint,
    pub page_list: Vec<String>,
    pub toc_list: Vec<String>,
    pub page: Vec<String>,
}

/// A request that has not been given any response text yet.
pub open spec fn request_empty(r: &Request) -> bool {
    r.page_list@ == Seq::<String>::empty() && r.toc_list@ == Seq::<String>::empty() && r.page@
        == Seq::<String>::empty()
}

/// The URL `Request::new` builds for a search text and an endpoint.
pub open spec fn request_url(search: Seq<char>, endpoint: Endpoint) -> Seq<char> {
    match endpoint {
        Endpoint::PrefixSearch => prefix_url(
            PrefixSearchV {
                url: spec_base_url(),
                params: spec_prefix_params(),
                search: search,
                limit: 30,
                offset: 0,
            },
        ),
        Endpoint::PageParse => parse_url(
            PageParseV { url: spec_base_url(), params: spec_parse_params(), page: search },
        ),
    }
}

impl Default for Request {
    /// An empty prefix search request with no URL.
    fn default() -> (r: Self)
        ensures
            r.url@ == Seq::<char>::empty(),
            r.endpoint == Endpoint::PrefixSearch,
            request_empty(&r),
    {
        Request {
            url: String::new(),
            endpoint: Endpoint::PrefixSearch,
            page_list: Vec::new(),
            toc_list: Vec::new(),
            page: Vec::new(),
        }
    }
}

impl Request {
    /// Builds the request URL for `search` on the given endpoint: a prefix
    /// search asks for at most 30 results from offset 0; a page parse asks
    /// for the page's wikitext and sections.
    pub fn new(search: &str, url: Endpoint) -> (r: Self)
        ensures
            r.endpoint == url,
            r.url@ == request_url(search@, url),
            request_empty(&r),
    {
        let mut req = Self::default();
        match url {
            Endpoint::PrefixSearch => {
                req.endpoint = Endpoint::PrefixSearch;
                req.url = PrefixSearch::new().search(search).limit(30).offset(0).parse();
            },
            Endpoint::PageParse => {
                req.endpoint = Endpoint::PageParse;
                req.url = PageParse::new().page(search).parse();
            },
        }
        req
    }

    /// Feeds the raw response body text to the extractor of this request's
    /// endpoint: a prefix search response fills the title list; a page parse
    /// response fills the table of contents and the body lines. The other
    /// fields are left as they were.
    pub fn extract(&mut self, response: &str)
        ensures
            final(self).url == old(self).url,
            final(self).endpoint == old(self).endpoint,
            match old(self).endpoint {
                Endpoint::PrefixSearch => final(self).page_list.deep_view() == title_list(
                    response@,
                    0,
                ) && final(self).toc_list == old(self).toc_list && final(self).page == old(self).page,
                Endpoint::PageParse => final(self).toc_list.deep_view() == page_toc(response@)
                    && final(self).page.deep_view() == page_body(response@) && final(self).page_list == old(self).page_list,
            },
    {
        match self.endpoint {
            Endpoint::PrefixSearch => {
                self.page_list = extract_titles(response);
            },
            Endpoint::PageParse => {
                let (toc, body) = extract_page(response);
                self.toc_list = toc;
                self.page = body;
            },
        }
    }
}

} // verus!
