use wikipedia_tui::request::Request;
use wikipedia_tui::url::Endpoint;

#[test]
fn request_new_builds_the_prefix_search_url() {
    let req = Request::new("rust", Endpoint::PrefixSearch);
    assert_eq!(
        req.url,
        "https://en.wikipedia.org/w/api.php?format=json&action=query&list=prefixsearch&pssearch=rust&pslimit=30&psoffset=0"
    );
    assert_eq!(req.endpoint, Endpoint::PrefixSearch);
    assert!(req.page_list.is_empty());
    assert!(req.toc_list.is_empty());
    assert!(req.page.is_empty());
}

#[test]
fn request_new_builds_the_page_parse_url() {
    let req = Request::new("rust", Endpoint::PageParse);
    assert_eq!(
        req.url,
        "https://en.wikipedia.org/w/api.php?format=json&action=parse&prop=wikitext%7Csections&formatversion=2&page=rust"
    );
    assert_eq!(req.endpoint, Endpoint::PageParse);
}

#[test]
fn extract_fills_the_list_of_the_requested_endpoint() {
    let mut req = Request::new("rust", Endpoint::PrefixSearch);
    req.extract("[{\"title\":\"Rust\"}]");
    assert_eq!(req.page_list, vec!["Rust".to_string()]);
    assert!(req.toc_list.is_empty());
    assert!(req.page.is_empty());

    let mut req = Request::new("Rust", Endpoint::PageParse);
    req.extract("\"sections\":[{\"line\":\"History\",\"number\":\"1\"}],\"wikitext\":\"text\"");
    assert!(req.page_list.is_empty());
    assert_eq!(req.toc_list, vec![" 1 History".to_string()]);
    assert_eq!(req.page, vec!["\"text\"\n".to_string()]);
}
