use wikipedia_tui::url::{PageParse, PrefixSearch};

#[test]
fn prefix_search_new() {
    assert_eq!(
        PrefixSearch::new(),
        PrefixSearch {
            url: "https://en.wikipedia.org/w/api.php?format=json",
            params: "action=query&list=prefixsearch",
            search: <&str as std::default::Default>::default(),
            limit: u16::default(),
            offset: u16::default(),
        }
    )
}

#[test]
fn prefix_search_offset() {
    assert_eq!(
        PrefixSearch::new().search("test").limit(7357).offset(7357),
        PrefixSearch {
            url: "https://en.wikipedia.org/w/api.php?format=json",
            params: "action=query&list=prefixsearch",
            search: "test",
            limit: 7357,
            offset: 7357,
        }
    )
}

#[test]
fn prefix_search_parse() {
    let url = PrefixSearch::new().search("test").limit(7357).offset(7357).parse();
    let expected_url = format!(
        "{}&{}&{}",
        "https://en.wikipedia.org/w/api.php?format=json",
        "action=query&list=prefixsearch",
        "pssearch=test&pslimit=7357&psoffset=7357"
    );
    assert_eq!(url, expected_url)
}

#[test]
fn page_parse_new() {
    assert_eq!(
        PageParse::new(),
        PageParse {
            url: "https://en.wikipedia.org/w/api.php?format=json",
            params: "action=parse&prop=wikitext%7Csections&formatversion=2",
            page: <&str as std::default::Default>::default(),
        }
    )
}

#[test]
fn page_parse_page() {
    assert_eq!(
        PageParse::new().page("test"),
        PageParse {
            url: "https://en.wikipedia.org/w/api.php?format=json",
            params: "action=parse&prop=wikitext%7Csections&formatversion=2",
            page: "test",
        }
    )
}

#[test]
fn page_parse_parse() {
    let url = PageParse::new().page("test").parse();
    let expected_url = format!(
        "{}&{}&{}",
        "https://en.wikipedia.org/w/api.php?format=json",
        "action=parse&prop=wikitext%7Csections&formatversion=2",
        "page=test"
    );
    assert_eq!(url, expected_url)
}

#[test]
fn user_text_is_percent_encoded() {
    let url = PrefixSearch::new().search("C++ rocks").limit(30).offset(0).parse();
    assert_eq!(
        url,
        "https://en.wikipedia.org/w/api.php?format=json&action=query&list=prefixsearch&pssearch=C%2B%2B%20rocks&pslimit=30&psoffset=0"
    );
    let url = PageParse::new().page("Caf\u{e9}").parse();
    assert_eq!(
        url,
        "https://en.wikipedia.org/w/api.php?format=json&action=parse&prop=wikitext%7Csections&formatversion=2&page=Caf%C3%A9"
    );
}

#[test]
fn prefix_search_parse_renders_limit_and_offset_in_decimal() {
    let url = PrefixSearch::new().search("cats").limit(30).offset(0).parse();
    assert_eq!(
        url,
        "https://en.wikipedia.org/w/api.php?format=json&action=query&list=prefixsearch&pssearch=cats&pslimit=30&psoffset=0"
    );
}
