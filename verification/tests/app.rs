use wikipedia_tui::app::{App, Mode};
use wikipedia_tui::key::Key;
use wikipedia_tui::url::Endpoint;

fn type_query(app: &mut App, q: &str) {
    for c in q.chars() {
        app.on_key(c);
    }
}

#[test]
fn typing_respects_the_cursor_width() {
    let mut app = App::new("wikipedia-tui");
    // The renderer has not granted any width yet: nothing is accepted.
    app.on_key('x');
    assert_eq!(app.search_input, "");
    app.search_cursor_x_max = 3;
    type_query(&mut app, "cats");
    assert_eq!(app.search_input, "cat");
    app.on_backspace();
    assert_eq!(app.search_input, "ca");
    app.on_backspace();
    app.on_backspace();
    app.on_backspace();
    assert_eq!(app.search_input, "");
}

#[test]
fn empty_query_commits_nothing() {
    let mut app = App::new("wikipedia-tui");
    let req = app.on_enter();
    assert!(req.is_none());
    assert_eq!(app.mode, Mode::Search);
}

#[test]
fn resubmitting_the_same_query_fetches_once() {
    let mut app = App::new("wikipedia-tui");
    app.search_cursor_x_max = 40;
    type_query(&mut app, "cat");
    let mut fetches = 0;

    let req = app.on_enter();
    if let Some(req) = req {
        assert_eq!(req.endpoint, Endpoint::PrefixSearch);
        fetches += 1;
        // The transport would run here; apply what it extracted.
        app.apply_prefix_search(vec!["Cat".to_string()]);
    }
    assert_eq!(app.mode, Mode::Browse);

    // Go back and submit the unchanged query again.
    app.on_escape();
    assert_eq!(app.mode, Mode::Search);
    let req = app.on_enter();
    if req.is_some() {
        fetches += 1;
    }
    assert_eq!(app.mode, Mode::Browse);
    assert_eq!(fetches, 1);
}

#[test]
fn scroll_is_bounded_at_a_fresh_read_state() {
    let mut app = App::new("wikipedia-tui");
    app.mode = Mode::Read;
    app.page = vec!["one\n".to_string(), "two\n".to_string(), "three\n".to_string()];
    assert_eq!(app.page_scroll, 0);
    // One scroll up from offset zero stays at zero.
    app.on_up();
    assert_eq!(app.page_scroll, 0);
    // One scroll down from offset zero on a non-empty body saturates at zero.
    app.on_down();
    assert_eq!(app.page_scroll, 0);
    // Once the offset is positive, scrolling up moves it.
    app.page_scroll = 1;
    app.on_up();
    assert_eq!(app.page_scroll, 2);
    app.on_down();
    assert_eq!(app.page_scroll, 1);
}

#[test]
fn browse_navigation_moves_the_selection() {
    let mut app = App::new("wikipedia-tui");
    app.apply_prefix_search(vec!["A".to_string(), "B".to_string(), "C".to_string()]);
    assert_eq!(app.mode, Mode::Browse);
    assert_eq!(app.pages.state.selected, None);
    app.on_down();
    assert_eq!(app.pages.state.selected, Some(0));
    app.on_down();
    assert_eq!(app.pages.state.selected, Some(1));
    app.on_up();
    assert_eq!(app.pages.state.selected, Some(0));
}

#[test]
fn confirming_without_a_selection_is_a_no_op() {
    let mut app = App::new("wikipedia-tui");
    app.apply_prefix_search(vec!["A".to_string()]);
    let req = app.on_enter();
    assert!(req.is_none());
    assert_eq!(app.mode, Mode::Browse);
}

#[test]
fn query_to_titles_to_article_end_to_end() {
    let mut app = App::new("wikipedia-tui");
    app.search_cursor_x_max = 40;
    type_query(&mut app, "Rust");

    // Commit the query: the machine asks for a prefix search fetch.
    let mut req = app.on_enter().expect("a new query asks for a fetch");
    assert_eq!(req.endpoint, Endpoint::PrefixSearch);
    assert_eq!(
        req.url,
        "https://en.wikipedia.org/w/api.php?format=json&action=query&list=prefixsearch&pssearch=Rust&pslimit=30&psoffset=0"
    );

    // The response body the endpoint would send back.
    let search_response = "{\"query\":{\"prefixsearch\":[{\"ns\":0,\"title\":\"Rust\",\"pageid\":26477},{\"ns\":0,\"title\":\"Rust (programming language)\",\"pageid\":29414838}]}}";
    req.extract(search_response);
    assert!(req.page_list.contains(&"Rust".to_string()));
    app.apply_prefix_search(req.page_list);
    assert_eq!(app.mode, Mode::Browse);

    // Select the first title and confirm it.
    app.on_down();
    assert_eq!(app.pages.state.selected, Some(0));
    let mut req = app.on_enter().expect("a selected title asks for a fetch");
    assert_eq!(req.endpoint, Endpoint::PageParse);
    assert_eq!(
        req.url,
        "https://en.wikipedia.org/w/api.php?format=json&action=parse&prop=wikitext%7Csections&formatversion=2&page=Rust"
    );

    let parse_response = "{\"parse\":{\"title\":\"Rust\",\"sections\":[{\"toclevel\":1,\"line\":\"Chemistry\",\"number\":\"1\"},{\"toclevel\":2,\"line\":\"Oxidation\",\"number\":\"1.1\"}],\"wikitext\":\"Rust is an oxide.{{chem|Fe2O3}}\\nIt forms on iron.\"}}";
    req.extract(parse_response);
    app.apply_page_parse(req.toc_list, req.page);

    assert_eq!(app.mode, Mode::Read);
    assert!(!app.toc.is_empty());
    assert_eq!(app.toc[0], " 1 Chemistry");
    assert_eq!(app.toc[1], "   1.1 Oxidation");
    assert!(!app.page.is_empty());
    assert_eq!(app.url, "https://en.wikipedia.org/wiki/Rust");
    assert_eq!(app.page_scroll, 0);
}

#[test]
fn spaces_in_a_title_become_underscores_in_the_article_url() {
    let mut app = App::new("wikipedia-tui");
    app.apply_prefix_search(vec!["Rust (programming language)".to_string()]);
    app.on_down();
    let mut req = app.on_enter().expect("a selected title asks for a fetch");
    req.extract("\"sections\":[],\"wikitext\":\"x\"");
    app.apply_page_parse(req.toc_list, req.page);
    assert_eq!(app.url, "https://en.wikipedia.org/wiki/Rust_(programming_language)");
}

#[test]
fn escape_walks_back_through_the_modes() {
    let mut app = App::new("wikipedia-tui");
    app.mode = Mode::Read;
    app.on_escape();
    assert_eq!(app.mode, Mode::Browse);
    app.on_escape();
    assert_eq!(app.mode, Mode::Search);
    app.on_escape();
    assert_eq!(app.mode, Mode::Search);
}

#[test]
fn quit_keys_stop_the_loop_and_change_nothing() {
    let mut app = App::new("wikipedia-tui");
    app.search_cursor_x_max = 10;
    let (quit, req) = app.on_event(Key::Char('q'));
    assert!(quit);
    assert!(req.is_none());
    assert_eq!(app.search_input, "");
    let (quit, _) = app.on_event(Key::Char('a'));
    assert!(!quit);
    assert_eq!(app.search_input, "a");
    let (quit, _) = app.on_event(Key::Tab);
    assert!(!quit);
    assert_eq!(app.search_input, "a");
}
