use wikipedia_tui::extract::{extract_page, extract_titles};

#[test]
fn titles_keep_order_and_duplicates() {
    let raw = "[{\"title\":\"Apple\"},{\"title\":\"Banana\"},{\"title\":\"Apple\"}]";
    let titles = extract_titles(raw);
    assert_eq!(
        titles,
        vec!["Apple".to_string(), "Banana".to_string(), "Apple".to_string()]
    );
}

#[test]
fn titles_of_unmatched_text_are_empty() {
    assert_eq!(extract_titles(""), Vec::<String>::new());
    assert_eq!(extract_titles("no structured fields here"), Vec::<String>::new());
    assert_eq!(extract_titles("\"title\":\"unclosed"), Vec::<String>::new());
}

#[test]
fn extraction_is_repeatable() {
    let raw = "{\"query\":{\"prefixsearch\":[{\"title\":\"Rust\"},{\"title\":\"Rusting\"}]}}";
    let first = extract_titles(raw);
    let second = extract_titles(raw);
    assert_eq!(first, second);
    assert_eq!(first, vec!["Rust".to_string(), "Rusting".to_string()]);
}

#[test]
fn toc_indentation_follows_the_dotted_number() {
    let raw = "\"sections\":[{\"line\":\"History\",\"number\":\"2\"},{\"line\":\"Origins\",\"number\":\"2.1.3\"}],\"wikitext\":\"Body\"";
    let (toc, _body) = extract_page(raw);
    assert_eq!(toc.len(), 2);
    // A bare number has no dot: no indentation.
    assert_eq!(toc[0], " 2 History");
    // Two dots in the number: two levels, four spaces of indentation.
    assert_eq!(toc[1], "     2.1.3 Origins");
}

#[test]
fn wikitext_cleanup_strips_templates_and_refs() {
    let raw = "\"sections\":[],\"wikitext\":Hello {{cite|x}} World<ref>y</ref>!";
    let (toc, body) = extract_page(raw);
    assert_eq!(toc, Vec::<String>::new());
    assert_eq!(body, vec!["Hello  World!\n".to_string()]);
}

#[test]
fn wikitext_cleanup_strips_file_links_attr_refs_and_stray_tags() {
    let raw = "\"sections\":[],\"wikitext\":A[[File:pic.png|thumb]]B<ref name=x>C</ref>D";
    let (_toc, body) = extract_page(raw);
    // The file link goes; the attributed opening tag goes; the stray closing
    // tag goes; the reference text between them stays.
    assert_eq!(body, vec!["ABCD\n".to_string()]);
}

#[test]
fn escaped_newlines_split_into_lines_and_triples_collapse() {
    let raw = "\"sections\":[],\"wikitext\":one\\ntwo\\n\\n\\nthree";
    let (_toc, body) = extract_page(raw);
    assert_eq!(body, vec!["one\n".to_string(), "twothree\n".to_string()]);
}

#[test]
fn quote_only_lines_are_dropped() {
    let raw = "\"sections\":[],\"wikitext\":\"\\nkept\\n\"";
    let (_toc, body) = extract_page(raw);
    // The leading and trailing quote-only pieces go; the text between stays.
    assert_eq!(body, vec!["kept\n".to_string()]);
}

#[test]
fn page_without_the_combined_shape_is_empty() {
    let (toc, body) = extract_page("{\"error\":\"nope\"}");
    assert_eq!(toc, Vec::<String>::new());
    assert_eq!(body, Vec::<String>::new());
}
