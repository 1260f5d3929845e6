use wikipedia_tui::state::StatefulList;

fn five_items() -> StatefulList<String> {
    StatefulList::with_items(vec![
        "a".to_string(),
        "b".to_string(),
        "c".to_string(),
        "d".to_string(),
        "e".to_string(),
    ])
}

#[test]
fn advance_selects_then_steps_then_wraps() {
    let mut list = five_items();
    assert_eq!(list.state.selected, None);
    list.next(1);
    assert_eq!(list.state.selected, Some(0));
    list.next(1);
    assert_eq!(list.state.selected, Some(1));
    list.next(1);
    assert_eq!(list.state.selected, Some(2));
    // From the last item one more step wraps to the first.
    list.state.select(Some(4));
    list.next(1);
    assert_eq!(list.state.selected, Some(0));
}

#[test]
fn retreat_wraps_from_the_first_item() {
    let mut list = five_items();
    list.previous(1);
    assert_eq!(list.state.selected, Some(0));
    list.previous(1);
    assert_eq!(list.state.selected, Some(4));
    list.previous(1);
    assert_eq!(list.state.selected, Some(3));
}

#[test]
fn steps_larger_than_the_list_clamp_to_the_first_item() {
    let mut list = StatefulList::with_items(vec!["x".to_string(), "y".to_string()]);
    list.next(1);
    list.previous(5);
    assert_eq!(list.state.selected, Some(0));
    list.next(5);
    assert_eq!(list.state.selected, Some(0));
    list.state.select(Some(1));
    list.previous(5);
    assert_eq!(list.state.selected, Some(0));
}

#[test]
fn with_items_starts_unselected() {
    let list = five_items();
    assert_eq!(list.state.selected, None);
    assert_eq!(list.items.len(), 5);
}
