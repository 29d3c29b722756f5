use self_cmd::ui::{Key, StatefulList, Step};

fn list() -> StatefulList<&'static str> {
    StatefulList::with_items(vec!["a", "b", "c"])
}

#[test]
fn starts_without_selection() {
    let l = list();
    assert_eq!(l.selected(), None);
    assert!(l.get_select().is_none());
    assert_eq!(l.items().len(), 3);
}

#[test]
fn next_from_nothing_selects_first() {
    let mut l = list();
    l.next();
    assert_eq!(l.selected(), Some(0));
    assert_eq!(l.get_select(), Some(&"a"));
}

#[test]
fn previous_from_nothing_selects_first() {
    let mut l = list();
    l.previous();
    assert_eq!(l.selected(), Some(0));
}

#[test]
fn next_wraps_to_top() {
    let mut l = list();
    l.next();
    l.next();
    l.next();
    assert_eq!(l.selected(), Some(2));
    l.next();
    assert_eq!(l.selected(), Some(0));
}

#[test]
fn previous_wraps_to_bottom() {
    let mut l = list();
    l.next();
    l.previous();
    assert_eq!(l.selected(), Some(2));
    assert_eq!(l.get_select(), Some(&"c"));
}

#[test]
fn previous_undoes_next() {
    for start in 0..3 {
        let mut l = list();
        for _ in 0..=start {
            l.next();
        }
        let before = l.selected();
        l.next();
        l.previous();
        assert_eq!(l.selected(), before);
        l.previous();
        l.next();
        assert_eq!(l.selected(), before);
    }
}

#[test]
fn next_cycles_through_all_items() {
    let mut l = list();
    l.next();
    l.next();
    let start = l.selected();
    for _ in 0..3 {
        l.next();
    }
    assert_eq!(l.selected(), start);
}

#[test]
fn unselect_clears() {
    let mut l = list();
    l.next();
    l.unselect();
    assert_eq!(l.selected(), None);
}

#[test]
fn empty_list_next_selects_nothing_real() {
    let mut l: StatefulList<u8> = StatefulList::with_items(vec![]);
    l.next();
    assert_eq!(l.selected(), Some(0));
    assert!(l.get_select().is_none());
}

#[test]
fn keys_drive_the_picker() {
    let mut l = list();
    assert_eq!(l.handle_key(Key::Down), Step::Continue);
    assert_eq!(l.handle_key(Key::Down), Step::Continue);
    assert_eq!(l.selected(), Some(1));
    assert_eq!(l.handle_key(Key::Up), Step::Continue);
    assert_eq!(l.selected(), Some(0));
    assert_eq!(l.handle_key(Key::Char('x')), Step::Continue);
    assert_eq!(l.handle_key(Key::Other), Step::Continue);
    assert_eq!(l.selected(), Some(0));
    assert_eq!(l.handle_key(Key::Char('q')), Step::Finish);
    assert_eq!(l.handle_key(Key::Enter), Step::Finish);
    assert_eq!(l.selected(), Some(0));
}
