use bookmark_picker::bookmarks::{line_is_blank, BookmarkList};

fn lines(items: &[&str]) -> Vec<String> {
    items.iter().map(|item| item.to_string()).collect()
}

#[test]
fn keeps_paths_in_order_with_repeats() {
    let list = BookmarkList::from_lines(lines(&["/b", "/a", "/b", "/c"]));
    assert_eq!(list.len(), 4);
    assert_eq!(list.get(0), Some("/b"));
    assert_eq!(list.get(1), Some("/a"));
    assert_eq!(list.get(2), Some("/b"));
    assert_eq!(list.get(3), Some("/c"));
    assert_eq!(list.get(4), None);
    assert!(!list.is_empty());
}

#[test]
fn drops_blank_lines() {
    let list = BookmarkList::from_lines(lines(&["", "/a", "   ", "\t", "/b c", "\r", " /d "]));
    assert_eq!(list.len(), 3);
    assert_eq!(list.get(0), Some("/a"));
    assert_eq!(list.get(1), Some("/b c"));
    assert_eq!(list.get(2), Some(" /d "));
}

#[test]
fn no_lines_give_an_empty_list() {
    let list = BookmarkList::from_lines(Vec::new());
    assert_eq!(list.len(), 0);
    assert!(list.is_empty());
    assert_eq!(list.get(0), None);
}

#[test]
fn only_blank_lines_give_an_empty_list() {
    let list = BookmarkList::from_lines(lines(&["", " ", "\t \t"]));
    assert!(list.is_empty());
}

#[test]
fn blank_lines_hold_nothing_but_blank_characters() {
    assert!(line_is_blank(""));
    assert!(line_is_blank(" "));
    assert!(line_is_blank(" \t\r\n\x0B\x0C"));
    assert!(!line_is_blank("a"));
    assert!(!line_is_blank("  a  "));
    assert!(!line_is_blank("\u{a0}"));
}
