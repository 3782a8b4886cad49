use vie::row::Row;

fn text(row: &Row) -> String {
    String::from_utf8(row.as_bytes().to_vec()).unwrap()
}

#[test]
fn tab_renders_as_one_space() {
    let row = Row::from("a\tb");
    assert_eq!(row.len(), 3);
    assert_eq!(row.to_string(0, 3), "a b");
    assert_eq!(text(&row), "a\tb");
}

#[test]
fn emoji_with_modifier_is_one_cluster() {
    let row = Row::from("\u{1F44D}\u{1F3FD}");
    assert_eq!(row.len(), 1);
}

#[test]
fn delete_removes_whole_cluster() {
    let mut row = Row::from("a\u{1F44D}\u{1F3FD}b");
    assert_eq!(row.len(), 3);
    row.delete(1);
    assert_eq!(text(&row), "ab");
    assert_eq!(row.len(), 2);
}

#[test]
fn insert_never_splits_a_cluster() {
    let mut row = Row::from("\u{1F44D}\u{1F3FD}b");
    row.insert(1, 'x');
    assert_eq!(text(&row), "\u{1F44D}\u{1F3FD}xb");
    assert_eq!(row.len(), 3);
    row.insert(0, 'y');
    assert_eq!(text(&row), "y\u{1F44D}\u{1F3FD}xb");
    assert_eq!(row.len(), 4);
}

#[test]
fn combining_mark_counts_with_its_base() {
    let row = Row::from("e\u{301}o");
    assert_eq!(row.len(), 2);
    assert_eq!(row.to_string(0, 1), "e\u{301}");
}

#[test]
fn insert_in_middle_adds_one() {
    let mut row = Row::from("abc");
    row.insert(1, 'x');
    assert_eq!(text(&row), "axbc");
    assert_eq!(row.len(), 4);
}

#[test]
fn insert_past_end_appends() {
    let mut row = Row::from("abc");
    row.insert(3, 'd');
    assert_eq!(text(&row), "abcd");
    row.insert(100, 'e');
    assert_eq!(text(&row), "abcde");
    assert_eq!(row.len(), 5);
}

#[test]
fn insert_into_empty_row() {
    let mut row = Row::default();
    assert_eq!(row.len(), 0);
    row.insert(0, 'q');
    assert_eq!(text(&row), "q");
    assert_eq!(row.len(), 1);
}

#[test]
fn delete_in_range() {
    let mut row = Row::from("abc");
    row.delete(0);
    assert_eq!(text(&row), "bc");
    row.delete(1);
    assert_eq!(text(&row), "b");
    assert_eq!(row.len(), 1);
}

#[test]
fn delete_past_end_changes_nothing() {
    let mut row = Row::from("abc");
    row.delete(3);
    row.delete(99);
    assert_eq!(text(&row), "abc");
    assert_eq!(row.len(), 3);
}

#[test]
fn split_then_append_restores() {
    let mut row = Row::from("hel\tlo");
    let before = row.to_string(0, row.len());
    let tail = row.split(2);
    assert_eq!(text(&row), "he");
    assert_eq!(row.len(), 2);
    assert_eq!(text(&tail), "l\tlo");
    assert_eq!(tail.len(), 4);
    row.append(&tail);
    assert_eq!(row.to_string(0, row.len()), before);
    assert_eq!(text(&row), "hel\tlo");
    assert_eq!(text(&tail), "l\tlo");
}

#[test]
fn split_past_end_leaves_empty_tail() {
    let mut row = Row::from("abc");
    let tail = row.split(10);
    assert_eq!(text(&row), "abc");
    assert_eq!(tail.len(), 0);
    assert_eq!(text(&tail), "");
}

#[test]
fn split_at_zero_moves_everything() {
    let mut row = Row::from("ab");
    let tail = row.split(0);
    assert_eq!(row.len(), 0);
    assert_eq!(text(&tail), "ab");
}

#[test]
fn render_clamps_end() {
    let row = Row::from("abcdef");
    assert_eq!(row.to_string(1, 1000), row.to_string(1, row.len()));
    assert_eq!(row.to_string(1, 1000), "bcdef");
}

#[test]
fn render_start_past_end_is_empty() {
    let row = Row::from("abcdef");
    assert_eq!(row.to_string(4, 2), "");
    assert_eq!(row.to_string(10, 20), "");
    assert_eq!(row.to_string(2, 4), "cd");
}

#[test]
fn append_concatenates() {
    let mut row = Row::from("ab");
    let other = Row::from("\u{301}c");
    row.append(&other);
    assert_eq!(text(&row), "ab\u{301}c");
    assert_eq!(row.len(), 3);
}

#[test]
fn bytes_are_utf8() {
    let row = Row::from("h\u{e9}");
    assert_eq!(row.as_bytes(), &[0x68u8, 0xc3, 0xa9][..]);
}

fn clusters(parts: &[&str]) -> Vec<String> {
    parts.iter().map(|p| p.to_string()).collect()
}

#[test]
fn render_clusters_replaces_tabs_and_clamps() {
    let gs = clusters(&["a", "\t", "b", "e\u{301}"]);
    assert_eq!(vie::row::render_clusters(&gs, 0, 3), "a b");
    assert_eq!(vie::row::render_clusters(&gs, 1, 99), " be\u{301}");
    assert_eq!(vie::row::render_clusters(&gs, 3, 1), "");
    assert_eq!(vie::row::render_clusters(&[].to_vec(), 0, 5), "");
}

#[test]
fn join_clusters_keeps_tabs() {
    let gs = clusters(&["a", "\t", "b"]);
    assert_eq!(vie::row::join_clusters(&gs, 0, 3), "a\tb");
    assert_eq!(vie::row::join_clusters(&gs, 1, 2), "\t");
    assert_eq!(vie::row::join_clusters(&gs, 2, 2), "");
}

#[test]
fn row_converts_from_str() {
    let row: Row = "x\ty".into();
    assert_eq!(row.len(), 3);
    assert_eq!(text(&row), "x\ty");
    let same = <Row as From<&str>>::from("x\ty");
    assert_eq!(text(&same), "x\ty");
}
