use hecto::Row;

#[test]
fn render_takes_the_columns_of_the_range() {
    let row = Row::from("hello");
    assert_eq!(row.render(1, 3), "el");
    assert_eq!(row.render(0, 5), "hello");
    assert_eq!(row.render(0, 1), "h");
    assert_eq!(row.render(4, 5), "o");
}

#[test]
fn render_clamps_the_end_to_the_length() {
    let row = Row::from("hello");
    assert_eq!(row.render(3, 100), "lo");
    assert_eq!(row.render(0, usize::MAX), "hello");
    assert_eq!(row.render(5, usize::MAX), "");
}

#[test]
fn render_is_empty_when_the_range_starts_behind_the_text() {
    let row = Row::from("hello");
    assert_eq!(row.render(5, 9), "");
    assert_eq!(row.render(7, 9), "");
    assert_eq!(row.render(usize::MAX, usize::MAX), "");
}

#[test]
fn render_is_empty_when_the_range_ends_before_it_starts() {
    let row = Row::from("hello");
    assert_eq!(row.render(3, 1), "");
    assert_eq!(row.render(7, 3), "");
    assert_eq!(row.render(2, 2), "");
    assert_eq!(row.render(usize::MAX, 0), "");
}

#[test]
fn render_of_an_empty_row_is_empty() {
    let row = Row::from("");
    assert_eq!(row.render(0, 10), "");
    assert_eq!(row.render(3, 1), "");
    assert!(row.is_empty());
    assert_eq!(row.len(), 0);
}

#[test]
fn columns_are_characters() {
    let row = Row::from("h\u{e9}llo \u{4e16}\u{754c}");
    assert_eq!(row.len(), 8);
    assert!(!row.is_empty());
    assert_eq!(row.render(1, 2), "\u{e9}");
    assert_eq!(row.render(5, 8), " \u{4e16}\u{754c}");
    assert_eq!(row.render(7, 100), "\u{754c}");
    assert_eq!(row.as_str(), "h\u{e9}llo \u{4e16}\u{754c}");
}

#[test]
fn every_range_gives_a_part_of_the_text() {
    let text = "abcdef";
    let row = Row::from(text);
    let marks = [0usize, 1, 2, 5, 6, 7, 100, usize::MAX];
    for &start in marks.iter() {
        for &end in marks.iter() {
            let end_in = end.min(text.len());
            let start_in = start.min(end_in);
            assert_eq!(row.render(start, end), &text[start_in..end_in]);
        }
    }
}
