use hecto::{Document, Row};

fn texts(document: &Document) -> Vec<String> {
    let mut texts = Vec::new();
    for index in 0..document.len() {
        texts.push(document.row(index).map(Row::as_str).unwrap_or("<absent>").to_string());
    }
    texts
}

#[test]
fn open_splits_the_text_into_rows() {
    let document = Document::open("greeting.txt", "hello\nworld");
    assert_eq!(document.len(), 2);
    assert!(!document.is_empty());
    assert_eq!(document.row(0).map(Row::as_str), Some("hello"));
    assert_eq!(document.row(1).map(Row::as_str), Some("world"));
    assert!(document.row(2).is_none());
    assert!(document.row(usize::MAX).is_none());
}

#[test]
fn open_keeps_the_name_of_the_file() {
    let document = Document::open("greeting.txt", "hello");
    assert_eq!(document.file_name(), Some("greeting.txt"));
}

#[test]
fn a_line_feed_at_the_end_adds_no_row() {
    assert_eq!(texts(&Document::open("f", "hello\nworld\n")), vec!["hello", "world"]);
    assert_eq!(texts(&Document::open("f", "hello\n")), vec!["hello"]);
    assert_eq!(texts(&Document::open("f", "\n")), vec![""]);
}

#[test]
fn empty_lines_are_rows() {
    assert_eq!(texts(&Document::open("f", "a\n\nb")), vec!["a", "", "b"]);
    assert_eq!(texts(&Document::open("f", "\n\n")), vec!["", ""]);
    assert_eq!(texts(&Document::open("f", "\na")), vec!["", "a"]);
    assert_eq!(texts(&Document::open("f", "a\n\n")), vec!["a", ""]);
}

#[test]
fn an_empty_text_has_no_row() {
    let document = Document::open("f", "");
    assert_eq!(document.len(), 0);
    assert!(document.is_empty());
    assert!(document.row(0).is_none());
    assert_eq!(document.file_name(), Some("f"));
}

#[test]
fn a_carriage_return_before_a_line_feed_ends_the_line() {
    assert_eq!(texts(&Document::open("f", "a\r\nb\r\n")), vec!["a", "b"]);
    assert_eq!(texts(&Document::open("f", "\r\n\r\n")), vec!["", ""]);
    assert_eq!(texts(&Document::open("f", "a\r\r\nb")), vec!["a\r", "b"]);
}

#[test]
fn a_carriage_return_alone_stays_in_its_line() {
    assert_eq!(texts(&Document::open("f", "a\rb\nc")), vec!["a\rb", "c"]);
    assert_eq!(texts(&Document::open("f", "a\r")), vec!["a\r"]);
    assert_eq!(texts(&Document::open("f", "\r")), vec!["\r"]);
    assert_eq!(texts(&Document::open("f", "a\n\r")), vec!["a", "\r"]);
    assert_eq!(texts(&Document::open("f", "a\r\rb")), vec!["a\r\rb"]);
}

#[test]
fn open_gives_the_lines_that_std_gives() {
    let samples = [
        "",
        "\n",
        "\r",
        "\r\n",
        "one",
        "one\ntwo\nthree",
        "one\r\ntwo\rthree\r\n",
        "\n\none\n\n",
        "tab\there\n  indented\n",
        "\r\r\n\r",
        "gr\u{fc}\u{df}e\nw\u{f6}rld\n",
    ];
    for sample in samples.iter() {
        let expected: Vec<String> = sample.lines().map(str::to_string).collect();
        assert_eq!(texts(&Document::open("f", sample)), expected, "for {:?}", sample);
    }
}

#[test]
fn the_default_document_is_empty() {
    let document = Document::default();
    assert_eq!(document.len(), 0);
    assert!(document.is_empty());
    assert!(document.row(0).is_none());
    assert_eq!(document.file_name(), None);
}
