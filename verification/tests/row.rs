use hecto::Row;

#[test]
fn render_gives_the_columns_asked_for() {
    let row = Row::from("hello world");
    assert_eq!(row.render(0, 5), "hello");
    assert_eq!(row.render(6, 11), "world");
    assert_eq!(row.render(4, 7), "o w");
    assert_eq!(row.render(0, 11), "hello world");
}

#[test]
fn render_brings_the_end_down_to_the_length() {
    let row = Row::from("hello world");
    assert_eq!(row.render(3, 100), "lo world");
    assert_eq!(row.render(0, usize::MAX), "hello world");
    assert_eq!(row.render(10, usize::MAX), "d");
}

#[test]
fn render_is_empty_once_start_reaches_the_end() {
    let row = Row::from("hello world");
    assert_eq!(row.render(5, 3), "");
    assert_eq!(row.render(5, 5), "");
    assert_eq!(row.render(0, 0), "");
    assert_eq!(row.render(11, 20), "");
    assert_eq!(row.render(100, 200), "");
    assert_eq!(row.render(usize::MAX, usize::MAX), "");
    assert_eq!(row.render(usize::MAX, 0), "");
}

#[test]
fn render_of_an_empty_row_is_empty() {
    let row = Row::from("");
    assert_eq!(row.render(0, 0), "");
    assert_eq!(row.render(0, 80), "");
    assert_eq!(row.render(3, 80), "");
}

#[test]
fn render_never_cuts_a_character_in_two() {
    // 'a' takes one column, 'é' two, '€' three.
    let row = Row::from("aé€");
    assert_eq!(row.len(), 6);
    assert_eq!(row.render(0, 1), "a");
    assert_eq!(row.render(0, 2), "");
    assert_eq!(row.render(0, 3), "aé");
    assert_eq!(row.render(1, 3), "é");
    assert_eq!(row.render(2, 3), "");
    assert_eq!(row.render(3, 6), "€");
    assert_eq!(row.render(3, 5), "");
    assert_eq!(row.render(4, 6), "");
    assert_eq!(row.render(0, 100), "aé€");
}

#[test]
fn len_counts_columns() {
    assert_eq!(Row::from("").len(), 0);
    assert_eq!(Row::from("hello").len(), 5);
    assert_eq!(Row::from("né").len(), 3);
    assert_eq!(Row::from("hello world").len(), 11);
}

#[test]
fn is_empty_tells_an_empty_row() {
    assert!(Row::from("").is_empty());
    assert!(!Row::from(" ").is_empty());
}

#[test]
fn a_row_keeps_its_text() {
    let row = Row::from("let x = 1;");
    assert_eq!(row.as_str(), "let x = 1;");
    assert_eq!(&*row, "let x = 1;");
    assert!(row.starts_with("let"));
}
