use motd::fortune::{FortuneHeaderSegment, Fortunes};

#[test]
fn content_splits_on_separator_lines() {
    let fortunes = Fortunes::new(String::from("first saying\n%\nsecond saying\n%\nthird"));
    assert_eq!(
        fortunes.0,
        vec!["first saying", "second saying", "third"]
    );
}

#[test]
fn content_without_separator_is_one_fortune() {
    let fortunes = Fortunes::new(String::from("only one"));
    assert_eq!(fortunes.0, vec!["only one"]);
}

#[test]
fn drawing_from_empty_collection_fails() {
    let fortunes = Fortunes(Vec::new());
    let err = fortunes.choose_one().unwrap_err();
    assert_eq!(err.message(), "No fortunes available");
}

#[test]
fn drawing_from_singleton_returns_it() {
    let fortunes = Fortunes::new(String::from("the one"));
    assert_eq!(fortunes.choose_one().unwrap(), "the one");
}

#[test]
fn drawn_fortune_is_a_member() {
    let fortunes = Fortunes::new(String::from("a\n%\nb\n%\nc"));
    let drawn = fortunes.choose_one().unwrap();
    assert!(fortunes.0.iter().any(|f| f == drawn));
}

#[test]
fn header_wraps_and_indents() {
    // Two 45-character words cannot share an 80-column line, so the
    // wrap must break at the space, whatever wrapping algorithm the
    // text layer uses.
    let first = "a".repeat(45);
    let second = "b".repeat(45);
    let segment = FortuneHeaderSegment::new(format!("{} {}", first, second));
    let lines = segment.content_lines();
    assert_eq!(lines.len(), 2);
    assert_eq!(lines[0], format!("       {}", first));
    assert_eq!(lines[1], format!("       {}", second));
}

#[test]
fn short_header_is_indented_unwrapped() {
    let segment = FortuneHeaderSegment::new(String::from("stay curious"));
    assert_eq!(segment.content_lines(), vec!["       stay curious"]);
}
