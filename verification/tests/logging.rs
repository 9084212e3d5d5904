use nocelium::logging::preview;

#[test]
fn preview_keeps_short_text() {
    assert_eq!(preview("hello", 200), "hello");
    assert_eq!(preview("hello", 5), "hello");
    assert_eq!(preview("éa", 2), "éa");
}

#[test]
fn preview_cuts_long_text() {
    assert_eq!(preview("hello world", 5), "hello...");
    assert_eq!(preview("abc", 0), "...");
}

#[test]
fn preview_counts_characters() {
    assert_eq!(preview("ééé", 2), "éé...");
    assert_eq!(preview("héllo", 2), "hé...");
    assert_eq!(preview("héllo", 3), "hél...");
}
