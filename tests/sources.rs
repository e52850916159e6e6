use source_text::{LoadSource, OwnedSource, Source};

#[test]
fn unnamed_source_shows_placeholder_name() {
    let s = Source::new_unnamed("my text");
    assert_eq!(s.name(), "<string>");
    assert_eq!(s.text(), "my text");
}

#[test]
fn unnamed_source_keeps_text_verbatim() {
    let text = "  spaced\r\n\ttext\n";
    let s = Source::new_unnamed(text);
    assert_eq!(s.text(), text);
    let empty = Source::new_unnamed("");
    assert_eq!(empty.text(), "");
    assert_eq!(empty.name(), "<string>");
}

#[test]
fn named_source_shows_its_name() {
    let s = Source::new_named("<built-in>", "my text");
    assert_eq!(s.name(), "<built-in>");
    assert_eq!(s.text(), "my text");
}

#[test]
fn named_source_from_owned_strings() {
    let s = Source::new_named(String::from("config.toml"), String::from("a = 1"));
    assert_eq!(s.name(), "config.toml");
    assert_eq!(s.text(), "a = 1");
}

#[test]
fn source_new_with_optional_name() {
    let named = Source::new(Some("<built-in>"), "my text");
    assert_eq!(named.name(), "<built-in>");
    assert_eq!(named.text(), "my text");
    let unnamed = Source::new(None::<&str>, "my text");
    assert_eq!(unnamed.name(), "<string>");
}

#[test]
fn owned_source_accessors() {
    let o = OwnedSource::new_named("<built-in>", "my text");
    assert_eq!(o.name(), "<built-in>");
    assert_eq!(o.text(), "my text");
    let u = OwnedSource::new_unnamed(String::from("body"));
    assert_eq!(u.name(), "<string>");
    assert_eq!(u.text(), "body");
    let n = OwnedSource::new(Some("n"), "t");
    assert_eq!(n.name(), "n");
}

#[test]
fn owned_source_unwrap_gives_fields() {
    let o = OwnedSource::new_named("origin", "body");
    assert_eq!(o.unwrap(), (Some(String::from("origin")), String::from("body")));
    let u = OwnedSource::new_unnamed("body");
    assert_eq!(u.unwrap(), (None, String::from("body")));
}

#[test]
fn owned_round_trip_keeps_name_and_text() {
    let text = String::from("line one\nline two");
    let s = Source::new_named("origin", &text);
    let o = OwnedSource::from(s);
    let back = o.source();
    assert_eq!(back.name(), "origin");
    assert_eq!(back.text(), "line one\nline two");
    let moved: Source = Source::from(o);
    assert_eq!(moved.name(), "origin");
    assert_eq!(moved.text(), "line one\nline two");
}

#[test]
fn owned_round_trip_unnamed() {
    let o = OwnedSource::from(Source::new_unnamed("x"));
    assert_eq!(o.name(), "<string>");
    let back = OwnedSource::from(o.source());
    assert_eq!(back.name(), "<string>");
    assert_eq!(back.text(), "x");
}

#[test]
fn owned_source_view_does_not_copy() {
    let o = OwnedSource::new_named("n", "some text");
    let s = o.source();
    assert_eq!(s.text().as_ptr(), o.text().as_ptr());
}

#[test]
fn str_load_borrows_the_text() {
    let text: &str = "borrowed text";
    let s = text.load().unwrap();
    assert_eq!(s.text(), text);
    assert_eq!(s.text().as_ptr(), text.as_ptr());
    assert_eq!(s.name(), "<string>");
}

#[test]
fn source_from_cow_values() {
    let borrowed = Source::new_unnamed(std::borrow::Cow::Borrowed("b"));
    assert_eq!(borrowed.text(), "b");
    let owned = Source::new_named(
        std::borrow::Cow::Owned(String::from("n")),
        std::borrow::Cow::<str>::Owned(String::from("o")),
    );
    assert_eq!(owned.name(), "n");
    assert_eq!(owned.text(), "o");
}
