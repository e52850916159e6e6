use crate::source::{cow_as_str, opt_text_view, optname_to_str, IntoText, Source, SourceView};
use std::borrow::Cow;
use vstd::prelude::*;

verus! {

/// Take ownership of the characters of a borrowed-or-owned string, copying them if borrowed.
pub(crate) fn cow_into_string<'a>(c: Cow<'a, str>) -> (r: String)
    ensures
        r@ == c@,
{
    match c {
        Cow::Borrowed(b) => b.to_owned(),
        Cow::Owned(o) => o,
    }
}

/// An [OwnedSource] owns a `text` string with an optional `name` denoting its origin.
#[derive(Debug)]
pub struct OwnedSource {
    name: Option<String>,
    text: String,
}

impl View for OwnedSource {
    type V = SourceView;

    closed spec fn view(&self) -> SourceView {
        SourceView {
            name: match self.name {
                Some(n) => Some(n@),
                None => None,
            },
            text: self.text@,
        }
    }
}

impl OwnedSource {
    /// Create a new [OwnedSource] with an optional origin name.
    /// Example: `OwnedSource::new(Some("<built-in>"), "my text")`
    pub fn new<'b, N: IntoText<'b>, T: IntoText<'b>>(optname: Option<N>, text: T) -> (r: Self)
        ensures
            r@ == (SourceView { name: opt_text_view(optname), text: text.text_view() }),
    {
        let name = match optname {
            Some(n) => Some(cow_into_string(n.into_text())),
            None => None,
        };
        OwnedSource { name, text: cow_into_string(text.into_text()) }
    }

    /// Create a new [OwnedSource] with a given origin name.
    /// Example: `OwnedSource::new_named("<built-in>", "my text")`
    pub fn new_named<'b, N: IntoText<'b>, T: IntoText<'b>>(name: N, text: T) -> (r: Self)
        ensures
            r@ == SourceView::named(name.text_view(), text.text_view()),
    {
        OwnedSource::new(Some(name), text)
    }

    /// Create a new [OwnedSource] without an origin name.
    /// Example: `OwnedSource::new_unnamed("my text")`
    pub fn new_unnamed<'b, T: IntoText<'b>>(text: T) -> (r: Self)
        ensures
            r@ == SourceView::unnamed(text.text_view()),
    {
        OwnedSource::new(None::<T>, text)
    }

    /// Borrow the name, which if absent defaults to `"<string>"`.
    pub fn name(&self) -> (r: &str)
        ensures
            r@ == self@.display_name(),
    {
        let optname = match &self.name {
            Some(n) => Some(n.as_str()),
            None => None,
        };
        optname_to_str(optname)
    }

    /// Borrow the text.
    pub fn text(&self) -> (r: &str)
        ensures
            r@ == self@.text,
    {
        self.text.as_str()
    }

    /// Return a [Source] referring to `self`'s contents, without copying them.
    pub fn source(&self) -> (r: Source)
        ensures
            r@ == self@,
            !r.owns_text(),
    {
        Source::new(self.name.as_ref(), &self.text)
    }

    /// Unbundle the optional `name` and `text` to take direct ownership.
    pub fn unwrap(self) -> (r: (Option<String>, String))
        ensures
            opt_text_view(r.0) == self@.name,
            r.1@ == self@.text,
    {
        (self.name, self.text)
    }
}

impl<'a> From<Source<'a>> for OwnedSource {
    /// Copy whatever the source borrows.
    fn from(s: Source<'a>) -> (r: OwnedSource)
        ensures
            r@ == s@,
    {
        let (optname, text) = s.into_parts();
        OwnedSource::new(optname, text)
    }
}

impl<'a> vstd::std_specs::convert::FromSpecImpl<Source<'a>> for OwnedSource {
    open spec fn obeys_from_spec() -> bool {
        false
    }

    open spec fn from_spec(s: Source<'a>) -> OwnedSource {
        choose|r: OwnedSource| r@ == s@
    }
}

impl<'a> From<OwnedSource> for Source<'a> {
    /// Move the owned strings into a source that owns them.
    fn from(s: OwnedSource) -> (r: Source<'a>)
        ensures
            r@ == s@,
            r.owns_text(),
    {
        let (optname, text) = s.unwrap();
        Source::new(optname, text)
    }
}

impl<'a> vstd::std_specs::convert::FromSpecImpl<OwnedSource> for Source<'a> {
    open spec fn obeys_from_spec() -> bool {
        false
    }

    open spec fn from_spec(s: OwnedSource) -> Source<'a> {
        choose|r: Source<'a>| r@ == s@
    }
}

} // verus!
