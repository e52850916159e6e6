use std::borrow::Cow;
use vstd::prelude::*;

verus! {

/// The placeholder shown as the name of a source that has none.
pub open spec fn unnamed_placeholder() -> Seq<char> {
    "<string>"@
}

/// The abstract content of a source: its optional origin name and its text.
pub struct SourceView {
    pub name: Option<Seq<char>>,
    pub text: Seq<char>,
}

impl SourceView {
    /// A source with the given name.
    pub open spec fn named(name: Seq<char>, text: Seq<char>) -> SourceView {
        SourceView { name: Some(name), text }
    }

    /// A source without a name.
    pub open spec fn unnamed(text: Seq<char>) -> SourceView {
        SourceView { name: None, text }
    }

    /// The name as shown: the stored name, or the placeholder when there is none.
    pub open spec fn display_name(self) -> Seq<char> {
        match self.name {
            Some(n) => n,
            None => unnamed_placeholder(),
        }
    }
}

/// A string value that can become the name or the text of a [Source], borrowed where it is a
/// reference and owned where it is a `String`.
pub trait IntoText<'a> {
    /// The characters that the value stands for.
    spec fn text_view(&self) -> Seq<char>;

    /// Whether the value becomes an owned string rather than a borrowed one.
    spec fn yields_owned(&self) -> bool;

    /// Turn the value into a borrowed-or-owned string holding the same characters.
    fn into_text(self) -> (r: Cow<'a, str>)
        ensures
            r@ == self.text_view(),
            r is Owned <==> self.yields_owned(),
    ;
}

impl<'a> IntoText<'a> for &'a str {
    open spec fn text_view(&self) -> Seq<char> {
        (*self)@
    }

    open spec fn yields_owned(&self) -> bool {
        false
    }

    fn into_text(self) -> (r: Cow<'a, str>) {
        Cow::Borrowed(self)
    }
}

impl<'a> IntoText<'a> for &'a String {
    open spec fn text_view(&self) -> Seq<char> {
        (*self)@
    }

    open spec fn yields_owned(&self) -> bool {
        false
    }

    fn into_text(self) -> (r: Cow<'a, str>) {
        Cow::Borrowed(self.as_str())
    }
}

impl<'a> IntoText<'a> for String {
    open spec fn text_view(&self) -> Seq<char> {
        self@
    }

    open spec fn yields_owned(&self) -> bool {
        true
    }

    fn into_text(self) -> (r: Cow<'a, str>) {
        Cow::Owned(self)
    }
}

impl<'a> IntoText<'a> for Cow<'a, str> {
    open spec fn text_view(&self) -> Seq<char> {
        self@
    }

    open spec fn yields_owned(&self) -> bool {
        self is Owned
    }

    fn into_text(self) -> (r: Cow<'a, str>) {
        self
    }
}

/// The characters of an optional name value.
pub open spec fn opt_text_view<'a, N: IntoText<'a>>(optname: Option<N>) -> Option<Seq<char>> {
    match optname {
        Some(n) => Some(n.text_view()),
        None => None,
    }
}

/// Borrow the characters of a borrowed-or-owned string.
pub(crate) fn cow_as_str<'b, 'a>(c: &'b Cow<'a, str>) -> (r: &'b str)
    ensures
        r@ == c@,
{
    match c {
        Cow::Borrowed(b) => *b,
        Cow::Owned(o) => o.as_str(),
    }
}

/// The name to show for an optional name: the name itself, or `"<string>"` when absent.
pub(crate) fn optname_to_str<'b>(optname: Option<&'b str>) -> (r: &'b str)
    ensures
        r@ == (match optname {
            Some(n) => n@,
            None => unnamed_placeholder(),
        }),
{
    match optname {
        Some(n) => n,
        None => {
            let placeholder = "<string>";
            proof {
                reveal_strlit("<string>");
            }
            placeholder
        },
    }
}

/// A [Source] owns or refers to a `text` string with an optional `name` denoting its origin.
///
/// The `name` and `text` are both `Cow<'a, str>`, so a [Source] can either own or refer to them.
#[derive(Debug)]
pub struct Source<'a> {
    name: Option<Cow<'a, str>>,
    text: Cow<'a, str>,
}

impl<'a> View for Source<'a> {
    type V = SourceView;

    closed spec fn view(&self) -> SourceView {
        SourceView {
            name: match self.name {
                Some(n) => Some(n@),
                None => None,
            },
            text: self.text@,
        }
    }
}

impl<'a> Source<'a> {
    /// Whether the text is a private copy rather than a view into a caller's buffer.
    pub closed spec fn owns_text(&self) -> bool {
        self.text is Owned
    }

    /// Create a new [Source] with an optional origin name.
    /// Example: `Source::new(Some("<built-in>"), "my text")`
    pub fn new<N: IntoText<'a>, T: IntoText<'a>>(optname: Option<N>, text: T) -> (r: Self)
        ensures
            r@ == (SourceView { name: opt_text_view(optname), text: text.text_view() }),
            r.owns_text() == text.yields_owned(),
    {
        let name = match optname {
            Some(n) => Some(n.into_text()),
            None => None,
        };
        Source { name, text: text.into_text() }
    }

    /// Create a new [Source] with a given origin name.
    /// Example: `Source::new_named("<built-in>", "my text")`
    pub fn new_named<N: IntoText<'a>, T: IntoText<'a>>(name: N, text: T) -> (r: Self)
        ensures
            r@ == SourceView::named(name.text_view(), text.text_view()),
            r.owns_text() == text.yields_owned(),
    {
        Source::new(Some(name), text)
    }

    /// Create a new [Source] without an origin name. Example: `Source::new_unnamed("my text")`
    pub fn new_unnamed<T: IntoText<'a>>(text: T) -> (r: Self)
        ensures
            r@ == SourceView::unnamed(text.text_view()),
            r.owns_text() == text.yields_owned(),
    {
        Source::new(None::<T>, text)
    }

    /// Borrow the name of this [Source], which if absent defaults to `"<string>"`.
    pub fn name(&self) -> (r: &str)
        ensures
            r@ == self@.display_name(),
    {
        let optname = match &self.name {
            Some(n) => Some(cow_as_str(n)),
            None => None,
        };
        optname_to_str(optname)
    }

    /// Take the optional name and the text apart.
    pub(crate) fn into_parts(self) -> (r: (Option<Cow<'a, str>>, Cow<'a, str>))
        ensures
            opt_text_view(r.0) == self@.name,
            r.1@ == self@.text,
    {
        (self.name, self.text)
    }

    /// Borrow the text of this [Source].
    pub fn text(&self) -> (r: &str)
        ensures
            r@ == self@.text,
    {
        cow_as_str(&self.text)
    }
}

} // verus!
