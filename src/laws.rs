use crate::ownedsource::OwnedSource;
use crate::process::callback_outcome;
use crate::source::{unnamed_placeholder, IntoText, Source, SourceView};
use vstd::prelude::*;

verus! {

/// A source made by `Source::new_unnamed(t)` shows the name `"<string>"` and the text `t`.
pub proof fn lemma_unnamed_reads_back<'a, T: IntoText<'a>>(s: Source<'a>, t: T)
    requires
        s@ == SourceView::unnamed(t.text_view()),
    ensures
        s@.display_name() == unnamed_placeholder(),
        s@.text == t.text_view(),
{
}

/// A source made by `Source::new_named(n, t)` shows the name `n` and the text `t`.
pub proof fn lemma_named_reads_back<'a, N: IntoText<'a>, T: IntoText<'a>>(
    s: Source<'a>,
    n: N,
    t: T,
)
    requires
        s@ == SourceView::named(n.text_view(), t.text_view()),
    ensures
        s@.display_name() == n.text_view(),
        s@.text == t.text_view(),
{
}

/// Converting a source to an [OwnedSource] (`OwnedSource::from`) and viewing that as a source
/// again (`OwnedSource::source` or `Source::from`) keeps the name and the text shown.
pub proof fn lemma_owned_round_trip<'a, 'b>(s: Source<'a>, o: OwnedSource, back: Source<'b>)
    requires
        o@ == s@,
        back@ == o@,
    ensures
        back@.display_name() == s@.display_name(),
        back@.text == s@.text,
{
}

/// Viewing an [OwnedSource] as a source and converting that back to an [OwnedSource] keeps the
/// name and the text shown.
pub proof fn lemma_borrowed_round_trip<'a>(o: OwnedSource, s: Source<'a>, back: OwnedSource)
    requires
        s@ == o@,
        back@ == s@,
    ensures
        back@.display_name() == o@.display_name(),
        back@.text == o@.text,
{
}

/// When the callback succeeds, processing adds no context: its value passes through unchanged.
pub proof fn lemma_success_passes_through<R>(v: R, name: Seq<char>)
    ensures
        callback_outcome(Ok::<R, anyhow::Error>(v), name) == Ok::<R, anyhow::Error>(v),
{
}

} // verus!
