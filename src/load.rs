use crate::context::{context_for, context_line, error_with_context};
use crate::source::{Source, SourceView};
use vstd::prelude::*;

verus! {

/// Any type that can load a [Source] synchronously.
///
/// Each kind of input gets its own impl; [crate::process_source] and [crate::process_text] take
/// any of them. A file loader reads the file and hands the outcome to [source_from_read].
pub trait LoadSource {
    /// Load this value synchronously into a [Source] value.
    fn load(&self) -> (r: anyhow::Result<Source<'_>>);
}

impl<'a> LoadSource for &'a str {
    /// A string loads as an unnamed source that borrows it.
    fn load(&self) -> (r: anyhow::Result<Source<'_>>)
        ensures
            r is Ok,
            r->Ok_0@ == SourceView::unnamed((**self)@),
            !r->Ok_0.owns_text(),
    {
        Ok(Source::new_unnamed(*self))
    }
}

/// Build the source for a file whose reading the caller did: `name` is the form in which the
/// origin appears in messages (for a path, its quoted display form), `read` what the read gave.
///
/// The contents become the owned text of a source named `name`; a failed read comes back with
/// the line `Error in {name}:` in front of it.
pub fn source_from_read(name: String, read: anyhow::Result<String>) -> (r: anyhow::Result<
    Source<'static>,
>)
    ensures
        match read {
            Ok(text) => {
                &&& r is Ok
                &&& r->Ok_0@ == SourceView::named(name@, text@)
                &&& r->Ok_0.owns_text()
            },
            Err(e) => r == Err::<Source<'static>, anyhow::Error>(
                error_with_context(e, context_line(name@)),
            ),
        },
{
    match read {
        Ok(text) => Ok(Source::new_named(name, text)),
        Err(e) => Err(context_for(e, name.as_str())),
    }
}

} // verus!
