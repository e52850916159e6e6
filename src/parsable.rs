use crate::load::LoadSource;
use crate::process::{process_text, processed_text};
use crate::source::Source;
use vstd::prelude::*;

verus! {

/// A type that can be parsed from a text `&str`; this provides a `parse_source` default method
/// for parsing any [LoadSource] value such as `&str`.
pub trait Parsable: Sized {
    /// Parse this type from a text `&str`.
    fn parse_text(text: &str) -> anyhow::Result<Self>;

    /// Parse this type from any [LoadSource] input.
    ///
    /// The default implementation loads the source and delegates to [Parsable::parse_text].
    fn parse_source<S: LoadSource>(source: S) -> (r: anyhow::Result<Self>)
        ensures
            exists|loaded: anyhow::Result<Source>|
                call_ensures(S::load, (&source,), loaded) && processed_text(
                    loaded,
                    Self::parse_text,
                    r,
                ),
    {
        process_text(source, Self::parse_text)
    }
}

} // verus!
