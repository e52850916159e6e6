//! Text paired with the name of its origin, so that whatever processes the text can report
//! errors that say where the text came from.
//!
//! - a [Source] holds a text and an optional origin name, each borrowed or owned;
//! - an [OwnedSource] holds both as owned strings;
//! - [LoadSource] turns an input (a string, a file read by the caller) into a [Source];
//! - [process_source] and [process_text] run a callback on a loaded text and put the origin's
//!   name in front of the callback's error.
mod context;
mod laws;
mod load;
mod ownedsource;
mod parsable;
mod process;
mod source;

pub use self::context::{context_line, error_with_context};
pub use self::laws::{
    lemma_borrowed_round_trip, lemma_named_reads_back, lemma_owned_round_trip,
    lemma_success_passes_through, lemma_unnamed_reads_back,
};
pub use self::load::{source_from_read, LoadSource};
pub use self::ownedsource::OwnedSource;
pub use self::parsable::Parsable;
pub use self::process::{
    callback_outcome, process_loaded, process_source, process_text, processed, processed_text,
};
pub use self::source::{opt_text_view, unnamed_placeholder, IntoText, Source, SourceView};
