use vstd::prelude::*;

verus! {

#[verifier::external_type_specification]
#[verifier::external_body]
pub struct ExError(anyhow::Error);

/// The error that `anyhow::Error::context` builds from `e` and the message `msg`.
pub uninterp spec fn error_with_context(e: anyhow::Error, msg: Seq<char>) -> anyhow::Error;

/// The line put in front of a failure that concerns the source named `name`.
pub open spec fn context_line(name: Seq<char>) -> Seq<char> {
    "Error in "@ + name + ":"@
}

/// Relies on `anyhow::Error::context`: the result shows `msg` as its outermost message and
/// keeps `e`, with its whole chain of causes, beneath it.
#[verifier::external_body]
fn add_context(e: anyhow::Error, msg: String) -> (r: anyhow::Error)
    ensures
        r == error_with_context(e, msg@),
{
    e.context(msg)
}

/// Put the line `Error in {name}:` in front of `e`.
pub(crate) fn context_for(e: anyhow::Error, name: &str) -> (r: anyhow::Error)
    ensures
        r == error_with_context(e, context_line(name@)),
{
    let mut msg = String::from_str("Error in ");
    msg.append(name);
    msg.append(":");
    add_context(e, msg)
}

} // verus!
