use crate::context::{context_for, context_line, error_with_context};
use crate::load::LoadSource;
use crate::source::Source;
use vstd::prelude::*;

verus! {

/// What a callback's outcome becomes for a source shown as `name`: a value passes through
/// unchanged, an error gets the line `Error in {name}:` in front of it.
pub open spec fn callback_outcome<R>(out: anyhow::Result<R>, name: Seq<char>) -> anyhow::Result<R> {
    match out {
        Ok(v) => Ok(v),
        Err(e) => Err(error_with_context(e, context_line(name))),
    }
}

/// `r` is a possible result of running `f` on the source that `loaded` holds: a failed load is
/// handed on as it is, otherwise `r` is one outcome of `f` on the source, contextualized.
pub open spec fn processed<'a, R, F: FnOnce(&Source<'a>) -> anyhow::Result<R>>(
    loaded: anyhow::Result<Source<'a>>,
    f: F,
    r: anyhow::Result<R>,
) -> bool {
    match loaded {
        Err(e) => r == Err::<R, anyhow::Error>(e),
        Ok(s) => exists|out: anyhow::Result<R>|
            call_ensures(f, (&s,), out) && r == callback_outcome(out, s@.display_name()),
    }
}

/// `r` is a possible result of running the text callback `f` on the source that `loaded` holds:
/// a failed load is handed on as it is, otherwise `r` is one outcome of `f` on the source's
/// text, contextualized.
pub open spec fn processed_text<'a, R, F: FnOnce(&str) -> anyhow::Result<R>>(
    loaded: anyhow::Result<Source<'a>>,
    f: F,
    r: anyhow::Result<R>,
) -> bool {
    match loaded {
        Err(e) => r == Err::<R, anyhow::Error>(e),
        Ok(s) => exists|t: &str, out: anyhow::Result<R>|
            t@ == s@.text && call_ensures(f, (t,), out) && r == callback_outcome(
                out,
                s@.display_name(),
            ),
    }
}

/// Run `f` on the source that a load gave, or hand on the load's failure.
///
/// A failure of `f` gets the line `Error in {name}:` in front of it, `name` being the source's
/// name as shown; a failed load is not wrapped again.
pub fn process_loaded<'a, R, F>(loaded: anyhow::Result<Source<'a>>, f: F) -> (r: anyhow::Result<R>)
    where
        F: FnOnce(&Source<'a>) -> anyhow::Result<R>,
    requires
        loaded is Ok ==> call_requires(f, (&loaded->Ok_0,)),
    ensures
        processed(loaded, f, r),
{
    match loaded {
        Err(e) => Err(e),
        Ok(src) => {
            let out = f(&src);
            let ghost out_spec = out;
            let r = match out {
                Ok(v) => Ok(v),
                Err(e) => Err(context_for(e, src.name())),
            };
            assert(call_ensures(f, (&src,), out_spec) && r == callback_outcome(
                out_spec,
                src@.display_name(),
            ));
            r
        },
    }
}

/// Process any [Source] with a callback, annotating the error with the source's origin `name`.
pub fn process_source<S, F, R>(source: S, f: F) -> (r: anyhow::Result<R>)
    where
        S: LoadSource,
        F: FnOnce(&Source) -> anyhow::Result<R>,
    requires
        forall|s: &Source| call_requires(f, (s,)),
    ensures
        exists|loaded: anyhow::Result<Source>|
            call_ensures(S::load, (&source,), loaded) && processed(loaded, f, r),
{
    let loaded = source.load();
    process_loaded(loaded, f)
}

/// Process any text `&str` with a callback, annotating the error with the source's origin `name`.
pub fn process_text<S, F, R>(source: S, f: F) -> (r: anyhow::Result<R>)
    where
        S: LoadSource,
        F: FnOnce(&str) -> anyhow::Result<R>,
    requires
        forall|t: &str| call_requires(f, (t,)),
    ensures
        exists|loaded: anyhow::Result<Source>|
            call_ensures(S::load, (&source,), loaded) && processed_text(loaded, f, r),
{
    let on_source = |s: &Source| -> (out: anyhow::Result<R>)
        ensures
            exists|t: &str| t@ == s@.text && call_ensures(f, (t,), out),
        { f(s.text()) };
    let r = process_source(source, on_source);
    proof {
        let loaded = choose|loaded: anyhow::Result<Source>|
            call_ensures(S::load, (&source,), loaded) && processed(loaded, on_source, r);
        if loaded is Ok {
            let s = loaded->Ok_0;
            let out = choose|out: anyhow::Result<R>|
                call_ensures(on_source, (&s,), out) && r == callback_outcome(
                    out,
                    s@.display_name(),
                );
            assert(processed_text(loaded, f, r));
        }
        assert(call_ensures(S::load, (&source,), loaded) && processed_text(loaded, f, r));
    }
    r
}

} // verus!
