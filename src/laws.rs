//! What holds of errors across several operations.

use vstd::prelude::*;

use crate::error::{chained, fresh, rendered, with_frame, ErrorView, Failure};
use crate::location::Location;

verus! {

/// `e` after passing, in order, through the propagation points `ts` of an error value.
pub open spec fn chained_through(e: ErrorView, ts: Seq<Location>) -> ErrorView
    decreases ts.len(),
{
    if ts.len() == 0 {
        e
    } else {
        with_frame(chained_through(e, ts.drop_last()), ts.last())
    }
}

/// Chaining an error value is the same as adding the frame to it: the step that
/// `chained_through` repeats is what [`crate::Error::chain`] does to one of its own errors.
pub proof fn lemma_chain_of_error_adds_frame(e: crate::Error, l: Location)
    ensures
        chained(Failure::Wrapped(e), l) == with_frame(e@, l),
{
}

/// An error created with a frame and then chained through `ts` has the trail
/// `[initial, t1, ..., tk]`: one frame more than the number of chain steps, oldest first.
pub proof fn lemma_new_then_chained(source: Seq<char>, initial: Location, ts: Seq<Location>)
    ensures
        chained_through(fresh(source, initial), ts).location == Some(seq![initial] + ts),
        chained_through(fresh(source, initial), ts).source == source,
    decreases ts.len(),
{
    if ts.len() > 0 {
        lemma_new_then_chained(source, initial, ts.drop_last());
        assert(seq![initial] + ts =~= (seq![initial] + ts.drop_last()).push(ts.last()));
    }
}

/// An error without a trail stays as it is, however many times it is chained.
pub proof fn lemma_plain_stays_untracked(e: ErrorView, ts: Seq<Location>)
    requires
        e.location is None,
    ensures
        chained_through(e, ts) == e,
    decreases ts.len(),
{
    if ts.len() > 0 {
        lemma_plain_stays_untracked(e, ts.drop_last());
    }
}

/// Chaining a failure that is not an error value of this library gives what creating an
/// error gives: exactly one frame, the one of this point.
pub proof fn lemma_foreign_chain_is_new(s: String, l: Location)
    ensures
        chained(Failure::Foreign(s), l) == fresh(s@, l),
        chained(Failure::Foreign(s), l).location == Some(seq![l]),
{
}

/// Context reads last in, first out: after pushing `a` and then `b`, the message starts with
/// `b`, then `a`, then what it was before.
pub proof fn lemma_context_lifo(e: ErrorView, a: Seq<char>, b: Seq<char>)
    ensures
        rendered(e.context.push(a).push(b), e.source) == b + seq![':', ' '] + a + seq![':', ' ']
            + rendered(e.context, e.source),
{
    let once = e.context.push(a);
    assert(once.push(b).drop_last() =~= once);
    assert(once.drop_last() =~= e.context);
    assert(rendered(once.push(b), e.source) == b + seq![':', ' '] + rendered(once, e.source));
    assert(rendered(once, e.source) == a + seq![':', ' '] + rendered(e.context, e.source));
    assert(b + seq![':', ' '] + (a + seq![':', ' '] + rendered(e.context, e.source)) =~= b
        + seq![':', ' '] + a + seq![':', ' '] + rendered(e.context, e.source));
}

} // verus!
