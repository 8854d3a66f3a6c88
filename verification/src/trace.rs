//! Runs of a process that asks its environment for one thing at a time.
use vstd::prelude::*;

verus! {

/// A process that waits for the answer to one request, and whose next state
/// follows from that answer.
pub trait Process: Sized {
    type Request;

    type Reply;

    /// The request that the process waits for.
    spec fn awaits(self) -> Self::Request;

    /// The process after the answer.
    spec fn advance(self, reply: Self::Reply) -> Self;
}

/// The process after a run of answers.
pub open spec fn after<P: Process>(start: P, replies: Seq<P::Reply>) -> P
    decreases replies.len(),
{
    if replies.len() == 0 {
        start
    } else {
        after(start, replies.drop_last()).advance(replies.last())
    }
}

/// The request that the `i`-th answer of a run was given to.
pub open spec fn request<P: Process>(start: P, replies: Seq<P::Reply>, i: int) -> P::Request {
    after(start, replies.take(i)).awaits()
}

/// Whether some request of a run and the answer to it are as `what` says.
#[verifier::opaque]
pub open spec fn happened<P: Process>(
    start: P,
    replies: Seq<P::Reply>,
    what: spec_fn(P::Request, P::Reply) -> bool,
) -> bool {
    exists|i: int|
        0 <= i < replies.len() && #[trigger] what(request(start, replies, i), replies[i])
}

/// Whether something as `first` says was later followed by something as
/// `second` says.
#[verifier::opaque]
pub open spec fn happened_in_order<P: Process>(
    start: P,
    replies: Seq<P::Reply>,
    first: spec_fn(P::Request, P::Reply) -> bool,
    second: spec_fn(P::Request, P::Reply) -> bool,
) -> bool {
    exists|j: int|
        0 <= j < replies.len() && #[trigger] second(request(start, replies, j), replies[j])
            && happened(start, replies.take(j), first)
}

/// Nothing has happened before the first answer.
pub proof fn lemma_nothing_happened<P: Process>(
    start: P,
    replies: Seq<P::Reply>,
    what: spec_fn(P::Request, P::Reply) -> bool,
)
    requires
        replies.len() == 0,
    ensures
        !happened(start, replies, what),
{
    reveal(happened);
}

/// What happened in a run happened before its last answer, or with it.
pub proof fn lemma_happened_last<P: Process>(
    start: P,
    replies: Seq<P::Reply>,
    what: spec_fn(P::Request, P::Reply) -> bool,
)
    requires
        replies.len() > 0,
    ensures
        happened(start, replies, what) == (happened(start, replies.drop_last(), what) || what(
            after(start, replies.drop_last()).awaits(),
            replies.last(),
        )),
{
    reveal(happened);
    let earlier = replies.drop_last();
    assert forall|i: int| 0 <= i < earlier.len() implies request(start, replies, i) == request(
        start,
        earlier,
        i,
    ) && replies[i] == earlier[i] by {
        assert(replies.take(i) =~= earlier.take(i));
    }
    let n = earlier.len() as int;
    assert(replies.take(n) =~= earlier);
    assert(request(start, replies, n) == after(start, earlier).awaits());
    if happened(start, earlier, what) {
        let i = choose|i: int|
            0 <= i < earlier.len() && #[trigger] what(request(start, earlier, i), earlier[i]);
        assert(what(request(start, replies, i), replies[i]));
    }
    if what(after(start, earlier).awaits(), replies.last()) {
        assert(what(request(start, replies, n), replies[n]));
    }
    if happened(start, replies, what) {
        let i = choose|i: int|
            0 <= i < replies.len() && #[trigger] what(request(start, replies, i), replies[i]);
        if i < n {
            assert(what(request(start, earlier, i), earlier[i]));
        }
    }
}

/// What happened in order in a run did so before its last answer, or the last
/// answer completed it.
pub proof fn lemma_happened_in_order_last<P: Process>(
    start: P,
    replies: Seq<P::Reply>,
    first: spec_fn(P::Request, P::Reply) -> bool,
    second: spec_fn(P::Request, P::Reply) -> bool,
)
    requires
        replies.len() > 0,
    ensures
        happened_in_order(start, replies, first, second) == (happened_in_order(
            start,
            replies.drop_last(),
            first,
            second,
        ) || (happened(start, replies.drop_last(), first) && second(
            after(start, replies.drop_last()).awaits(),
            replies.last(),
        ))),
{
    reveal(happened_in_order);
    let earlier = replies.drop_last();
    let n = earlier.len() as int;
    assert(replies.take(n) =~= earlier);
    assert(request(start, replies, n) == after(start, earlier).awaits());
    if happened_in_order(start, earlier, first, second) {
        let j = choose|j: int|
            0 <= j < earlier.len() && #[trigger] second(request(start, earlier, j), earlier[j])
                && happened(start, earlier.take(j), first);
        assert(replies.take(j) =~= earlier.take(j));
        assert(second(request(start, replies, j), replies[j]));
    }
    if happened(start, earlier, first) && second(after(start, earlier).awaits(), replies.last()) {
        assert(second(request(start, replies, n), replies[n]));
    }
    if happened_in_order(start, replies, first, second) {
        let j = choose|j: int|
            0 <= j < replies.len() && #[trigger] second(request(start, replies, j), replies[j])
                && happened(start, replies.take(j), first);
        if j < n {
            assert(replies.take(j) =~= earlier.take(j));
            assert(second(request(start, earlier, j), earlier[j]));
        }
    }
}

} // verus!
