//! Operations that alternate between asking the world for something and deciding.
use vstd::prelude::*;
use crate::action;
use crate::action::{Action, Reply, Request};
use crate::error::{BenchmarkError, BenchmarkResult};

verus! {

/// An operation in progress. It asks for one [`Action`] at a time; the reply leads to the
/// operation's next state. A reply that does not answer the action leaves the state as it
/// is. An operation that asks for nothing has ended.
pub trait Flow: Sized {
    /// What the operation gives when it succeeds.
    type Output;

    /// What the operation asks for now; nothing once it has ended.
    spec fn request(&self) -> Option<Request>;

    /// The state after a reply.
    spec fn after(self, reply: Reply) -> Self;

    /// Whether `result` is what the ended operation gives.
    spec fn gives(&self, result: BenchmarkResult<Self::Output>) -> bool;

    /// A reply that answers what is asked for leads on: to another state, unless the
    /// request is for the next of many.
    proof fn goes_on(self, reply: Reply)
        requires
            self.request() is Some,
            action::answers(self.request()->0, reply),
        ensures
            self.after(reply) != self || action::asks_for_next(self.request()->0),
    ;

    /// What the operation asks for now; nothing once it has ended.
    fn action(&self) -> (action: Option<Action>)
        ensures
            action::request_of(action) == self.request(),
    ;

    /// The state after a reply.
    fn next(self, reply: Reply) -> (state: Self)
        ensures
            state == self.after(reply),
    ;

    /// The result of the ended operation.
    fn finish(self) -> (result: BenchmarkResult<Self::Output>)
        requires
            self.request() is None,
        ensures
            self.gives(result),
    ;
}

/// The state after one reply after the other.
pub open spec fn run<F: Flow>(flow: F, replies: Seq<Reply>) -> F
    decreases replies.len(),
{
    if replies.len() == 0 {
        flow
    } else {
        run(flow.after(replies[0]), replies.drop_first())
    }
}

/// What an operation asks for while it gets the replies, from its first request on.
pub open spec fn requests<F: Flow>(flow: F, replies: Seq<Reply>) -> Seq<Option<Request>>
    decreases replies.len(),
{
    if replies.len() == 0 {
        seq![flow.request()]
    } else {
        seq![flow.request()] + requests(flow.after(replies[0]), replies.drop_first())
    }
}

/// The state after the replies of a script, from its line `i` on.
pub open spec fn played_from<F: Flow>(flow: F, script: Seq<(Request, Reply)>, i: int) -> F
    decreases script.len() - i,
{
    if i < 0 || i >= script.len() {
        flow
    } else {
        played_from(flow.after(script[i].1), script, i + 1)
    }
}

/// Whether the operation asks for what a script says, from its line `i` on, while it gets
/// the replies that the script gives.
pub open spec fn follows_from<F: Flow>(flow: F, script: Seq<(Request, Reply)>, i: int) -> bool
    decreases script.len() - i,
{
    if i < 0 || i >= script.len() {
        true
    } else {
        &&& flow.request() == Some(script[i].0)
        &&& follows_from(flow.after(script[i].1), script, i + 1)
    }
}

/// Whether the result is the only one that the operation can give.
pub open spec fn gives_only<F: Flow>(flow: F, result: BenchmarkResult<F::Output>) -> bool {
    forall|r: BenchmarkResult<F::Output>| #[trigger] flow.gives(r) <==> r == result
}

/// Whether the operation can give nothing but the error of the harness with this text.
pub open spec fn gives_other<F: Flow>(flow: F, text: Seq<char>) -> bool {
    forall|r: BenchmarkResult<F::Output>| #[trigger]
        flow.gives(r) <==> (r matches Err(BenchmarkError::OtherError(said)) && said@ == text)
}

/// Whether the operation asks for what the script says, has then ended, and gives the
/// result.
pub open spec fn ends<F: Flow>(
    flow: F,
    script: Seq<(Request, Reply)>,
    result: BenchmarkResult<F::Output>,
) -> bool {
    &&& follows_from(flow, script, 0)
    &&& played_from(flow, script, 0).request() is None
    &&& gives_only(played_from(flow, script, 0), result)
}

/// Whether the operation asks for what the script says, has then ended, and gives the
/// error of the harness with this text.
pub open spec fn ends_badly<F: Flow>(
    flow: F,
    script: Seq<(Request, Reply)>,
    text: Seq<char>,
) -> bool {
    &&& follows_from(flow, script, 0)
    &&& played_from(flow, script, 0).request() is None
    &&& gives_other(played_from(flow, script, 0), text)
}

/// Whether the operation asks for what the script says and then for the request.
pub open spec fn comes_to<F: Flow>(
    flow: F,
    script: Seq<(Request, Reply)>,
    request: Request,
) -> bool {
    &&& follows_from(flow, script, 0)
    &&& played_from(flow, script, 0).request() == Some(request)
}

/// Whether the operation asks for what the script says and is then in the state `later`.
pub open spec fn arrives<F: Flow>(flow: F, script: Seq<(Request, Reply)>, later: F) -> bool {
    &&& follows_from(flow, script, 0)
    &&& played_from(flow, script, 0) == later
}

proof fn lemma_script_shift<F: Flow>(
    flow: F,
    first: Seq<(Request, Reply)>,
    second: Seq<(Request, Reply)>,
    j: int,
)
    requires
        0 <= j <= second.len(),
    ensures
        follows_from(flow, first + second, first.len() + j) == follows_from(flow, second, j),
        played_from(flow, first + second, first.len() + j) == played_from(flow, second, j),
    decreases second.len() - j,
{
    if j < second.len() {
        assert((first + second)[first.len() + j] == second[j]);
        lemma_script_shift(flow.after(second[j].1), first, second, j + 1);
    }
}

proof fn lemma_script_prefix<F: Flow>(
    flow: F,
    first: Seq<(Request, Reply)>,
    second: Seq<(Request, Reply)>,
    i: int,
)
    requires
        0 <= i <= first.len(),
    ensures
        ({
            let there = played_from(flow, first, i);
            &&& follows_from(flow, first + second, i) == (follows_from(flow, first, i)
                && follows_from(there, second, 0))
            &&& played_from(flow, first + second, i) == played_from(there, second, 0)
        }),
    decreases first.len() - i,
{
    if i < first.len() {
        assert((first + second)[i] == first[i]);
        lemma_script_prefix(flow.after(first[i].1), first, second, i + 1);
    } else {
        lemma_script_shift(flow, first, second, 0);
    }
}

/// A script of two parts is followed where the second part is followed from the state in
/// which the first part leaves the operation.
pub proof fn script_in_parts<F: Flow>(
    flow: F,
    first: Seq<(Request, Reply)>,
    second: Seq<(Request, Reply)>,
)
    ensures
        ({
            let there = played_from(flow, first, 0);
            &&& follows_from(flow, first + second, 0) == (follows_from(flow, first, 0)
                && follows_from(there, second, 0))
            &&& played_from(flow, first + second, 0) == played_from(there, second, 0)
        }),
{
    lemma_script_prefix(flow, first, second, 0);
}

/// The replies to a run and then one more.
pub broadcast proof fn run_push<F: Flow>(flow: F, replies: Seq<Reply>, reply: Reply)
    ensures
        #[trigger] run(flow, replies.push(reply)) == run(flow, replies).after(reply),
    decreases replies.len(),
{
    let all = replies.push(reply);
    if replies.len() == 0 {
        assert(all.drop_first() =~= Seq::empty());
        assert(all[0] == reply);
        run_empty(flow);
        run_empty(flow.after(reply));
        assert(replies =~= Seq::empty());
    } else {
        assert(all[0] == replies[0]);
        assert(all.drop_first() =~= replies.drop_first().push(reply));
        run_push(flow.after(replies[0]), replies.drop_first(), reply);
    }
}

/// No replies change nothing.
pub broadcast proof fn run_empty<F: Flow>(flow: F)
    ensures
        #[trigger] run(flow, Seq::<Reply>::empty()) == flow,
{
}

/// The requests during a run and then one more.
pub broadcast proof fn requests_push<F: Flow>(flow: F, replies: Seq<Reply>, reply: Reply)
    ensures
        #[trigger] requests(flow, replies.push(reply)) == requests(flow, replies).push(
            run(flow, replies.push(reply)).request(),
        ),
    decreases replies.len(),
{
    let all = replies.push(reply);
    if replies.len() == 0 {
        assert(all.drop_first() =~= Seq::empty());
        assert(all[0] == reply);
        assert(replies =~= Seq::empty());
        run_empty(flow.after(reply));
        requests_empty(flow.after(reply));
        requests_empty(flow);
        assert(requests(flow, all) =~= requests(flow, replies).push(
            flow.after(reply).request(),
        ));
    } else {
        assert(all[0] == replies[0]);
        assert(all.drop_first() =~= replies.drop_first().push(reply));
        requests_push(flow.after(replies[0]), replies.drop_first(), reply);
        assert(requests(flow, all) =~= requests(flow, replies).push(run(flow, all).request()));
    }
}

/// The replies to one part of a run and then to another.
pub proof fn run_add<F: Flow>(flow: F, first: Seq<Reply>, second: Seq<Reply>)
    ensures
        run(flow, first + second) == run(run(flow, first), second),
    decreases first.len(),
{
    let all = first + second;
    if first.len() == 0 {
        assert(all =~= second);
    } else {
        assert(all[0] == first[0]);
        assert(all.drop_first() =~= first.drop_first() + second);
        run_add(flow.after(first[0]), first.drop_first(), second);
    }
}

/// Before any reply only the first request is made.
pub broadcast proof fn requests_empty<F: Flow>(flow: F)
    ensures
        #[trigger] requests(flow, Seq::<Reply>::empty()) == seq![flow.request()],
{
}

/// Two elements, one after the other.
pub broadcast proof fn two_in_order<T>(a: [T; 2])
    ensures
        #[trigger] a@ == Seq::empty().push(a@[0]).push(a@[1]),
{
    assert(a@ =~= Seq::empty().push(a@[0]).push(a@[1]));
}

/// Three elements, one after the other.
pub broadcast proof fn three_in_order<T>(a: [T; 3])
    ensures
        #[trigger] a@ == Seq::empty().push(a@[0]).push(a@[1]).push(a@[2]),
{
    assert(a@ =~= Seq::empty().push(a@[0]).push(a@[1]).push(a@[2]));
}

/// Four elements, one after the other.
pub broadcast proof fn four_in_order<T>(a: [T; 4])
    ensures
        #[trigger] a@ == Seq::empty().push(a@[0]).push(a@[1]).push(a@[2]).push(a@[3]),
{
    assert(a@ =~= Seq::empty().push(a@[0]).push(a@[1]).push(a@[2]).push(a@[3]));
}

/// What follows from the replies that an operation gets one by one.
pub broadcast group group_flow {
    run_push,
    run_empty,
    requests_push,
    requests_empty,
    two_in_order,
    three_in_order,
    four_in_order,
}

} // verus!
