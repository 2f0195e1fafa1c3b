//! What holds of the order in which middleware runs, for every middleware: by what each one
//! answers alone.
use vstd::prelude::*;

use crate::errors::Error;
use crate::inthost::{Invocation, InvocationResponse, InvocationView};
use crate::middleware::{
    actor_answer, actor_ended, actor_invoked, actor_post, actor_pre, actor_run,
    actor_started, invoke_actor, run_actor_invoke, run_actor_post_invoke,
    run_actor_pre_invoke, capability_answer, capability_ended, capability_invoked,
    capability_post, capability_pre, capability_run, capability_started, invoke_capability,
    run_capability_invoke, run_capability_post_invoke, run_capability_pre_invoke,
    not_invoked, InvocationHandler, Middleware, MiddlewareResponse,
};

verus! {

/// One way of an invocation through the middleware
pub ghost struct Passage {
    /// What the first middleware is given before the invocation
    pub first: Invocation,
    /// What the middleware made of it, one after the other, before the invocation
    pub pre: Seq<Result<Invocation, Error>>,
    /// What each middleware is given to invoke
    pub given: Seq<Invocation>,
    /// What each of them answers
    pub steps: Seq<Result<MiddlewareResponse, Error>>,
    /// What the first middleware is given after the invocation
    pub back: InvocationResponse,
    /// What the middleware made of it, one after the other, after the invocation
    pub post: Seq<Result<InvocationResponse, Error>>,
}

/// Where each step hands on what it was given, all of them do.
proof fn lemma_same<T>(steps: Seq<Result<T, Error>>, given: T)
    requires
        forall|j: int|
            #![trigger steps[j]]
            0 <= j < steps.len() && (j == 0 || steps[j - 1] is Ok) ==> steps[j] == Ok::<T, Error>(
                if j == 0 { given } else { steps[j - 1]->Ok_0 },
            ),
    ensures
        forall|j: int| 0 <= j < steps.len() ==> (#[trigger] steps[j]) == Ok::<T, Error>(given),
    decreases steps.len(),
{
    if steps.len() > 0 {
        let rest = steps.drop_last();
        lemma_same(rest, given);
        assert forall|j: int| 0 <= j < steps.len() implies (#[trigger] steps[j]) == Ok::<T, Error>(
            given,
        ) by {
            if j < rest.len() {
                assert(rest[j] == steps[j]);
            } else if j > 0 {
                assert(rest[j - 1] == steps[j - 1]);
            }
        }
    }
}

/// The pre-invoke stage for an actor asks the middleware in their order. Each gets what the one
/// before it returned, the first error ends the stage and is its result, and else the result
/// is what the last returned.
pub proof fn actor_pre_invoke_order<H: InvocationHandler, M: Middleware<H>>(
    inv: Invocation,
    mids: &Vec<M>,
    r: Result<Invocation, Error>,
)
    requires
        call_ensures(run_actor_pre_invoke::<H, M>, (inv, mids), r),
    ensures
        exists|steps: Seq<Result<Invocation, Error>>|
            {
                &&& steps.len() <= mids@.len()
                &&& forall|j: int|
                    0 <= j < steps.len() ==> call_ensures(
                        <M as Middleware<H>>::actor_pre_invoke,
                        (&mids@[j], if j == 0 { inv } else { steps[j - 1]->Ok_0 }),
                        #[trigger] steps[j],
                    )
                &&& forall|j: int| 0 <= j < steps.len() - 1 ==> (#[trigger] steps[j]) is Ok
                &&& steps.len() < mids@.len() ==> steps.len() > 0 && steps.last() is Err
                &&& r == (if steps.len() == 0 {
                    Ok(inv)
                } else {
                    steps.last()
                })
            },
{
    lemma_actor_pre::<H, M>(mids@, inv, r);
}

proof fn lemma_actor_pre<H: InvocationHandler, M: Middleware<H>>(
    mids: Seq<M>,
    inv: Invocation,
    r: Result<Invocation, Error>,
) -> (steps: Seq<Result<Invocation, Error>>)
    requires
        actor_pre::<H, M>(mids, inv, r),
    ensures
        steps.len() <= mids.len(),
        forall|j: int|
            0 <= j < steps.len() ==> call_ensures(
                <M as Middleware<H>>::actor_pre_invoke,
                (&mids[j], if j == 0 { inv } else { steps[j - 1]->Ok_0 }),
                #[trigger] steps[j],
            ),
        forall|j: int| 0 <= j < steps.len() - 1 ==> (#[trigger] steps[j]) is Ok,
        steps.len() < mids.len() ==> steps.len() > 0 && steps.last() is Err,
        r == (if steps.len() == 0 { Ok(inv) } else { steps.last() }),
    decreases mids.len(),
{
    if mids.len() == 0 {
        Seq::empty()
    } else {
        let step = choose|step: Result<Invocation, Error>|
            {
                &&& #[trigger] call_ensures(
                    <M as Middleware<H>>::actor_pre_invoke,
                    (&mids[0], inv),
                    step,
                )
                &&& match step {
                    Ok(next) => actor_pre::<H, M>(mids.skip(1), next, r),
                    Err(e) => r == Err::<Invocation, Error>(e),
                }
            };
        match step {
            Ok(next) => {
                let rest = lemma_actor_pre::<H, M>(mids.skip(1), next, r);
                let steps = seq![step] + rest;
                assert forall|j: int| 0 <= j < steps.len() implies call_ensures(
                    <M as Middleware<H>>::actor_pre_invoke,
                    (&mids[j], if j == 0 { inv } else { steps[j - 1]->Ok_0 }),
                    #[trigger] steps[j],
                ) by {
                    if j > 0 {
                        assert(steps[j] == rest[j - 1]);
                        assert(mids[j] == mids.skip(1)[j - 1]);
                        if j > 1 {
                            assert(steps[j - 1] == rest[j - 2]);
                        }
                    }
                }
                steps
            },
            Err(_) => seq![step],
        }
    }
}

/// The post-invoke stage for an actor asks the middleware in their order. Each gets what the one
/// before it returned, the first error ends the stage and is its result, and else the result
/// is what the last returned.
pub proof fn actor_post_invoke_order<H: InvocationHandler, M: Middleware<H>>(
    resp: InvocationResponse,
    mids: &Vec<M>,
    r: Result<InvocationResponse, Error>,
)
    requires
        call_ensures(run_actor_post_invoke::<H, M>, (resp, mids), r),
    ensures
        exists|steps: Seq<Result<InvocationResponse, Error>>|
            {
                &&& steps.len() <= mids@.len()
                &&& forall|j: int|
                    0 <= j < steps.len() ==> call_ensures(
                        <M as Middleware<H>>::actor_post_invoke,
                        (&mids@[j], if j == 0 { resp } else { steps[j - 1]->Ok_0 }),
                        #[trigger] steps[j],
                    )
                &&& forall|j: int| 0 <= j < steps.len() - 1 ==> (#[trigger] steps[j]) is Ok
                &&& steps.len() < mids@.len() ==> steps.len() > 0 && steps.last() is Err
                &&& r == (if steps.len() == 0 {
                    Ok(resp)
                } else {
                    steps.last()
                })
            },
{
    lemma_actor_post::<H, M>(mids@, resp, r);
}

proof fn lemma_actor_post<H: InvocationHandler, M: Middleware<H>>(
    mids: Seq<M>,
    resp: InvocationResponse,
    r: Result<InvocationResponse, Error>,
) -> (steps: Seq<Result<InvocationResponse, Error>>)
    requires
        actor_post::<H, M>(mids, resp, r),
    ensures
        steps.len() <= mids.len(),
        forall|j: int|
            0 <= j < steps.len() ==> call_ensures(
                <M as Middleware<H>>::actor_post_invoke,
                (&mids[j], if j == 0 { resp } else { steps[j - 1]->Ok_0 }),
                #[trigger] steps[j],
            ),
        forall|j: int| 0 <= j < steps.len() - 1 ==> (#[trigger] steps[j]) is Ok,
        steps.len() < mids.len() ==> steps.len() > 0 && steps.last() is Err,
        r == (if steps.len() == 0 { Ok(resp) } else { steps.last() }),
    decreases mids.len(),
{
    if mids.len() == 0 {
        Seq::empty()
    } else {
        let step = choose|step: Result<InvocationResponse, Error>|
            {
                &&& #[trigger] call_ensures(
                    <M as Middleware<H>>::actor_post_invoke,
                    (&mids[0], resp),
                    step,
                )
                &&& match step {
                    Ok(next) => actor_post::<H, M>(mids.skip(1), next, r),
                    Err(e) => r == Err::<InvocationResponse, Error>(e),
                }
            };
        match step {
            Ok(next) => {
                let rest = lemma_actor_post::<H, M>(mids.skip(1), next, r);
                let steps = seq![step] + rest;
                assert forall|j: int| 0 <= j < steps.len() implies call_ensures(
                    <M as Middleware<H>>::actor_post_invoke,
                    (&mids[j], if j == 0 { resp } else { steps[j - 1]->Ok_0 }),
                    #[trigger] steps[j],
                ) by {
                    if j > 0 {
                        assert(steps[j] == rest[j - 1]);
                        assert(mids[j] == mids.skip(1)[j - 1]);
                        if j > 1 {
                            assert(steps[j - 1] == rest[j - 2]);
                        }
                    }
                }
                steps
            },
            Err(_) => seq![step],
        }
    }
}

/// The invoke stage for an actor asks the middleware in their order, each for the same
/// invocation. It goes on as long as they say so: the first that halts or fails is the last
/// that is asked, and what the last one asked has answered is the result.
pub proof fn actor_invoke_order<H: InvocationHandler, M: Middleware<H>>(
    mids: &Vec<M>,
    inv: &Invocation,
    handler: &H,
    r: Result<InvocationResponse, Error>,
)
    requires
        call_ensures(run_actor_invoke::<H, M>, (mids, inv, handler), r),
    ensures
        exists|given: Seq<Invocation>, steps: Seq<Result<MiddlewareResponse, Error>>|
            {
                &&& #[trigger] given.len() == #[trigger] steps.len()
                &&& steps.len() <= mids@.len()
                &&& forall|j: int| 0 <= j < given.len() ==> (#[trigger] given[j])@ == inv@
                &&& forall|j: int|
                    0 <= j < steps.len() ==> call_ensures(
                        <M as Middleware<H>>::actor_invoke,
                        (&mids@[j], given[j], handler),
                        #[trigger] steps[j],
                    )
                &&& forall|j: int|
                    0 <= j < steps.len() - 1 ==> (#[trigger] steps[j]) is Ok
                        && steps[j]->Ok_0 is Continue
                &&& steps.len() < mids@.len() ==> steps.len() > 0 && !(steps.last() is Ok
                    && steps.last()->Ok_0 is Continue)
                &&& steps.len() == 0 ==> r is Ok && r->Ok_0@.error == Some(
                    "No middleware invoked the operation"@,
                ) && r->Ok_0@.invocation_id == inv@.id && r->Ok_0@.msg.len() == 0
                &&& steps.len() > 0 ==> match steps.last() {
                    Ok(MiddlewareResponse::Continue(res)) => r == Ok::<InvocationResponse, Error>(
                        res,
                    ),
                    Ok(MiddlewareResponse::Halt(res)) => r == Ok::<InvocationResponse, Error>(res),
                    Err(e) => r == Err::<InvocationResponse, Error>(e),
                }
            },
{
    let last = choose|last: InvocationResponse|
        last@ == not_invoked(inv@) && #[trigger] actor_run(mids@, inv@, *handler, last, r);
    let (given, steps) = lemma_actor_run(mids@, inv@, *handler, last, r);
    assert(given.len() == steps.len());
}

proof fn lemma_actor_run<H: InvocationHandler, M: Middleware<H>>(
    mids: Seq<M>,
    inv: InvocationView,
    handler: H,
    last: InvocationResponse,
    r: Result<InvocationResponse, Error>,
) -> (trace: (Seq<Invocation>, Seq<Result<MiddlewareResponse, Error>>))
    requires
        actor_run(mids, inv, handler, last, r),
    ensures
        trace.0.len() == trace.1.len(),
        trace.1.len() <= mids.len(),
        forall|j: int| 0 <= j < trace.0.len() ==> (#[trigger] trace.0[j])@ == inv,
        forall|j: int|
            0 <= j < trace.1.len() ==> call_ensures(
                <M as Middleware<H>>::actor_invoke,
                (&mids[j], trace.0[j], &handler),
                #[trigger] trace.1[j],
            ),
        forall|j: int|
            0 <= j < trace.1.len() - 1 ==> (#[trigger] trace.1[j]) is Ok
                && trace.1[j]->Ok_0 is Continue,
        trace.1.len() < mids.len() ==> trace.1.len() > 0 && !(trace.1.last() is Ok
            && trace.1.last()->Ok_0 is Continue),
        trace.1.len() == 0 ==> r == Ok::<InvocationResponse, Error>(last),
        trace.1.len() > 0 ==> match trace.1.last() {
            Ok(MiddlewareResponse::Continue(res)) => r == Ok::<InvocationResponse, Error>(res),
            Ok(MiddlewareResponse::Halt(res)) => r == Ok::<InvocationResponse, Error>(res),
            Err(e) => r == Err::<InvocationResponse, Error>(e),
        },
    decreases mids.len(),
{
    if mids.len() == 0 {
        (Seq::empty(), Seq::empty())
    } else {
        let step = choose|step: Result<MiddlewareResponse, Error>|
            {
                &&& #[trigger] actor_answer(mids[0], inv, handler, step)
                &&& match step {
                    Ok(MiddlewareResponse::Continue(next)) => actor_run(
                        mids.skip(1),
                        inv,
                        handler,
                        next,
                        r,
                    ),
                    Ok(MiddlewareResponse::Halt(res)) => r == Ok::<InvocationResponse, Error>(res),
                    Err(e) => r == Err::<InvocationResponse, Error>(e),
                }
            };
        let copy = choose|copy: Invocation|
            copy@ == inv && #[trigger] call_ensures(
                <M as Middleware<H>>::actor_invoke,
                (&mids[0], copy, &handler),
                step,
            );
        match step {
            Ok(MiddlewareResponse::Continue(next)) => {
                let (rest_given, rest) = lemma_actor_run(mids.skip(1), inv, handler, next, r);
                let given = seq![copy] + rest_given;
                let steps = seq![step] + rest;
                assert forall|j: int| 0 <= j < steps.len() implies call_ensures(
                    <M as Middleware<H>>::actor_invoke,
                    (&mids[j], given[j], &handler),
                    #[trigger] steps[j],
                ) by {
                    if j > 0 {
                        assert(steps[j] == rest[j - 1]);
                        assert(given[j] == rest_given[j - 1]);
                        assert(mids[j] == mids.skip(1)[j - 1]);
                    }
                }
                (given, steps)
            },
            _ => {
                let given = seq![copy];
                let steps = seq![step];
                assert(steps[0] == step && given[0] == copy);
                (given, steps)
            },
        }
    }
}

/// A middleware that halts ends the invoke stage for an actor: where all those before it let
/// the stage go on, what it answers is the result, whatever those behind it would answer.
pub proof fn actor_halt_ends_stage<H: InvocationHandler, M: Middleware<H>>(
    mids: &Vec<M>,
    inv: &Invocation,
    handler: &H,
    k: int,
    res: InvocationResponse,
    r: Result<InvocationResponse, Error>,
)
    requires
        0 <= k < mids@.len(),
        forall|j: int, given: Invocation, step: Result<MiddlewareResponse, Error>|
            0 <= j < k && given@ == inv@ && #[trigger] call_ensures(
                <M as Middleware<H>>::actor_invoke,
                (&mids@[j], given, handler),
                step,
            ) ==> step is Ok && step->Ok_0 is Continue,
        forall|given: Invocation, step: Result<MiddlewareResponse, Error>|
            given@ == inv@ && #[trigger] call_ensures(
                <M as Middleware<H>>::actor_invoke,
                (&mids@[k], given, handler),
                step,
            ) ==> step == Ok::<MiddlewareResponse, Error>(MiddlewareResponse::Halt(res)),
        call_ensures(run_actor_invoke::<H, M>, (mids, inv, handler), r),
    ensures
        r == Ok::<InvocationResponse, Error>(res),
{
    actor_invoke_order(mids, inv, handler, r);
    lemma_actor_reached(mids, inv, handler, k, r);
}

/// A middleware that fails ends the invoke stage for an actor: where all those before it let
/// the stage go on, its error is the result, whatever those behind it would answer.
pub proof fn actor_error_ends_stage<H: InvocationHandler, M: Middleware<H>>(
    mids: &Vec<M>,
    inv: &Invocation,
    handler: &H,
    k: int,
    e: Error,
    r: Result<InvocationResponse, Error>,
)
    requires
        0 <= k < mids@.len(),
        forall|j: int, given: Invocation, step: Result<MiddlewareResponse, Error>|
            0 <= j < k && given@ == inv@ && #[trigger] call_ensures(
                <M as Middleware<H>>::actor_invoke,
                (&mids@[j], given, handler),
                step,
            ) ==> step is Ok && step->Ok_0 is Continue,
        forall|given: Invocation, step: Result<MiddlewareResponse, Error>|
            given@ == inv@ && #[trigger] call_ensures(
                <M as Middleware<H>>::actor_invoke,
                (&mids@[k], given, handler),
                step,
            ) ==> step == Err::<MiddlewareResponse, Error>(e),
        call_ensures(run_actor_invoke::<H, M>, (mids, inv, handler), r),
    ensures
        r == Err::<InvocationResponse, Error>(e),
{
    actor_invoke_order(mids, inv, handler, r);
    lemma_actor_reached(mids, inv, handler, k, r);
}

/// Where every middleware lets the invoke stage for an actor go on, what the last of them
/// answers is the result.
pub proof fn actor_last_answer_counts<H: InvocationHandler, M: Middleware<H>>(
    mids: &Vec<M>,
    inv: &Invocation,
    handler: &H,
    res: InvocationResponse,
    r: Result<InvocationResponse, Error>,
)
    requires
        mids@.len() > 0,
        forall|j: int, given: Invocation, step: Result<MiddlewareResponse, Error>|
            0 <= j < mids@.len() - 1 && given@ == inv@ && #[trigger] call_ensures(
                <M as Middleware<H>>::actor_invoke,
                (&mids@[j], given, handler),
                step,
            ) ==> step is Ok && step->Ok_0 is Continue,
        forall|given: Invocation, step: Result<MiddlewareResponse, Error>|
            given@ == inv@ && #[trigger] call_ensures(
                <M as Middleware<H>>::actor_invoke,
                (&mids@[mids@.len() - 1], given, handler),
                step,
            ) ==> step == Ok::<MiddlewareResponse, Error>(MiddlewareResponse::Continue(res)),
        call_ensures(run_actor_invoke::<H, M>, (mids, inv, handler), r),
    ensures
        r == Ok::<InvocationResponse, Error>(res),
{
    actor_invoke_order(mids, inv, handler, r);
    lemma_actor_reached(mids, inv, handler, mids@.len() - 1, r);
}

/// Where all the middleware before one let the stage go on, that one is asked, and if it
/// does not, its answer decides.
proof fn lemma_actor_reached<H: InvocationHandler, M: Middleware<H>>(
    mids: &Vec<M>,
    inv: &Invocation,
    handler: &H,
    k: int,
    r: Result<InvocationResponse, Error>,
)
    requires
        0 <= k < mids@.len(),
        forall|j: int, given: Invocation, step: Result<MiddlewareResponse, Error>|
            0 <= j < k && given@ == inv@ && #[trigger] call_ensures(
                <M as Middleware<H>>::actor_invoke,
                (&mids@[j], given, handler),
                step,
            ) ==> step is Ok && step->Ok_0 is Continue,
        call_ensures(run_actor_invoke::<H, M>, (mids, inv, handler), r),
    ensures
        exists|given: Invocation, step: Result<MiddlewareResponse, Error>|
            {
                &&& given@ == inv@
                &&& #[trigger] call_ensures(
                    <M as Middleware<H>>::actor_invoke,
                    (&mids@[k], given, handler),
                    step,
                )
                &&& match step {
                    Ok(MiddlewareResponse::Continue(res)) => k == mids@.len() - 1 ==> r == Ok::<
                        InvocationResponse,
                        Error,
                    >(res),
                    Ok(MiddlewareResponse::Halt(res)) => r == Ok::<InvocationResponse, Error>(res),
                    Err(e) => r == Err::<InvocationResponse, Error>(e),
                }
            },
{
    let last = choose|last: InvocationResponse|
        last@ == not_invoked(inv@) && #[trigger] actor_run(mids@, inv@, *handler, last, r);
    let (given, steps) = lemma_actor_run(mids@, inv@, *handler, last, r);
    if steps.len() <= k {
        let j = steps.len() - 1;
        assert(steps[j] is Ok && steps[j]->Ok_0 is Continue);
    }
    if k < steps.len() - 1 {
        assert(steps[k] is Ok && steps[k]->Ok_0 is Continue);
    }
    assert(call_ensures(
        <M as Middleware<H>>::actor_invoke,
        (&mids@[k], given[k], handler),
        steps[k],
    ));
}

/// Without middleware, an invocation of an actor goes to its handler as it is, once, and what
/// the handler responds is the result.
pub proof fn actor_without_middleware<H: InvocationHandler, M: Middleware<H>>(
    mids: &Vec<M>,
    inv: Invocation,
    handler: &H,
    r: Result<InvocationResponse, Error>,
)
    requires
        mids@.len() == 0,
        call_ensures(invoke_actor::<H, M>, (mids, inv, handler), r),
    ensures
        exists|given: Invocation, response: InvocationResponse|
            given@ == inv@ && #[trigger] call_ensures(H::invoke, (handler, given), response) && r
                == Ok::<InvocationResponse, Error>(response),
{
}

/// An invocation of an actor runs through all three stages. Where the pre-invoke stage fails,
/// the operation is invoked with the invocation as it came; else with what that stage made of
/// it. An error of the invoke stage is the result. Where the post-invoke stage fails, the result
/// is the response as the invoke stage gave it; else what the post-invoke stage made of it.
pub proof fn actor_stages<H: InvocationHandler, M: Middleware<H>>(
    mids: &Vec<M>,
    inv: Invocation,
    handler: &H,
    r: Result<InvocationResponse, Error>,
) -> (p: Passage)
    requires
        mids@.len() > 0,
        call_ensures(invoke_actor::<H, M>, (mids, inv, handler), r),
    ensures
        p.first@ == inv@,
        0 < p.pre.len() <= mids@.len(),
        forall|j: int|
            0 <= j < p.pre.len() ==> call_ensures(
                <M as Middleware<H>>::actor_pre_invoke,
                (&mids@[j], if j == 0 { p.first } else { p.pre[j - 1]->Ok_0 }),
                #[trigger] p.pre[j],
            ),
        forall|j: int| 0 <= j < p.pre.len() - 1 ==> (#[trigger] p.pre[j]) is Ok,
        p.pre.len() < mids@.len() ==> p.pre.last() is Err,
        0 < p.steps.len() <= mids@.len(),
        p.given.len() == p.steps.len(),
        forall|j: int|
            0 <= j < p.given.len() ==> (#[trigger] p.given[j])@ == (if p.pre.last() is Ok {
                p.pre.last()->Ok_0@
            } else {
                inv@
            }),
        forall|j: int|
            0 <= j < p.steps.len() ==> call_ensures(
                <M as Middleware<H>>::actor_invoke,
                (&mids@[j], p.given[j], handler),
                #[trigger] p.steps[j],
            ),
        forall|j: int|
            0 <= j < p.steps.len() - 1 ==> (#[trigger] p.steps[j]) is Ok
                && p.steps[j]->Ok_0 is Continue,
        p.steps.len() < mids@.len() ==> !(p.steps.last() is Ok
            && p.steps.last()->Ok_0 is Continue),
        r is Err == p.steps.last() is Err,
        r is Err ==> r->Err_0 == p.steps.last()->Err_0,
        r is Ok ==> p.back@ == (match p.steps.last()->Ok_0 {
            MiddlewareResponse::Continue(res) => res@,
            MiddlewareResponse::Halt(res) => res@,
        }),
        r is Ok ==> 0 < p.post.len() <= mids@.len(),
        r is Ok ==> forall|j: int|
            0 <= j < p.post.len() ==> call_ensures(
                <M as Middleware<H>>::actor_post_invoke,
                (&mids@[j], if j == 0 { p.back } else { p.post[j - 1]->Ok_0 }),
                #[trigger] p.post[j],
            ),
        r is Ok ==> forall|j: int| 0 <= j < p.post.len() - 1 ==> (#[trigger] p.post[j]) is Ok,
        r is Ok && p.post.len() < mids@.len() ==> p.post.last() is Err,
        r is Ok ==> r->Ok_0@ == (if p.post.last() is Ok { p.post.last()->Ok_0@ } else { p.back@ }),
{
    let (start, mid) = choose|start: InvocationView, mid: Result<InvocationResponse, Error>|
        {
            &&& actor_started::<H, M>(mids@, inv@, start)
            &&& #[trigger] actor_invoked(mids@, start, *handler, mid)
            &&& match mid {
                Err(e) => r == Err::<InvocationResponse, Error>(e),
                Ok(resp) => r is Ok && actor_ended::<H, M>(mids@, resp@, r->Ok_0@),
            }
        };
    let (first, before) = choose|first: Invocation, before: Result<Invocation, Error>|
        {
            &&& first@ == inv@
            &&& #[trigger] actor_pre::<H, M>(mids@, first, before)
            &&& start == (match before {
                Ok(i) => i@,
                Err(_) => inv@,
            })
        };
    let pre = lemma_actor_pre::<H, M>(mids@, first, before);
    let last = choose|last: InvocationResponse|
        last@ == not_invoked(start) && #[trigger] actor_run(mids@, start, *handler, last, mid);
    let (given, steps) = lemma_actor_run(mids@, start, *handler, last, mid);
    let (back, after) = choose|back: InvocationResponse, after: Result<InvocationResponse, Error>|
        {
            &&& back@ == mid->Ok_0@
            &&& #[trigger] actor_post::<H, M>(mids@, back, after)
            &&& r->Ok_0@ == (match after {
                Ok(p) => p@,
                Err(_) => mid->Ok_0@,
            })
        };
    let post = if mid is Ok {
        lemma_actor_post::<H, M>(mids@, back, after)
    } else {
        Seq::empty()
    };
    Passage { first, pre, given, steps, back, post }
}

/// Middleware that hands on what it gets changes nothing: where every pre-invoke returns the
/// invocation it was given, every invoke lets the stage go on with the same response, and
/// every post-invoke returns the response it was given, that response is the result.
pub proof fn actor_transparent<H: InvocationHandler, M: Middleware<H>>(
    mids: &Vec<M>,
    inv: Invocation,
    handler: &H,
    res: InvocationResponse,
    r: Result<InvocationResponse, Error>,
)
    requires
        mids@.len() > 0,
        forall|j: int, given: Invocation, step: Result<Invocation, Error>|
            0 <= j < mids@.len() && #[trigger] call_ensures(
                <M as Middleware<H>>::actor_pre_invoke,
                (&mids@[j], given),
                step,
            ) ==> step == Ok::<Invocation, Error>(given),
        forall|j: int, given: Invocation, step: Result<MiddlewareResponse, Error>|
            0 <= j < mids@.len() && given@ == inv@ && #[trigger] call_ensures(
                <M as Middleware<H>>::actor_invoke,
                (&mids@[j], given, handler),
                step,
            ) ==> step == Ok::<MiddlewareResponse, Error>(MiddlewareResponse::Continue(res)),
        forall|j: int, given: InvocationResponse, step: Result<InvocationResponse, Error>|
            0 <= j < mids@.len() && #[trigger] call_ensures(
                <M as Middleware<H>>::actor_post_invoke,
                (&mids@[j], given),
                step,
            ) ==> step == Ok::<InvocationResponse, Error>(given),
        call_ensures(invoke_actor::<H, M>, (mids, inv, handler), r),
    ensures
        r is Ok,
        r->Ok_0@ == res@,
{
    let (start, mid) = choose|start: InvocationView, mid: Result<InvocationResponse, Error>|
        {
            &&& actor_started::<H, M>(mids@, inv@, start)
            &&& #[trigger] actor_invoked(mids@, start, *handler, mid)
            &&& match mid {
                Err(e) => r == Err::<InvocationResponse, Error>(e),
                Ok(resp) => r is Ok && actor_ended::<H, M>(mids@, resp@, r->Ok_0@),
            }
        };
    let (given, pre) = choose|given: Invocation, pre: Result<Invocation, Error>|
        {
            &&& given@ == inv@
            &&& #[trigger] actor_pre::<H, M>(mids@, given, pre)
            &&& start == (match pre {
                Ok(i) => i@,
                Err(_) => inv@,
            })
        };
    let steps = lemma_actor_pre::<H, M>(mids@, given, pre);
    lemma_same(steps, given);
    let last = choose|last: InvocationResponse|
        last@ == not_invoked(start) && #[trigger] actor_run(mids@, start, *handler, last, mid);
    let (given, steps) = lemma_actor_run(mids@, start, *handler, last, mid);
    assert(steps[steps.len() - 1] == steps.last());
    assert(mid == Ok::<InvocationResponse, Error>(res));
    let (given, post) = choose|given: InvocationResponse, post: Result<InvocationResponse, Error>|
        {
            &&& given@ == res@
            &&& #[trigger] actor_post::<H, M>(mids@, given, post)
            &&& r->Ok_0@ == (match post {
                Ok(p) => p@,
                Err(_) => res@,
            })
        };
    let steps = lemma_actor_post::<H, M>(mids@, given, post);
    lemma_same(steps, given);
}

/// The pre-invoke stage for a capability asks the middleware in their order. Each gets what the one
/// before it returned, the first error ends the stage and is its result, and else the result
/// is what the last returned.
pub proof fn capability_pre_invoke_order<H: InvocationHandler, M: Middleware<H>>(
    inv: Invocation,
    mids: &Vec<M>,
    r: Result<Invocation, Error>,
)
    requires
        call_ensures(run_capability_pre_invoke::<H, M>, (inv, mids), r),
    ensures
        exists|steps: Seq<Result<Invocation, Error>>|
            {
                &&& steps.len() <= mids@.len()
                &&& forall|j: int|
                    0 <= j < steps.len() ==> call_ensures(
                        <M as Middleware<H>>::capability_pre_invoke,
                        (&mids@[j], if j == 0 { inv } else { steps[j - 1]->Ok_0 }),
                        #[trigger] steps[j],
                    )
                &&& forall|j: int| 0 <= j < steps.len() - 1 ==> (#[trigger] steps[j]) is Ok
                &&& steps.len() < mids@.len() ==> steps.len() > 0 && steps.last() is Err
                &&& r == (if steps.len() == 0 {
                    Ok(inv)
                } else {
                    steps.last()
                })
            },
{
    lemma_capability_pre::<H, M>(mids@, inv, r);
}

proof fn lemma_capability_pre<H: InvocationHandler, M: Middleware<H>>(
    mids: Seq<M>,
    inv: Invocation,
    r: Result<Invocation, Error>,
) -> (steps: Seq<Result<Invocation, Error>>)
    requires
        capability_pre::<H, M>(mids, inv, r),
    ensures
        steps.len() <= mids.len(),
        forall|j: int|
            0 <= j < steps.len() ==> call_ensures(
                <M as Middleware<H>>::capability_pre_invoke,
                (&mids[j], if j == 0 { inv } else { steps[j - 1]->Ok_0 }),
                #[trigger] steps[j],
            ),
        forall|j: int| 0 <= j < steps.len() - 1 ==> (#[trigger] steps[j]) is Ok,
        steps.len() < mids.len() ==> steps.len() > 0 && steps.last() is Err,
        r == (if steps.len() == 0 { Ok(inv) } else { steps.last() }),
    decreases mids.len(),
{
    if mids.len() == 0 {
        Seq::empty()
    } else {
        let step = choose|step: Result<Invocation, Error>|
            {
                &&& #[trigger] call_ensures(
                    <M as Middleware<H>>::capability_pre_invoke,
                    (&mids[0], inv),
                    step,
                )
                &&& match step {
                    Ok(next) => capability_pre::<H, M>(mids.skip(1), next, r),
                    Err(e) => r == Err::<Invocation, Error>(e),
                }
            };
        match step {
            Ok(next) => {
                let rest = lemma_capability_pre::<H, M>(mids.skip(1), next, r);
                let steps = seq![step] + rest;
                assert forall|j: int| 0 <= j < steps.len() implies call_ensures(
                    <M as Middleware<H>>::capability_pre_invoke,
                    (&mids[j], if j == 0 { inv } else { steps[j - 1]->Ok_0 }),
                    #[trigger] steps[j],
                ) by {
                    if j > 0 {
                        assert(steps[j] == rest[j - 1]);
                        assert(mids[j] == mids.skip(1)[j - 1]);
                        if j > 1 {
                            assert(steps[j - 1] == rest[j - 2]);
                        }
                    }
                }
                steps
            },
            Err(_) => seq![step],
        }
    }
}

/// The post-invoke stage for a capability asks the middleware in their order. Each gets what the one
/// before it returned, the first error ends the stage and is its result, and else the result
/// is what the last returned.
pub proof fn capability_post_invoke_order<H: InvocationHandler, M: Middleware<H>>(
    resp: InvocationResponse,
    mids: &Vec<M>,
    r: Result<InvocationResponse, Error>,
)
    requires
        call_ensures(run_capability_post_invoke::<H, M>, (resp, mids), r),
    ensures
        exists|steps: Seq<Result<InvocationResponse, Error>>|
            {
                &&& steps.len() <= mids@.len()
                &&& forall|j: int|
                    0 <= j < steps.len() ==> call_ensures(
                        <M as Middleware<H>>::capability_post_invoke,
                        (&mids@[j], if j == 0 { resp } else { steps[j - 1]->Ok_0 }),
                        #[trigger] steps[j],
                    )
                &&& forall|j: int| 0 <= j < steps.len() - 1 ==> (#[trigger] steps[j]) is Ok
                &&& steps.len() < mids@.len() ==> steps.len() > 0 && steps.last() is Err
                &&& r == (if steps.len() == 0 {
                    Ok(resp)
                } else {
                    steps.last()
                })
            },
{
    lemma_capability_post::<H, M>(mids@, resp, r);
}

proof fn lemma_capability_post<H: InvocationHandler, M: Middleware<H>>(
    mids: Seq<M>,
    resp: InvocationResponse,
    r: Result<InvocationResponse, Error>,
) -> (steps: Seq<Result<InvocationResponse, Error>>)
    requires
        capability_post::<H, M>(mids, resp, r),
    ensures
        steps.len() <= mids.len(),
        forall|j: int|
            0 <= j < steps.len() ==> call_ensures(
                <M as Middleware<H>>::capability_post_invoke,
                (&mids[j], if j == 0 { resp } else { steps[j - 1]->Ok_0 }),
                #[trigger] steps[j],
            ),
        forall|j: int| 0 <= j < steps.len() - 1 ==> (#[trigger] steps[j]) is Ok,
        steps.len() < mids.len() ==> steps.len() > 0 && steps.last() is Err,
        r == (if steps.len() == 0 { Ok(resp) } else { steps.last() }),
    decreases mids.len(),
{
    if mids.len() == 0 {
        Seq::empty()
    } else {
        let step = choose|step: Result<InvocationResponse, Error>|
            {
                &&& #[trigger] call_ensures(
                    <M as Middleware<H>>::capability_post_invoke,
                    (&mids[0], resp),
                    step,
                )
                &&& match step {
                    Ok(next) => capability_post::<H, M>(mids.skip(1), next, r),
                    Err(e) => r == Err::<InvocationResponse, Error>(e),
                }
            };
        match step {
            Ok(next) => {
                let rest = lemma_capability_post::<H, M>(mids.skip(1), next, r);
                let steps = seq![step] + rest;
                assert forall|j: int| 0 <= j < steps.len() implies call_ensures(
                    <M as Middleware<H>>::capability_post_invoke,
                    (&mids[j], if j == 0 { resp } else { steps[j - 1]->Ok_0 }),
                    #[trigger] steps[j],
                ) by {
                    if j > 0 {
                        assert(steps[j] == rest[j - 1]);
                        assert(mids[j] == mids.skip(1)[j - 1]);
                        if j > 1 {
                            assert(steps[j - 1] == rest[j - 2]);
                        }
                    }
                }
                steps
            },
            Err(_) => seq![step],
        }
    }
}

/// The invoke stage for a capability asks the middleware in their order, each for the same
/// invocation. It goes on as long as they say so: the first that halts or fails is the last
/// that is asked, and what the last one asked has answered is the result.
pub proof fn capability_invoke_order<H: InvocationHandler, M: Middleware<H>>(
    mids: &Vec<M>,
    inv: &Invocation,
    handler: &H,
    r: Result<InvocationResponse, Error>,
)
    requires
        call_ensures(run_capability_invoke::<H, M>, (mids, inv, handler), r),
    ensures
        exists|given: Seq<Invocation>, steps: Seq<Result<MiddlewareResponse, Error>>|
            {
                &&& #[trigger] given.len() == #[trigger] steps.len()
                &&& steps.len() <= mids@.len()
                &&& forall|j: int| 0 <= j < given.len() ==> (#[trigger] given[j])@ == inv@
                &&& forall|j: int|
                    0 <= j < steps.len() ==> call_ensures(
                        <M as Middleware<H>>::capability_invoke,
                        (&mids@[j], given[j], handler),
                        #[trigger] steps[j],
                    )
                &&& forall|j: int|
                    0 <= j < steps.len() - 1 ==> (#[trigger] steps[j]) is Ok
                        && steps[j]->Ok_0 is Continue
                &&& steps.len() < mids@.len() ==> steps.len() > 0 && !(steps.last() is Ok
                    && steps.last()->Ok_0 is Continue)
                &&& steps.len() == 0 ==> r is Ok && r->Ok_0@.error == Some(
                    "No middleware invoked the operation"@,
                ) && r->Ok_0@.invocation_id == inv@.id && r->Ok_0@.msg.len() == 0
                &&& steps.len() > 0 ==> match steps.last() {
                    Ok(MiddlewareResponse::Continue(res)) => r == Ok::<InvocationResponse, Error>(
                        res,
                    ),
                    Ok(MiddlewareResponse::Halt(res)) => r == Ok::<InvocationResponse, Error>(res),
                    Err(e) => r == Err::<InvocationResponse, Error>(e),
                }
            },
{
    let last = choose|last: InvocationResponse|
        last@ == not_invoked(inv@) && #[trigger] capability_run(mids@, inv@, *handler, last, r);
    let (given, steps) = lemma_capability_run(mids@, inv@, *handler, last, r);
    assert(given.len() == steps.len());
}

proof fn lemma_capability_run<H: InvocationHandler, M: Middleware<H>>(
    mids: Seq<M>,
    inv: InvocationView,
    handler: H,
    last: InvocationResponse,
    r: Result<InvocationResponse, Error>,
) -> (trace: (Seq<Invocation>, Seq<Result<MiddlewareResponse, Error>>))
    requires
        capability_run(mids, inv, handler, last, r),
    ensures
        trace.0.len() == trace.1.len(),
        trace.1.len() <= mids.len(),
        forall|j: int| 0 <= j < trace.0.len() ==> (#[trigger] trace.0[j])@ == inv,
        forall|j: int|
            0 <= j < trace.1.len() ==> call_ensures(
                <M as Middleware<H>>::capability_invoke,
                (&mids[j], trace.0[j], &handler),
                #[trigger] trace.1[j],
            ),
        forall|j: int|
            0 <= j < trace.1.len() - 1 ==> (#[trigger] trace.1[j]) is Ok
                && trace.1[j]->Ok_0 is Continue,
        trace.1.len() < mids.len() ==> trace.1.len() > 0 && !(trace.1.last() is Ok
            && trace.1.last()->Ok_0 is Continue),
        trace.1.len() == 0 ==> r == Ok::<InvocationResponse, Error>(last),
        trace.1.len() > 0 ==> match trace.1.last() {
            Ok(MiddlewareResponse::Continue(res)) => r == Ok::<InvocationResponse, Error>(res),
            Ok(MiddlewareResponse::Halt(res)) => r == Ok::<InvocationResponse, Error>(res),
            Err(e) => r == Err::<InvocationResponse, Error>(e),
        },
    decreases mids.len(),
{
    if mids.len() == 0 {
        (Seq::empty(), Seq::empty())
    } else {
        let step = choose|step: Result<MiddlewareResponse, Error>|
            {
                &&& #[trigger] capability_answer(mids[0], inv, handler, step)
                &&& match step {
                    Ok(MiddlewareResponse::Continue(next)) => capability_run(
                        mids.skip(1),
                        inv,
                        handler,
                        next,
                        r,
                    ),
                    Ok(MiddlewareResponse::Halt(res)) => r == Ok::<InvocationResponse, Error>(res),
                    Err(e) => r == Err::<InvocationResponse, Error>(e),
                }
            };
        let copy = choose|copy: Invocation|
            copy@ == inv && #[trigger] call_ensures(
                <M as Middleware<H>>::capability_invoke,
                (&mids[0], copy, &handler),
                step,
            );
        match step {
            Ok(MiddlewareResponse::Continue(next)) => {
                let (rest_given, rest) = lemma_capability_run(mids.skip(1), inv, handler, next, r);
                let given = seq![copy] + rest_given;
                let steps = seq![step] + rest;
                assert forall|j: int| 0 <= j < steps.len() implies call_ensures(
                    <M as Middleware<H>>::capability_invoke,
                    (&mids[j], given[j], &handler),
                    #[trigger] steps[j],
                ) by {
                    if j > 0 {
                        assert(steps[j] == rest[j - 1]);
                        assert(given[j] == rest_given[j - 1]);
                        assert(mids[j] == mids.skip(1)[j - 1]);
                    }
                }
                (given, steps)
            },
            _ => {
                let given = seq![copy];
                let steps = seq![step];
                assert(steps[0] == step && given[0] == copy);
                (given, steps)
            },
        }
    }
}

/// A middleware that halts ends the invoke stage for a capability: where all those before it let
/// the stage go on, what it answers is the result, whatever those behind it would answer.
pub proof fn capability_halt_ends_stage<H: InvocationHandler, M: Middleware<H>>(
    mids: &Vec<M>,
    inv: &Invocation,
    handler: &H,
    k: int,
    res: InvocationResponse,
    r: Result<InvocationResponse, Error>,
)
    requires
        0 <= k < mids@.len(),
        forall|j: int, given: Invocation, step: Result<MiddlewareResponse, Error>|
            0 <= j < k && given@ == inv@ && #[trigger] call_ensures(
                <M as Middleware<H>>::capability_invoke,
                (&mids@[j], given, handler),
                step,
            ) ==> step is Ok && step->Ok_0 is Continue,
        forall|given: Invocation, step: Result<MiddlewareResponse, Error>|
            given@ == inv@ && #[trigger] call_ensures(
                <M as Middleware<H>>::capability_invoke,
                (&mids@[k], given, handler),
                step,
            ) ==> step == Ok::<MiddlewareResponse, Error>(MiddlewareResponse::Halt(res)),
        call_ensures(run_capability_invoke::<H, M>, (mids, inv, handler), r),
    ensures
        r == Ok::<InvocationResponse, Error>(res),
{
    capability_invoke_order(mids, inv, handler, r);
    lemma_capability_reached(mids, inv, handler, k, r);
}

/// A middleware that fails ends the invoke stage for a capability: where all those before it let
/// the stage go on, its error is the result, whatever those behind it would answer.
pub proof fn capability_error_ends_stage<H: InvocationHandler, M: Middleware<H>>(
    mids: &Vec<M>,
    inv: &Invocation,
    handler: &H,
    k: int,
    e: Error,
    r: Result<InvocationResponse, Error>,
)
    requires
        0 <= k < mids@.len(),
        forall|j: int, given: Invocation, step: Result<MiddlewareResponse, Error>|
            0 <= j < k && given@ == inv@ && #[trigger] call_ensures(
                <M as Middleware<H>>::capability_invoke,
                (&mids@[j], given, handler),
                step,
            ) ==> step is Ok && step->Ok_0 is Continue,
        forall|given: Invocation, step: Result<MiddlewareResponse, Error>|
            given@ == inv@ && #[trigger] call_ensures(
                <M as Middleware<H>>::capability_invoke,
                (&mids@[k], given, handler),
                step,
            ) ==> step == Err::<MiddlewareResponse, Error>(e),
        call_ensures(run_capability_invoke::<H, M>, (mids, inv, handler), r),
    ensures
        r == Err::<InvocationResponse, Error>(e),
{
    capability_invoke_order(mids, inv, handler, r);
    lemma_capability_reached(mids, inv, handler, k, r);
}

/// Where every middleware lets the invoke stage for a capability go on, what the last of them
/// answers is the result.
pub proof fn capability_last_answer_counts<H: InvocationHandler, M: Middleware<H>>(
    mids: &Vec<M>,
    inv: &Invocation,
    handler: &H,
    res: InvocationResponse,
    r: Result<InvocationResponse, Error>,
)
    requires
        mids@.len() > 0,
        forall|j: int, given: Invocation, step: Result<MiddlewareResponse, Error>|
            0 <= j < mids@.len() - 1 && given@ == inv@ && #[trigger] call_ensures(
                <M as Middleware<H>>::capability_invoke,
                (&mids@[j], given, handler),
                step,
            ) ==> step is Ok && step->Ok_0 is Continue,
        forall|given: Invocation, step: Result<MiddlewareResponse, Error>|
            given@ == inv@ && #[trigger] call_ensures(
                <M as Middleware<H>>::capability_invoke,
                (&mids@[mids@.len() - 1], given, handler),
                step,
            ) ==> step == Ok::<MiddlewareResponse, Error>(MiddlewareResponse::Continue(res)),
        call_ensures(run_capability_invoke::<H, M>, (mids, inv, handler), r),
    ensures
        r == Ok::<InvocationResponse, Error>(res),
{
    capability_invoke_order(mids, inv, handler, r);
    lemma_capability_reached(mids, inv, handler, mids@.len() - 1, r);
}

/// Where all the middleware before one let the stage go on, that one is asked, and if it
/// does not, its answer decides.
proof fn lemma_capability_reached<H: InvocationHandler, M: Middleware<H>>(
    mids: &Vec<M>,
    inv: &Invocation,
    handler: &H,
    k: int,
    r: Result<InvocationResponse, Error>,
)
    requires
        0 <= k < mids@.len(),
        forall|j: int, given: Invocation, step: Result<MiddlewareResponse, Error>|
            0 <= j < k && given@ == inv@ && #[trigger] call_ensures(
                <M as Middleware<H>>::capability_invoke,
                (&mids@[j], given, handler),
                step,
            ) ==> step is Ok && step->Ok_0 is Continue,
        call_ensures(run_capability_invoke::<H, M>, (mids, inv, handler), r),
    ensures
        exists|given: Invocation, step: Result<MiddlewareResponse, Error>|
            {
                &&& given@ == inv@
                &&& #[trigger] call_ensures(
                    <M as Middleware<H>>::capability_invoke,
                    (&mids@[k], given, handler),
                    step,
                )
                &&& match step {
                    Ok(MiddlewareResponse::Continue(res)) => k == mids@.len() - 1 ==> r == Ok::<
                        InvocationResponse,
                        Error,
                    >(res),
                    Ok(MiddlewareResponse::Halt(res)) => r == Ok::<InvocationResponse, Error>(res),
                    Err(e) => r == Err::<InvocationResponse, Error>(e),
                }
            },
{
    let last = choose|last: InvocationResponse|
        last@ == not_invoked(inv@) && #[trigger] capability_run(mids@, inv@, *handler, last, r);
    let (given, steps) = lemma_capability_run(mids@, inv@, *handler, last, r);
    if steps.len() <= k {
        let j = steps.len() - 1;
        assert(steps[j] is Ok && steps[j]->Ok_0 is Continue);
    }
    if k < steps.len() - 1 {
        assert(steps[k] is Ok && steps[k]->Ok_0 is Continue);
    }
    assert(call_ensures(
        <M as Middleware<H>>::capability_invoke,
        (&mids@[k], given[k], handler),
        steps[k],
    ));
}

/// Without middleware, an invocation of a capability goes to its handler as it is, once, and what
/// the handler responds is the result.
pub proof fn capability_without_middleware<H: InvocationHandler, M: Middleware<H>>(
    mids: &Vec<M>,
    inv: Invocation,
    handler: &H,
    r: Result<InvocationResponse, Error>,
)
    requires
        mids@.len() == 0,
        call_ensures(invoke_capability::<H, M>, (mids, inv, handler), r),
    ensures
        exists|given: Invocation, response: InvocationResponse|
            given@ == inv@ && #[trigger] call_ensures(H::invoke, (handler, given), response) && r
                == Ok::<InvocationResponse, Error>(response),
{
}

/// An invocation of a capability runs through all three stages. Where the pre-invoke stage fails,
/// the operation is invoked with the invocation as it came; else with what that stage made of
/// it. An error of the invoke stage is the result. Where the post-invoke stage fails, the result
/// is the response as the invoke stage gave it; else what the post-invoke stage made of it.
pub proof fn capability_stages<H: InvocationHandler, M: Middleware<H>>(
    mids: &Vec<M>,
    inv: Invocation,
    handler: &H,
    r: Result<InvocationResponse, Error>,
) -> (p: Passage)
    requires
        mids@.len() > 0,
        call_ensures(invoke_capability::<H, M>, (mids, inv, handler), r),
    ensures
        p.first@ == inv@,
        0 < p.pre.len() <= mids@.len(),
        forall|j: int|
            0 <= j < p.pre.len() ==> call_ensures(
                <M as Middleware<H>>::capability_pre_invoke,
                (&mids@[j], if j == 0 { p.first } else { p.pre[j - 1]->Ok_0 }),
                #[trigger] p.pre[j],
            ),
        forall|j: int| 0 <= j < p.pre.len() - 1 ==> (#[trigger] p.pre[j]) is Ok,
        p.pre.len() < mids@.len() ==> p.pre.last() is Err,
        0 < p.steps.len() <= mids@.len(),
        p.given.len() == p.steps.len(),
        forall|j: int|
            0 <= j < p.given.len() ==> (#[trigger] p.given[j])@ == (if p.pre.last() is Ok {
                p.pre.last()->Ok_0@
            } else {
                inv@
            }),
        forall|j: int|
            0 <= j < p.steps.len() ==> call_ensures(
                <M as Middleware<H>>::capability_invoke,
                (&mids@[j], p.given[j], handler),
                #[trigger] p.steps[j],
            ),
        forall|j: int|
            0 <= j < p.steps.len() - 1 ==> (#[trigger] p.steps[j]) is Ok
                && p.steps[j]->Ok_0 is Continue,
        p.steps.len() < mids@.len() ==> !(p.steps.last() is Ok
            && p.steps.last()->Ok_0 is Continue),
        r is Err == p.steps.last() is Err,
        r is Err ==> r->Err_0 == p.steps.last()->Err_0,
        r is Ok ==> p.back@ == (match p.steps.last()->Ok_0 {
            MiddlewareResponse::Continue(res) => res@,
            MiddlewareResponse::Halt(res) => res@,
        }),
        r is Ok ==> 0 < p.post.len() <= mids@.len(),
        r is Ok ==> forall|j: int|
            0 <= j < p.post.len() ==> call_ensures(
                <M as Middleware<H>>::capability_post_invoke,
                (&mids@[j], if j == 0 { p.back } else { p.post[j - 1]->Ok_0 }),
                #[trigger] p.post[j],
            ),
        r is Ok ==> forall|j: int| 0 <= j < p.post.len() - 1 ==> (#[trigger] p.post[j]) is Ok,
        r is Ok && p.post.len() < mids@.len() ==> p.post.last() is Err,
        r is Ok ==> r->Ok_0@ == (if p.post.last() is Ok { p.post.last()->Ok_0@ } else { p.back@ }),
{
    let (start, mid) = choose|start: InvocationView, mid: Result<InvocationResponse, Error>|
        {
            &&& capability_started::<H, M>(mids@, inv@, start)
            &&& #[trigger] capability_invoked(mids@, start, *handler, mid)
            &&& match mid {
                Err(e) => r == Err::<InvocationResponse, Error>(e),
                Ok(resp) => r is Ok && capability_ended::<H, M>(mids@, resp@, r->Ok_0@),
            }
        };
    let (first, before) = choose|first: Invocation, before: Result<Invocation, Error>|
        {
            &&& first@ == inv@
            &&& #[trigger] capability_pre::<H, M>(mids@, first, before)
            &&& start == (match before {
                Ok(i) => i@,
                Err(_) => inv@,
            })
        };
    let pre = lemma_capability_pre::<H, M>(mids@, first, before);
    let last = choose|last: InvocationResponse|
        last@ == not_invoked(start) && #[trigger] capability_run(mids@, start, *handler, last, mid);
    let (given, steps) = lemma_capability_run(mids@, start, *handler, last, mid);
    let (back, after) = choose|back: InvocationResponse, after: Result<InvocationResponse, Error>|
        {
            &&& back@ == mid->Ok_0@
            &&& #[trigger] capability_post::<H, M>(mids@, back, after)
            &&& r->Ok_0@ == (match after {
                Ok(p) => p@,
                Err(_) => mid->Ok_0@,
            })
        };
    let post = if mid is Ok {
        lemma_capability_post::<H, M>(mids@, back, after)
    } else {
        Seq::empty()
    };
    Passage { first, pre, given, steps, back, post }
}

/// Middleware that hands on what it gets changes nothing: where every pre-invoke returns the
/// invocation it was given, every invoke lets the stage go on with the same response, and
/// every post-invoke returns the response it was given, that response is the result.
pub proof fn capability_transparent<H: InvocationHandler, M: Middleware<H>>(
    mids: &Vec<M>,
    inv: Invocation,
    handler: &H,
    res: InvocationResponse,
    r: Result<InvocationResponse, Error>,
)
    requires
        mids@.len() > 0,
        forall|j: int, given: Invocation, step: Result<Invocation, Error>|
            0 <= j < mids@.len() && #[trigger] call_ensures(
                <M as Middleware<H>>::capability_pre_invoke,
                (&mids@[j], given),
                step,
            ) ==> step == Ok::<Invocation, Error>(given),
        forall|j: int, given: Invocation, step: Result<MiddlewareResponse, Error>|
            0 <= j < mids@.len() && given@ == inv@ && #[trigger] call_ensures(
                <M as Middleware<H>>::capability_invoke,
                (&mids@[j], given, handler),
                step,
            ) ==> step == Ok::<MiddlewareResponse, Error>(MiddlewareResponse::Continue(res)),
        forall|j: int, given: InvocationResponse, step: Result<InvocationResponse, Error>|
            0 <= j < mids@.len() && #[trigger] call_ensures(
                <M as Middleware<H>>::capability_post_invoke,
                (&mids@[j], given),
                step,
            ) ==> step == Ok::<InvocationResponse, Error>(given),
        call_ensures(invoke_capability::<H, M>, (mids, inv, handler), r),
    ensures
        r is Ok,
        r->Ok_0@ == res@,
{
    let (start, mid) = choose|start: InvocationView, mid: Result<InvocationResponse, Error>|
        {
            &&& capability_started::<H, M>(mids@, inv@, start)
            &&& #[trigger] capability_invoked(mids@, start, *handler, mid)
            &&& match mid {
                Err(e) => r == Err::<InvocationResponse, Error>(e),
                Ok(resp) => r is Ok && capability_ended::<H, M>(mids@, resp@, r->Ok_0@),
            }
        };
    let (given, pre) = choose|given: Invocation, pre: Result<Invocation, Error>|
        {
            &&& given@ == inv@
            &&& #[trigger] capability_pre::<H, M>(mids@, given, pre)
            &&& start == (match pre {
                Ok(i) => i@,
                Err(_) => inv@,
            })
        };
    let steps = lemma_capability_pre::<H, M>(mids@, given, pre);
    lemma_same(steps, given);
    let last = choose|last: InvocationResponse|
        last@ == not_invoked(start) && #[trigger] capability_run(mids@, start, *handler, last, mid);
    let (given, steps) = lemma_capability_run(mids@, start, *handler, last, mid);
    assert(steps[steps.len() - 1] == steps.last());
    assert(mid == Ok::<InvocationResponse, Error>(res));
    let (given, post) = choose|given: InvocationResponse, post: Result<InvocationResponse, Error>|
        {
            &&& given@ == res@
            &&& #[trigger] capability_post::<H, M>(mids@, given, post)
            &&& r->Ok_0@ == (match post {
                Ok(p) => p@,
                Err(_) => res@,
            })
        };
    let steps = lemma_capability_post::<H, M>(mids@, given, post);
    lemma_same(steps, given);
}

} // verus!
