//! The pipeline of middleware that invocations and their responses run through.
use vstd::prelude::*;

use crate::errors::Error;
use crate::inthost::{
    error_response, success_response, Invocation, InvocationResponse, InvocationView, ResponseView,
};

pub mod order;
pub mod prometheus;

verus! {

/// What carries out an operation in the end: a guest module, or a plugin
pub trait InvocationHandler {
    fn invoke(&self, inv: Invocation) -> InvocationResponse;
}

/// The trait that must be implemented by all waSCC middleware
pub trait Middleware<H: InvocationHandler> {
    fn actor_pre_invoke(&self, inv: Invocation) -> Result<Invocation, Error>;

    fn actor_invoke(&self, inv: Invocation, handler: &H) -> Result<MiddlewareResponse, Error>;

    fn actor_post_invoke(&self, response: InvocationResponse) -> Result<InvocationResponse, Error>;

    fn capability_pre_invoke(&self, inv: Invocation) -> Result<Invocation, Error>;

    fn capability_invoke(&self, inv: Invocation, handler: &H) -> Result<MiddlewareResponse, Error>;

    fn capability_post_invoke(&self, response: InvocationResponse) -> Result<
        InvocationResponse,
        Error,
    >;
}

/// Whether the middleware behind this one still gets to invoke the operation
pub enum MiddlewareResponse {
    Continue(InvocationResponse),
    Halt(InvocationResponse),
}

/// The response where no middleware has invoked the operation.
pub open spec fn not_invoked(inv: InvocationView) -> ResponseView {
    error_response(inv, "No middleware invoked the operation"@)
}

/// An invocation that is handed to its handler as it is.
pub open spec fn carried_out<H: InvocationHandler>(
    inv: InvocationView,
    handler: H,
    r: Result<InvocationResponse, Error>,
) -> bool {
    exists|given: Invocation, response: InvocationResponse|
        {
            &&& given@ == inv
            &&& #[trigger] call_ensures(H::invoke, (&handler, given), response)
            &&& r == Ok::<InvocationResponse, Error>(response)
        }
}

/// What the guest of an actor made of an invocation, as a response.
pub fn guest_response(inv: &Invocation, result: Result<Vec<u8>, String>) -> (r: InvocationResponse)
    ensures
        result is Ok ==> r@ == success_response(inv@, result->Ok_0@),
        result is Err ==> r@ == error_response(inv@, "failed to invoke actor: "@ + result->Err_0@),
{
    match result {
        Ok(v) => InvocationResponse::success(inv, v),
        Err(e) => InvocationResponse::error(
            inv,
            "failed to invoke actor: ".to_string().concat(e.as_str()).as_str(),
        ),
    }
}

/// What a capability provider made of an invocation, as a response.
pub fn provider_response(
    inv: &Invocation,
    result: Result<InvocationResponse, String>,
) -> (r: InvocationResponse)
    ensures
        result is Ok ==> r == result->Ok_0,
        result is Err ==> r@ == error_response(
            inv@,
            "Failed to invoke capability: "@ + result->Err_0@,
        ),
{
    match result {
        Ok(r) => r,
        Err(e) => InvocationResponse::error(
            inv,
            "Failed to invoke capability: ".to_string().concat(e.as_str()).as_str(),
        ),
    }
}

/// What the pre-invoke stage of the middleware, in order, makes of an invocation
/// of an actor: each takes what the one before it returned, up to the first error.
pub open spec fn actor_pre<H: InvocationHandler, M: Middleware<H>>(
    mids: Seq<M>,
    inv: Invocation,
    r: Result<Invocation, Error>,
) -> bool
    decreases mids.len(),
{
    if mids.len() == 0 {
        r == Ok::<Invocation, Error>(inv)
    } else {
        exists|step: Result<Invocation, Error>|
            {
                &&& #[trigger] call_ensures(
                    <M as Middleware<H>>::actor_pre_invoke,
                    (&mids[0], inv),
                    step,
                )
                &&& match step {
                    Ok(next) => actor_pre::<H, M>(mids.skip(1), next, r),
                    Err(e) => r == Err::<Invocation, Error>(e),
                }
            }
    }
}

/// What the post-invoke stage of the middleware, in order, makes of the response
/// of an actor: each takes what the one before it returned, up to the first error.
pub open spec fn actor_post<H: InvocationHandler, M: Middleware<H>>(
    mids: Seq<M>,
    resp: InvocationResponse,
    r: Result<InvocationResponse, Error>,
) -> bool
    decreases mids.len(),
{
    if mids.len() == 0 {
        r == Ok::<InvocationResponse, Error>(resp)
    } else {
        exists|step: Result<InvocationResponse, Error>|
            {
                &&& #[trigger] call_ensures(
                    <M as Middleware<H>>::actor_post_invoke,
                    (&mids[0], resp),
                    step,
                )
                &&& match step {
                    Ok(next) => actor_post::<H, M>(mids.skip(1), next, r),
                    Err(e) => r == Err::<InvocationResponse, Error>(e),
                }
            }
    }
}

/// One middleware's answer to an invocation of an actor, of which it gets a copy.
pub open spec fn actor_answer<H: InvocationHandler, M: Middleware<H>>(
    m: M,
    inv: InvocationView,
    handler: H,
    step: Result<MiddlewareResponse, Error>,
) -> bool {
    exists|given: Invocation|
        given@ == inv && #[trigger] call_ensures(
            <M as Middleware<H>>::actor_invoke,
            (&m, given, &handler),
            step,
        )
}

/// What the invoke stage of the middleware, in order, makes of an invocation of
/// an actor: all get the same invocation, up to the first that fails or halts, and
/// the last response counts. Before that, `last` is the response.
pub open spec fn actor_run<H: InvocationHandler, M: Middleware<H>>(
    mids: Seq<M>,
    inv: InvocationView,
    handler: H,
    last: InvocationResponse,
    r: Result<InvocationResponse, Error>,
) -> bool
    decreases mids.len(),
{
    if mids.len() == 0 {
        r == Ok::<InvocationResponse, Error>(last)
    } else {
        exists|step: Result<MiddlewareResponse, Error>|
            {
                &&& #[trigger] actor_answer(mids[0], inv, handler, step)
                &&& match step {
                    Ok(MiddlewareResponse::Continue(next)) => actor_run(
                        mids.skip(1),
                        inv,
                        handler,
                        next,
                        r,
                    ),
                    Ok(MiddlewareResponse::Halt(res)) => r == Ok::<InvocationResponse, Error>(res),
                    Err(e) => r == Err::<InvocationResponse, Error>(e),
                }
            }
    }
}

/// What the invoke stage makes of an invocation of an actor: an error response where
/// there is no middleware at all.
pub open spec fn actor_invoked<H: InvocationHandler, M: Middleware<H>>(
    mids: Seq<M>,
    inv: InvocationView,
    handler: H,
    r: Result<InvocationResponse, Error>,
) -> bool {
    exists|last: InvocationResponse|
        last@ == not_invoked(inv) && #[trigger] actor_run(mids, inv, handler, last, r)
}

/// What the invocation of an actor starts with after the pre-invoke stage: its result,
/// or, where it failed, the invocation as it was.
pub open spec fn actor_started<H: InvocationHandler, M: Middleware<H>>(
    mids: Seq<M>,
    inv: InvocationView,
    start: InvocationView,
) -> bool {
    exists|given: Invocation, pre: Result<Invocation, Error>|
        {
            &&& given@ == inv
            &&& #[trigger] actor_pre::<H, M>(mids, given, pre)
            &&& start == (match pre {
                Ok(i) => i@,
                Err(_) => inv,
            })
        }
}

/// What the invocation of an actor ends with after the post-invoke stage: its result,
/// or, where it failed, the response as it was.
pub open spec fn actor_ended<H: InvocationHandler, M: Middleware<H>>(
    mids: Seq<M>,
    resp: ResponseView,
    end: ResponseView,
) -> bool {
    exists|given: InvocationResponse, post: Result<InvocationResponse, Error>|
        {
            &&& given@ == resp
            &&& #[trigger] actor_post::<H, M>(mids, given, post)
            &&& end == (match post {
                Ok(p) => p@,
                Err(_) => resp,
            })
        }
}

/// The whole way of an invocation of an actor through the middleware. Where there is none,
/// the operation is carried out as it is.
pub open spec fn actor_pipeline<H: InvocationHandler, M: Middleware<H>>(
    mids: Seq<M>,
    inv: InvocationView,
    handler: H,
    r: Result<InvocationResponse, Error>,
) -> bool {
    if mids.len() == 0 {
        carried_out(inv, handler, r)
    } else {
        exists|start: InvocationView, mid: Result<InvocationResponse, Error>|
            {
                &&& actor_started::<H, M>(mids, inv, start)
                &&& #[trigger] actor_invoked(mids, start, handler, mid)
                &&& match mid {
                    Err(e) => r == Err::<InvocationResponse, Error>(e),
                    Ok(resp) => r is Ok && actor_ended::<H, M>(mids, resp@, r->Ok_0@),
                }
            }
    }
}

pub fn run_actor_pre_invoke<H: InvocationHandler, M: Middleware<H>>(
    inv: Invocation,
    middlewares: &Vec<M>,
) -> (r: Result<Invocation, Error>)
    ensures
        actor_pre::<H, M>(middlewares@, inv, r),
{
    let mut cur_inv = inv;
    let mut i: usize = 0;
    assert(middlewares@.skip(0) =~= middlewares@);
    while i < middlewares.len()
        invariant
            i <= middlewares.len(),
            forall|r: Result<Invocation, Error>| #[trigger]
                actor_pre::<H, M>(middlewares@.skip(i as int), cur_inv, r) ==> actor_pre::<H, M>(
                    middlewares@,
                    inv,
                    r,
                ),
        decreases middlewares.len() - i,
    {
        let ghost rest = middlewares@.skip(i as int);
        let ghost given = cur_inv;
        assert(rest[0] == middlewares@[i as int]);
        assert(rest.skip(1) =~= middlewares@.skip(i + 1));
        let step = middlewares[i].actor_pre_invoke(cur_inv);
        assert(call_ensures(<M as Middleware<H>>::actor_pre_invoke, (&rest[0], given), step));
        match step {
            Ok(next) => {
                cur_inv = next;
                proof {
                    assert forall|r: Result<Invocation, Error>| #[trigger]
                        actor_pre::<H, M>(middlewares@.skip(i + 1), cur_inv, r) implies actor_pre::<H, M>(
                        middlewares@,
                        inv,
                        r,
                    ) by {
                        assert(actor_pre::<H, M>(rest, given, r));
                    }
                }
            },
            Err(e) => {
                assert(actor_pre::<H, M>(rest, given, Err(e)));
                return Err(e);
            },
        }
        i += 1;
    }
    assert(actor_pre::<H, M>(middlewares@.skip(i as int), cur_inv, Ok(cur_inv)));
    Ok(cur_inv)
}

pub fn run_actor_post_invoke<H: InvocationHandler, M: Middleware<H>>(
    resp: InvocationResponse,
    middlewares: &Vec<M>,
) -> (r: Result<InvocationResponse, Error>)
    ensures
        actor_post::<H, M>(middlewares@, resp, r),
{
    let mut cur_resp = resp;
    let mut i: usize = 0;
    assert(middlewares@.skip(0) =~= middlewares@);
    while i < middlewares.len()
        invariant
            i <= middlewares.len(),
            forall|r: Result<InvocationResponse, Error>| #[trigger]
                actor_post::<H, M>(middlewares@.skip(i as int), cur_resp, r) ==> actor_post::<H, M>(
                    middlewares@,
                    resp,
                    r,
                ),
        decreases middlewares.len() - i,
    {
        let ghost rest = middlewares@.skip(i as int);
        let ghost given = cur_resp;
        assert(rest[0] == middlewares@[i as int]);
        assert(rest.skip(1) =~= middlewares@.skip(i + 1));
        let step = middlewares[i].actor_post_invoke(cur_resp);
        assert(call_ensures(<M as Middleware<H>>::actor_post_invoke, (&rest[0], given), step));
        match step {
            Ok(next) => {
                cur_resp = next;
                proof {
                    assert forall|r: Result<InvocationResponse, Error>| #[trigger]
                        actor_post::<H, M>(middlewares@.skip(i + 1), cur_resp, r) implies actor_post::<
                        H,
                        M,
                    >(middlewares@, resp, r) by {
                        assert(actor_post::<H, M>(rest, given, r));
                    }
                }
            },
            Err(e) => {
                assert(actor_post::<H, M>(rest, given, Err(e)));
                return Err(e);
            },
        }
        i += 1;
    }
    assert(actor_post::<H, M>(middlewares@.skip(i as int), cur_resp, Ok(cur_resp)));
    Ok(cur_resp)
}

pub fn run_actor_invoke<H: InvocationHandler, M: Middleware<H>>(
    middlewares: &Vec<M>,
    inv: &Invocation,
    handler: &H,
) -> (r: Result<InvocationResponse, Error>)
    ensures
        actor_invoked(middlewares@, inv@, *handler, r),
{
    let mut cur_resp = InvocationResponse::error(inv, "No middleware invoked the operation");
    let ghost first = cur_resp;
    let mut i: usize = 0;
    assert(middlewares@.skip(0) =~= middlewares@);
    while i < middlewares.len()
        invariant
            i <= middlewares.len(),
            first@ == not_invoked(inv@),
            forall|r: Result<InvocationResponse, Error>| #[trigger]
                actor_run(middlewares@.skip(i as int), inv@, *handler, cur_resp, r) ==> actor_run(
                    middlewares@,
                    inv@,
                    *handler,
                    first,
                    r,
                ),
        decreases middlewares.len() - i,
    {
        let ghost rest = middlewares@.skip(i as int);
        let ghost last = cur_resp;
        assert(rest[0] == middlewares@[i as int]);
        assert(rest.skip(1) =~= middlewares@.skip(i + 1));
        let given = inv.clone();
        let ghost copy = given;
        let step = middlewares[i].actor_invoke(given, handler);
        assert(call_ensures(<M as Middleware<H>>::actor_invoke, (&rest[0], copy, handler), step));
        assert(actor_answer(rest[0], inv@, *handler, step));
        match step {
            Ok(mr) => match mr {
                MiddlewareResponse::Continue(res) => {
                    cur_resp = res;
                    proof {
                        assert forall|r: Result<InvocationResponse, Error>| #[trigger]
                            actor_run(
                                middlewares@.skip(i + 1),
                                inv@,
                                *handler,
                                cur_resp,
                                r,
                            ) implies actor_run(middlewares@, inv@, *handler, first, r) by {
                            assert(actor_run(rest, inv@, *handler, last, r));
                        }
                    }
                },
                MiddlewareResponse::Halt(res) => {
                    assert(actor_run(rest, inv@, *handler, last, Ok(res)));
                    return Ok(res);
                },
            },
            Err(e) => {
                assert(actor_run(rest, inv@, *handler, last, Err(e)));
                return Err(e);
            },
        }
        i += 1;
    }
    assert(actor_run(middlewares@.skip(i as int), inv@, *handler, cur_resp, Ok(cur_resp)));
    Ok(cur_resp)
}

/// Runs an invocation of an actor through all stages of the middleware.
pub fn invoke_actor<H: InvocationHandler, M: Middleware<H>>(
    middlewares: &Vec<M>,
    inv: Invocation,
    handler: &H,
) -> (r: Result<InvocationResponse, Error>)
    ensures
        actor_pipeline(middlewares@, inv@, *handler, r),
{
    if middlewares.len() == 0 {
        let ghost given = inv;
        let response = handler.invoke(inv);
        assert(call_ensures(H::invoke, (handler, given), response));
        return Ok(response);
    }
    let given = inv.clone();
    let ghost copy = given;
    let pre = run_actor_pre_invoke(given, middlewares);
    assert(actor_pre::<H, M>(middlewares@, copy, pre));
    let start = match pre {
        Ok(i) => i,
        Err(_) => inv,
    };
    assert(actor_started::<H, M>(middlewares@, inv@, start@));
    let mid = run_actor_invoke(middlewares, &start, handler);
    assert(actor_invoked(middlewares@, start@, *handler, mid));
    match mid {
        Ok(response) => {
            let given = response.clone();
            let ghost copy = given;
            let post = run_actor_post_invoke(given, middlewares);
            assert(actor_post::<H, M>(middlewares@, copy, post));
            match post {
                Ok(r) => {
                    assert(actor_ended::<H, M>(middlewares@, response@, r@));
                    Ok(r)
                },
                Err(_) => {
                    assert(actor_ended::<H, M>(middlewares@, response@, response@));
                    Ok(response)
                },
            }
        },
        Err(e) => Err(e),
    }
}

/// An operation on an actor is invoked by the first middleware at the earliest: the invoke
/// stage alone, without any, responds that no one did. The pipeline without any carries
/// the operation out, and cannot fail.
pub proof fn actor_needs_middleware<H: InvocationHandler, M: Middleware<H>>(
    mids: Seq<M>,
    inv: InvocationView,
    handler: H,
    stage: Result<InvocationResponse, Error>,
    whole: Result<InvocationResponse, Error>,
)
    requires
        mids.len() == 0,
        actor_invoked(mids, inv, handler, stage),
        actor_pipeline(mids, inv, handler, whole),
    ensures
        stage is Ok,
        stage->Ok_0@ == not_invoked(inv),
        whole is Ok,
        carried_out(inv, handler, whole),
{
}

/// What the pre-invoke stage of the middleware, in order, makes of an invocation
/// of a capability: each takes what the one before it returned, up to the first error.
pub open spec fn capability_pre<H: InvocationHandler, M: Middleware<H>>(
    mids: Seq<M>,
    inv: Invocation,
    r: Result<Invocation, Error>,
) -> bool
    decreases mids.len(),
{
    if mids.len() == 0 {
        r == Ok::<Invocation, Error>(inv)
    } else {
        exists|step: Result<Invocation, Error>|
            {
                &&& #[trigger] call_ensures(
                    <M as Middleware<H>>::capability_pre_invoke,
                    (&mids[0], inv),
                    step,
                )
                &&& match step {
                    Ok(next) => capability_pre::<H, M>(mids.skip(1), next, r),
                    Err(e) => r == Err::<Invocation, Error>(e),
                }
            }
    }
}

/// What the post-invoke stage of the middleware, in order, makes of the response
/// of a capability: each takes what the one before it returned, up to the first error.
pub open spec fn capability_post<H: InvocationHandler, M: Middleware<H>>(
    mids: Seq<M>,
    resp: InvocationResponse,
    r: Result<InvocationResponse, Error>,
) -> bool
    decreases mids.len(),
{
    if mids.len() == 0 {
        r == Ok::<InvocationResponse, Error>(resp)
    } else {
        exists|step: Result<InvocationResponse, Error>|
            {
                &&& #[trigger] call_ensures(
                    <M as Middleware<H>>::capability_post_invoke,
                    (&mids[0], resp),
                    step,
                )
                &&& match step {
                    Ok(next) => capability_post::<H, M>(mids.skip(1), next, r),
                    Err(e) => r == Err::<InvocationResponse, Error>(e),
                }
            }
    }
}

/// One middleware's answer to an invocation of a capability, of which it gets a copy.
pub open spec fn capability_answer<H: InvocationHandler, M: Middleware<H>>(
    m: M,
    inv: InvocationView,
    handler: H,
    step: Result<MiddlewareResponse, Error>,
) -> bool {
    exists|given: Invocation|
        given@ == inv && #[trigger] call_ensures(
            <M as Middleware<H>>::capability_invoke,
            (&m, given, &handler),
            step,
        )
}

/// What the invoke stage of the middleware, in order, makes of an invocation of
/// a capability: all get the same invocation, up to the first that fails or halts, and
/// the last response counts. Before that, `last` is the response.
pub open spec fn capability_run<H: InvocationHandler, M: Middleware<H>>(
    mids: Seq<M>,
    inv: InvocationView,
    handler: H,
    last: InvocationResponse,
    r: Result<InvocationResponse, Error>,
) -> bool
    decreases mids.len(),
{
    if mids.len() == 0 {
        r == Ok::<InvocationResponse, Error>(last)
    } else {
        exists|step: Result<MiddlewareResponse, Error>|
            {
                &&& #[trigger] capability_answer(mids[0], inv, handler, step)
                &&& match step {
                    Ok(MiddlewareResponse::Continue(next)) => capability_run(
                        mids.skip(1),
                        inv,
                        handler,
                        next,
                        r,
                    ),
                    Ok(MiddlewareResponse::Halt(res)) => r == Ok::<InvocationResponse, Error>(res),
                    Err(e) => r == Err::<InvocationResponse, Error>(e),
                }
            }
    }
}

/// What the invoke stage makes of an invocation of a capability: an error response where
/// there is no middleware at all.
pub open spec fn capability_invoked<H: InvocationHandler, M: Middleware<H>>(
    mids: Seq<M>,
    inv: InvocationView,
    handler: H,
    r: Result<InvocationResponse, Error>,
) -> bool {
    exists|last: InvocationResponse|
        last@ == not_invoked(inv) && #[trigger] capability_run(mids, inv, handler, last, r)
}

/// What the invocation of a capability starts with after the pre-invoke stage: its result,
/// or, where it failed, the invocation as it was.
pub open spec fn capability_started<H: InvocationHandler, M: Middleware<H>>(
    mids: Seq<M>,
    inv: InvocationView,
    start: InvocationView,
) -> bool {
    exists|given: Invocation, pre: Result<Invocation, Error>|
        {
            &&& given@ == inv
            &&& #[trigger] capability_pre::<H, M>(mids, given, pre)
            &&& start == (match pre {
                Ok(i) => i@,
                Err(_) => inv,
            })
        }
}

/// What the invocation of a capability ends with after the post-invoke stage: its result,
/// or, where it failed, the response as it was.
pub open spec fn capability_ended<H: InvocationHandler, M: Middleware<H>>(
    mids: Seq<M>,
    resp: ResponseView,
    end: ResponseView,
) -> bool {
    exists|given: InvocationResponse, post: Result<InvocationResponse, Error>|
        {
            &&& given@ == resp
            &&& #[trigger] capability_post::<H, M>(mids, given, post)
            &&& end == (match post {
                Ok(p) => p@,
                Err(_) => resp,
            })
        }
}

/// The whole way of an invocation of a capability through the middleware. Where there is none,
/// the operation is carried out as it is.
pub open spec fn capability_pipeline<H: InvocationHandler, M: Middleware<H>>(
    mids: Seq<M>,
    inv: InvocationView,
    handler: H,
    r: Result<InvocationResponse, Error>,
) -> bool {
    if mids.len() == 0 {
        carried_out(inv, handler, r)
    } else {
        exists|start: InvocationView, mid: Result<InvocationResponse, Error>|
            {
                &&& capability_started::<H, M>(mids, inv, start)
                &&& #[trigger] capability_invoked(mids, start, handler, mid)
                &&& match mid {
                    Err(e) => r == Err::<InvocationResponse, Error>(e),
                    Ok(resp) => r is Ok && capability_ended::<H, M>(mids, resp@, r->Ok_0@),
                }
            }
    }
}

pub fn run_capability_pre_invoke<H: InvocationHandler, M: Middleware<H>>(
    inv: Invocation,
    middlewares: &Vec<M>,
) -> (r: Result<Invocation, Error>)
    ensures
        capability_pre::<H, M>(middlewares@, inv, r),
{
    let mut cur_inv = inv;
    let mut i: usize = 0;
    assert(middlewares@.skip(0) =~= middlewares@);
    while i < middlewares.len()
        invariant
            i <= middlewares.len(),
            forall|r: Result<Invocation, Error>| #[trigger]
                capability_pre::<H, M>(middlewares@.skip(i as int), cur_inv, r) ==> capability_pre::<H, M>(
                    middlewares@,
                    inv,
                    r,
                ),
        decreases middlewares.len() - i,
    {
        let ghost rest = middlewares@.skip(i as int);
        let ghost given = cur_inv;
        assert(rest[0] == middlewares@[i as int]);
        assert(rest.skip(1) =~= middlewares@.skip(i + 1));
        let step = middlewares[i].capability_pre_invoke(cur_inv);
        assert(call_ensures(<M as Middleware<H>>::capability_pre_invoke, (&rest[0], given), step));
        match step {
            Ok(next) => {
                cur_inv = next;
                proof {
                    assert forall|r: Result<Invocation, Error>| #[trigger]
                        capability_pre::<H, M>(middlewares@.skip(i + 1), cur_inv, r) implies capability_pre::<H, M>(
                        middlewares@,
                        inv,
                        r,
                    ) by {
                        assert(capability_pre::<H, M>(rest, given, r));
                    }
                }
            },
            Err(e) => {
                assert(capability_pre::<H, M>(rest, given, Err(e)));
                return Err(e);
            },
        }
        i += 1;
    }
    assert(capability_pre::<H, M>(middlewares@.skip(i as int), cur_inv, Ok(cur_inv)));
    Ok(cur_inv)
}

pub fn run_capability_post_invoke<H: InvocationHandler, M: Middleware<H>>(
    resp: InvocationResponse,
    middlewares: &Vec<M>,
) -> (r: Result<InvocationResponse, Error>)
    ensures
        capability_post::<H, M>(middlewares@, resp, r),
{
    let mut cur_resp = resp;
    let mut i: usize = 0;
    assert(middlewares@.skip(0) =~= middlewares@);
    while i < middlewares.len()
        invariant
            i <= middlewares.len(),
            forall|r: Result<InvocationResponse, Error>| #[trigger]
                capability_post::<H, M>(middlewares@.skip(i as int), cur_resp, r) ==> capability_post::<H, M>(
                    middlewares@,
                    resp,
                    r,
                ),
        decreases middlewares.len() - i,
    {
        let ghost rest = middlewares@.skip(i as int);
        let ghost given = cur_resp;
        assert(rest[0] == middlewares@[i as int]);
        assert(rest.skip(1) =~= middlewares@.skip(i + 1));
        let step = middlewares[i].capability_post_invoke(cur_resp);
        assert(call_ensures(<M as Middleware<H>>::capability_post_invoke, (&rest[0], given), step));
        match step {
            Ok(next) => {
                cur_resp = next;
                proof {
                    assert forall|r: Result<InvocationResponse, Error>| #[trigger]
                        capability_post::<H, M>(middlewares@.skip(i + 1), cur_resp, r) implies capability_post::<
                        H,
                        M,
                    >(middlewares@, resp, r) by {
                        assert(capability_post::<H, M>(rest, given, r));
                    }
                }
            },
            Err(e) => {
                assert(capability_post::<H, M>(rest, given, Err(e)));
                return Err(e);
            },
        }
        i += 1;
    }
    assert(capability_post::<H, M>(middlewares@.skip(i as int), cur_resp, Ok(cur_resp)));
    Ok(cur_resp)
}

pub fn run_capability_invoke<H: InvocationHandler, M: Middleware<H>>(
    middlewares: &Vec<M>,
    inv: &Invocation,
    handler: &H,
) -> (r: Result<InvocationResponse, Error>)
    ensures
        capability_invoked(middlewares@, inv@, *handler, r),
{
    let mut cur_resp = InvocationResponse::error(inv, "No middleware invoked the operation");
    let ghost first = cur_resp;
    let mut i: usize = 0;
    assert(middlewares@.skip(0) =~= middlewares@);
    while i < middlewares.len()
        invariant
            i <= middlewares.len(),
            first@ == not_invoked(inv@),
            forall|r: Result<InvocationResponse, Error>| #[trigger]
                capability_run(middlewares@.skip(i as int), inv@, *handler, cur_resp, r) ==> capability_run(
                    middlewares@,
                    inv@,
                    *handler,
                    first,
                    r,
                ),
        decreases middlewares.len() - i,
    {
        let ghost rest = middlewares@.skip(i as int);
        let ghost last = cur_resp;
        assert(rest[0] == middlewares@[i as int]);
        assert(rest.skip(1) =~= middlewares@.skip(i + 1));
        let given = inv.clone();
        let ghost copy = given;
        let step = middlewares[i].capability_invoke(given, handler);
        assert(call_ensures(<M as Middleware<H>>::capability_invoke, (&rest[0], copy, handler), step));
        assert(capability_answer(rest[0], inv@, *handler, step));
        match step {
            Ok(mr) => match mr {
                MiddlewareResponse::Continue(res) => {
                    cur_resp = res;
                    proof {
                        assert forall|r: Result<InvocationResponse, Error>| #[trigger]
                            capability_run(
                                middlewares@.skip(i + 1),
                                inv@,
                                *handler,
                                cur_resp,
                                r,
                            ) implies capability_run(middlewares@, inv@, *handler, first, r) by {
                            assert(capability_run(rest, inv@, *handler, last, r));
                        }
                    }
                },
                MiddlewareResponse::Halt(res) => {
                    assert(capability_run(rest, inv@, *handler, last, Ok(res)));
                    return Ok(res);
                },
            },
            Err(e) => {
                assert(capability_run(rest, inv@, *handler, last, Err(e)));
                return Err(e);
            },
        }
        i += 1;
    }
    assert(capability_run(middlewares@.skip(i as int), inv@, *handler, cur_resp, Ok(cur_resp)));
    Ok(cur_resp)
}

/// Runs an invocation of a capability through all stages of the middleware.
pub fn invoke_capability<H: InvocationHandler, M: Middleware<H>>(
    middlewares: &Vec<M>,
    inv: Invocation,
    handler: &H,
) -> (r: Result<InvocationResponse, Error>)
    ensures
        capability_pipeline(middlewares@, inv@, *handler, r),
{
    if middlewares.len() == 0 {
        let ghost given = inv;
        let response = handler.invoke(inv);
        assert(call_ensures(H::invoke, (handler, given), response));
        return Ok(response);
    }
    let given = inv.clone();
    let ghost copy = given;
    let pre = run_capability_pre_invoke(given, middlewares);
    assert(capability_pre::<H, M>(middlewares@, copy, pre));
    let start = match pre {
        Ok(i) => i,
        Err(_) => inv,
    };
    assert(capability_started::<H, M>(middlewares@, inv@, start@));
    let mid = run_capability_invoke(middlewares, &start, handler);
    assert(capability_invoked(middlewares@, start@, *handler, mid));
    match mid {
        Ok(response) => {
            let given = response.clone();
            let ghost copy = given;
            let post = run_capability_post_invoke(given, middlewares);
            assert(capability_post::<H, M>(middlewares@, copy, post));
            match post {
                Ok(r) => {
                    assert(capability_ended::<H, M>(middlewares@, response@, r@));
                    Ok(r)
                },
                Err(_) => {
                    assert(capability_ended::<H, M>(middlewares@, response@, response@));
                    Ok(response)
                },
            }
        },
        Err(e) => Err(e),
    }
}

/// An operation on a capability is invoked by the first middleware at the earliest: the invoke
/// stage alone, without any, responds that no one did. The pipeline without any carries
/// the operation out, and cannot fail.
pub proof fn capability_needs_middleware<H: InvocationHandler, M: Middleware<H>>(
    mids: Seq<M>,
    inv: InvocationView,
    handler: H,
    stage: Result<InvocationResponse, Error>,
    whole: Result<InvocationResponse, Error>,
)
    requires
        mids.len() == 0,
        capability_invoked(mids, inv, handler, stage),
        capability_pipeline(mids, inv, handler, whole),
    ensures
        stage is Ok,
        stage->Ok_0@ == not_invoked(inv),
        whole is Ok,
        carried_out(inv, handler, whole),
{
}

} // verus!
