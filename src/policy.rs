//! What the failover policy guarantees over whole runs of a request.
use vstd::prelude::*;
use crate::client::{error_text, is_retryable, CallResult, RpcProxyError};
use crate::message::{local_view, ResponseView, RpcResponse, UPSTREAM_FAILURE};
use crate::proxy::{advance, next_live, start, step, well_formed, is_over, with_id, ActionView, DispatchView, Tally};

verus! {

/// The response that the walk in state `d`, whose caller was last told to
/// do `a`, ends with when the calls of its attempts produce `calls` in turn;
/// `None` where the calls run out before it ends.
pub open spec fn run(d: DispatchView, a: ActionView, calls: Seq<Result<CallResult, RpcProxyError>>) -> Option<ResponseView>
    decreases calls.len(),
{
    match a {
        ActionView::Reply(r) => Some(r),
        ActionView::Send { .. } => if calls.len() == 0 {
            None
        } else {
            let s = step(d, calls[0]);
            run(s.0, s.1, calls.drop_first())
        },
    }
}

/// Every one of the calls failed with a transient error: a server error or
/// a timeout, whatever its text.
pub open spec fn transient(calls: Seq<Result<CallResult, RpcProxyError>>) -> bool {
    forall|i: int| 0 <= i < calls.len() ==> #[trigger] calls[i] is Err && is_retryable(calls[i]->Err_0)
}

/// Transient errors on every attempt but the last are retried at the same
/// endpoint, at once, leaving the rest of the walk untouched.
pub proof fn lemma_transient_retried(
    d: DispatchView,
    errs: Seq<Result<CallResult, RpcProxyError>>,
    rest: Seq<Result<CallResult, RpcProxyError>>,
)
    requires
        well_formed(d),
        !is_over(d),
        transient(errs),
        d.attempt + errs.len() <= d.retries[d.endpoint],
    ensures
        run(d, ActionView::Send { endpoint: d.endpoint, attempt: d.attempt }, errs + rest)
            == run(
            DispatchView { attempt: d.attempt + errs.len(), ..d },
            ActionView::Send { endpoint: d.endpoint, attempt: d.attempt + errs.len() },
            rest,
        ),
    decreases errs.len(),
{
    let calls = errs + rest;
    if errs.len() == 0 {
        assert(calls =~= rest);
        assert(DispatchView { attempt: d.attempt + errs.len(), ..d } == d);
    } else {
        assert(calls[0] == errs[0]);
        assert(errs[0] is Err && is_retryable(errs[0]->Err_0));
        let s = step(d, calls[0]);
        let d2 = DispatchView { attempt: d.attempt + 1, ..d };
        assert(s.0 == d2);
        let more = errs.drop_first();
        assert(transient(more)) by {
            assert forall|i: int| 0 <= i < more.len() implies #[trigger] more[i] is Err && is_retryable(more[i]->Err_0) by {
                assert(more[i] == errs[i + 1]);
            }
        }
        assert(calls.drop_first() =~= more + rest);
        lemma_transient_retried(d2, more, rest);
        assert(DispatchView { attempt: d2.attempt + more.len(), ..d2 } == DispatchView { attempt: d.attempt + errs.len(), ..d });
    }
}

/// The answer of the first endpoint tried, where it carries a result, is
/// sent back as it came, with the request's id, and no other endpoint is
/// contacted.
pub proof fn lemma_first_answer_wins(
    retries: Seq<int>,
    id: serde_json::Value,
    answer: RpcResponse,
    rest: Seq<Result<CallResult, RpcProxyError>>,
)
    requires
        retries.len() >= 1,
        retries[0] >= 1,
        answer.result is Some,
    ensures
        start(retries, id).1 == (ActionView::Send { endpoint: 0, attempt: 1 }),
        step(start(retries, id).0, Ok(CallResult::Success(answer))).1 == ActionView::Reply(with_id(answer@, id)),
        is_over(step(start(retries, id).0, Ok(CallResult::Success(answer))).0),
        run(start(retries, id).0, start(retries, id).1, seq![Ok(CallResult::Success(answer))] + rest)
            == Some(with_id(answer@, id)),
        answer.id == id ==> with_id(answer@, id) == answer@,
{
    let calls = seq![Ok::<CallResult, RpcProxyError>(CallResult::Success(answer))] + rest;
    assert(calls[0] == Ok::<CallResult, RpcProxyError>(CallResult::Success(answer)));
    let s = step(start(retries, id).0, calls[0]);
    assert(run(s.0, s.1, calls.drop_first()) == Some(with_id(answer@, id)));
}

/// An endpoint that fails with transient errors on every attempt but its
/// last, and answers with a result on the last one: that answer is sent
/// back, and no later endpoint is contacted.
pub proof fn lemma_retry_then_succeed(
    d: DispatchView,
    errs: Seq<Result<CallResult, RpcProxyError>>,
    answer: RpcResponse,
    rest: Seq<Result<CallResult, RpcProxyError>>,
)
    requires
        well_formed(d),
        !is_over(d),
        d.attempt == 1,
        transient(errs),
        errs.len() == d.retries[d.endpoint] - 1,
        answer.result is Some,
    ensures
        run(d, ActionView::Send { endpoint: d.endpoint, attempt: 1 }, errs + (seq![Ok(CallResult::Success(answer))] + rest))
            == Some(with_id(answer@, d.id)),
{
    let k = d.retries[d.endpoint];
    let tail = seq![Ok::<CallResult, RpcProxyError>(CallResult::Success(answer))] + rest;
    lemma_transient_retried(d, errs, tail);
    let d2 = DispatchView { attempt: k, ..d };
    assert(tail[0] == Ok::<CallResult, RpcProxyError>(CallResult::Success(answer)));
    let s = step(d2, tail[0]);
    assert(s.1 == ActionView::Reply(with_id(answer@, d.id)));
    assert(run(s.0, s.1, tail.drop_first()) == Some(with_id(answer@, d.id)));
    assert(run(d2, ActionView::Send { endpoint: d2.endpoint, attempt: k }, tail) == Some(with_id(answer@, d.id)));
}

/// An endpoint that fails with transient errors on every one of its
/// attempts ends in a hard failure: the walk keeps the synthesized error
/// `-32000` with the text of the last error and moves on, at once, to the
/// next endpoint; where no endpoint with attempts is left, that error is
/// sent back.
pub proof fn lemma_exhausted_endpoint(
    d: DispatchView,
    errs: Seq<Result<CallResult, RpcProxyError>>,
    rest: Seq<Result<CallResult, RpcProxyError>>,
)
    requires
        well_formed(d),
        !is_over(d),
        d.attempt == 1,
        transient(errs),
        errs.len() == d.retries[d.endpoint],
    ensures ({
        let kept = local_view(d.id, UPSTREAM_FAILURE, error_text(errs.last()->Err_0));
        let a = advance(d, d.endpoint + 1, Some(kept));
        &&& run(d, ActionView::Send { endpoint: d.endpoint, attempt: 1 }, errs + rest) == run(a.0, a.1, rest)
        &&& a.1 is Send ==> a.0.last == Some(kept)
        &&& next_live(d.retries, d.endpoint + 1) == d.retries.len() ==> a.1 == ActionView::Reply(kept)
        &&& d.endpoint + 1 < d.retries.len() && d.retries[d.endpoint + 1] >= 1
            ==> a.1 == (ActionView::Send { endpoint: d.endpoint + 1, attempt: 1 })
    }),
{
    let k = d.retries[d.endpoint];
    let init = errs.subrange(0, k - 1);
    let e = errs.last();
    let tail = seq![e] + rest;
    assert(errs + rest =~= init + tail);
    assert(transient(init)) by {
        assert forall|i: int| 0 <= i < init.len() implies #[trigger] init[i] is Err && is_retryable(init[i]->Err_0) by {
            assert(init[i] == errs[i]);
        }
    }
    assert(errs[k - 1] is Err && is_retryable(errs[k - 1]->Err_0));
    lemma_transient_retried(d, init, tail);
    assert(tail[0] == e);
    assert(tail.drop_first() =~= rest);
    let kept = local_view(d.id, UPSTREAM_FAILURE, error_text(errs.last()->Err_0));
    let a = advance(d, d.endpoint + 1, Some(kept));
    let d2 = DispatchView { attempt: k, ..d };
    let s = step(d2, e);
    assert(s.0 == a.0 && s.1 == a.1);
    assert(run(d2, ActionView::Send { endpoint: d.endpoint, attempt: k }, tail) == run(s.0, s.1, tail.drop_first()));
    if next_live(d.retries, d.endpoint + 1) != d.retries.len() {
        lemma_next_live_bounds(d.retries, d.endpoint + 1);
    }
}

/// A client error ends the attempts at an endpoint at once, whatever budget
/// is left, keeps the answer saved so far, and moves on to the next
/// endpoint: the next action is never another attempt at that endpoint.
pub proof fn lemma_client_error_skips(d: DispatchView, text: String)
    requires
        well_formed(d),
        !is_over(d),
    ensures ({
        let s = step(d, Err(RpcProxyError::HttpClientError(text)));
        &&& (s.0, s.1) == advance(d, d.endpoint + 1, d.last)
        &&& s.2 == Tally::Failure
        &&& s.1 matches ActionView::Send { endpoint, attempt } ==> endpoint > d.endpoint && attempt == 1
        &&& s.1 is Send ==> s.0.last == d.last
        &&& d.endpoint + 1 < d.retries.len() && d.retries[d.endpoint + 1] >= 1
            ==> s.1 == (ActionView::Send { endpoint: d.endpoint + 1, attempt: 1 })
    }),
{
    lemma_next_live_bounds(d.retries, d.endpoint + 1);
}

/// `next_live` lands on an endpoint with attempts, at or after `from`, or
/// past the end.
pub proof fn lemma_next_live_bounds(retries: Seq<int>, from: int)
    requires
        0 <= from <= retries.len(),
    ensures
        from <= next_live(retries, from) <= retries.len(),
        next_live(retries, from) < retries.len() ==> retries[next_live(retries, from)] >= 1,
    decreases retries.len() - from,
{
    if from < retries.len() && retries[from] < 1 {
        lemma_next_live_bounds(retries, from + 1);
    }
}

/// Calls that each answer `null` with the given responses, one per endpoint.
pub open spec fn null_answers(nulls: Seq<RpcResponse>) -> Seq<Result<CallResult, RpcProxyError>> {
    nulls.map_values(|r: RpcResponse| Ok::<CallResult, RpcProxyError>(CallResult::NullResult(r)))
}

/// From endpoint `d.endpoint` on, every endpoint has attempts and answers
/// `null` on its first: the last of those answers is sent back.
pub proof fn lemma_null_answers_from(d: DispatchView, nulls: Seq<RpcResponse>)
    requires
        well_formed(d),
        !is_over(d),
        d.attempt == 1,
        forall|j: int| d.endpoint <= j < d.retries.len() ==> d.retries[j] >= 1,
        nulls.len() == d.retries.len() - d.endpoint,
    ensures
        run(d, ActionView::Send { endpoint: d.endpoint, attempt: 1 }, null_answers(nulls)) == Some(with_id(nulls.last()@, d.id)),
    decreases nulls.len(),
{
    let calls = null_answers(nulls);
    assert(calls[0] == Ok::<CallResult, RpcProxyError>(CallResult::NullResult(nulls[0])));
    let s = step(d, calls[0]);
    let e = d.endpoint + 1;
    if e == d.retries.len() {
        assert(s.1 == ActionView::Reply(with_id(nulls[0]@, d.id)));
        assert(nulls.last() == nulls[0]);
        assert(run(s.0, s.1, calls.drop_first()) == Some(with_id(nulls[0]@, d.id)));
    } else {
        assert(next_live(d.retries, e) == e);
        let d2 = DispatchView { endpoint: e, attempt: 1, last: Some(nulls[0]@), ..d };
        assert(s.0 == d2);
        assert(calls.drop_first() =~= null_answers(nulls.drop_first()));
        lemma_null_answers_from(d2, nulls.drop_first());
        assert(nulls.drop_first().last() == nulls.last());
    }
}

/// Where every endpoint of a route answers `null`, the response sent back
/// is the `null` answer of the last endpoint, with the request's id, not a
/// generic failure.
pub proof fn lemma_all_null(retries: Seq<int>, id: serde_json::Value, nulls: Seq<RpcResponse>)
    requires
        retries.len() >= 1,
        forall|j: int| 0 <= j < retries.len() ==> retries[j] >= 1,
        nulls.len() == retries.len(),
    ensures
        run(start(retries, id).0, start(retries, id).1, null_answers(nulls)) == Some(with_id(nulls.last()@, id)),
{
    let d = DispatchView { retries, endpoint: 0, attempt: 1, last: None, id };
    assert(next_live(retries, 0) == 0);
    assert(start(retries, id).0 == d);
    lemma_null_answers_from(d, nulls);
}

/// The walk is well formed, the response it sends back carries its id, and
/// it is told to send only while not over.
pub open spec fn keeps_id(d: DispatchView, a: ActionView) -> bool {
    &&& well_formed(d)
    &&& a matches ActionView::Reply(r) ==> r.id == d.id
    &&& a is Send ==> !is_over(d)
}

/// Moving on keeps the id.
pub proof fn lemma_advance_keeps_id(d: DispatchView, from: int, last: Option<ResponseView>)
    requires
        0 <= from <= d.retries.len(),
    ensures
        keeps_id(advance(d, from, last).0, advance(d, from, last).1),
        advance(d, from, last).0.id == d.id,
{
    lemma_next_live_bounds(d.retries, from);
}

/// One step keeps the id.
pub proof fn lemma_step_keeps_id(d: DispatchView, a: ActionView, call: Result<CallResult, RpcProxyError>)
    requires
        keeps_id(d, a),
        !is_over(d),
    ensures
        keeps_id(step(d, call).0, step(d, call).1),
        step(d, call).0.id == d.id,
{
    match call {
        Ok(CallResult::Success(r)) => {
            if r.result is None {
                lemma_advance_keeps_id(d, d.endpoint + 1, Some(r@));
            }
        },
        Ok(CallResult::NullResult(r)) => lemma_advance_keeps_id(d, d.endpoint + 1, Some(r@)),
        Ok(CallResult::EmptyBody) => lemma_advance_keeps_id(d, d.endpoint + 1, d.last),
        Err(e) => {
            lemma_advance_keeps_id(d, d.endpoint + 1, d.last);
            lemma_advance_keeps_id(d, d.endpoint + 1, Some(local_view(d.id, UPSTREAM_FAILURE, error_text(e))));
        },
    }
}

/// The id is kept over the rest of a run.
pub proof fn lemma_run_keeps_id(d: DispatchView, a: ActionView, calls: Seq<Result<CallResult, RpcProxyError>>)
    requires
        keeps_id(d, a),
    ensures
        run(d, a, calls) matches Some(r) ==> r.id == d.id,
    decreases calls.len(),
{
    if a is Send && calls.len() > 0 {
        lemma_step_keeps_id(d, a, calls[0]);
        let s = step(d, calls[0]);
        lemma_run_keeps_id(s.0, s.1, calls.drop_first());
    }
}

/// The response sent back carries the id of the request on every path,
/// whatever the upstreams answer: where an upstream answer is passed on, and
/// where the router makes the response itself.
pub proof fn lemma_id_echoed(retries: Seq<int>, id: serde_json::Value, calls: Seq<Result<CallResult, RpcProxyError>>)
    ensures
        run(start(retries, id).0, start(retries, id).1, calls) matches Some(r) ==> r.id == id,
{
    let d = DispatchView { retries, endpoint: 0, attempt: 1, last: None, id };
    lemma_advance_keeps_id(d, 0, None);
    lemma_run_keeps_id(start(retries, id).0, start(retries, id).1, calls);
}

} // verus!
