//! Counts and averages of invocations.
use vstd::prelude::*;

use crate::entity::{EntityView, WasccEntity};
use crate::inthost::{Invocation, InvocationResponse};
use crate::middleware::prometheus::{
    count_help, count_name, counts, get_metric_key, get_operation_metric_key, init_metrics,
    metric_name, metric_refusal, name_start, operation_count_help, operation_count_name,
    post_invoke_measure_inv_time, pre_invoke_count_inv, pre_invoke_measure_inv_time, push_job,
    register_counter, register_gauge, serve_request, set_gauge_avg, set_new_total_avg,
    time_help, time_name, total_metrics, Counter, GaugeStep, Metrics, MetricFault, MetricText,
    PrometheusConfig, PushgatewayConfig, TimeUpdate,
};
use crate::table::Table;

verus! {

/// A total average goes over all invocations as long as the window has place for them, and
/// over as many as the window has place for beyond that.
pub proof fn total_averages_fill_the_window(metrics: &Metrics, target: &WasccEntity, r: i64)
    requires
        call_ensures(set_new_total_avg, (metrics, target), r),
    ensures
        ({
            let total = if target@ is Actor {
                metrics.actors.total_inv_count
            } else {
                metrics.caps.total_inv_count
            };
            &&& total <= metrics.moving_average_window_size ==> r == total
            &&& total > metrics.moving_average_window_size ==> r
                == metrics.moving_average_window_size
        }),
{
}

/// So does the average of a target or an operation, over the invocations that its counter has
/// counted.
pub proof fn averages_fill_the_window(
    inv_count: &Table<String, Counter>,
    window: i64,
    key: &String,
    r: i64,
)
    requires
        call_ensures(set_gauge_avg, (inv_count, window, key), r),
        inv_count@.contains_key(key@),
    ensures
        inv_count@[key@].value <= window ==> r == inv_count@[key@].value,
        inv_count@[key@].value > window ==> r == window,
{
    assert(counts(inv_count@)[key@] == inv_count@[key@]@);
}

/// Where nothing has counted, an average goes over the present invocation alone, as long as
/// the window has a place.
pub proof fn uncounted_averages_start_anew(
    inv_count: &Table<String, Counter>,
    window: i64,
    key: &String,
    r: i64,
)
    requires
        call_ensures(set_gauge_avg, (inv_count, window, key), r),
        !inv_count@.contains_key(key@),
    ensures
        window >= 1 ==> r == 1,
        window < 1 ==> r == window,
{
    assert(!counts(inv_count@).contains_key(key@));
}

/// The average of up to as many invocations as the window has place for is their arithmetic
/// mean. An average moves by a part of what the present time differs from it, as many parts
/// as the number of invocations says. Where it was the mean of the times before, so that
/// their number times the average is their sum, it then is the mean of all of them.
pub proof fn averages_are_means(
    metrics: &Metrics,
    target: &WasccEntity,
    n: int,
    sum: int,
    before: int,
    time: int,
    after: int,
    r: i64,
)
    requires
        call_ensures(set_new_total_avg, (metrics, target), r),
        n == (if target@ is Actor {
            metrics.actors.total_inv_count
        } else {
            metrics.caps.total_inv_count
        }),
        n <= metrics.moving_average_window_size,
        (n - 1) * before == sum,
        r * (after - before) == time - before,
    ensures
        n * after == sum + time,
{
    assert(r == n);
    assert(n * after == sum + time) by (nonlinear_arith)
        requires
            (n - 1) * before == sum,
            n * (after - before) == time - before,
    ;
}

/// An invocation adds one to the total of its sort of target, and nothing to the other. The
/// highest number is followed by the lowest.
pub proof fn totals_count_every_invocation(
    metrics: &mut Metrics,
    target: &WasccEntity,
    operation: &str,
)
    requires
        call_ensures(pre_invoke_count_inv, (metrics, target, operation), ()),
    ensures
        target@ is Actor && old(metrics).actors.total_inv_count < i64::MAX
            ==> final(metrics).actors.total_inv_count == old(metrics).actors.total_inv_count + 1,
        target@ is Actor && old(metrics).actors.total_inv_count == i64::MAX
            ==> final(metrics).actors.total_inv_count == i64::MIN,
        target@ is Actor ==> final(metrics).caps.total_inv_count
            == old(metrics).caps.total_inv_count,
        target@ is Capability && old(metrics).caps.total_inv_count < i64::MAX
            ==> final(metrics).caps.total_inv_count == old(metrics).caps.total_inv_count + 1,
        target@ is Capability && old(metrics).caps.total_inv_count == i64::MAX
            ==> final(metrics).caps.total_inv_count == i64::MIN,
        target@ is Capability ==> final(metrics).actors.total_inv_count
            == old(metrics).actors.total_inv_count,
        final(metrics).moving_average_window_size == old(metrics).moving_average_window_size,
{
    assert(final(metrics)@.actors.total == final(metrics).actors.total_inv_count);
    assert(final(metrics)@.caps.total == final(metrics).caps.total_inv_count);
    assert(final(metrics)@.window == final(metrics).moving_average_window_size);
}

proof fn lemma_names(before: Seq<char>, middle: Seq<char>, behind: Seq<char>)
    requires
        before.len() > 0,
        metric_name(before),
        forall|i: int| 0 <= i < behind.len() ==> name_start(#[trigger] behind[i]),
    ensures
        metric_name(before + middle + behind) <==> (forall|i: int|
            0 <= i < middle.len() ==> name_start(#[trigger] middle[i]) || ('0' <= middle[i]
                && middle[i] <= '9')),
{
    let s = before + middle + behind;
    let n = before.len() as int;
    assert(s[0] == before[0]);
    if metric_name(s) {
        assert forall|i: int| 0 <= i < middle.len() implies name_start(#[trigger] middle[i]) || (
        '0' <= middle[i] && middle[i] <= '9') by {
            assert(s[n + i] == middle[i]);
        }
    }
    if forall|i: int|
        0 <= i < middle.len() ==> name_start(#[trigger] middle[i]) || ('0' <= middle[i] && middle[i]
            <= '9') {
        assert forall|i: int| 0 <= i < s.len() implies name_start(#[trigger] s[i]) || ('0' <= s[i]
            && s[i] <= '9') by {
            if i < n {
                assert(s[i] == before[i]);
            } else if i < n + middle.len() {
                assert(s[i] == middle[i - n]);
            } else {
                assert(s[i] == behind[i - n - middle.len()]);
            }
        }
    }
}

/// The counter of an actor counts each invocation of it once. Where there is none yet, one
/// is made that has counted once, as long as the actor's name is made of letters, digits,
/// underscores and colons; else there is none afterwards either.
pub proof fn actors_are_counted(
    metrics: &mut Metrics,
    target: &WasccEntity,
    operation: &str,
    accepted: bool,
)
    requires
        target@ is Actor,
        call_ensures(pre_invoke_count_inv, (metrics, target, operation), ()),
        accepted <==> (forall|i: int|
            0 <= i < target@->Actor_0.len() ==> ('a' <= #[trigger] target@->Actor_0[i] <= 'z')
                || ('A' <= target@->Actor_0[i] <= 'Z') || ('0'
                <= target@->Actor_0[i] <= '9') || target@->Actor_0[i] == '_'
                    || target@->Actor_0[i] == ':'),
    ensures
        ({
            let actor = target@->Actor_0;
            let before = old(metrics).actors.inv_count@;
            let after = final(metrics).actors.inv_count@;
            &&& before.contains_key(actor) ==> after.contains_key(actor) && after[actor].name@
                == before[actor].name@ && (before[actor].value < i64::MAX ==> after[actor].value
                == before[actor].value + 1)
            &&& !before.contains_key(actor) && accepted ==> after.contains_key(actor)
                && after[actor].value == 1 && after[actor].name@ == "wascc_"@ + actor
                + "_inv_count"@ && after[actor].help@ == "Number of invocations of actor '"@ + actor
                + "'"@
            &&& !before.contains_key(actor) && !accepted ==> !after.contains_key(actor)
            &&& forall|other: Seq<char>|
                other != actor ==> (#[trigger] after.contains_key(other) <==> before.contains_key(
                    other,
                ))
            &&& forall|other: Seq<char>|
                other != actor && #[trigger] after.contains_key(other) ==> after[other].value
                    == before[other].value
        }),
{
    let actor = target@->Actor_0;
    let before = old(metrics).actors.inv_count@;
    let after = final(metrics).actors.inv_count@;
    reveal_strlit("wascc_");
    reveal_strlit("_inv_count");
    reveal_strlit("Number of invocations of actor '");
    lemma_names("wascc_"@, actor, "_inv_count"@);
    assert(counts(after) == final(metrics)@.actors.counts);
    assert(counts(before) == old(metrics)@.actors.counts);
    assert forall|k: Seq<char>| #[trigger] after.contains_key(k) <==> counts(after).contains_key(
        k,
    ) by {}
    assert forall|k: Seq<char>| #[trigger] before.contains_key(k) <==> counts(before).contains_key(
        k,
    ) by {}
    assert forall|k: Seq<char>| #[trigger] after.contains_key(k) implies counts(after)[k]
        == after[k]@ by {}
    assert forall|k: Seq<char>| #[trigger] before.contains_key(k) implies counts(before)[k]
        == before[k]@ by {}
    assert(count_help(target@).len() > 0);
    assert(metric_name(count_name(target@)) <==> accepted);
    assert forall|other: Seq<char>| other != actor implies (#[trigger] after.contains_key(other)
        <==> before.contains_key(other)) by {
        assert(counts(after).contains_key(other) <==> counts(before).contains_key(other));
    }
    assert forall|other: Seq<char>| other != actor && #[trigger] after.contains_key(other) implies
        after[other].value == before[other].value by {
        assert(counts(after)[other] == counts(before)[other]);
    }
    if before.contains_key(actor) {
        assert(counts(before)[actor] == before[actor]@);
    }
    if after.contains_key(actor) {
        assert(counts(after)[actor] == after[actor]@);
    }
}

/// So is the counter of a capability, by its capability ID and its binding name together.
pub proof fn capabilities_are_counted(
    metrics: &mut Metrics,
    target: &WasccEntity,
    operation: &str,
    key: String,
    named: Seq<char>,
    accepted: bool,
)
    requires
        target@ is Capability,
        call_ensures(pre_invoke_count_inv, (metrics, target, operation), ()),
        call_ensures(get_metric_key, (target,), key),
        named == target@->capid + "_"@ + target@->binding,
        accepted <==> (forall|i: int|
            0 <= i < named.len() ==> ('a' <= #[trigger] named[i] <= 'z')
                || ('A' <= named[i] <= 'Z') || ('0'
                <= named[i] <= '9') || named[i] == '_' || named[i] == ':'),
    ensures
        ({
            let capid = target@->capid;
            let binding = target@->binding;
            let before = old(metrics).caps.inv_count@;
            let after = final(metrics).caps.inv_count@;
            &&& before.contains_key(key@) ==> after.contains_key(key@) && after[key@].name@
                == before[key@].name@ && (before[key@].value < i64::MAX ==> after[key@].value
                == before[key@].value + 1)
            &&& !before.contains_key(key@) && accepted ==> after.contains_key(key@)
                && after[key@].value == 1 && after[key@].name@ == "wascc_"@ + named + "_inv_count"@
                && after[key@].help@ == "Number of invocations of capability '"@ + capid
                + "' with binding '"@ + binding + "'"@
            &&& !before.contains_key(key@) && !accepted ==> !after.contains_key(key@)
            &&& forall|other: Seq<char>|
                other != key@ ==> (#[trigger] after.contains_key(other) <==> before.contains_key(
                    other,
                ))
            &&& forall|other: Seq<char>|
                other != key@ && #[trigger] after.contains_key(other) ==> after[other].value
                    == before[other].value
        }),
{
    let before = old(metrics).caps.inv_count@;
    let after = final(metrics).caps.inv_count@;
    reveal_strlit("wascc_");
    reveal_strlit("_inv_count");
    reveal_strlit("Number of invocations of capability '");
    lemma_names("wascc_"@, named, "_inv_count"@);
    assert(counts(after) == final(metrics)@.caps.counts);
    assert(counts(before) == old(metrics)@.caps.counts);
    assert forall|k: Seq<char>| #[trigger] after.contains_key(k) <==> counts(after).contains_key(
        k,
    ) by {}
    assert forall|k: Seq<char>| #[trigger] before.contains_key(k) <==> counts(before).contains_key(
        k,
    ) by {}
    assert forall|k: Seq<char>| #[trigger] after.contains_key(k) implies counts(after)[k]
        == after[k]@ by {}
    assert forall|k: Seq<char>| #[trigger] before.contains_key(k) implies counts(before)[k]
        == before[k]@ by {}
    assert(count_help(target@).len() > 0);
    assert(metric_name(count_name(target@)) <==> accepted);
    assert forall|other: Seq<char>| other != key@ implies (#[trigger] after.contains_key(other)
        <==> before.contains_key(other)) by {
        assert(counts(after).contains_key(other) <==> counts(before).contains_key(other));
    }
    assert forall|other: Seq<char>| other != key@ && #[trigger] after.contains_key(other) implies
        after[other].value == before[other].value by {
        assert(counts(after)[other] == counts(before)[other]);
    }
    if before.contains_key(key@) {
        assert(counts(before)[key@] == before[key@]@);
    }
    if after.contains_key(key@) {
        assert(counts(after)[key@] == after[key@]@);
    }
}

/// The counter of an operation on a target counts each invocation of it once, and is made
/// where there is none and its name is accepted.
pub proof fn operations_are_counted(
    metrics: &mut Metrics,
    target: &WasccEntity,
    operation: &str,
    key: String,
    named: Seq<char>,
    accepted: bool,
)
    requires
        call_ensures(pre_invoke_count_inv, (metrics, target, operation), ()),
        call_ensures(get_operation_metric_key, (target, operation), key),
        named == (match target@ {
            EntityView::Actor(actor) => actor,
            EntityView::Capability { capid, binding } => capid + "_"@ + binding,
        }) + "_"@ + operation@,
        accepted <==> (forall|i: int|
            0 <= i < named.len() ==> ('a' <= #[trigger] named[i] <= 'z')
                || ('A' <= named[i] <= 'Z') || ('0'
                <= named[i] <= '9') || named[i] == '_' || named[i] == ':'),
    ensures
        ({
            let before = if target@ is Actor {
                old(metrics).actors.operation_inv_count@
            } else {
                old(metrics).caps.operation_inv_count@
            };
            let after = if target@ is Actor {
                final(metrics).actors.operation_inv_count@
            } else {
                final(metrics).caps.operation_inv_count@
            };
            &&& before.contains_key(key@) ==> after.contains_key(key@) && (before[key@].value
                < i64::MAX ==> after[key@].value == before[key@].value + 1)
            &&& !before.contains_key(key@) && accepted ==> after.contains_key(key@)
                && after[key@].value == 1 && after[key@].name@ == "wascc_"@ + named + "_inv_count"@
            &&& !before.contains_key(key@) && accepted ==> after[key@].help@ == (match target@ {
                EntityView::Actor(actor) => "Number of invocations of operation '"@ + operation@
                    + "' on actor '"@ + actor + "'"@,
                EntityView::Capability { capid, binding } => "Number of invocations of operation '"@
                    + capid + "' on capability '"@ + binding + "' with binding '"@ + operation@
                    + "'"@,
            })
            &&& !before.contains_key(key@) && !accepted ==> !after.contains_key(key@)
            &&& forall|other: Seq<char>|
                other != key@ ==> (#[trigger] after.contains_key(other) <==> before.contains_key(
                    other,
                ))
            &&& forall|other: Seq<char>|
                other != key@ && #[trigger] after.contains_key(other) ==> after[other].value
                    == before[other].value
        }),
{
    let text = match target@ {
        EntityView::Actor(actor) => actor,
        EntityView::Capability { capid, binding } => capid + "_"@ + binding,
    };
    let before = if target@ is Actor {
        old(metrics).actors.operation_inv_count@
    } else {
        old(metrics).caps.operation_inv_count@
    };
    let after = if target@ is Actor {
        final(metrics).actors.operation_inv_count@
    } else {
        final(metrics).caps.operation_inv_count@
    };
    reveal_strlit("wascc_");
    reveal_strlit("_inv_count");
    reveal_strlit("Number of invocations of operation '");
    lemma_names("wascc_"@, named, "_inv_count"@);
    assert("wascc_"@ + text + "_"@ + operation@ + "_inv_count"@ =~= "wascc_"@ + named
        + "_inv_count"@);
    assert(operation_count_name(target@, operation@) == "wascc_"@ + named + "_inv_count"@);
    assert(final(metrics)@.actors.operation_counts == counts(
        final(metrics).actors.operation_inv_count@,
    ));
    assert(final(metrics)@.caps.operation_counts == counts(
        final(metrics).caps.operation_inv_count@,
    ));
    assert forall|k: Seq<char>| #[trigger] after.contains_key(k) <==> counts(after).contains_key(
        k,
    ) by {}
    assert forall|k: Seq<char>| #[trigger] before.contains_key(k) <==> counts(before).contains_key(
        k,
    ) by {}
    assert forall|k: Seq<char>| #[trigger] after.contains_key(k) implies counts(after)[k]
        == after[k]@ by {}
    assert forall|k: Seq<char>| #[trigger] before.contains_key(k) implies counts(before)[k]
        == before[k]@ by {}
    assert(operation_count_help(target@, operation@).len() > 0);
    assert(metric_name(operation_count_name(target@, operation@)) <==> accepted);
    assert forall|other: Seq<char>| other != key@ implies (#[trigger] after.contains_key(other)
        <==> before.contains_key(other)) by {
        assert(counts(after).contains_key(other) <==> counts(before).contains_key(other));
    }
    assert forall|other: Seq<char>| other != key@ && #[trigger] after.contains_key(other) implies
        after[other].value == before[other].value by {
        assert(counts(after)[other] == counts(before)[other]);
    }
    if before.contains_key(key@) {
        assert(counts(before)[key@] == before[key@]@);
    }
    if after.contains_key(key@) {
        assert(counts(after)[key@] == after[key@]@);
    }
}

/// The time of an invocation runs from when it was noted to when its response is measured: it
/// is their distance in milliseconds, rounded down. It is forgotten once it was measured.
pub proof fn times_run_from_start_to_response(
    metrics: &mut Metrics,
    later: &mut Metrics,
    inv: &Invocation,
    response: &InvocationResponse,
    start: u128,
    end: u128,
    known: bool,
    r: Option<TimeUpdate>,
)
    requires
        call_ensures(pre_invoke_measure_inv_time, (metrics, inv, start), known),
        call_ensures(post_invoke_measure_inv_time, (later, response, end), r),
        final(metrics)@ == old(later)@,
        response@.invocation_id == inv@.id,
    ensures
        known <==> old(metrics).active_inv_state@.contains_key(inv@.id),
        r is Some <==> end >= start,
        r is Some ==> r->0.target@ == inv@.target && r->0.inv_time == (end - start) / 1_000_000,
        !final(later).active_inv_state@.contains_key(inv@.id),
        forall|id: Seq<char>|
            id != inv@.id ==> (#[trigger] final(later).active_inv_state@.contains_key(id)
                <==> old(metrics).active_inv_state@.contains_key(id)),
{
    assert(final(metrics)@.active.contains_key(inv@.id));
    assert(final(metrics)@.active[inv@.id].start_time == start);
    assert(final(metrics)@.active[inv@.id].target == inv@.target);
    assert forall|id: Seq<char>| id != inv@.id implies (
    #[trigger] final(later).active_inv_state@.contains_key(id)
        <==> old(metrics).active_inv_state@.contains_key(id)) by {
        assert(final(later)@.active.contains_key(id)
            <==> final(later).active_inv_state@.contains_key(id));
        assert(old(metrics)@.active.contains_key(id)
            <==> old(metrics).active_inv_state@.contains_key(id));
    }
    assert(final(later)@.active.contains_key(inv@.id)
        <==> final(later).active_inv_state@.contains_key(inv@.id));
    assert(old(metrics)@.active.contains_key(inv@.id)
        <==> old(metrics).active_inv_state@.contains_key(inv@.id));
}

/// A response to an invocation that was not noted is not measured, and changes nothing but
/// that no such invocation is in progress.
pub proof fn unknown_responses_are_not_measured(
    metrics: &mut Metrics,
    response: &InvocationResponse,
    now: u128,
    r: Option<TimeUpdate>,
)
    requires
        call_ensures(post_invoke_measure_inv_time, (metrics, response, now), r),
        !old(metrics).active_inv_state@.contains_key(response@.invocation_id),
    ensures
        r is None,
        final(metrics)@.actors == old(metrics)@.actors,
        final(metrics)@.caps == old(metrics)@.caps,
        final(metrics)@.window == old(metrics)@.window,
        final(metrics)@.active =~= old(metrics)@.active,
{
    assert(!old(metrics)@.active.contains_key(response@.invocation_id));
}

/// Once an invocation was measured, the total average goes over all invocations of its sort or
/// over the window, and so does the average of its target where there is one, by what its
/// counter says. Where there is none, one is made that starts with the present time.
pub proof fn measured_averages_fill_the_window(
    metrics: &mut Metrics,
    response: &InvocationResponse,
    now: u128,
    r: Option<TimeUpdate>,
)
    requires
        call_ensures(post_invoke_measure_inv_time, (metrics, response, now), r),
        r is Some,
    ensures
        ({
            let state = old(metrics).active_inv_state@[response@.invocation_id];
            let window = old(metrics).moving_average_window_size;
            let sort = if state.target@ is Actor {
                old(metrics).actors
            } else {
                old(metrics).caps
            };
            let key = state.metric_key@;
            let count = if sort.inv_count@.contains_key(key) {
                sort.inv_count@[key].value
            } else {
                1i64
            };
            let operation_key = state.operation_metric_key@;
            let operation_count = if sort.operation_inv_count@.contains_key(operation_key) {
                sort.operation_inv_count@[operation_key].value
            } else {
                1i64
            };
            &&& old(metrics).active_inv_state@.contains_key(response@.invocation_id)
            &&& sort.total_inv_count <= window ==> r->0.total_count == sort.total_inv_count
            &&& sort.total_inv_count > window ==> r->0.total_count == window
            &&& sort.average_inv_time@.contains_key(key) <==> r->0.target_step is Average
            &&& r->0.target_step matches GaugeStep::Average { key: k, count: c } ==> k@ == key && (
            count <= window ==> c == count) && (count > window ==> c == window)
            &&& r->0.target_step matches GaugeStep::Create { key: k, .. } ==> k@ == key
            &&& sort.operation_average_inv_time@.contains_key(operation_key)
                <==> r->0.operation_step is Average
            &&& r->0.operation_step matches GaugeStep::Average { key: k, count: c } ==> k@
                == operation_key && (operation_count <= window ==> c == operation_count) && (
            operation_count > window ==> c == window)
            &&& r->0.operation_step matches GaugeStep::Create { key: k, .. } ==> k@ == operation_key
        }),
{
    let id = response@.invocation_id;
    let state = old(metrics).active_inv_state@[id];
    assert(old(metrics)@.active.contains_key(id));
    assert(old(metrics)@.active[id] == state@);
    let sort = if state.target@ is Actor {
        old(metrics).actors
    } else {
        old(metrics).caps
    };
    let key = state.metric_key@;
    let operation_key = state.operation_metric_key@;
    assert(counts(sort.inv_count@).contains_key(key) ==> counts(sort.inv_count@)[key]
        == sort.inv_count@[key]@);
    assert(counts(sort.operation_inv_count@).contains_key(operation_key) ==> counts(
        sort.operation_inv_count@,
    )[operation_key] == sort.operation_inv_count@[operation_key]@);
    assert(r->0@.target_step == r->0.target_step@);
    assert(r->0@.operation_step == r->0.operation_step@);
    assert(sort@.averages.contains(key) <==> sort.average_inv_time@.contains_key(key));
    assert(sort@.operation_averages.contains(operation_key)
        <==> sort.operation_average_inv_time@.contains_key(operation_key));
}

/// There is a new average where it was to be made, and no other is touched. Counts stay as
/// they are.
pub proof fn new_averages_are_kept(
    metrics: &mut Metrics,
    response: &InvocationResponse,
    now: u128,
    r: Option<TimeUpdate>,
)
    requires
        call_ensures(post_invoke_measure_inv_time, (metrics, response, now), r),
        r is Some,
    ensures
        ({
            let state = old(metrics).active_inv_state@[response@.invocation_id];
            let before = if state.target@ is Actor {
                old(metrics).actors
            } else {
                old(metrics).caps
            };
            let after = if state.target@ is Actor {
                final(metrics).actors
            } else {
                final(metrics).caps
            };
            &&& after.total_inv_count == before.total_inv_count
            &&& after@.counts == before@.counts
            &&& after@.operation_counts == before@.operation_counts
            &&& r->0.target_step is Create ==> after.average_inv_time@.contains_key(
                state.metric_key@,
            )
            &&& r->0.target_step is Refused ==> !after.average_inv_time@.contains_key(
                state.metric_key@,
            )
            &&& forall|k: Seq<char>|
                k != state.metric_key@ ==> (#[trigger] after.average_inv_time@.contains_key(k)
                    <==> before.average_inv_time@.contains_key(k))
            &&& r->0.operation_step is Create ==> after.operation_average_inv_time@.contains_key(
                state.operation_metric_key@,
            )
            &&& forall|k: Seq<char>|
                k != state.operation_metric_key@ ==> (
                #[trigger] after.operation_average_inv_time@.contains_key(k)
                    <==> before.operation_average_inv_time@.contains_key(k))
        }),
{
    let id = response@.invocation_id;
    let state = old(metrics).active_inv_state@[id];
    assert(old(metrics)@.active.contains_key(id));
    assert(old(metrics)@.active[id] == state@);
    let before = if state.target@ is Actor {
        old(metrics).actors
    } else {
        old(metrics).caps
    };
    let after = if state.target@ is Actor {
        final(metrics).actors
    } else {
        final(metrics).caps
    };
    assert(after@.total == before@.total);
    assert(r->0@.target_step == r->0.target_step@);
    assert(r->0@.operation_step == r->0.operation_step@);
    assert forall|k: Seq<char>| #[trigger] after.average_inv_time@.contains_key(k)
        <==> after@.averages.contains(k) by {}
    assert forall|k: Seq<char>| #[trigger] after.operation_average_inv_time@.contains_key(k)
        <==> after@.operation_averages.contains(k) by {}
    assert forall|k: Seq<char>| #[trigger] before.average_inv_time@.contains_key(k)
        <==> before@.averages.contains(k) by {}
    assert forall|k: Seq<char>| #[trigger] before.operation_average_inv_time@.contains_key(k)
        <==> before@.operation_averages.contains(k) by {}
}

/// Metrics start with nothing counted and nothing in progress, and with the window that was
/// asked for, or one of a hundred invocations.
pub proof fn metrics_start_empty(config: &PrometheusConfig, r: Metrics)
    requires
        call_ensures(init_metrics, (config,), r),
    ensures
        r.actors.total_inv_count == 0 && r.caps.total_inv_count == 0,
        forall|k: Seq<char>| !(#[trigger] r.actors.inv_count@.contains_key(k)),
        forall|k: Seq<char>| !(#[trigger] r.caps.inv_count@.contains_key(k)),
        forall|k: Seq<char>| !(#[trigger] r.active_inv_state@.contains_key(k)),
        config.moving_average_window_size is Some ==> r.moving_average_window_size
            == config.moving_average_window_size->0,
        config.moving_average_window_size is None ==> r.moving_average_window_size == 100,
{
    assert(r@.actors.total == 0 && r@.caps.total == 0);
    assert forall|k: Seq<char>| !(#[trigger] r.actors.inv_count@.contains_key(k)) by {
        assert(!r@.actors.counts.contains_key(k));
    }
    assert forall|k: Seq<char>| !(#[trigger] r.caps.inv_count@.contains_key(k)) by {
        assert(!r@.caps.counts.contains_key(k));
    }
    assert forall|k: Seq<char>| !(#[trigger] r.active_inv_state@.contains_key(k)) by {
        assert(!r@.active.contains_key(k));
    }
}

/// The metrics server answers to nothing but a GET of its one path, and metrics are pushed
/// under the job's own name where it has one.
pub proof fn metrics_are_served_and_pushed(
    method: &str,
    path: &str,
    status: u16,
    config: &PushgatewayConfig,
    job: String,
)
    requires
        call_ensures(serve_request, (method, path), status),
        call_ensures(push_job, (config,), job),
    ensures
        status == 200 <==> method@ == "GET"@ && path@ == "/metrics"@,
        status == 200 || status == 404,
        config.job is Some ==> job@ == config.job->0@,
        config.job is None ==> job@ == "wascc"@,
{
}

/// Every complaint of the metrics registry is an error of the middleware, with its own words
/// where it has any.
pub proof fn complaints_are_middleware_errors(fault: MetricFault, e: crate::errors::Error)
    requires
        call_ensures(MetricFault::into_error, (fault,), e),
    ensures
        e@ is Middleware,
        fault is Message ==> e@->Middleware_0 == fault->Message_0@,
        fault is Io ==> e@->Middleware_0 == fault->Io_0@,
        fault is AlreadyRegistered ==> e@->Middleware_0 == "Metric already registered"@,
        fault is Unknown ==> e@->Middleware_0 == "Unknown Prometheus error"@,
{
}

/// What is kept of an invocation while it runs is when it started, what it addresses, and the keys
/// of the metrics for that.
pub proof fn running_invocations_are_noted(
    metrics: &mut Metrics,
    inv: &Invocation,
    now: u128,
    key: String,
    operation_key: String,
    op: &str,
    known: bool,
)
    requires
        call_ensures(pre_invoke_measure_inv_time, (metrics, inv, now), known),
        call_ensures(get_metric_key, (&inv.target,), key),
        op@ == inv@.operation,
        call_ensures(get_operation_metric_key, (&inv.target, op), operation_key),
    ensures
        final(metrics).active_inv_state@.contains_key(inv@.id),
        ({
            let s = final(metrics).active_inv_state@[inv@.id];
            &&& s.start_time == now
            &&& s.operation@ == inv@.operation
            &&& s.target@ == inv@.target
            &&& s.metric_key@ == key@
            &&& s.operation_metric_key@ == operation_key@
        }),
        final(metrics)@.actors == old(metrics)@.actors && final(metrics)@.caps
            == old(metrics)@.caps,
{
    assert(final(metrics)@.active.contains_key(inv@.id));
    assert(final(metrics)@.active[inv@.id] == final(metrics).active_inv_state@[inv@.id]@);
}

/// An average that is made is named after the target, or after the target and the operation.
pub proof fn averages_are_named_after_targets(
    metrics: &mut Metrics,
    response: &InvocationResponse,
    now: u128,
    r: Option<TimeUpdate>,
)
    requires
        call_ensures(post_invoke_measure_inv_time, (metrics, response, now), r),
        r is Some,
    ensures
        ({
            let state = old(metrics).active_inv_state@[response@.invocation_id];
            let op = state.operation@;
            match state.target@ {
                EntityView::Actor(actor) => {
                    &&& r->0.target_step matches GaugeStep::Create { name, help, .. } ==> name@
                        == "wascc_"@ + actor + "_average_inv_time"@ && help@
                        == "Average time (ms) to invoke actor '"@ + actor + "'"@
                    &&& r->0.operation_step matches GaugeStep::Create { name, help, .. } ==> name@
                        == "wascc_"@ + actor + "_"@ + op + "_average_inv_time"@ && help@
                        == "Average time (ms) to invoke operation '"@ + op + "' on actor '"@ + actor
                        + "'"@
                },
                EntityView::Capability { capid, binding } => {
                    &&& r->0.target_step matches GaugeStep::Create { name, help, .. } ==> name@
                        == "wascc_"@ + (capid + "_"@ + binding) + "_average_inv_time"@ && help@
                        == "Average time (ms) to invoke capability '"@ + capid
                        + "' with binding '"@ + binding + "'"@
                    &&& r->0.operation_step matches GaugeStep::Create { name, help, .. } ==> name@
                        == "wascc_"@ + (capid + "_"@ + binding) + "_"@ + op
                        + "_average_inv_time"@ && help@
                        == "Average time (ms) to invoke operation '"@ + op + "' on capability '"@
                        + capid + "' with binding '"@ + binding + "'"@
                },
            }
        }),
{
    let id = response@.invocation_id;
    let state = old(metrics).active_inv_state@[id];
    assert(old(metrics)@.active.contains_key(id));
    assert(old(metrics)@.active[id] == state@);
    assert(r->0@.target_step == r->0.target_step@);
    assert(r->0@.operation_step == r->0.operation_step@);
}

/// Where the target of a measured invocation has no average, one is made exactly where its name is
/// made of letters, digits, underscores and colons.
pub proof fn averages_are_made_where_their_name_is_accepted(
    metrics: &mut Metrics,
    response: &InvocationResponse,
    now: u128,
    named: Seq<char>,
    accepted: bool,
    r: Option<TimeUpdate>,
)
    requires
        call_ensures(post_invoke_measure_inv_time, (metrics, response, now), r),
        r is Some,
        named == (match old(metrics).active_inv_state@[response@.invocation_id].target@ {
            EntityView::Actor(actor) => actor,
            EntityView::Capability { capid, binding } => capid + "_"@ + binding,
        }),
        accepted <==> (forall|i: int|
            0 <= i < named.len() ==> ('a' <= #[trigger] named[i] <= 'z') || ('A' <= named[i] <= 'Z')
                || ('0' <= named[i] <= '9') || named[i] == '_' || named[i] == ':'),
    ensures
        accepted ==> !(r->0.target_step is Refused),
        !accepted ==> !(r->0.target_step is Create),
{
    let id = response@.invocation_id;
    let state = old(metrics).active_inv_state@[id];
    assert(old(metrics)@.active.contains_key(id));
    assert(old(metrics)@.active[id] == state@);
    assert(r->0@.target_step == r->0.target_step@);
    reveal_strlit("wascc_");
    reveal_strlit("_average_inv_time");
    reveal_strlit("Average time (ms) to invoke actor '");
    reveal_strlit("Average time (ms) to invoke capability '");
    lemma_names("wascc_"@, named, "_average_inv_time"@);
    assert(time_name(state.target@) == "wascc_"@ + named + "_average_inv_time"@);
    assert(time_help(state.target@).len() > 0);
    assert(metric_name(time_name(state.target@)) <==> accepted);
}

/// A counter or an average is made exactly where its help text is not empty and its name is
/// accepted. No other one is touched.
pub proof fn metrics_are_registered(
    counters: &mut Table<String, Counter>,
    averages: &mut Table<String, ()>,
    key: String,
    k: &String,
    name: String,
    help: String,
    accepted: bool,
    step: GaugeStep,
)
    requires
        call_ensures(register_counter, (counters, key, name, help), ()),
        call_ensures(register_gauge, (averages, k, name, help), step),
        !old(counters)@.contains_key(key@),
        !old(averages)@.contains_key(k@),
        accepted <==> help@.len() > 0 && name@.len() > 0 && !('0' <= name@[0] <= '9') && (forall|
            i: int,
        |
            0 <= i < name@.len() ==> ('a' <= #[trigger] name@[i] <= 'z') || ('A' <= name@[i] <= 'Z')
                || ('0' <= name@[i] <= '9') || name@[i] == '_' || name@[i] == ':'),
    ensures
        final(counters)@.contains_key(key@) <==> accepted,
        accepted ==> final(counters)@[key@].value == 1 && final(counters)@[key@].name@ == name@
            && final(counters)@[key@].help@ == help@,
        forall|other: Seq<char>|
            other != key@ ==> (#[trigger] final(counters)@.contains_key(other)
                <==> old(counters)@.contains_key(other)),
        final(averages)@.contains_key(k@) <==> accepted,
        step is Create <==> accepted,
        step is Refused <==> !accepted,
        forall|other: Seq<char>|
            other != k@ ==> (#[trigger] final(averages)@.contains_key(other)
                <==> old(averages)@.contains_key(other)),
{
    assert(metric_refusal(name@, help@) is None <==> accepted) by {
        if metric_name(name@) {
            assert(name_start(name@[0]));
        }
        if accepted {
            assert(name_start(name@[0]));
        }
    }
    let after = final(counters)@;
    let before = old(counters)@;
    assert forall|o: Seq<char>| #[trigger] after.contains_key(o) <==> counts(after).contains_key(
        o,
    ) by {}
    assert forall|o: Seq<char>| #[trigger] before.contains_key(o) <==> counts(before).contains_key(
        o,
    ) by {}
    if accepted {
        assert(counts(after).contains_key(key@));
        assert(counts(after)[key@] == after[key@]@);
    }
    assert forall|o: Seq<char>| #[trigger] final(averages)@.contains_key(o)
        <==> final(averages)@.dom().contains(o) by {}
    assert forall|o: Seq<char>| #[trigger] old(averages)@.contains_key(o)
        <==> old(averages)@.dom().contains(o) by {}
    assert(step@ is Create <==> step is Create);
}

/// The metrics that are always there are named after what they say.
pub proof fn totals_have_names(r: (MetricText, MetricText, MetricText, MetricText))
    requires
        call_ensures(total_metrics, (), r),
    ensures
        r.0.name@ == "wascc_cap_total_inv_count"@,
        r.1.name@ == "wascc_cap_total_average_inv_time"@,
        r.2.name@ == "wascc_actor_total_inv_count"@,
        r.3.name@ == "wascc_actor_total_average_inv_time"@,
        r.0.help@ == "Total number of capability invocations"@,
        r.1.help@ == "Average invocation time (ms) across all capabilities"@,
        r.2.help@ == "Total number of actor invocations"@,
        r.3.help@ == "Average invocation time (ms) across all actors"@,
{
}

/// Where the clock has gone backwards, an invocation is forgotten and nothing is measured. What is
/// measured of one sort of target leaves the metrics of the other alone.
pub proof fn measuring_stays_with_its_sort(
    metrics: &mut Metrics,
    response: &InvocationResponse,
    now: u128,
    r: Option<TimeUpdate>,
)
    requires
        call_ensures(post_invoke_measure_inv_time, (metrics, response, now), r),
        old(metrics).active_inv_state@.contains_key(response@.invocation_id),
    ensures
        ({
            let state = old(metrics).active_inv_state@[response@.invocation_id];
            &&& r is None <==> now < state.start_time
            &&& now < state.start_time || state.target@ is Actor ==> final(metrics)@.caps == old(metrics)@.caps
            &&& now < state.start_time || state.target@ is Capability ==> final(metrics)@.actors
                == old(metrics)@.actors
            &&& !final(metrics).active_inv_state@.contains_key(response@.invocation_id)
            &&& final(metrics)@.window == old(metrics)@.window
        }),
{
    let id = response@.invocation_id;
    assert(old(metrics)@.active.contains_key(id));
    assert(old(metrics)@.active[id] == old(metrics).active_inv_state@[id]@);
    assert(final(metrics)@.active.contains_key(id)
        <==> final(metrics).active_inv_state@.contains_key(id));
}

/// Counting leaves the averages, the invocations in progress and the other sort of target alone.
pub proof fn counting_stays_with_its_sort(
    metrics: &mut Metrics,
    target: &WasccEntity,
    operation: &str,
)
    requires
        call_ensures(pre_invoke_count_inv, (metrics, target, operation), ()),
    ensures
        target@ is Actor ==> final(metrics)@.caps == old(metrics)@.caps,
        target@ is Capability ==> final(metrics)@.actors == old(metrics)@.actors,
        final(metrics)@.actors.averages == old(metrics)@.actors.averages,
        final(metrics)@.caps.averages == old(metrics)@.caps.averages,
        final(metrics)@.actors.operation_averages == old(metrics)@.actors.operation_averages,
        final(metrics)@.caps.operation_averages == old(metrics)@.caps.operation_averages,
        final(metrics)@.active == old(metrics)@.active,
{
}

} // verus!
