//! Counts of invocations by who makes them and whom they address.
use vstd::prelude::*;

use crate::entity::{EntityView, WasccEntity};
use crate::inthost::InvocationResponse;
use crate::middleware::prometheus::{
    counts, metric_name, metric_refusal, name_start, Counter, MetricText,
};
use crate::prometheus_middleware::{
    init_metrics, operation_key, operation_keys_tell_operations, pair_key, pair_keys_tell_pairs,
    pending_counter, post_invoke_measure_time, pre_invoke, pre_invoke_measure_time, push_job,
    register_new_counter, total_metrics, Metrics, PushgatewayConfig,
};
use crate::table::Table;

verus! {

/// An invocation adds one to the total of its sort of target, whether or not its counter is
/// kept, and nothing to the other sort.
pub proof fn totals_count_every_pair(
    metrics: &mut Metrics,
    origin: &str,
    target: &WasccEntity,
    registered: bool,
)
    requires
        call_ensures(pre_invoke, (metrics, origin, target, registered), ()),
    ensures
        target@ is Actor && old(metrics).actors.total_inv_count < i64::MAX
            ==> final(metrics).actors.total_inv_count == old(metrics).actors.total_inv_count + 1,
        target@ is Actor ==> final(metrics).caps@ == old(metrics).caps@,
        target@ is Capability && old(metrics).caps.total_inv_count < i64::MAX
            ==> final(metrics).caps.total_inv_count == old(metrics).caps.total_inv_count + 1,
        target@ is Capability ==> final(metrics).actors@ == old(metrics).actors@,
{
    assert(final(metrics)@.actors == final(metrics).actors@);
    assert(final(metrics)@.caps == final(metrics).caps@);
    assert(final(metrics).actors@.total == final(metrics).actors.total_inv_count);
    assert(final(metrics).caps@.total == final(metrics).caps.total_inv_count);
}

/// A counter that is there counts the invocation once. A counter is due exactly where there is
/// none and its name is accepted; it is kept, and has counted once, where the registry has taken
/// it.
pub proof fn pairs_are_counted(
    metrics: &mut Metrics,
    origin: &str,
    target: &WasccEntity,
    registered: bool,
    before_call: &Metrics,
    due: Option<MetricText>,
    key: Seq<char>,
)
    requires
        *before_call == *old(metrics),
        call_ensures(pending_counter, (before_call, origin, target), due),
        call_ensures(pre_invoke, (metrics, origin, target, registered), ()),
        key == pair_key(origin@, target@),
    ensures
        ({
            let before = if target@ is Actor {
                old(metrics).actors@.counts
            } else {
                old(metrics).caps@.counts
            };
            let after = if target@ is Actor {
                final(metrics).actors@.counts
            } else {
                final(metrics).caps@.counts
            };
            &&& before.contains_key(key) ==> due is None && after.contains_key(key) && (
            before[key].value < i64::MAX ==> after[key].value == before[key].value + 1)
            &&& due is Some && registered ==> after.contains_key(key) && after[key].value == 1
                && after[key].name == due->0.name@ && after[key].help == due->0.help@
            &&& !before.contains_key(key) && (due is None || !registered) ==> !after.contains_key(
                key,
            )
            &&& due is Some ==> !before.contains_key(key)
        }),
{
    assert(final(metrics)@.actors == final(metrics).actors@);
    assert(final(metrics)@.caps == final(metrics).caps@);
    assert(old(metrics)@.actors == old(metrics).actors@);
    assert(old(metrics)@.caps == old(metrics).caps@);
}

/// The counter of one pair of sender and receiver never counts the invocations of another.
pub proof fn pairs_are_counted_apart(
    metrics: &mut Metrics,
    origin: &str,
    target: &WasccEntity,
    registered: bool,
    other_origin: Seq<char>,
    other: EntityView,
)
    requires
        call_ensures(pre_invoke, (metrics, origin, target, registered), ()),
        other is Actor == target@ is Actor,
        other_origin != origin@ || other != target@,
    ensures
        ({
            let before = if target@ is Actor {
                old(metrics).actors@.counts
            } else {
                old(metrics).caps@.counts
            };
            let after = if target@ is Actor {
                final(metrics).actors@.counts
            } else {
                final(metrics).caps@.counts
            };
            let key = pair_key(other_origin, other);
            &&& after.contains_key(key) <==> before.contains_key(key)
            &&& after.contains_key(key) ==> after[key] == before[key]
        }),
{
    assert(final(metrics)@.actors == final(metrics).actors@);
    assert(final(metrics)@.caps == final(metrics).caps@);
    assert(old(metrics)@.actors == old(metrics).actors@);
    assert(old(metrics)@.caps == old(metrics).caps@);
    if pair_key(other_origin, other) == pair_key(origin@, target@) {
        pair_keys_tell_pairs(other_origin, other, origin@, target@);
    }
}

/// The counter that is due is named after the receiver.
pub proof fn counters_are_named_after_receivers(
    metrics: &Metrics,
    origin: &str,
    target: &WasccEntity,
    r: Option<MetricText>,
)
    requires
        call_ensures(pending_counter, (metrics, origin, target), r),
        r is Some,
    ensures
        target@ is Actor ==> r->0.name@ == target@->Actor_0 + "_inv_count"@ && r->0.help@
            == "number of invocations of "@ + target@->Actor_0,
        target@ is Capability ==> r->0.name@ == target@->capid + "_"@ + target@->binding
            + "_inv_count"@ && r->0.help@ == "number of invocations of capability "@
            + target@->capid + " with binding "@ + target@->binding,
{
}

/// When an invocation has started is noted, unless one of the same operation by the same sender
/// on the same receiver is in progress. The time that was noted first stays.
pub proof fn starts_are_noted_once(
    metrics: &mut Metrics,
    later: &mut Metrics,
    origin: &str,
    operation: &str,
    target: &WasccEntity,
    now: u128,
    afterwards: u128,
    first: bool,
    second: bool,
)
    requires
        call_ensures(pre_invoke_measure_time, (metrics, origin, operation, target, now), first),
        call_ensures(
            pre_invoke_measure_time,
            (later, origin, operation, target, afterwards),
            second,
        ),
        *old(later) == *final(metrics),
    ensures
        second,
        final(later)@ == final(metrics)@,
        ({
            let key = operation_key(origin@, operation@, target@);
            let before = if target@ is Actor {
                old(metrics).actors.active_inv_time@
            } else {
                old(metrics).caps.active_inv_time@
            };
            let after = if target@ is Actor {
                final(metrics).actors.active_inv_time@
            } else {
                final(metrics).caps.active_inv_time@
            };
            &&& first <==> before.contains_key(key)
            &&& after.contains_key(key)
            &&& !first ==> after[key] == now
            &&& first ==> after[key] == before[key]
            &&& forall|k: Seq<char>|
                k != key ==> (#[trigger] after.contains_key(k) <==> before.contains_key(k))
        }),
{
    assert(final(metrics)@.actors == final(metrics).actors@);
    assert(final(metrics)@.caps == final(metrics).caps@);
    assert(old(metrics)@.actors == old(metrics).actors@);
    assert(old(metrics)@.caps == old(metrics).caps@);
    assert(final(later)@ =~= final(metrics)@);
}

/// An invocation of something else is not taken for one in progress.
pub proof fn starts_are_noted_apart(
    metrics: &mut Metrics,
    later: &mut Metrics,
    origin: &str,
    operation: &str,
    target: &WasccEntity,
    other_origin: &str,
    other_operation: &str,
    other: &WasccEntity,
    now: u128,
    first: bool,
    second: bool,
)
    requires
        call_ensures(pre_invoke_measure_time, (metrics, origin, operation, target, now), first),
        call_ensures(
            pre_invoke_measure_time,
            (later, other_origin, other_operation, other, now),
            second,
        ),
        *old(later) == *final(metrics),
        other@ is Actor == target@ is Actor,
        other_origin@ != origin@ || other_operation@ != operation@ || other@ != target@,
    ensures
        ({
            let key = operation_key(other_origin@, other_operation@, other@);
            let before = if target@ is Actor {
                old(metrics).actors.active_inv_time@
            } else {
                old(metrics).caps.active_inv_time@
            };
            second <==> before.contains_key(key)
        }),
{
    assert(final(metrics)@.actors == final(metrics).actors@);
    assert(final(metrics)@.caps == final(metrics).caps@);
    assert(old(metrics)@.actors == old(metrics).actors@);
    assert(old(metrics)@.caps == old(metrics).caps@);
    if operation_key(other_origin@, other_operation@, other@) == operation_key(
        origin@,
        operation@,
        target@,
    ) {
        operation_keys_tell_operations(
            other_origin@,
            other_operation@,
            other@,
            origin@,
            operation@,
            target@,
        );
    }
}

/// Metrics start with nothing counted, a response is let through as it is, and metrics are pushed
/// under the job's own name where it has one.
pub proof fn pairs_start_empty(
    metrics: Metrics,
    response: InvocationResponse,
    r: InvocationResponse,
    config: &PushgatewayConfig,
    job: String,
)
    requires
        call_ensures(init_metrics, (), metrics),
        call_ensures(post_invoke_measure_time, (response,), r),
        call_ensures(push_job, (config,), job),
    ensures
        metrics.actors.total_inv_count == 0 && metrics.caps.total_inv_count == 0,
        forall|k: Seq<char>| !(#[trigger] metrics.actors@.counts.contains_key(k)),
        forall|k: Seq<char>| !(#[trigger] metrics.caps@.counts.contains_key(k)),
        forall|k: Seq<char>| !(#[trigger] metrics.actors.active_inv_time@.contains_key(k)),
        r == response,
        config.job is Some ==> job@ == config.job->0@,
        config.job is None ==> job@ == "wascc_push"@,
{
    assert(metrics@.actors == metrics.actors@);
    assert(metrics@.caps == metrics.caps@);
    assert(metrics.actors@.total == metrics.actors.total_inv_count);
    assert(metrics.caps@.total == metrics.caps.total_inv_count);
}

/// A new counter is kept exactly where its name and its help text are accepted and the registry
/// has taken it, and has then counted once. No other counter is touched.
pub proof fn new_counters_are_kept(
    counters: &mut Table<String, Counter>,
    key: String,
    text: MetricText,
    registered: bool,
    accepted: bool,
    r: bool,
)
    requires
        call_ensures(register_new_counter, (counters, key, text, registered), r),
        accepted <==> text.help@.len() > 0 && text.name@.len() > 0 && !('0' <= text.name@[0]
            <= '9') && (forall|i: int|
            0 <= i < text.name@.len() ==> ('a' <= #[trigger] text.name@[i] <= 'z') || ('A'
                <= text.name@[i] <= 'Z') || ('0' <= text.name@[i] <= '9') || text.name@[i] == '_'
                || text.name@[i] == ':'),
    ensures
        r <==> accepted && registered,
        r ==> final(counters)@.contains_key(key@) && final(counters)@[key@].value == 1
            && final(counters)@[key@].name@ == text.name@ && final(counters)@[key@].help@
            == text.help@,
        forall|o: Seq<char>|
            (!r || o != key@) ==> (#[trigger] final(counters)@.contains_key(o)
                <==> old(counters)@.contains_key(o)),
{
    let after = final(counters)@;
    let before = old(counters)@;
    assert(metric_refusal(text.name@, text.help@) is None <==> accepted) by {
        if metric_name(text.name@) {
            assert(name_start(text.name@[0]));
        }
        if accepted {
            assert(name_start(text.name@[0]));
        }
    }
    assert forall|o: Seq<char>| #[trigger] after.contains_key(o) <==> counts(after).contains_key(
        o,
    ) by {}
    assert forall|o: Seq<char>| #[trigger] before.contains_key(o) <==> counts(before).contains_key(
        o,
    ) by {}
    if r {
        assert(counts(after).contains_key(key@));
        assert(counts(after)[key@] == after[key@]@);
    }
}

/// The metrics that are always there are named after what they say.
pub proof fn pair_totals_have_names(r: (MetricText, MetricText, MetricText, MetricText))
    requires
        call_ensures(total_metrics, (), r),
    ensures
        r.0.name@ == "cap_total_inv_count"@,
        r.1.name@ == "cap_total_average_inv_time"@,
        r.2.name@ == "actor_total_inv_count"@,
        r.3.name@ == "actor_total_average_inv_time"@,
        r.0.help@ == "total number of capability invocations"@,
        r.1.help@ == "average invocation time across all capabilities"@,
        r.2.help@ == "total number of actor invocations"@,
        r.3.help@ == "average invocation time across all actors"@,
{
}

} // verus!
