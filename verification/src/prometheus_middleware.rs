//! Counts invocations by who makes them and whom they address. In contrast to
//! [`crate::middleware::prometheus`], a counter is kept only once the registry has
//! taken it, and times are noted but not averaged.
use vstd::prelude::*;

use crate::entity::{EntityView, WasccEntity};
use crate::inthost::InvocationResponse;
use crate::middleware::prometheus::{
    check_counter, counts, get_metric_key, lemma_counts_insert, metric_key_of,
    metric_keys_tell_targets, metric_refusal, next_count, one_more, Counter, CounterView,
    MetricText,
};
use crate::table::Table;
use crate::text::{frame, framed, lemma_framed_tells};

verus! {

/// Configuration parameters.
pub struct PrometheusConfig {
    /// The address that Prometheus can scrape (pull model).
    pub metrics_server_addr: Option<String>,
    /// Configuration for the Prometheus client (push model).
    pub pushgateway_config: Option<PushgatewayConfig>,
}

/// Configuration parameters for pushing metrics to the Pushgateway.
pub struct PushgatewayConfig {
    pub pushgateway_addr: String,
    /// The time between two pushes, in milliseconds
    pub push_interval: u64,
    pub push_basic_auth: Option<BasicAuthentication>,
    pub job: Option<String>,
}

/// Basic authentication for authentication with a Pushgateway.
pub struct BasicAuthentication {
    pub username: String,
    pub password: String,
}

/// The metrics of one sort of target
pub struct PairMetrics {
    /// Total number of invocations
    pub total_inv_count: i64,
    /// Number of invocations per sender and receiver
    pub inv_count: Table<String, Counter>,
    /// When the invocations in progress have started, in nanoseconds by a steady clock
    pub active_inv_time: Table<String, u128>,
}

#[verifier::ext_equal]
pub ghost struct PairMetricsView {
    pub total: i64,
    pub counts: Map<Seq<char>, CounterView>,
    pub active: Map<Seq<char>, u128>,
}

impl View for PairMetrics {
    type V = PairMetricsView;

    open spec fn view(&self) -> PairMetricsView {
        PairMetricsView {
            total: self.total_inv_count,
            counts: counts(self.inv_count@),
            active: self.active_inv_time@,
        }
    }
}

/// Holds all the different metrics collected by the middleware.
pub struct Metrics {
    pub actors: PairMetrics,
    pub caps: PairMetrics,
}

#[verifier::ext_equal]
pub ghost struct MetricsView {
    pub actors: PairMetricsView,
    pub caps: PairMetricsView,
}

impl View for Metrics {
    type V = MetricsView;

    open spec fn view(&self) -> MetricsView {
        MetricsView { actors: self.actors@, caps: self.caps@ }
    }
}

/// Metrics without any measurement.
pub open spec fn fresh_pair() -> PairMetricsView {
    PairMetricsView { total: 0, counts: Map::empty(), active: Map::empty() }
}

fn new_pair() -> (r: PairMetrics)
    ensures
        r@ == fresh_pair(),
{
    let r = PairMetrics {
        total_inv_count: 0,
        inv_count: Table::new(),
        active_inv_time: Table::new(),
    };
    assert(r@ =~= fresh_pair());
    r
}

/// Metrics without any measurement.
pub fn init_metrics() -> (r: Metrics)
    ensures
        r@ == (MetricsView { actors: fresh_pair(), caps: fresh_pair() }),
{
    Metrics { actors: new_pair(), caps: new_pair() }
}

/// The four metrics that are always there: the total counts and the total averages
/// of capabilities and of actors.
pub fn total_metrics() -> (r: (MetricText, MetricText, MetricText, MetricText))
    ensures
        r.0.name@ == "cap_total_inv_count"@,
        r.0.help@ == "total number of capability invocations"@,
        r.1.name@ == "cap_total_average_inv_time"@,
        r.1.help@ == "average invocation time across all capabilities"@,
        r.2.name@ == "actor_total_inv_count"@,
        r.2.help@ == "total number of actor invocations"@,
        r.3.name@ == "actor_total_average_inv_time"@,
        r.3.help@ == "average invocation time across all actors"@,
{
    (
        MetricText {
            name: "cap_total_inv_count".to_string(),
            help: "total number of capability invocations".to_string(),
        },
        MetricText {
            name: "cap_total_average_inv_time".to_string(),
            help: "average invocation time across all capabilities".to_string(),
        },
        MetricText {
            name: "actor_total_inv_count".to_string(),
            help: "total number of actor invocations".to_string(),
        },
        MetricText {
            name: "actor_total_average_inv_time".to_string(),
            help: "average invocation time across all actors".to_string(),
        },
    )
}

/// The name of the counter of a target.
pub open spec fn pair_name(target: EntityView) -> Seq<char> {
    match target {
        EntityView::Actor(actor) => actor + "_inv_count"@,
        EntityView::Capability { capid, binding } => capid + "_"@ + binding + "_inv_count"@,
    }
}

/// The help text of the counter of a target.
pub open spec fn pair_help(target: EntityView) -> Seq<char> {
    match target {
        EntityView::Actor(actor) => "number of invocations of "@ + actor,
        EntityView::Capability { capid, binding } => "number of invocations of capability "@ + capid
            + " with binding "@ + binding,
    }
}

/// The key of a pair of a sender and a receiver.
pub open spec fn pair_key(origin: Seq<char>, target: EntityView) -> Seq<char> {
    framed(origin) + metric_key_of(target)
}

/// Two pairs with receivers of the same sort have the same key only where the pairs are
/// the same.
pub proof fn pair_keys_tell_pairs(
    origin: Seq<char>,
    target: EntityView,
    other_origin: Seq<char>,
    other: EntityView,
)
    requires
        target is Actor == other is Actor,
        pair_key(origin, target) == pair_key(other_origin, other),
    ensures
        origin == other_origin,
        target == other,
{
    lemma_framed_tells(origin, metric_key_of(target), other_origin, metric_key_of(other));
    metric_keys_tell_targets(target, other);
}

fn key_for(origin: &str, target: &WasccEntity) -> (r: String)
    ensures
        r@ == pair_key(origin@, target@),
{
    frame(origin).concat(get_metric_key(target).as_str())
}

fn text_for(target: &WasccEntity) -> (r: MetricText)
    ensures
        r.name@ == pair_name(target@),
        r.help@ == pair_help(target@),
{
    match target {
        WasccEntity::Actor(actor) => MetricText {
            name: actor.clone().concat("_inv_count"),
            help: "number of invocations of ".to_string().concat(actor.as_str()),
        },
        WasccEntity::Capability { capid, binding } => MetricText {
            name: capid.clone().concat("_").concat(binding.as_str()).concat("_inv_count"),
            help: "number of invocations of capability ".to_string().concat(capid.as_str()).concat(
                " with binding ",
            ).concat(binding.as_str()),
        },
    }
}

/// The metrics of the sort of target that an entity is of.
pub open spec fn pair_of(m: MetricsView, target: EntityView) -> PairMetricsView {
    match target {
        EntityView::Actor(_) => m.actors,
        EntityView::Capability { .. } => m.caps,
    }
}

/// The counter that an invocation needs and that is not there yet, unless its name
/// or help text is refused. It is to be registered before the invocation is counted.
pub fn pending_counter(metrics: &Metrics, origin: &str, target: &WasccEntity) -> (r: Option<
    MetricText,
>)
    ensures
        r is Some == (!pair_of(metrics@, target@).counts.contains_key(pair_key(origin@, target@))
            && metric_refusal(pair_name(target@), pair_help(target@)) is None),
        r is Some ==> r->0.name@ == pair_name(target@) && r->0.help@ == pair_help(target@),
{
    let key = key_for(origin, target);
    let known = match target {
        WasccEntity::Actor(_) => metrics.actors.inv_count.contains_key(&key),
        WasccEntity::Capability { .. } => metrics.caps.inv_count.contains_key(&key),
    };
    if known {
        return None;
    }
    let text = text_for(target);
    match check_counter(text.name.as_str(), text.help.as_str()) {
        Ok(_) => Some(text),
        Err(_) => None,
    }
}

/// The counters after one more invocation: the counter with the key counts it, and
/// where there is none, a new one does if the registry has taken it.
pub open spec fn pair_counted(
    m: Map<Seq<char>, CounterView>,
    key: Seq<char>,
    name: Seq<char>,
    help: Seq<char>,
    registered: bool,
) -> Map<Seq<char>, CounterView> {
    if m.contains_key(key) {
        m.insert(key, CounterView { value: next_count(m[key].value), ..m[key] })
    } else if metric_refusal(name, help) is None && registered {
        m.insert(key, CounterView { name, help, value: 1 })
    } else {
        m
    }
}

/// Keeps a new counter that has counted once, if its name and help text are
/// accepted and the registry has taken it. Tells whether it is kept.
pub fn register_new_counter(
    counters: &mut Table<String, Counter>,
    key: String,
    text: MetricText,
    registered: bool,
) -> (r: bool)
    ensures
        r == (metric_refusal(text.name@, text.help@) is None && registered),
        counts(final(counters)@) == (if r {
            counts(old(counters)@).insert(
                key@,
                (CounterView { name: text.name@, help: text.help@, value: 1 }),
            )
        } else {
            counts(old(counters)@)
        }),
{
    match check_counter(text.name.as_str(), text.help.as_str()) {
        Err(_) => false,
        Ok(_) => if registered {
            let c = Counter { name: text.name, help: text.help, value: 1 };
            proof {
                lemma_counts_insert(counters@, key@, c);
            }
            counters.insert(key, c);
            true
        } else {
            false
        },
    }
}

fn count(counters: &mut Table<String, Counter>, key: String, text: MetricText, registered: bool)
    ensures
        counts(final(counters)@) == pair_counted(
            counts(old(counters)@),
            key@,
            text.name@,
            text.help@,
            registered,
        ),
{
    let next = match counters.get(&key) {
        Some(c) => Some(
            Counter { name: c.name.clone(), help: c.help.clone(), value: one_more(c.value) },
        ),
        None => None,
    };
    match next {
        Some(c) => {
            proof {
                lemma_counts_insert(counters@, key@, c);
            }
            counters.insert(key, c);
        },
        None => {
            let _ = register_new_counter(counters, key, text, registered);
        },
    }
}

/// The metrics of one sort of target after one more invocation.
pub open spec fn sort_counted(
    m: PairMetricsView,
    origin: Seq<char>,
    target: EntityView,
    registered: bool,
) -> PairMetricsView {
    PairMetricsView {
        total: next_count(m.total),
        counts: pair_counted(
            m.counts,
            pair_key(origin, target),
            pair_name(target),
            pair_help(target),
            registered,
        ),
        ..m
    }
}

/// The metrics after one more invocation.
pub open spec fn invocation_counted(
    m: MetricsView,
    origin: Seq<char>,
    target: EntityView,
    registered: bool,
) -> MetricsView {
    match target {
        EntityView::Actor(_) => MetricsView {
            actors: sort_counted(m.actors, origin, target, registered),
            ..m
        },
        EntityView::Capability { .. } => MetricsView {
            caps: sort_counted(m.caps, origin, target, registered),
            ..m
        },
    }
}

/// Counts an invocation: in the total, and for its sender and receiver. Whether the
/// registry has taken the counter of [`pending_counter`], if one was due, decides
/// whether a new counter is kept.
pub fn pre_invoke(metrics: &mut Metrics, origin: &str, target: &WasccEntity, registered: bool)
    ensures
        final(metrics)@ == invocation_counted(old(metrics)@, origin@, target@, registered),
{
    // count invocations per sender<->receiver pair
    let key = key_for(origin, target);
    let text = text_for(target);
    match target {
        WasccEntity::Actor(_) => {
            metrics.actors.total_inv_count = one_more(metrics.actors.total_inv_count);
            count(&mut metrics.actors.inv_count, key, text, registered);
        },
        WasccEntity::Capability { .. } => {
            metrics.caps.total_inv_count = one_more(metrics.caps.total_inv_count);
            count(&mut metrics.caps.inv_count, key, text, registered);
        },
    }
}

/// The key of an operation that a sender invokes on a receiver.
pub open spec fn operation_key(
    origin: Seq<char>,
    operation: Seq<char>,
    target: EntityView,
) -> Seq<char> {
    framed(origin) + (framed(operation) + metric_key_of(target))
}

/// Two operations on receivers of the same sort have the same key only where the senders,
/// the operations and the receivers are the same.
pub proof fn operation_keys_tell_operations(
    origin: Seq<char>,
    operation: Seq<char>,
    target: EntityView,
    other_origin: Seq<char>,
    other_operation: Seq<char>,
    other: EntityView,
)
    requires
        target is Actor == other is Actor,
        operation_key(origin, operation, target) == operation_key(
            other_origin,
            other_operation,
            other,
        ),
    ensures
        origin == other_origin,
        operation == other_operation,
        target == other,
{
    lemma_framed_tells(
        origin,
        framed(operation) + metric_key_of(target),
        other_origin,
        framed(other_operation) + metric_key_of(other),
    );
    lemma_framed_tells(operation, metric_key_of(target), other_operation, metric_key_of(other));
    metric_keys_tell_targets(target, other);
}

/// Notes when an invocation has started, unless an invocation of the same operation
/// by the same sender on the same receiver is in progress. Tells whether one is.
pub fn pre_invoke_measure_time(
    metrics: &mut Metrics,
    origin: &str,
    operation: &str,
    target: &WasccEntity,
    now: u128,
) -> (r: bool)
    ensures
        ({
            let key = operation_key(origin@, operation@, target@);
            &&& r == pair_of(old(metrics)@, target@).active.contains_key(key)
            &&& pair_of(final(metrics)@, target@) == (if r {
                pair_of(old(metrics)@, target@)
            } else {
                PairMetricsView {
                    active: pair_of(old(metrics)@, target@).active.insert(key, now),
                    ..pair_of(old(metrics)@, target@)
                }
            })
            &&& target@ is Actor ==> final(metrics)@.caps == old(metrics)@.caps
            &&& target@ is Capability ==> final(metrics)@.actors == old(metrics)@.actors
        }),
{
    let key = frame(origin).concat(key_for(operation, target).as_str());
    match target {
        WasccEntity::Actor(_) => {
            if metrics.actors.active_inv_time.contains_key(&key) {
                true
            } else {
                metrics.actors.active_inv_time.insert(key, now);
                false
            }
        },
        WasccEntity::Capability { .. } => {
            if metrics.caps.active_inv_time.contains_key(&key) {
                true
            } else {
                metrics.caps.active_inv_time.insert(key, now);
                false
            }
        },
    }
}

/// Lets a response through as it is.
pub fn post_invoke_measure_time(response: InvocationResponse) -> (r: InvocationResponse)
    ensures
        r == response,
{
    response
}

/// The name of the job under which metrics are pushed.
pub fn push_job(config: &PushgatewayConfig) -> (r: String)
    ensures
        r@ == (match config.job {
            Some(j) => j@,
            None => "wascc_push"@,
        }),
{
    match &config.job {
        Some(j) => j.clone(),
        None => "wascc_push".to_string(),
    }
}

} // verus!
