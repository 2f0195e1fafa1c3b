//! # Prometheus Middleware
//!
//! Counts invocations and measures how long they take. [Prometheus][prometheus] is an
//! open-source systems monitoring and alerting toolkit. All metrics are prefixed with
//! 'wascc_'. The counts are kept here; the averages are numbers with a fraction, and
//! whoever runs the middleware keeps them by the instructions that it is given here.
//!
//! [prometheus]: https://prometheus.io/
use vstd::prelude::*;

use crate::entity::{EntityView, WasccEntity};
use crate::errors::{self, Error, ErrorKind, Failure};
use crate::inthost::{Invocation, InvocationResponse, InvocationView};
use crate::table::Table;
use crate::text::{frame, framed, lemma_framed_tells, same};

verus! {

/// The default number of invocations to include when calculating average invocation times
pub const DEFAULT_MOVING_AVERAGE_WINDOW_SIZE: i64 = 100;

pub const WASCC: &'static str = "wascc";

/// Configuration parameters.
pub struct PrometheusConfig {
    /// The address that Prometheus can scrape (pull model).
    pub metrics_server_addr: Option<String>,
    /// Configuration for the Prometheus client (push model).
    pub pushgateway_config: Option<PushgatewayConfig>,
    /// The number of invocations to include when calculating all average invocation times.
    /// The default is 100.
    pub moving_average_window_size: Option<i64>,
}

/// Configuration parameters for pushing metrics to the Pushgateway.
pub struct PushgatewayConfig {
    pub pushgateway_addr: String,
    /// The time between two pushes, in milliseconds
    pub push_interval: u64,
    pub push_basic_auth: Option<BasicAuthentication>,
    pub job: Option<String>,
}

/// Basic authentication for authentication with a Pushgateway.
pub struct BasicAuthentication {
    pub username: String,
    pub password: String,
}

/// A counter: what it is called, what it counts, and how often it has counted
pub struct Counter {
    pub name: String,
    pub help: String,
    pub value: i64,
}

#[verifier::ext_equal]
pub ghost struct CounterView {
    pub name: Seq<char>,
    pub help: Seq<char>,
    pub value: i64,
}

impl View for Counter {
    type V = CounterView;

    open spec fn view(&self) -> CounterView {
        CounterView { name: self.name@, help: self.help@, value: self.value }
    }
}

/// The views of the counters in a table.
pub open spec fn counts(m: Map<Seq<char>, Counter>) -> Map<Seq<char>, CounterView> {
    m.map_values(|c: Counter| c@)
}

/// Values needed during an invocation to compute average invocation times.
pub struct InvocationState {
    /// When the invocation started, in nanoseconds by a steady clock
    pub start_time: u128,
    pub operation: String,
    pub target: WasccEntity,
    /// Key to find metrics for a capability or an actor
    pub metric_key: String,
    /// Key to find metrics for an operation on a capability or an actor
    pub operation_metric_key: String,
}

pub ghost struct StateView {
    pub start_time: u128,
    pub operation: Seq<char>,
    pub target: EntityView,
    pub metric_key: Seq<char>,
    pub operation_metric_key: Seq<char>,
}

impl View for InvocationState {
    type V = StateView;

    open spec fn view(&self) -> StateView {
        StateView {
            start_time: self.start_time,
            operation: self.operation@,
            target: self.target@,
            metric_key: self.metric_key@,
            operation_metric_key: self.operation_metric_key@,
        }
    }
}

/// The metrics of one sort of target
pub struct TargetMetrics {
    /// Total number of invocations
    pub total_inv_count: i64,
    /// Number of invocations per target
    pub inv_count: Table<String, Counter>,
    /// Number of invocations per operation on each target
    pub operation_inv_count: Table<String, Counter>,
    /// The targets for which an average invocation time is kept
    pub average_inv_time: Table<String, ()>,
    /// The operations for which an average invocation time is kept
    pub operation_average_inv_time: Table<String, ()>,
}

#[verifier::ext_equal]
pub ghost struct TargetMetricsView {
    pub total: i64,
    pub counts: Map<Seq<char>, CounterView>,
    pub operation_counts: Map<Seq<char>, CounterView>,
    pub averages: Set<Seq<char>>,
    pub operation_averages: Set<Seq<char>>,
}

impl View for TargetMetrics {
    type V = TargetMetricsView;

    open spec fn view(&self) -> TargetMetricsView {
        TargetMetricsView {
            total: self.total_inv_count,
            counts: counts(self.inv_count@),
            operation_counts: counts(self.operation_inv_count@),
            averages: self.average_inv_time@.dom(),
            operation_averages: self.operation_average_inv_time@.dom(),
        }
    }
}

/// Holds all the different metrics collected by the middleware.
pub struct Metrics {
    pub actors: TargetMetrics,
    pub caps: TargetMetrics,
    /// State of active invocations
    pub active_inv_state: Table<String, InvocationState>,
    pub moving_average_window_size: i64,
}

#[verifier::ext_equal]
pub ghost struct MetricsView {
    pub actors: TargetMetricsView,
    pub caps: TargetMetricsView,
    pub active: Map<Seq<char>, StateView>,
    pub window: i64,
}

impl View for Metrics {
    type V = MetricsView;

    open spec fn view(&self) -> MetricsView {
        MetricsView {
            actors: self.actors@,
            caps: self.caps@,
            active: self.active_inv_state@.map_values(|s: InvocationState| s@),
            window: self.moving_average_window_size,
        }
    }
}

/// Metrics without any measurement.
pub open spec fn fresh_target() -> TargetMetricsView {
    TargetMetricsView {
        total: 0,
        counts: Map::empty(),
        operation_counts: Map::empty(),
        averages: Set::empty(),
        operation_averages: Set::empty(),
    }
}

impl TargetMetrics {
    pub fn new() -> (r: TargetMetrics)
        ensures
            r@ == fresh_target(),
    {
        let r = TargetMetrics {
            total_inv_count: 0,
            inv_count: Table::new(),
            operation_inv_count: Table::new(),
            average_inv_time: Table::new(),
            operation_average_inv_time: Table::new(),
        };
        assert(r@ =~= fresh_target());
        r
    }
}

/// A character that a metric's name can begin with.
pub open spec fn name_start(c: char) -> bool {
    ('a' <= c && c <= 'z') || ('A' <= c && c <= 'Z') || c == '_' || c == ':'
}

/// A name that a metric can have: a letter, an underscore or a colon, then more of
/// these or digits.
pub open spec fn metric_name(s: Seq<char>) -> bool {
    &&& s.len() > 0
    &&& name_start(s[0])
    &&& forall|i: int| 0 <= i < s.len() ==> name_start(#[trigger] s[i]) || ('0' <= s[i] && s[i] <= '9')
}

/// Why a metric is refused, if it is.
pub open spec fn metric_refusal(name: Seq<char>, help: Seq<char>) -> Option<Seq<char>> {
    if help.len() == 0 {
        Some("empty help string"@)
    } else if !metric_name(name) {
        Some("'"@ + name + "' is not a valid metric name"@)
    } else {
        None
    }
}

/// What the metrics registry or one of its metrics can complain of
#[derive(Debug)]
pub enum MetricFault {
    AlreadyRegistered,
    Message(String),
    Io(String),
    Unknown,
}

/// The error that a complaint leads to.
pub open spec fn fault_failure(f: MetricFault) -> Failure {
    match f {
        MetricFault::AlreadyRegistered => Failure::Middleware("Metric already registered"@),
        MetricFault::Message(m) => Failure::Middleware(m@),
        MetricFault::Io(m) => Failure::Middleware(m@),
        MetricFault::Unknown => Failure::Middleware("Unknown Prometheus error"@),
    }
}

impl MetricFault {
    /// The error that the complaint leads to.
    pub fn into_error(self) -> (e: Error)
        ensures
            e@ == fault_failure(self),
    {
        match self {
            MetricFault::AlreadyRegistered => errors::new(
                ErrorKind::Middleware("Metric already registered".to_string()),
            ),
            MetricFault::Message(m) => errors::new(ErrorKind::Middleware(m)),
            MetricFault::Io(m) => errors::new(ErrorKind::Middleware(m)),
            MetricFault::Unknown => errors::new(
                ErrorKind::Middleware("Unknown Prometheus error".to_string()),
            ),
        }
    }
}

/// `prometheus::IntCounter::new`: makes a counter, here only to learn whether its
/// name and its help text are accepted. An empty help text is refused, and so is a
/// name that is not made of letters, digits, underscores and colons or that begins
/// with a digit.
#[verifier::external_body]
pub(crate) fn check_counter(name: &str, help: &str) -> (r: Result<(), MetricFault>)
    ensures
        r is Ok == metric_refusal(name@, help@) is None,
        r is Err ==> r->Err_0 is Message,
        r is Err ==> Some(r->Err_0->Message_0@) == metric_refusal(name@, help@),
{
    match prometheus::IntCounter::new(name, help) {
        Ok(_) => Ok(()),
        Err(prometheus::Error::Msg(m)) => Err(MetricFault::Message(m)),
        Err(_) => Err(MetricFault::Unknown),
    }
}

/// `prometheus::Gauge::new`: makes a gauge, here only to learn whether its name and
/// its help text are accepted, by the same rules as those of a counter.
#[verifier::external_body]
fn check_gauge(name: &str, help: &str) -> (r: Result<(), MetricFault>)
    ensures
        r is Ok == metric_refusal(name@, help@) is None,
        r is Err ==> r->Err_0 is Message,
        r is Err ==> Some(r->Err_0->Message_0@) == metric_refusal(name@, help@),
{
    match prometheus::Gauge::new(name, help) {
        Ok(_) => Ok(()),
        Err(prometheus::Error::Msg(m)) => Err(MetricFault::Message(m)),
        Err(_) => Err(MetricFault::Unknown),
    }
}

/// The name and the help text of a metric
#[derive(Debug)]
pub struct MetricText {
    pub name: String,
    pub help: String,
}

/// The four metrics that are always there: the total counts and the total averages
/// of capabilities and of actors.
pub fn total_metrics() -> (r: (MetricText, MetricText, MetricText, MetricText))
    ensures
        r.0.name@ == "wascc_cap_total_inv_count"@,
        r.0.help@ == "Total number of capability invocations"@,
        r.1.name@ == "wascc_cap_total_average_inv_time"@,
        r.1.help@ == "Average invocation time (ms) across all capabilities"@,
        r.2.name@ == "wascc_actor_total_inv_count"@,
        r.2.help@ == "Total number of actor invocations"@,
        r.3.name@ == "wascc_actor_total_average_inv_time"@,
        r.3.help@ == "Average invocation time (ms) across all actors"@,
{
    (
        MetricText {
            name: "wascc_cap_total_inv_count".to_string(),
            help: "Total number of capability invocations".to_string(),
        },
        MetricText {
            name: "wascc_cap_total_average_inv_time".to_string(),
            help: "Average invocation time (ms) across all capabilities".to_string(),
        },
        MetricText {
            name: "wascc_actor_total_inv_count".to_string(),
            help: "Total number of actor invocations".to_string(),
        },
        MetricText {
            name: "wascc_actor_total_average_inv_time".to_string(),
            help: "Average invocation time (ms) across all actors".to_string(),
        },
    )
}

/// Metrics without any measurement.
pub fn init_metrics(config: &PrometheusConfig) -> (r: Metrics)
    ensures
        r@.actors == fresh_target(),
        r@.caps == fresh_target(),
        r@.active == Map::<Seq<char>, StateView>::empty(),
        r@.window == (match config.moving_average_window_size {
            Some(w) => w,
            None => DEFAULT_MOVING_AVERAGE_WINDOW_SIZE,
        }),
{
    let window: i64 = match config.moving_average_window_size {
        Some(w) => w,
        None => DEFAULT_MOVING_AVERAGE_WINDOW_SIZE,
    };
    let r = Metrics {
        actors: TargetMetrics::new(),
        caps: TargetMetrics::new(),
        active_inv_state: Table::new(),
        moving_average_window_size: window,
    };
    assert(r@.active =~= Map::<Seq<char>, StateView>::empty());
    r
}

/// Key to find metrics for a capability or an actor.
pub open spec fn metric_key_of(target: EntityView) -> Seq<char> {
    match target {
        EntityView::Actor(actor) => actor,
        EntityView::Capability { capid, binding } => framed(capid) + binding,
    }
}

/// Key to find metrics for an operation on a capability or an actor.
pub open spec fn operation_metric_key_of(target: EntityView, operation: Seq<char>) -> Seq<char> {
    framed(metric_key_of(target)) + operation
}

/// Two targets of the same sort have the same key only where they are the same.
pub proof fn metric_keys_tell_targets(target: EntityView, other: EntityView)
    requires
        target is Actor == other is Actor,
        metric_key_of(target) == metric_key_of(other),
    ensures
        target == other,
{
    match (target, other) {
        (
            EntityView::Capability { capid: c1, binding: b1 },
            EntityView::Capability { capid: c2, binding: b2 },
        ) => {
            lemma_framed_tells(c1, b1, c2, b2);
        },
        _ => {},
    }
}

/// Two operations on targets of the same sort have the same key only where both the
/// targets and the operations are the same.
pub proof fn operation_metric_keys_tell_operations(
    target: EntityView,
    operation: Seq<char>,
    other: EntityView,
    other_operation: Seq<char>,
)
    requires
        target is Actor == other is Actor,
        operation_metric_key_of(target, operation) == operation_metric_key_of(
            other,
            other_operation,
        ),
    ensures
        target == other,
        operation == other_operation,
{
    lemma_framed_tells(metric_key_of(target), operation, metric_key_of(other), other_operation);
    metric_keys_tell_targets(target, other);
}

/// The part of a metric's name that tells the target.
pub open spec fn target_name(target: EntityView) -> Seq<char> {
    match target {
        EntityView::Actor(actor) => actor,
        EntityView::Capability { capid, binding } => capid + "_"@ + binding,
    }
}

pub fn get_metric_key(target: &WasccEntity) -> (r: String)
    ensures
        r@ == metric_key_of(target@),
{
    match target {
        WasccEntity::Actor(actor) => actor.clone(),
        WasccEntity::Capability { capid, binding } => frame(capid.as_str()).concat(
            binding.as_str(),
        ),
    }
}

pub fn get_operation_metric_key(target: &WasccEntity, operation: &str) -> (r: String)
    ensures
        r@ == operation_metric_key_of(target@, operation@),
{
    frame(get_metric_key(target).as_str()).concat(operation)
}

/// The name of the counter of a target.
pub open spec fn count_name(target: EntityView) -> Seq<char> {
    "wascc_"@ + target_name(target) + "_inv_count"@
}

/// The help text of the counter of a target.
pub open spec fn count_help(target: EntityView) -> Seq<char> {
    match target {
        EntityView::Actor(actor) => "Number of invocations of actor '"@ + actor + "'"@,
        EntityView::Capability { capid, binding } => "Number of invocations of capability '"@
            + capid + "' with binding '"@ + binding + "'"@,
    }
}

/// The name of the counter of an operation on a target.
pub open spec fn operation_count_name(target: EntityView, operation: Seq<char>) -> Seq<char> {
    "wascc_"@ + target_name(target) + "_"@ + operation + "_inv_count"@
}

/// The help text of the counter of an operation on a target.
pub open spec fn operation_count_help(target: EntityView, operation: Seq<char>) -> Seq<char> {
    match target {
        EntityView::Actor(actor) => "Number of invocations of operation '"@ + operation
            + "' on actor '"@ + actor + "'"@,
        EntityView::Capability { capid, binding } => "Number of invocations of operation '"@ + capid
            + "' on capability '"@ + binding + "' with binding '"@ + operation + "'"@,
    }
}

/// A count that is one higher; the highest count is followed by the lowest number.
pub open spec fn next_count(n: i64) -> i64 {
    if n == i64::MAX {
        i64::MIN
    } else {
        (n + 1) as i64
    }
}

pub(crate) fn one_more(n: i64) -> (r: i64)
    ensures
        r == next_count(n),
{
    if n == i64::MAX {
        i64::MIN
    } else {
        n + 1
    }
}

/// The counters after one more invocation: the counter with the key counts it, and
/// where there is none, a new one does, unless its name or help text is refused.
pub open spec fn counted(
    m: Map<Seq<char>, CounterView>,
    key: Seq<char>,
    name: Seq<char>,
    help: Seq<char>,
) -> Map<Seq<char>, CounterView> {
    if m.contains_key(key) {
        m.insert(key, CounterView { value: next_count(m[key].value), ..m[key] })
    } else if metric_refusal(name, help) is None {
        m.insert(key, CounterView { name, help, value: 1 })
    } else {
        m
    }
}

pub proof fn lemma_counts_insert(m: Map<Seq<char>, Counter>, k: Seq<char>, c: Counter)
    ensures
        counts(m.insert(k, c)) == counts(m).insert(k, c@),
{
    assert(counts(m.insert(k, c)) =~= counts(m).insert(k, c@));
}

/// Makes a new counter that has counted once, unless its name or help text is
/// refused.
pub fn register_counter(
    counters: &mut Table<String, Counter>,
    counter_lookup_key: String,
    name: String,
    help: String,
)
    ensures
        counts(final(counters)@) == (if metric_refusal(name@, help@) is None {
            counts(old(counters)@).insert(
                counter_lookup_key@,
                (CounterView { name: name@, help: help@, value: 1 }),
            )
        } else {
            counts(old(counters)@)
        }),
{
    match check_counter(name.as_str(), help.as_str()) {
        Ok(_) => {
            let counter = Counter { name, help, value: 1 };
            proof {
                lemma_counts_insert(counters@, counter_lookup_key@, counter);
            }
            counters.insert(counter_lookup_key, counter);
        },
        Err(_) => {},
    }
}

fn count(counters: &mut Table<String, Counter>, key: String, name: String, help: String)
    ensures
        counts(final(counters)@) == counted(counts(old(counters)@), key@, name@, help@),
{
    let next = match counters.get(&key) {
        Some(c) => Some(
            Counter { name: c.name.clone(), help: c.help.clone(), value: one_more(c.value) },
        ),
        None => None,
    };
    match next {
        Some(c) => {
            proof {
                lemma_counts_insert(counters@, key@, c);
            }
            counters.insert(key, c);
        },
        None => {
            register_counter(counters, key, name, help);
        },
    }
}

/// The metrics of one sort of target after one more invocation.
pub open spec fn target_counted(
    m: TargetMetricsView,
    target: EntityView,
    operation: Seq<char>,
) -> TargetMetricsView {
    TargetMetricsView {
        total: next_count(m.total),
        counts: counted(
            m.counts,
            metric_key_of(target),
            count_name(target),
            count_help(target),
        ),
        operation_counts: counted(
            m.operation_counts,
            operation_metric_key_of(target, operation),
            operation_count_name(target, operation),
            operation_count_help(target, operation),
        ),
        ..m
    }
}

/// The metrics after one more invocation.
pub open spec fn invocation_counted(
    m: MetricsView,
    target: EntityView,
    operation: Seq<char>,
) -> MetricsView {
    match target {
        EntityView::Actor(_) => MetricsView {
            actors: target_counted(m.actors, target, operation),
            ..m
        },
        EntityView::Capability { .. } => MetricsView {
            caps: target_counted(m.caps, target, operation),
            ..m
        },
    }
}

/// Counts an invocation: in the total, for its target, and for its operation on
/// the target.
pub fn pre_invoke_count_inv(metrics: &mut Metrics, target: &WasccEntity, operation: &str)
    ensures
        final(metrics)@ == invocation_counted(old(metrics)@, target@, operation@),
{
    let key = get_metric_key(target);
    let operation_key = get_operation_metric_key(target, operation);
    match target {
        WasccEntity::Actor(actor) => {
            metrics.actors.total_inv_count = one_more(metrics.actors.total_inv_count);
            let name = "wascc_".to_string().concat(actor.as_str()).concat("_inv_count");
            let help = "Number of invocations of actor '".to_string().concat(actor.as_str()).concat(
                "'",
            );
            count(&mut metrics.actors.inv_count, key, name, help);
            let name = "wascc_".to_string().concat(actor.as_str()).concat("_").concat(
                operation,
            ).concat("_inv_count");
            let help = "Number of invocations of operation '".to_string().concat(operation).concat(
                "' on actor '",
            ).concat(actor.as_str()).concat("'");
            count(&mut metrics.actors.operation_inv_count, operation_key, name, help);
        },
        WasccEntity::Capability { capid, binding } => {
            metrics.caps.total_inv_count = one_more(metrics.caps.total_inv_count);
            let both = capid.clone().concat("_").concat(binding.as_str());
            let name = "wascc_".to_string().concat(both.as_str()).concat("_inv_count");
            let help = "Number of invocations of capability '".to_string().concat(
                capid.as_str(),
            ).concat("' with binding '").concat(binding.as_str()).concat("'");
            count(&mut metrics.caps.inv_count, key, name, help);
            let name = "wascc_".to_string().concat(both.as_str()).concat("_").concat(
                operation,
            ).concat("_inv_count");
            let help = "Number of invocations of operation '".to_string().concat(
                capid.as_str(),
            ).concat("' on capability '").concat(binding.as_str()).concat(
                "' with binding '",
            ).concat(operation).concat("'");
            count(&mut metrics.caps.operation_inv_count, operation_key, name, help);
        },
    }
}

/// The state that is kept of an invocation while it runs.
pub open spec fn state_of(inv: InvocationView, now: u128) -> StateView {
    StateView {
        start_time: now,
        operation: inv.operation,
        target: inv.target,
        metric_key: metric_key_of(inv.target),
        operation_metric_key: operation_metric_key_of(inv.target, inv.operation),
    }
}

/// Notes when an invocation has started. Tells whether one with the same
/// identifier was already in progress.
pub fn pre_invoke_measure_inv_time(metrics: &mut Metrics, inv: &Invocation, now: u128) -> (r: bool)
    ensures
        final(metrics)@ == (MetricsView {
            active: old(metrics)@.active.insert(inv@.id, state_of(inv@, now)),
            ..old(metrics)@
        }),
        r == old(metrics)@.active.contains_key(inv@.id),
{
    let state = InvocationState {
        start_time: now,
        operation: inv.operation.clone(),
        target: inv.target.clone(),
        metric_key: get_metric_key(&inv.target),
        operation_metric_key: get_operation_metric_key(&inv.target, inv.operation.as_str()),
    };
    let running = metrics.active_inv_state.contains_key(&inv.id);
    metrics.active_inv_state.insert(inv.id.clone(), state);
    proof {
        assert(metrics@.active =~= old(metrics)@.active.insert(inv@.id, state_of(inv@, now)));
    }
    running
}

/// What to do with one average
#[derive(Debug)]
pub enum GaugeStep {
    /// Let the average with this key take in one more time. The number says over
    /// how many invocations, the present one among them.
    Average { key: String, count: i64 },
    /// Make a new average with this key, which starts with the time.
    Create { key: String, name: String, help: String },
    /// The name or the help text of the average is refused.
    Refused,
}

#[verifier::ext_equal]
pub ghost enum GaugeStepView {
    Average { key: Seq<char>, count: i64 },
    Create { key: Seq<char>, name: Seq<char>, help: Seq<char> },
    Refused,
}

impl View for GaugeStep {
    type V = GaugeStepView;

    open spec fn view(&self) -> GaugeStepView {
        match self {
            GaugeStep::Average { key, count } => GaugeStepView::Average {
                key: key@,
                count: *count,
            },
            GaugeStep::Create { key, name, help } => GaugeStepView::Create {
                key: key@,
                name: name@,
                help: help@,
            },
            GaugeStep::Refused => GaugeStepView::Refused,
        }
    }
}

/// What to do with the averages after an invocation
pub struct TimeUpdate {
    /// What was invoked
    pub target: WasccEntity,
    /// How long the invocation took, in milliseconds
    pub inv_time: u128,
    /// Over how many invocations the total average goes, the present one among them
    pub total_count: i64,
    pub target_step: GaugeStep,
    pub operation_step: GaugeStep,
}

pub ghost struct TimeUpdateView {
    pub target: EntityView,
    pub inv_time: u128,
    pub total_count: i64,
    pub target_step: GaugeStepView,
    pub operation_step: GaugeStepView,
}

impl View for TimeUpdate {
    type V = TimeUpdateView;

    open spec fn view(&self) -> TimeUpdateView {
        TimeUpdateView {
            target: self.target@,
            inv_time: self.inv_time,
            total_count: self.total_count,
            target_step: self.target_step@,
            operation_step: self.operation_step@,
        }
    }
}

/// Over how many invocations an average goes: all, but no more than the window has
/// place for.
pub open spec fn averaged_over(window: i64, inv_count: i64) -> i64 {
    if inv_count <= window {
        inv_count
    } else {
        window
    }
}

fn average_over(window: i64, inv_count: i64) -> (r: i64)
    ensures
        r == averaged_over(window, inv_count),
{
    if inv_count <= window {
        inv_count
    } else {
        window
    }
}

/// What is done with the average that has the given key.
pub open spec fn gauge_step(
    averages: Set<Seq<char>>,
    counts: Map<Seq<char>, CounterView>,
    window: i64,
    key: Seq<char>,
    name: Seq<char>,
    help: Seq<char>,
) -> GaugeStepView {
    if averages.contains(key) {
        GaugeStepView::Average {
            key,
            count: averaged_over(
                window,
                if counts.contains_key(key) {
                    counts[key].value
                } else {
                    1
                },
            ),
        }
    } else if metric_refusal(name, help) is None {
        GaugeStepView::Create { key, name, help }
    } else {
        GaugeStepView::Refused
    }
}

/// The averages after that.
pub open spec fn averages_after(
    averages: Set<Seq<char>>,
    key: Seq<char>,
    name: Seq<char>,
    help: Seq<char>,
) -> Set<Seq<char>> {
    if metric_refusal(name, help) is None {
        averages.insert(key)
    } else {
        averages
    }
}

/// The count that an existing average goes over.
pub fn set_gauge_avg(
    inv_count: &Table<String, Counter>,
    moving_average_window_size: i64,
    metric_key: &String,
) -> (r: i64)
    ensures
        r == averaged_over(
            moving_average_window_size,
            if counts(inv_count@).contains_key(metric_key@) {
                counts(inv_count@)[metric_key@].value
            } else {
                1
            },
        ),
{
    let n: i64 = match inv_count.get(metric_key) {
        Some(c) => c.value,
        None => 1,
    };
    average_over(moving_average_window_size, n)
}

/// Makes a new average, unless its name or help text is refused.
pub fn register_gauge(
    avg_inv_time: &mut Table<String, ()>,
    gauge_lookup_key: &String,
    name: String,
    help: String,
) -> (r: GaugeStep)
    ensures
        final(avg_inv_time)@.dom() == averages_after(
            old(avg_inv_time)@.dom(),
            gauge_lookup_key@,
            name@,
            help@,
        ),
        r@ == (if metric_refusal(name@, help@) is None {
            (GaugeStepView::Create { key: gauge_lookup_key@, name: name@, help: help@ })
        } else {
            GaugeStepView::Refused
        }),
{
    match check_gauge(name.as_str(), help.as_str()) {
        Ok(_) => {
            avg_inv_time.insert(gauge_lookup_key.clone(), ());
            assert(avg_inv_time@.dom() =~= old(avg_inv_time)@.dom().insert(gauge_lookup_key@));
            GaugeStep::Create { key: gauge_lookup_key.clone(), name, help }
        },
        Err(_) => GaugeStep::Refused,
    }
}

fn measure(
    averages: &mut Table<String, ()>,
    inv_count: &Table<String, Counter>,
    window: i64,
    key: &String,
    name: String,
    help: String,
) -> (r: GaugeStep)
    ensures
        r@ == gauge_step(
            old(averages)@.dom(),
            counts(inv_count@),
            window,
            key@,
            name@,
            help@,
        ),
        final(averages)@.dom() == (if old(averages)@.dom().contains(key@) {
            old(averages)@.dom()
        } else {
            averages_after(old(averages)@.dom(), key@, name@, help@)
        }),
{
    if averages.contains_key(key) {
        GaugeStep::Average { key: key.clone(), count: set_gauge_avg(inv_count, window, key) }
    } else {
        register_gauge(averages, key, name, help)
    }
}

/// The name of the average of a target.
pub open spec fn time_name(target: EntityView) -> Seq<char> {
    "wascc_"@ + target_name(target) + "_average_inv_time"@
}

/// The help text of the average of a target.
pub open spec fn time_help(target: EntityView) -> Seq<char> {
    match target {
        EntityView::Actor(actor) => "Average time (ms) to invoke actor '"@ + actor + "'"@,
        EntityView::Capability { capid, binding } => "Average time (ms) to invoke capability '"@
            + capid + "' with binding '"@ + binding + "'"@,
    }
}

/// The name of the average of an operation on a target.
pub open spec fn operation_time_name(target: EntityView, operation: Seq<char>) -> Seq<char> {
    "wascc_"@ + target_name(target) + "_"@ + operation + "_average_inv_time"@
}

/// The help text of the average of an operation on a target.
pub open spec fn operation_time_help(target: EntityView, operation: Seq<char>) -> Seq<char> {
    match target {
        EntityView::Actor(actor) => "Average time (ms) to invoke operation '"@ + operation
            + "' on actor '"@ + actor + "'"@,
        EntityView::Capability { capid, binding } => "Average time (ms) to invoke operation '"@
            + operation + "' on capability '"@ + capid + "' with binding '"@ + binding + "'"@,
    }
}

/// The metrics of the sort of target that an entity is of.
pub open spec fn sort_of(m: MetricsView, target: EntityView) -> TargetMetricsView {
    match target {
        EntityView::Actor(_) => m.actors,
        EntityView::Capability { .. } => m.caps,
    }
}

/// What to do with the averages after an invocation with the given state.
pub open spec fn time_update(m: MetricsView, s: StateView, inv_time: u128) -> TimeUpdateView {
    let t = sort_of(m, s.target);
    TimeUpdateView {
        target: s.target,
        inv_time,
        total_count: averaged_over(m.window, t.total),
        target_step: gauge_step(
            t.averages,
            t.counts,
            m.window,
            s.metric_key,
            time_name(s.target),
            time_help(s.target),
        ),
        operation_step: gauge_step(
            t.operation_averages,
            t.operation_counts,
            m.window,
            s.operation_metric_key,
            operation_time_name(s.target, s.operation),
            operation_time_help(s.target, s.operation),
        ),
    }
}

/// The metrics of one sort of target after that.
pub open spec fn target_measured(t: TargetMetricsView, s: StateView) -> TargetMetricsView {
    TargetMetricsView {
        averages: if t.averages.contains(s.metric_key) {
            t.averages
        } else {
            averages_after(t.averages, s.metric_key, time_name(s.target), time_help(s.target))
        },
        operation_averages: if t.operation_averages.contains(s.operation_metric_key) {
            t.operation_averages
        } else {
            averages_after(
                t.operation_averages,
                s.operation_metric_key,
                operation_time_name(s.target, s.operation),
                operation_time_help(s.target, s.operation),
            )
        },
        ..t
    }
}

/// The metrics after an invocation has ended: it is no longer in progress, and
/// where its time is known, there is an average for its target and its operation.
pub open spec fn measured(m: MetricsView, id: Seq<char>, now: u128) -> MetricsView {
    let rest = MetricsView { active: m.active.remove(id), ..m };
    if !m.active.contains_key(id) || now < m.active[id].start_time {
        rest
    } else {
        let s = m.active[id];
        match s.target {
            EntityView::Actor(_) => MetricsView { actors: target_measured(m.actors, s), ..rest },
            EntityView::Capability { .. } => MetricsView { caps: target_measured(m.caps, s), ..rest },
        }
    }
}

/// Over how many invocations the total average goes, the present one among them.
pub fn set_new_total_avg(metrics: &Metrics, target: &WasccEntity) -> (r: i64)
    ensures
        r == averaged_over(metrics@.window, sort_of(metrics@, target@).total),
{
    match target {
        WasccEntity::Actor(_) => average_over(
            metrics.moving_average_window_size,
            metrics.actors.total_inv_count,
        ),
        WasccEntity::Capability { .. } => average_over(
            metrics.moving_average_window_size,
            metrics.caps.total_inv_count,
        ),
    }
}

/// Measures an invocation that has ended. The result says what to do with the
/// averages; there is none where no invocation with that identifier was in
/// progress, or where the clock has gone backwards.
pub fn post_invoke_measure_inv_time(
    metrics: &mut Metrics,
    response: &InvocationResponse,
    now: u128,
) -> (r: Option<TimeUpdate>)
    ensures
        final(metrics)@ == measured(old(metrics)@, response@.invocation_id, now),
        ({
            let id = response@.invocation_id;
            let active = old(metrics)@.active;
            &&& r is Some == (active.contains_key(id) && now >= active[id].start_time)
            &&& r is Some ==> r->0@ == time_update(
                old(metrics)@,
                active[id],
                ((now - active[id].start_time) / 1_000_000) as u128,
            )
        }),
{
    let removed = metrics.active_inv_state.remove(&response.invocation_id);
    assert(metrics@.active =~= old(metrics)@.active.remove(response@.invocation_id));
    let state = match removed {
        Some(state) => state,
        None => {
            assert(metrics@ =~= measured(old(metrics)@, response@.invocation_id, now));
            return None;
        },
    };
    if now < state.start_time {
        assert(metrics@ =~= measured(old(metrics)@, response@.invocation_id, now));
        return None;
    }
    let inv_time: u128 = (now - state.start_time) / 1_000_000;
    let total_count = set_new_total_avg(metrics, &state.target);
    let window = metrics.moving_average_window_size;
    // was an actor or a capability invoked?
    let (target_step, operation_step) = match &state.target {
        WasccEntity::Actor(actor) => {
            let name = "wascc_".to_string().concat(actor.as_str()).concat("_average_inv_time");
            let help = "Average time (ms) to invoke actor '".to_string().concat(
                actor.as_str(),
            ).concat("'");
            let a = measure(
                &mut metrics.actors.average_inv_time,
                &metrics.actors.inv_count,
                window,
                &state.metric_key,
                name,
                help,
            );
            let name = "wascc_".to_string().concat(actor.as_str()).concat("_").concat(
                state.operation.as_str(),
            ).concat("_average_inv_time");
            let help = "Average time (ms) to invoke operation '".to_string().concat(
                state.operation.as_str(),
            ).concat("' on actor '").concat(actor.as_str()).concat("'");
            let b = measure(
                &mut metrics.actors.operation_average_inv_time,
                &metrics.actors.operation_inv_count,
                window,
                &state.operation_metric_key,
                name,
                help,
            );
            (a, b)
        },
        WasccEntity::Capability { capid, binding } => {
            let both = capid.clone().concat("_").concat(binding.as_str());
            let name = "wascc_".to_string().concat(both.as_str()).concat("_average_inv_time");
            let help = "Average time (ms) to invoke capability '".to_string().concat(
                capid.as_str(),
            ).concat("' with binding '").concat(binding.as_str()).concat("'");
            let a = measure(
                &mut metrics.caps.average_inv_time,
                &metrics.caps.inv_count,
                window,
                &state.metric_key,
                name,
                help,
            );
            let name = "wascc_".to_string().concat(both.as_str()).concat("_").concat(
                state.operation.as_str(),
            ).concat("_average_inv_time");
            let help = "Average time (ms) to invoke operation '".to_string().concat(
                state.operation.as_str(),
            ).concat("' on capability '").concat(capid.as_str()).concat(
                "' with binding '",
            ).concat(binding.as_str()).concat("'");
            let b = measure(
                &mut metrics.caps.operation_average_inv_time,
                &metrics.caps.operation_inv_count,
                window,
                &state.operation_metric_key,
                name,
                help,
            );
            (a, b)
        },
    };
    Some(TimeUpdate { target: state.target, inv_time, total_count, target_step, operation_step })
}

/// What the metrics server answers to a request: the status code.
pub fn serve_request(method: &str, path: &str) -> (r: u16)
    ensures
        r == (if method@ == "GET"@ && path@ == "/metrics"@ {
            200u16
        } else {
            404u16
        }),
{
    if same(method, "GET") && same(path, "/metrics") {
        200
    } else {
        404
    }
}

/// The name of the job under which metrics are pushed.
pub fn push_job(config: &PushgatewayConfig) -> (r: String)
    ensures
        r@ == (match config.job {
            Some(j) => j@,
            None => WASCC@,
        }),
{
    match &config.job {
        Some(j) => j.clone(),
        None => WASCC.to_string(),
    }
}

/// Measuring leaves nothing behind of an invocation that has ended, and nothing of
/// the others is touched.
pub proof fn ended_invocations_are_forgotten(m: MetricsView, id: Seq<char>, other: Seq<char>, now: u128)
    ensures
        !measured(m, id, now).active.contains_key(id),
        other != id ==> (measured(m, id, now).active.contains_key(other) <==> m.active.contains_key(
            other,
        )),
        other != id && m.active.contains_key(other) ==> measured(m, id, now).active[other]
            == m.active[other],
{
}

/// Every invocation counts once: the total goes up by one, and so does the counter of its
/// target where there is one; where there is none, there is one afterwards, unless the
/// name or the help text of the counter is refused.
pub proof fn every_invocation_counts_once(
    m: MetricsView,
    target: EntityView,
    operation: Seq<char>,
)
    requires
        metric_refusal(count_name(target), count_help(target)) is None,
    ensures
        sort_of(invocation_counted(m, target, operation), target).counts.contains_key(
            metric_key_of(target),
        ),
        sort_of(m, target).counts.contains_key(metric_key_of(target)) ==> sort_of(
            invocation_counted(m, target, operation),
            target,
        ).counts[metric_key_of(target)].value == next_count(
            sort_of(m, target).counts[metric_key_of(target)].value,
        ),
        sort_of(invocation_counted(m, target, operation), target).total == next_count(
            sort_of(m, target).total,
        ),
{
}

/// An invocation of one target leaves the counters of every other target as they are, and
/// those of every other operation.
pub proof fn targets_are_counted_apart(
    m: MetricsView,
    target: EntityView,
    operation: Seq<char>,
    other: EntityView,
    other_operation: Seq<char>,
)
    ensures
        other != target ==> sort_of(invocation_counted(m, target, operation), other).counts.contains_key(
            metric_key_of(other),
        ) == sort_of(m, other).counts.contains_key(metric_key_of(other)),
        other != target ==> sort_of(
            invocation_counted(m, target, operation),
            other,
        ).counts[metric_key_of(other)] == sort_of(m, other).counts[metric_key_of(other)],
        other != target || other_operation != operation ==> sort_of(
            invocation_counted(m, target, operation),
            other,
        ).operation_counts.contains_key(operation_metric_key_of(other, other_operation)) == sort_of(
            m,
            other,
        ).operation_counts.contains_key(operation_metric_key_of(other, other_operation)),
        other != target || other_operation != operation ==> sort_of(
            invocation_counted(m, target, operation),
            other,
        ).operation_counts[operation_metric_key_of(other, other_operation)] == sort_of(
            m,
            other,
        ).operation_counts[operation_metric_key_of(other, other_operation)],
{
    if target is Actor == other is Actor {
        if metric_key_of(target) == metric_key_of(other) {
            metric_keys_tell_targets(target, other);
        }
        if operation_metric_key_of(target, operation) == operation_metric_key_of(
            other,
            other_operation,
        ) {
            operation_metric_keys_tell_operations(target, operation, other, other_operation);
        }
    }
}

/// Invocations of actors leave the metrics of capabilities alone, and the other way
/// round.
pub proof fn sorts_are_counted_apart(m: MetricsView, target: EntityView, operation: Seq<char>)
    ensures
        target is Actor ==> invocation_counted(m, target, operation).caps == m.caps,
        target is Capability ==> invocation_counted(m, target, operation).actors == m.actors,
        invocation_counted(m, target, operation).active == m.active,
        invocation_counted(m, target, operation).window == m.window,
{
}

} // verus!
