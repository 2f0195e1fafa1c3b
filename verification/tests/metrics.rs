//! What the middleware for metrics counts and measures.
use wascc_host::claims::HostKey;
use wascc_host::entity::WasccEntity;
use wascc_host::inthost::{Invocation, InvocationResponse};
use wascc_host::middleware::prometheus::{
    get_metric_key, get_operation_metric_key, init_metrics, post_invoke_measure_inv_time,
    pre_invoke_count_inv, pre_invoke_measure_inv_time, push_job, register_counter, serve_request,
    set_new_total_avg, total_metrics, GaugeStep, MetricFault, Metrics, PrometheusConfig,
    PushgatewayConfig,
};
use wascc_host::prometheus_middleware;
use wascc_host::table::Table;

fn metrics(window: Option<i64>) -> Metrics {
    init_metrics(&PrometheusConfig {
        metrics_server_addr: None,
        pushgateway_config: None,
        moving_average_window_size: window,
    })
}

fn actor() -> WasccEntity {
    WasccEntity::Actor("actor_key".to_string())
}

fn cap() -> WasccEntity {
    WasccEntity::Capability { capid: "capability_id".to_string(), binding: "default".to_string() }
}

fn inv(target: WasccEntity, op: &str) -> Invocation {
    Invocation::new(&HostKey::new_server(), WasccEntity::Actor("x".into()), target, op, vec![])
}

#[test]
fn invocations_are_counted() {
    let mut m = metrics(None);
    assert_eq!(m.moving_average_window_size, 100);
    for _ in 0..3 {
        pre_invoke_count_inv(&mut m, &actor(), "Op");
    }
    pre_invoke_count_inv(&mut m, &cap(), "Op");
    assert_eq!(m.actors.total_inv_count, 3);
    assert_eq!(m.caps.total_inv_count, 1);
    let c = m.actors.inv_count.get(&"actor_key".to_string()).unwrap();
    assert_eq!(c.value, 3);
    assert_eq!(c.name, "wascc_actor_key_inv_count");
    assert_eq!(c.help, "Number of invocations of actor 'actor_key'");
    let c = m.actors.operation_inv_count.get(&"9:actor_keyOp".to_string()).unwrap();
    assert_eq!(c.value, 3);
    let c = m.caps.inv_count.get(&get_metric_key(&cap())).unwrap();
    assert_eq!(c.name, "wascc_capability_id_default_inv_count");
    assert_eq!(c.value, 1);
    let c = m.caps.operation_inv_count.get(&get_operation_metric_key(&cap(), "Op")).unwrap();
    assert_eq!(
        c.help,
        "Number of invocations of operation 'capability_id' on capability 'default' with binding 'Op'"
    );
}

#[test]
fn targets_are_told_apart() {
    let target = |capid: &str, binding: &str| WasccEntity::Capability {
        capid: capid.to_string(),
        binding: binding.to_string(),
    };
    let (one, two) = (target("a", "bc"), target("ab", "c"));
    let mut m = metrics(None);
    pre_invoke_count_inv(&mut m, &one, "Op");
    pre_invoke_count_inv(&mut m, &two, "Op");
    assert_eq!(m.caps.total_inv_count, 2);
    let counter = |t: &WasccEntity| {
        let c = m.caps.inv_count.get(&get_metric_key(t)).unwrap();
        (c.name.clone(), c.value)
    };
    assert_eq!(counter(&one), ("wascc_a_bc_inv_count".to_string(), 1));
    assert_eq!(counter(&two), ("wascc_ab_c_inv_count".to_string(), 1));
    let actor = |name: &str| WasccEntity::Actor(name.to_string());
    assert_ne!(
        get_operation_metric_key(&actor("a"), "bc"),
        get_operation_metric_key(&actor("ab"), "c")
    );
    let mut m = prometheus_middleware::init_metrics();
    for (origin, target) in [("o", &one), ("o", &two), ("oa", &actor("b")), ("o", &actor("ab"))] {
        prometheus_middleware::pre_invoke(&mut m, origin, target, true);
    }
    assert_eq!(m.caps.inv_count.len(), 2);
    assert_eq!(m.actors.inv_count.len(), 2);
    for (origin, op) in [("o", "pq"), ("op", "q")] {
        assert!(!prometheus_middleware::pre_invoke_measure_time(&mut m, origin, op, &one, 5));
    }
}

#[test]
fn refused_names_are_not_counted() {
    let mut m = metrics(None);
    let bad = WasccEntity::Actor("not a name".to_string());
    pre_invoke_count_inv(&mut m, &bad, "Op");
    assert_eq!(m.actors.total_inv_count, 1);
    assert_eq!(m.actors.inv_count.len(), 0);
    let mut t = Table::new();
    register_counter(&mut t, "k".to_string(), "good_name".to_string(), "help".to_string());
    register_counter(&mut t, "l".to_string(), "bad name".to_string(), "help".to_string());
    assert_eq!(t.len(), 1);
}

#[test]
fn times_are_measured() {
    let mut m = metrics(Some(2));
    let i = inv(actor(), "Op");
    let mut update = None;
    for n in 0..3u128 {
        pre_invoke_count_inv(&mut m, &i.target, &i.operation);
        assert!(!pre_invoke_measure_inv_time(&mut m, &i, n));
        assert!(pre_invoke_measure_inv_time(&mut m, &i, n));
        let r = InvocationResponse::success(&i, vec![]);
        update = post_invoke_measure_inv_time(&mut m, &r, n + 5_999_999);
        assert_eq!(m.active_inv_state.len(), 0);
        if n == 0 {
            match &update.as_ref().unwrap().target_step {
                GaugeStep::Create { key, name, .. } => {
                    assert_eq!(key, "actor_key");
                    assert_eq!(name, "wascc_actor_key_average_inv_time");
                }
                _ => panic!("no new average"),
            }
        }
    }
    let u = update.unwrap();
    assert_eq!(u.inv_time, 5);
    assert_eq!(u.total_count, 2);
    assert!(matches!(u.target_step, GaugeStep::Average { count: 2, .. }));
    assert!(matches!(u.operation_step, GaugeStep::Average { count: 2, .. }));
    assert_eq!(set_new_total_avg(&m, &actor()), 2);
    let r = InvocationResponse::success(&i, vec![]);
    assert!(post_invoke_measure_inv_time(&mut m, &r, 9).is_none());
}

#[test]
fn metrics_are_served_on_one_path() {
    assert_eq!(serve_request("GET", "/metrics"), 200);
    assert_eq!(serve_request("POST", "/metrics"), 404);
    assert_eq!(serve_request("GET", "/"), 404);
    let totals = total_metrics();
    assert_eq!(totals.0.name, "wascc_cap_total_inv_count");
    assert_eq!(totals.3.name, "wascc_actor_total_average_inv_time");
    let config = |job: Option<String>| PushgatewayConfig {
        pushgateway_addr: "localhost".to_string(),
        push_interval: 100,
        push_basic_auth: None,
        job,
    };
    assert_eq!(push_job(&config(None)), "wascc");
    assert_eq!(push_job(&config(Some("j".to_string()))), "j");
}

#[test]
fn complaints_become_errors() {
    let text = |f: MetricFault| f.into_error().to_string();
    assert_eq!(text(MetricFault::AlreadyRegistered), "Middleware error: Metric already registered");
    assert_eq!(text(MetricFault::Message("m".into())), "Middleware error: m");
    assert_eq!(text(MetricFault::Io("i".into())), "Middleware error: i");
    assert_eq!(text(MetricFault::Unknown), "Middleware error: Unknown Prometheus error");
}

#[test]
fn keys_join_their_parts() {
    assert_eq!(get_metric_key(&actor()), "actor_key");
    assert_eq!(get_metric_key(&cap()), "13:capability_iddefault");
    assert_eq!(get_operation_metric_key(&cap(), "Op"), "23:13:capability_iddefaultOp");
}

#[test]
fn pairs_are_counted_once_registered() {
    let mut m = prometheus_middleware::init_metrics();
    let text = prometheus_middleware::pending_counter(&m, "o", &actor()).unwrap();
    assert_eq!(text.name, "actor_key_inv_count");
    assert_eq!(text.help, "number of invocations of actor_key");
    prometheus_middleware::pre_invoke(&mut m, "o", &actor(), false);
    assert_eq!(m.actors.total_inv_count, 1);
    assert_eq!(m.actors.inv_count.len(), 0);
    prometheus_middleware::pre_invoke(&mut m, "o", &actor(), true);
    prometheus_middleware::pre_invoke(&mut m, "o", &actor(), true);
    assert_eq!(m.actors.inv_count.get(&"1:oactor_key".to_string()).unwrap().value, 2);
    assert!(prometheus_middleware::pending_counter(&m, "o", &actor()).is_none());
    prometheus_middleware::pre_invoke(&mut m, "o", &cap(), true);
    assert_eq!(m.caps.total_inv_count, 1);
    assert!(!prometheus_middleware::pre_invoke_measure_time(&mut m, "o", "Op", &cap(), 5));
    assert!(prometheus_middleware::pre_invoke_measure_time(&mut m, "o", "Op", &cap(), 6));
    let r = InvocationResponse::success(&inv(cap(), "Op"), vec![3]);
    assert_eq!(prometheus_middleware::post_invoke_measure_time(r).msg, vec![3]);
    let config = prometheus_middleware::PushgatewayConfig {
        pushgateway_addr: "localhost".to_string(),
        push_interval: 100,
        push_basic_auth: None,
        job: None,
    };
    assert_eq!(prometheus_middleware::push_job(&config), "wascc_push");
    let totals = prometheus_middleware::total_metrics();
    assert_eq!(totals.0.name, "cap_total_inv_count");
    assert_eq!(totals.1.help, "average invocation time across all capabilities");
    assert_eq!(totals.2.help, "total number of actor invocations");
    assert_eq!(totals.3.name, "actor_total_average_inv_time");
}
