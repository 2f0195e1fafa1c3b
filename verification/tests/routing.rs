//! The host without bindings.
use wascap::jwt::{Actor as ActorClaims, ClaimsBuilder};
use wascap::prelude::KeyPair as SigningKey;

use wascc_host::actor::Actor;
use wascc_host::capability::NativeCapability;
use wascc_host::codec::{CapabilityConfiguration, CapabilityDescriptor};
use wascc_host::host::{
    actor_claims, actors, add_native_capability, configure, deconfigure_actor, finish_configure,
    finish_host_callback, host_callback, live_update, module_action, module_route, operation_target, provider_action,
    remove_actor, remove_capability, replace_actor, strip_target, Invocation, InvocationResponse,
    ModuleAction, ProviderAction,
};
use wascc_host::plugins::PluginManager;
use wascc_host::table::Table;

const KEY: &str = "MASCXFM4R6X63UD5MSCDZYCJNPBVSIU6RKMXUPXRKAOSBQ6UY3VT3NPZ";

fn routes(keys: &[&str]) -> Table<String, ()> {
    let mut t = Table::new();
    for k in keys {
        t.insert(k.to_string(), ());
    }
    t
}

/// A key pair that is recognised by its public key.
fn account() -> SigningKey {
    loop {
        let key = SigningKey::new_account();
        if SigningKey::from_public_key(&key.public_key()).is_ok() {
            return key;
        }
    }
}

fn module() -> Actor {
    let issuer = account();
    let claims = ClaimsBuilder::<ActorClaims>::new()
        .issuer(&issuer.public_key())
        .subject(KEY)
        .with_metadata(ActorClaims {
            name: Some("test".to_string()),
            caps: Some(vec!["wascc:one".to_string(), "wascc:two".to_string()]),
            ..Default::default()
        })
        .build();
    let empty: [u8; 8] = [0, 97, 115, 109, 1, 0, 0, 0];
    Actor::from_slice(&wascap::wasm::embed_claims(&empty, &claims, &issuer).unwrap()).unwrap()
}

fn inv(op: &str) -> Invocation {
    Invocation::new("origin".to_string(), op, vec![1, 2])
}

#[test]
fn operations_name_their_targets() {
    assert_eq!(operation_target("wascc:messaging!Publish"), "wascc:messaging");
    assert_eq!(operation_target("Publish"), "Publish");
    assert_eq!(strip_target("wascc:messaging!Publish"), "Publish");
    assert_eq!(strip_target("a!b!c"), "b");
}

#[test]
fn what_is_gone_cannot_be_removed() {
    let t = routes(&["Mx", "wascc:x"]);
    assert!(remove_actor(&t, "Mx").is_ok());
    assert!(remove_capability(&t, "wascc:x").is_ok());
    assert_eq!(
        remove_actor(&t, "My").err().unwrap().to_string(),
        "waSCC Host Error: No such actor"
    );
    assert_eq!(
        remove_capability(&t, "y").err().unwrap().to_string(),
        "waSCC Host Error: No such capability"
    );
}

#[test]
fn live_updates_need_a_running_actor() {
    let a = module();
    let i = replace_actor(&routes(&[KEY]), &a).unwrap();
    assert_eq!(i.origin, "system");
    assert_eq!(i.operation, format!("{}!PerformLiveUpdate", KEY));
    assert_eq!(&i.msg, a.bytes());
    assert_eq!(
        replace_actor(&routes(&[]), &a).err().unwrap().to_string(),
        "waSCC Host Error: Cannot replace non-existent actor"
    );
    assert_eq!(live_update(true).error, None);
    assert_eq!(live_update(false).error.unwrap(), "Failed to perform hot swap");
}

#[test]
fn providers_are_registered_once() {
    let cap = |id: &str| NativeCapability {
        plugin: (),
        binding_name: "default".to_string(),
        descriptor: CapabilityDescriptor {
            id: id.to_string(),
            name: id.to_string(),
            version: "1".to_string(),
            revision: 1,
            long_description: "".to_string(),
            supported_operations: vec![],
        },
    };
    let mut plugins: PluginManager<()> = PluginManager::new();
    assert!(add_native_capability(&mut plugins, &routes(&[]), cap("c")).is_ok());
    assert_eq!(
        add_native_capability(&mut plugins, &routes(&[]), cap("c")).err().unwrap().to_string(),
        "Capability provider error: Duplicate capability ID attempted to register provider: (default,c)"
    );
    assert_eq!(
        add_native_capability(&mut plugins, &routes(&["x"]), cap("x")).err().unwrap().to_string(),
        "Capability provider error: Attempt to register the same capability provider multiple times: x"
    );
    assert!(plugins.remove_plugin("default", "x").is_some());
}

#[test]
fn configurations_are_sent() {
    let values = || {
        let mut t = Table::new();
        t.insert("PORT".to_string(), "80".to_string());
        t
    };
    let i = configure(&routes(&["c"]), true, "Configure", "Mx", "c", values()).unwrap();
    assert_eq!(i.operation, "c!Configure");
    let cfg = CapabilityConfiguration::decode(&i.msg).unwrap();
    assert_eq!(cfg.module, "Mx");
    assert_eq!(cfg.values.get(&"PORT".to_string()).unwrap(), "80");
    assert_eq!(
        configure(&routes(&["c"]), false, "Configure", "Mx", "c", values())
            .err()
            .unwrap()
            .to_string(),
        "WebAssembly module authorization failure: Actor Mx is not authorized to use capability c, configuration rejected"
    );
    assert_eq!(
        configure(&routes(&[]), true, "Configure", "Mx", "c", values()).err().unwrap().to_string(),
        "Capability provider error: No such capability provider: c"
    );
    assert!(finish_configure("c", &InvocationResponse::success(vec![])).is_ok());
    assert_eq!(
        finish_configure("c", &InvocationResponse::error("x")).err().unwrap().to_string(),
        "Capability provider error: Failed to configure c - x"
    );
}

#[test]
fn providers_take_or_deliver() {
    assert!(matches!(
        provider_action("c", inv("c!Op"), false, false),
        ProviderAction::InvokePlugin(i) if i.operation == "c!Op"
    ));
    assert!(matches!(
        provider_action("c", inv("Mx!Op"), true, true),
        ProviderAction::Deliver(i) if i.origin == "c" && i.operation == "Mx!Op"
    ));
    let text = |a: ProviderAction| match a {
        ProviderAction::Respond(r) => r.error.unwrap(),
        _ => panic!("no response"),
    };
    assert_eq!(
        text(provider_action("c", inv("Mx!Op"), false, true)),
        "Dispatch between actor and unauthorized capability: Mx <-> c"
    );
    assert_eq!(text(provider_action("c", inv("Mx!Op"), true, false)), "Dispatch to unknown actor");
}

#[test]
fn modules_take_bare_operations() {
    assert!(matches!(
        module_action(inv("Mx!Op")),
        ModuleAction::Invoke(i) if i.operation == "Op" && i.msg == vec![1, 2]
    ));
    assert!(matches!(
        module_action(inv("Mx!PerformLiveUpdate")),
        ModuleAction::LiveUpdate(i) if i.origin == "origin"
    ));
    let a = module();
    assert_eq!(module_route(&a.token().claims, true), KEY);
    assert_eq!(module_route(&a.token().claims, false), "wascc:one");
}

#[test]
fn every_provider_hears_of_a_removal() {
    let notices = deconfigure_actor(&vec!["a".to_string(), "b".to_string()], "Mx");
    let ops: Vec<&str> = notices.iter().map(|i| i.operation.as_str()).collect();
    assert_eq!(ops, vec!["a!RemoveActor", "b!RemoveActor"]);
    assert_eq!(CapabilityConfiguration::decode(&notices[1].msg).unwrap().module, "Mx");
}

#[test]
fn guests_call_through_their_attestations() {
    let reply = InvocationResponse { msg: vec![4], error: Some("not minded".to_string()) };
    assert_eq!(finish_host_callback(Ok(reply)).unwrap(), vec![4]);
    assert_eq!(
        finish_host_callback(Err("gone".to_string())).err().unwrap().to_string(),
        "Error occurred during host call: gone"
    );
    let i = host_callback(7, "Mx", "c!Op", &[9], true, true).unwrap();
    assert_eq!((i.origin.as_str(), i.operation.as_str()), ("Mx", "c!Op"));
    assert_eq!(i.msg, vec![9]);
    assert_eq!(
        host_callback(7, "Mx", "c!Op", &[], false, true).err().unwrap().to_string(),
        "WebAssembly module authorization failure: Actor 7 does not have permission to use capability c"
    );
    assert_eq!(
        host_callback(7, "Mx", "c!Op", &[], true, false).err().unwrap().to_string(),
        "Error occurred during host call: Attempt to make host call into non-existent target"
    );
}

#[test]
fn actors_are_listed() {
    let mut map = Table::new();
    map.insert(KEY.to_string(), module().token().claims.copy());
    let all = actors(&map);
    assert_eq!(all.len(), 1);
    assert_eq!(all[0].0, KEY);
    assert_eq!(actor_claims(&map, KEY).unwrap().subject, KEY);
    assert!(actor_claims(&map, "My").is_none());
}
