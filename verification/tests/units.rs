//! The parts of the library, one by one.
use std::sync::atomic::{AtomicUsize, Ordering};

use wascap::jwt::{Actor as ActorClaims, ClaimsBuilder};
use wascap::prelude::KeyPair as SigningKey;

use wascc_codec::extras::{GeneratorRequest, GeneratorResult};

use wascc_host::actor::Actor;
use wascc_host::authz::{
    can_invoke, extract_claims, judge_validation, register_claims, try_enforce_validation,
    unregister_claims, Authorizer, DefaultAuthorizer,
};
use wascc_host::bindings::{
    record_binding, remove_binding, unbind_actor, unbind_all_from_cap, unsub_all_bindings,
    BindingKey, RouteKey,
};
use wascc_host::bus::inproc::InprocBus;
use wascc_host::bus::lattice::{
    check_connection, control_subject, control_topic, controlplane_wildcard_subject,
    discover_claims, get_env, get_timeout, host_satifies_constraints, instance_count,
    instance_count_failure, inventory_topic, keep_waiting, query_bindings, reject_or_deliver,
    respond_with_bindings, respond_with_caps, respond_with_host, try_handle_invocation, Binding,
    ControlTopic, HostActors, InventoryTopic,
};
use wascc_host::bus::{
    actor_subject, event_subject, inventory_wildcard_subject, normalize_capid, nsprefix,
    provider_subject, provider_subject_bound_actor,
};
use wascc_host::capability::{description_call, NativeCapability};
use wascc_host::claims::{ActorMetadata, Claims, HostKey, InvocationMetadata, TokenValidation};
use wascc_host::codec::{
    CapabilityConfiguration, CapabilityDescriptor, OperationDescriptor, OperationDirection,
};
use wascc_host::controlplane::{launch_binding, Reaction};
use wascc_host::dispatch::WasccNativeDispatcher;
use wascc_host::entity::WasccEntity;
use wascc_host::errors::{self, Error, ErrorKind};
use wascc_host::extras::{extras_capability, ExtrasCapabilityProvider};
use wascc_host::inthost::{invocation_hash, Invocation, InvocationResponse};
use wascc_host::manifest::{BindingEntry, Capability, HostManifest, ManifestFormat};
use wascc_host::messagepack::is_readable;
use wascc_host::messages::{
    descriptor_request, finish_callback, gen_config_invocation, get_descriptor, live_update,
    wapc_host_callback, CallError,
};
use wascc_host::middleware::{
    guest_response, invoke_actor, invoke_capability, provider_response, run_actor_invoke,
    run_actor_pre_invoke, InvocationHandler, Middleware, MiddlewareResponse,
};
use wascc_host::plugins::{Handler, PluginManager, Provider};
use wascc_host::registry::{
    archive_failure, check_provider_claims, fetch_actor, fetch_oci_bytes, image_reference,
    provider_library, provider_target, registry_auth, RegistryAuth,
};
use wascc_host::router::{show_key, Router, ACTOR_BINDING};
use wascc_host::runtime::{
    locate_actor, locate_capability, Host, HostBuilder, ManifestStep,
};
use wascc_host::spawns::{is_live_update, try_actor_from_config, try_follow_up, FollowUp, Role};
use wascc_host::table::Table;
use wascc_host::text::{
    contains, decimal_text, ends_with, frame, is_blank, join, parse_u64, split_once,
};

const KEY: &str = "MASCXFM4R6X63UD5MSCDZYCJNPBVSIU6RKMXUPXRKAOSBQ6UY3VT3NPZ";

fn capability(capid: &str, binding: &str) -> WasccEntity {
    WasccEntity::Capability { capid: capid.to_string(), binding: binding.to_string() }
}

fn claims(subject: &str, caps: Option<Vec<String>>, tags: Option<Vec<String>>) -> Claims<ActorMetadata> {
    Claims {
        expires: None,
        id: "id".to_string(),
        issued_at: 0,
        issuer: "ISSUER".to_string(),
        subject: subject.to_string(),
        not_before: None,
        metadata: Some(ActorMetadata {
            name: Some("name".to_string()),
            module_hash: "hash".to_string(),
            tags,
            caps,
            rev: None,
            ver: None,
            provider: false,
        }),
    }
}

/// A key pair that is recognised by its public key.
fn account() -> SigningKey {
    loop {
        let key = SigningKey::new_account();
        if SigningKey::from_public_key(&key.public_key()).is_ok() {
            return key;
        }
    }
}

fn module(subject: &str, caps: &[&str], expired: bool) -> Actor {
    let issuer = account();
    signed_module(subject, caps, expired, &issuer, &issuer)
}

/// A module whose token names an issuer and is signed with some key.
fn signed_module(
    subject: &str,
    caps: &[&str],
    expired: bool,
    issuer: &SigningKey,
    signer: &SigningKey,
) -> Actor {
    let mut builder = ClaimsBuilder::<ActorClaims>::new();
    builder.issuer(&issuer.public_key()).subject(subject).with_metadata(ActorClaims {
        name: Some("test".to_string()),
        caps: Some(caps.iter().map(|c| c.to_string()).collect()),
        tags: Some(vec!["red".to_string(), "blue".to_string()]),
        ..Default::default()
    });
    let mut claims = builder.build();
    if expired {
        claims.expires = Some(1);
    }
    let empty: [u8; 8] = [0, 97, 115, 109, 1, 0, 0, 0];
    Actor::from_slice(&wascap::wasm::embed_claims(&empty, &claims, signer).unwrap()).unwrap()
}

fn host() -> Host<DefaultAuthorizer> {
    Host::new("x86_64", "linux", "unix", None)
}

fn config(values: &[(&str, &str)]) -> Table<String, String> {
    let mut t = Table::new();
    for (k, v) in values {
        t.insert(k.to_string(), v.to_string());
    }
    t
}

fn descriptor(id: &str) -> CapabilityDescriptor {
    CapabilityDescriptor {
        id: id.to_string(),
        name: "name".to_string(),
        version: "0.1".to_string(),
        revision: 7,
        long_description: "text".to_string(),
        supported_operations: vec![OperationDescriptor::new(
            "Op",
            OperationDirection::Both,
            "doc",
        )],
    }
}

#[test]
fn invocation_antiforgery() {
    let hostkey = HostKey::new_server();
    // As soon as we create the invocation, the claims are baked and signed with the hash embedded.
    let inv = Invocation::new(
        &hostkey,
        WasccEntity::Actor("testing".into()),
        WasccEntity::Capability { capid: "wascc:messaging".into(), binding: "default".into() },
        "OP_TESTING",
        vec![1, 2, 3, 4],
    );
    let res = inv.try_validate_antiforgery().unwrap();
    println!("{:?}", res);
    // Obviously an invocation we just created should pass anti-forgery check
    assert!(inv.try_validate_antiforgery().unwrap().is_ok());

    // Let's tamper with the invocation and we should hit the hash check first
    let mut bad_inv = inv.clone();
    bad_inv.target = WasccEntity::Actor("BADACTOR-EXFILTRATOR".into());
    assert!(bad_inv.try_validate_antiforgery().unwrap().is_err());

    // Alter the payload and we should also hit the hash check
    let mut really_bad_inv = inv.clone();
    really_bad_inv.msg = vec![5, 4, 3, 2];
    assert!(really_bad_inv.try_validate_antiforgery().unwrap().is_err());

    // And just to double-check the routing address
    assert_eq!(inv.target_url(), "wasmbus://wascc/messaging/default/OP_TESTING");
    assert_eq!(inv.origin_url(), "wasmbus://testing");
}

#[test]
fn antiforgery_names_what_is_wrong() {
    let hostkey = HostKey::new_server();
    let inv = Invocation::new(
        &hostkey,
        WasccEntity::Actor("testing".into()),
        WasccEntity::Actor("other".into()),
        "OP",
        vec![1],
    );
    let text = |i: &Invocation| i.try_validate_antiforgery().unwrap().err().unwrap().to_string();
    let pre = "WebAssembly module authorization failure: ";
    let mut i = inv.clone();
    i.msg = vec![2];
    assert_eq!(text(&i), format!("{}Invocation hash does not match signed claims hash", pre));
    let mut i = inv.clone();
    i.id = "nope".to_string();
    assert_eq!(
        text(&i),
        format!("{}Subject of invocation claims token does not match invocation ID", pre)
    );
    let mut i = inv.clone();
    i.host_id = "nope".to_string();
    assert_eq!(
        text(&i),
        format!("{}Invocation claims issuer does not match invocation host", pre)
    );
    let mut i = inv.clone();
    i.encoded_claims = "no token".to_string();
    assert!(i.try_validate_antiforgery().is_none());
    // a token that does not decode, or whose signature is malformed, is refused
    let (unsigned, signature) = inv.encoded_claims.rsplit_once('.').unwrap();
    assert_eq!(signature.len(), 86);
    for token in [
        "no.token.at all".to_string(),
        format!("{}.{}", unsigned, signature.replace(&signature[..1], "$")),
        format!("{}.{}", unsigned, &signature[1..]),
        format!(".{}.{}", unsigned.split('.').last().unwrap(), signature),
    ] {
        let mut i = inv.clone();
        i.encoded_claims = token;
        assert!(text(&i).starts_with("Embedded JWT failure: "));
        let refusal = try_handle_invocation(&i).unwrap().unwrap();
        assert!(refusal
            .error
            .unwrap()
            .starts_with("Antiforgery check failure: Embedded JWT failure: "));
        assert_eq!(refusal.invocation_id, inv.id);
    }
    // so is one whose signature has another length, where its header is refused, its
    // claims are, or the last character leaves bits over
    let claims_part = unsigned.split('.').last().unwrap();
    let mut i = inv.clone();
    i.encoded_claims = format!("{}.AAAA", unsigned);
    assert!(i.try_validate_antiforgery().is_none());
    for token in [
        format!("e30.{}.AAAA", claims_part),
        format!("nonsense.{}.AAAA", claims_part),
        format!("{}.AAB", unsigned),
        format!("{}.AB", unsigned),
        format!("{}.A=", unsigned),
        format!("{}.AAAA=", unsigned),
        format!("{}.AA===", unsigned),
    ] {
        let mut i = inv.clone();
        i.encoded_claims = token;
        assert!(text(&i).starts_with("Embedded JWT failure: "));
    }
    // padding makes no difference
    for padding in ["=", "=="] {
        let mut i = inv.clone();
        i.encoded_claims.push_str(padding);
        assert!(i.try_validate_antiforgery().unwrap().is_ok());
    }
    // the signature of another invocation is not valid for this one
    let other = Invocation::new(
        &hostkey,
        WasccEntity::Actor("testing".into()),
        WasccEntity::Actor("other".into()),
        "OP",
        vec![1],
    );
    let mut i = inv.clone();
    i.encoded_claims =
        format!("{}.{}", unsigned, other.encoded_claims.rsplit_once('.').unwrap().1);
    assert_eq!(text(&i), format!("{}Invocation claims signature invalid", pre));

    let meta = |target: &str, origin: &str, hash: String| Claims {
        expires: None,
        id: String::new(),
        issued_at: 0,
        issuer: inv.host_id.clone(),
        subject: inv.id.clone(),
        not_before: None,
        metadata: Some(InvocationMetadata {
            target_url: target.to_string(),
            origin_url: origin.to_string(),
            invocation_hash: hash,
        }),
    };
    let valid = |expired: bool, early: bool, good: bool| TokenValidation {
        expired,
        cannot_use_yet: early,
        expires_human: String::new(),
        not_before_human: String::new(),
        signature_valid: good,
    };
    let judge = |v: TokenValidation, t: &str, o: &str| {
        inv.judge(&v, &meta(t, o, inv.hash())).err().map(|e| e.to_string())
    };
    let (t, o) = (inv.target_url(), inv.origin_url());
    assert_eq!(judge(valid(false, false, true), &t, &o), None);
    assert_eq!(
        judge(valid(true, false, true), &t, &o).unwrap(),
        format!("{}Invocation claims token expired", pre)
    );
    assert_eq!(
        judge(valid(false, false, false), &t, &o).unwrap(),
        format!("{}Invocation claims signature invalid", pre)
    );
    assert_eq!(
        judge(valid(false, true, true), &t, &o).unwrap(),
        format!("{}Attempt to use invocation before claims token allows", pre)
    );
    assert_eq!(
        judge(valid(false, false, true), "x", &o).unwrap(),
        format!("{}Invocation claims and invocation target URL do not match", pre)
    );
    assert_eq!(
        judge(valid(false, false, true), &t, "x").unwrap(),
        format!("{}Invocation claims and invocation origin URL do not match", pre)
    );
}

#[test]
fn hashes_are_upper_case_hex() {
    assert_eq!(
        invocation_hash("b", "a", b"c"),
        "BA7816BF8F01CFEA414140DE5DAE2223B00361A396177A9CB410FF61F20015AD"
    );
    assert_eq!(invocation_hash("", "ab", b"c"), invocation_hash("b", "a", b"c"));
    assert_ne!(invocation_hash("a", "b", b"c"), invocation_hash("b", "a", b"c"));
}

#[test]
fn env_expansion() {
    let values = vec![
        "echo Test",
        "echo $TEST_EXPAND_ENV_TEMP",
        "echo ${TEST_EXPAND_ENV_TEMP}",
        "echo ${TEST_EXPAND_ENV_TMP}",
        "echo ${TEST_EXPAND_ENV_TEMP:/etc}",
        "echo ${TEST_EXPAND_ENV_TMP:/etc}",
    ];
    let expected = vec![
        "echo Test",
        "echo $TEST_EXPAND_ENV_TEMP",
        "echo /tmp",
        "echo ${TEST_EXPAND_ENV_TMP}",
        "echo /tmp",
        "echo /etc",
    ];

    envmnt::set("TEST_EXPAND_ENV_TEMP", "/tmp");
    for (got, expected) in
        values.iter().map(|v| HostManifest::expand_env(v)).zip(expected.iter())
    {
        assert_eq!(*expected, got);
    }
    envmnt::remove("TEST_EXPAND_ENV_TEMP");
}

#[test]
fn broken_references_stay() {
    let unset = [
        ("${TEST_NO_SUCH:a}${TEST_NO_SUCH:b}", "ab"),
        ("$${TEST_NO_SUCH:a}", "$${TEST_NO_SUCH:a}"),
        ("${TEST_NO SUCH} ${TEST_NO=SUCH:a}", "${TEST_NO SUCH} ${TEST_NO=SUCH:a}"),
        ("${TEST_NO_SUCH:a b=c}", "a b=c"),
        ("${TEST_NO_SUCH:a\nb}", "${TEST_NO_SUCH:a\nb}"),
        ("a ${TEST_NO_SUCH", "a ${TEST_NO_SUCH"),
        ("a ${TEST_NO_SUCH:b", "a ${TEST_NO_SUCH:b"),
        ("a $", "a "),
        ("a ${", "a "),
    ];
    for (text, expected) in unset {
        assert_eq!(HostManifest::expand_env(text), expected);
    }
}

struct IncMiddleware {
    pre: AtomicUsize,
    post: AtomicUsize,
    halt: bool,
    fail: bool,
}

impl IncMiddleware {
    fn new(halt: bool, fail: bool) -> IncMiddleware {
        IncMiddleware { pre: AtomicUsize::new(0), post: AtomicUsize::new(0), halt, fail }
    }

    fn answer(&self, r: InvocationResponse) -> Result<MiddlewareResponse, Error> {
        if self.halt {
            Ok(MiddlewareResponse::Halt(r))
        } else {
            Ok(MiddlewareResponse::Continue(r))
        }
    }

    fn count(&self, n: &AtomicUsize) -> Result<(), Error> {
        n.fetch_add(1, Ordering::SeqCst);
        if self.fail {
            Err(errors::new(ErrorKind::Middleware("no".to_string())))
        } else {
            Ok(())
        }
    }
}

impl<H: InvocationHandler> Middleware<H> for IncMiddleware {
    fn actor_pre_invoke(&self, inv: Invocation) -> Result<Invocation, Error> {
        self.count(&self.pre)?;
        Ok(inv)
    }
    fn actor_invoke(&self, inv: Invocation, handler: &H) -> Result<MiddlewareResponse, Error> {
        self.answer(handler.invoke(inv))
    }
    fn actor_post_invoke(&self, response: InvocationResponse) -> Result<InvocationResponse, Error> {
        self.count(&self.post)?;
        Ok(response)
    }
    fn capability_pre_invoke(&self, inv: Invocation) -> Result<Invocation, Error> {
        self.count(&self.pre)?;
        Ok(inv)
    }
    fn capability_invoke(&self, inv: Invocation, handler: &H) -> Result<MiddlewareResponse, Error> {
        self.answer(handler.invoke(inv))
    }
    fn capability_post_invoke(
        &self,
        response: InvocationResponse,
    ) -> Result<InvocationResponse, Error> {
        self.count(&self.post)?;
        Ok(response)
    }
}

/// Responds with the message in reverse, and counts.
struct Reverse(AtomicUsize);

impl InvocationHandler for Reverse {
    fn invoke(&self, inv: Invocation) -> InvocationResponse {
        self.0.fetch_add(1, Ordering::SeqCst);
        let msg = inv.msg.iter().rev().cloned().collect();
        guest_response(&inv, Ok(msg))
    }
}

fn sample() -> Invocation {
    Invocation::new(
        &HostKey::new_server(),
        WasccEntity::Actor("test".to_string()),
        capability("testing:sample", "default"),
        "testing",
        b"abc1234".to_vec(),
    )
}

#[test]
fn simple_add() {
    let mids = vec![IncMiddleware::new(false, false)];
    let inv = sample();
    let res = run_actor_pre_invoke::<Reverse, IncMiddleware>(inv.clone(), &mids);
    assert!(res.is_ok());
    let res2 = run_actor_pre_invoke::<Reverse, IncMiddleware>(inv, &mids);
    assert!(res2.is_ok());
    assert_eq!(mids[0].pre.fetch_add(0, Ordering::SeqCst), 2);
}

#[test]
fn middleware_runs_in_order_up_to_a_halt() {
    let handler = Reverse(AtomicUsize::new(0));
    let mids = vec![
        IncMiddleware::new(false, false),
        IncMiddleware::new(true, false),
        IncMiddleware::new(false, false),
    ];
    let r = invoke_actor(&mids, sample(), &handler).unwrap();
    assert_eq!(r.msg, b"4321cba".to_vec());
    assert_eq!(r.error, None);
    // the third is not asked to invoke, but sees the invocation and the response
    assert_eq!(handler.0.load(Ordering::SeqCst), 2);
    assert_eq!(mids[2].pre.load(Ordering::SeqCst), 1);
    assert_eq!(mids[2].post.load(Ordering::SeqCst), 1);
}

#[test]
fn failing_stages_are_skipped() {
    let handler = Reverse(AtomicUsize::new(0));
    let mids = vec![IncMiddleware::new(false, true), IncMiddleware::new(false, false)];
    let r = invoke_capability(&mids, sample(), &handler).unwrap();
    assert_eq!(r.msg, b"4321cba".to_vec());
    assert_eq!(mids[1].pre.load(Ordering::SeqCst), 0);
    assert_eq!(mids[1].post.load(Ordering::SeqCst), 0);
}

#[test]
fn operations_need_no_middleware() {
    let handler = Reverse(AtomicUsize::new(0));
    let none: Vec<IncMiddleware> = vec![];
    assert_eq!(invoke_actor(&none, sample(), &handler).unwrap().msg, b"4321cba".to_vec());
    assert_eq!(invoke_capability(&none, sample(), &handler).unwrap().msg, b"4321cba".to_vec());
    let stage = run_actor_invoke(&none, &sample(), &handler).unwrap();
    assert_eq!(stage.error.unwrap(), "No middleware invoked the operation");
    assert_eq!(handler.0.load(Ordering::SeqCst), 2);
}

#[test]
fn responses_say_who_failed() {
    let inv = sample();
    let r = guest_response(&inv, Err("trap".to_string()));
    assert_eq!(r.error.unwrap(), "failed to invoke actor: trap");
    assert_eq!(r.invocation_id, inv.id);
    let r = provider_response(&inv, Err("gone".to_string()));
    assert_eq!(r.error.unwrap(), "Failed to invoke capability: gone");
    assert_eq!(live_update(&inv, true).error, None);
    assert_eq!(live_update(&inv, false).error.unwrap(), "Failed to perform hot swap");
}

#[test]
fn subjects_are_spelled_out() {
    assert_eq!(nsprefix(None), "wasmbus");
    assert_eq!(nsprefix(Some("ns")), "ns.wasmbus");
    assert_eq!(actor_subject(None, "Mx"), "wasmbus.actor.Mx");
    assert_eq!(actor_subject(Some("ns"), "Mx"), "ns.wasmbus.actor.Mx");
    assert_eq!(normalize_capid("WASCC:Key Value"), "wascc.key_value");
    assert_eq!(normalize_capid("wascc:messaging"), "wascc.messaging");
    assert_eq!(normalize_capid("wascc.key_value"), "wascc.key_value");
    // beyond ASCII the case of a letter may depend on where it stands
    assert_ne!(normalize_capid("\u{391}\u{3a3}"), normalize_capid("\u{3b1}\u{3c3}"));
    assert_eq!(
        provider_subject(Some("ns"), "wascc:http_server", "default"),
        "ns.wasmbus.provider.wascc.http_server.default"
    );
    assert_eq!(
        provider_subject_bound_actor(None, "wascc:http_server", "default", "Mx"),
        "wasmbus.provider.wascc.http_server.default.Mx"
    );
    assert_eq!(inventory_wildcard_subject(None), "wasmbus.inventory.*");
    assert_eq!(event_subject(Some("ns")), "ns.wasmbus.events");
    assert_eq!(controlplane_wildcard_subject(None), "wasmbus.control.>");
    assert_eq!(control_subject(Some("ns"), "Nx"), "ns.wasmbus.control.Nx");
    // one namespace is never heard in another
    assert_ne!(actor_subject(Some("a"), "Mx"), actor_subject(Some("b"), "Mx"));
}

#[test]
fn entities_have_urls() {
    assert_eq!(WasccEntity::Actor("Mx".to_string()).url(), "wasmbus://Mx");
    assert_eq!(capability("wascc:key Value", "b").url(), "wasmbus://wascc/key_value/b");
    assert_eq!(WasccEntity::Actor("Mx".to_string()).show(), "Actor(\"Mx\")");
    assert_eq!(
        capability("c\"d", "b").show(),
        "Capability { capid: \"c\\\"d\", binding: \"b\" }"
    );
    assert!(capability("c", "b") == capability("c", "b"));
    assert!(capability("c", "b") != capability("c", "a"));
}

#[test]
fn constants_are_those_of_the_protocol() {
    assert_eq!(wascc_host::codec::SYSTEM_ACTOR, wascc_codec::SYSTEM_ACTOR);
    assert_eq!(wascc_host::codec::OP_BIND_ACTOR, wascc_codec::core::OP_BIND_ACTOR);
    assert_eq!(wascc_host::codec::OP_REMOVE_ACTOR, wascc_codec::core::OP_REMOVE_ACTOR);
    assert_eq!(
        wascc_host::codec::OP_PERFORM_LIVE_UPDATE,
        wascc_codec::core::OP_PERFORM_LIVE_UPDATE
    );
    assert_eq!(
        wascc_host::codec::OP_GET_CAPABILITY_DESCRIPTOR,
        wascc_codec::capabilities::OP_GET_CAPABILITY_DESCRIPTOR
    );
    assert_eq!(wascc_host::codec::OP_REQUEST_GUID, wascc_codec::extras::OP_REQUEST_GUID);
    assert_eq!(wascc_host::codec::OP_REQUEST_RANDOM, wascc_codec::extras::OP_REQUEST_RANDOM);
    assert_eq!(
        wascc_host::codec::OP_REQUEST_SEQUENCE,
        wascc_codec::extras::OP_REQUEST_SEQUENCE
    );
    assert_eq!(
        wascc_host::codec::CONFIG_WASCC_CLAIMS_ISSUER,
        wascc_codec::core::CONFIG_WASCC_CLAIMS_ISSUER
    );
    assert_eq!(
        wascc_host::codec::CONFIG_WASCC_CLAIMS_CAPABILITIES,
        wascc_codec::core::CONFIG_WASCC_CLAIMS_CAPABILITIES
    );
    assert_eq!(
        wascc_host::codec::CONFIG_WASCC_CLAIMS_NAME,
        wascc_codec::core::CONFIG_WASCC_CLAIMS_NAME
    );
    assert_eq!(
        wascc_host::codec::CONFIG_WASCC_CLAIMS_EXPIRES,
        wascc_codec::core::CONFIG_WASCC_CLAIMS_EXPIRES
    );
    assert_eq!(
        wascc_host::codec::CONFIG_WASCC_CLAIMS_TAGS,
        wascc_codec::core::CONFIG_WASCC_CLAIMS_TAGS
    );
    assert_eq!(
        wascc_host::bus::lattice::CPLANE_PREFIX,
        latticeclient::controlplane::CPLANE_PREFIX
    );
    assert_eq!(wascc_host::bus::lattice::AUCTION_REQ, latticeclient::controlplane::AUCTION_REQ);
    assert_eq!(
        wascc_host::bus::lattice::PROVIDER_AUCTION_REQ,
        latticeclient::controlplane::PROVIDER_AUCTION_REQ
    );
    assert_eq!(wascc_host::bus::lattice::LAUNCH_ACTOR, latticeclient::controlplane::LAUNCH_ACTOR);
    assert_eq!(
        wascc_host::bus::lattice::LAUNCH_PROVIDER,
        latticeclient::controlplane::LAUNCH_PROVIDER
    );
    assert_eq!(
        wascc_host::bus::lattice::TERMINATE_ACTOR,
        latticeclient::controlplane::TERMINATE_ACTOR
    );
    assert_eq!(
        wascc_host::bus::lattice::TERMINATE_PROVIDER,
        latticeclient::controlplane::TERMINATE_PROVIDER
    );
    assert_eq!(wascc_host::bus::lattice::INVENTORY_ACTORS, latticeclient::INVENTORY_ACTORS);
    assert_eq!(wascc_host::bus::lattice::INVENTORY_HOSTS, latticeclient::INVENTORY_HOSTS);
    assert_eq!(wascc_host::bus::lattice::INVENTORY_BINDINGS, latticeclient::INVENTORY_BINDINGS);
    assert_eq!(
        wascc_host::bus::lattice::INVENTORY_CAPABILITIES,
        latticeclient::INVENTORY_CAPABILITIES
    );
}

#[test]
fn every_error_has_its_texts() {
    let io = std::io::Error::new(std::io::ErrorKind::Other, "disk");
    let cases: Vec<(ErrorKind, &str, &str)> = vec![
        (ErrorKind::Wapc("x".into()), "waPC failure: x", "waPC error"),
        (
            ErrorKind::HostCallFailure("x".into()),
            "Error occurred during host call: x",
            "Error occurred during host call",
        ),
        (
            ErrorKind::Wascap(wascap::jwt::Claims::<ActorClaims>::decode("x").err().unwrap()),
            "Embedded JWT failure: ",
            "Embedded JWT Failure",
        ),
        (
            ErrorKind::Authorization("x".into()),
            "WebAssembly module authorization failure: x",
            "Module authorization failure",
        ),
        (ErrorKind::IO(io), "I/O error: disk", "I/O error"),
        (
            ErrorKind::CapabilityProvider("x".into()),
            "Capability provider error: x",
            "Capability provider failure",
        ),
        (ErrorKind::MiscHost("x".into()), "waSCC Host Error: x", "waSCC Host error"),
        (ErrorKind::Plugin("x".into()), "Plugin error: x", "Plugin error"),
        (ErrorKind::Middleware("x".into()), "Middleware error: x", "Middleware error"),
        (ErrorKind::Serialization("x".into()), "Serialization error: x", "Serialization error"),
    ];
    for (kind, text, description) in cases {
        let e = errors::new(kind);
        assert!(e.to_string().starts_with(text), "{}", e.to_string());
        assert_eq!(e.description(), description);
    }
    let e: Error = Error::from("x".to_string());
    assert!(matches!(e.kind(), ErrorKind::HostCallFailure(_)));
    assert!(matches!(e.into_kind(), ErrorKind::HostCallFailure(_)));
}

#[test]
fn attestations_decide() {
    let c = claims("Mx", Some(vec!["wascc:messaging".to_string()]), None);
    assert!(can_invoke(&c, "wascc:messaging", "Op"));
    assert!(!can_invoke(&c, "wascc:keyvalue", "Op"));
    // an actor may always address itself, and no other actor without an attestation
    assert!(can_invoke(&c, "Mx", "Op"));
    assert!(!can_invoke(&c, KEY, "Op"));
    let a = DefaultAuthorizer::new();
    assert!(a.can_load(&c));
    assert!(a.can_invoke(&c, &capability("wascc:keyvalue", "default"), "Op"));
    let mut map = Table::new();
    register_claims(&mut map, "Mx", c);
    assert_eq!(map.len(), 1);
    unregister_claims(&mut map, "Mx");
    assert_eq!(map.len(), 0);
}

#[test]
fn tokens_are_validated() {
    let good = module(KEY, &[], false);
    assert!(try_enforce_validation(&good.token().jwt).unwrap().is_ok());
    let bad = module(KEY, &[], true);
    assert_eq!(
        try_enforce_validation(&bad.token().jwt).unwrap().err().unwrap().to_string(),
        "WebAssembly module authorization failure: Expired token"
    );
    assert!(try_enforce_validation("not a token").is_none());
    let v = TokenValidation {
        expired: false,
        cannot_use_yet: true,
        expires_human: "never".to_string(),
        not_before_human: "tomorrow".to_string(),
        signature_valid: true,
    };
    assert_eq!(
        judge_validation(&v).err().unwrap().to_string(),
        "WebAssembly module authorization failure: Module cannot be used before tomorrow"
    );
    let v = TokenValidation { cannot_use_yet: false, signature_valid: false, ..v };
    assert_eq!(
        judge_validation(&v).err().unwrap().to_string(),
        "WebAssembly module authorization failure: Invalid token signature"
    );
    let v = TokenValidation { signature_valid: true, ..v };
    assert!(judge_validation(&v).is_ok());
    let mut h = host();
    assert!(h.try_add_actor(&bad).unwrap().is_err());
    let forged =
        signed_module(KEY, &[], false, &account(), &account());
    assert_eq!(
        h.try_add_actor(&forged).unwrap().err().unwrap().to_string(),
        "WebAssembly module authorization failure: Invalid token signature"
    );
    assert!(h.try_start_remote_actor("reg/forged", &forged).unwrap().is_none());
    assert_eq!(h.actors().len(), 0);
    // an actor that is in the host already is refused before its token is looked at
    let mut h = host();
    h.try_add_actor(&good).unwrap().unwrap();
    let undated = |a: &SigningKey| {
        let mut claims = ClaimsBuilder::<ActorClaims>::new()
            .issuer(&a.public_key())
            .subject(KEY)
            .with_metadata(ActorClaims::default())
            .build();
        claims.expires = Some(u64::MAX / 2);
        let empty: [u8; 8] = [0, 97, 115, 109, 1, 0, 0, 0];
        Actor::from_slice(&wascap::wasm::embed_claims(&empty, &claims, a).unwrap()).unwrap()
    };
    let undated = undated(&account());
    assert!(try_enforce_validation(&undated.token().jwt).is_none());
    assert!(host().try_add_actor(&undated).is_none());
    assert!(h
        .try_add_actor(&undated)
        .unwrap()
        .err()
        .unwrap()
        .to_string()
        .contains("is already in this host"));
    // a token without a subject is refused whatever else it holds
    let nobody = module("", &[], false);
    assert!(try_enforce_validation(&nobody.token().jwt).unwrap().is_err());
}

#[test]
fn modules_carry_their_claims() {
    let a = module(KEY, &["wascc:http_server"], false);
    assert_eq!(a.public_key(), KEY);
    assert_eq!(a.name(), "test");
    assert_eq!(a.capabilities(), vec!["wascc:http_server".to_string()]);
    assert_eq!(a.tags(), vec!["red".to_string(), "blue".to_string()]);
    assert_eq!(a.issuer(), a.token().claims.issuer);
    let empty: [u8; 8] = [0, 97, 115, 109, 1, 0, 0, 0];
    assert_eq!(
        Actor::from_slice(&empty).err().unwrap().to_string(),
        "WebAssembly module authorization failure: No embedded JWT in actor module"
    );
    assert!(matches!(
        extract_claims(b"nonsense").err().unwrap().kind(),
        ErrorKind::Wascap(_)
    ));
}

#[test]
fn keys_are_recognised() {
    for _ in 0..8 {
        let key = HostKey::new_server();
        assert!(key.public_key().starts_with('N'));
        assert_eq!(key.public_key().len(), 56);
        assert!(key.is_recognised());
        assert_eq!(key.copy().public_key(), key.public_key());
        assert_ne!(HostKey::new_server().public_key(), key.public_key());
    }
}

/// A configuration in binary form with one more entry: lists inside one another.
fn nested_configuration(lists: usize) -> Vec<u8> {
    let mut bytes = vec![0x83, 0xa6];
    bytes.extend_from_slice(b"module");
    bytes.extend_from_slice(&[0xa2, b'M', b'x', 0xa6]);
    bytes.extend_from_slice(b"values");
    bytes.extend_from_slice(&[0x80, 0xa1, b'x']);
    bytes.extend(vec![0x91; lists]);
    bytes.push(0xc0);
    bytes
}

#[test]
fn messages_may_not_ask_for_too_much() {
    assert!(is_readable(&[]));
    assert!(is_readable(&[193]));
    // as deep as can be
    assert_eq!(try_actor_from_config(&nested_configuration(1023)).unwrap(), "Mx");
    assert!(!is_readable(&nested_configuration(1024)));
    assert!(try_actor_from_config(&nested_configuration(300_000)).is_none());
    let mut p = ExtrasCapabilityProvider::new();
    assert!(p.try_handle_call("M1", "RequestGuid", &nested_configuration(300_000)).is_none());
    assert!(p.try_handle_call("M1", "RequestGuid", &nested_configuration(1023)).unwrap().is_err());
    // a message may break off
    assert!(is_readable(&[0xdb, 0, 0, 1]));
    assert!(is_readable(&[0xdb, 0, 0xff, 0xff, 0xff]));
    assert!(p.try_handle_call("M1", "RequestGuid", &[0xdb, 0, 0, 1, 0]).unwrap().is_err());
    // what looks like lists inside a text is none
    let mut text = vec![0xda, 0x10, 0x00];
    text.extend(vec![0x91; 0x1000]);
    assert!(is_readable(&text));
    text[1] = 0;
    assert!(!is_readable(&text));
    // items side by side are not inside one another
    let mut list = vec![0xdc, 0x20, 0x00];
    list.extend(vec![0x90; 0x2000]);
    assert!(is_readable(&list));
    let mut maps = vec![0xdf, 0x00, 0x00, 0x10, 0x00];
    for _ in 0..0x1000 {
        maps.extend_from_slice(&[0xc4, 0x02, 0x91, 0x91, 0x81, 0x01, 0xd4, 0x00, 0x91]);
    }
    assert!(is_readable(&maps));
}

#[test]
fn configurations_survive_the_wire() {
    let cfg = CapabilityConfiguration {
        module: "Mx".to_string(),
        values: config(&[("a", "1"), ("b", "2")]),
    };
    let bytes = cfg.encode();
    let back: wascc_codec::core::CapabilityConfiguration =
        wascc_codec::deserialize(&bytes).unwrap();
    assert_eq!(back.module, "Mx");
    assert_eq!(back.values.len(), 2);
    assert_eq!(back.values["b"], "2");
    let again = CapabilityConfiguration::decode(&bytes).unwrap();
    assert_eq!(again.module, "Mx");
    assert_eq!(again.values.get(&"a".to_string()).unwrap(), "1");
    assert!(CapabilityConfiguration::decode(&[193]).is_err());
    assert_eq!(try_actor_from_config(&bytes).unwrap(), "Mx");
    assert!(try_actor_from_config(&[193]).is_none());
}

#[test]
fn bound_actors_get_the_claims() {
    let key = HostKey::new_server();
    let mut c = claims("Mx", Some(vec!["one".into(), "two".into()]), Some(vec!["t".into()]));
    c.expires = Some(12);
    let inv = gen_config_invocation(
        &key,
        "Mx",
        "wascc:x",
        &c,
        "default",
        config(&[("PORT", "80"), ("__wascc_issuer", "forged")]),
    );
    let cfg: wascc_codec::core::CapabilityConfiguration =
        wascc_codec::deserialize(&inv.msg).unwrap();
    assert_eq!(cfg.module, "Mx");
    assert_eq!(cfg.values["PORT"], "80");
    assert_eq!(cfg.values[wascc_codec::core::CONFIG_WASCC_CLAIMS_ISSUER], "ISSUER");
    assert_eq!(cfg.values[wascc_codec::core::CONFIG_WASCC_CLAIMS_CAPABILITIES], "one,two");
    assert_eq!(cfg.values[wascc_codec::core::CONFIG_WASCC_CLAIMS_NAME], "name");
    assert_eq!(cfg.values[wascc_codec::core::CONFIG_WASCC_CLAIMS_EXPIRES], "12");
    assert_eq!(cfg.values[wascc_codec::core::CONFIG_WASCC_CLAIMS_TAGS], "t");
    assert_eq!(inv.operation, "BindActor");
    assert!(inv.try_validate_antiforgery().unwrap().is_ok());
}

#[test]
fn namespaces_stay_apart() {
    let (one, two) = (Some("system.1"), Some("system.2"));
    assert_ne!(provider_subject(one, "c", "d"), provider_subject(two, "c", "d"));
    assert_ne!(actor_subject(one, "M1"), actor_subject(two, "M1"));
    assert_ne!(
        provider_subject_bound_actor(one, "c", "d", "M1"),
        provider_subject_bound_actor(two, "c", "d", "M1")
    );
    // a namespace that reads like a provider of another one is not kept apart from it
    assert_eq!(
        provider_subject(Some("a.wasmbus.provider.b"), "c", "d"),
        provider_subject(Some("a"), "b", "wasmbus.provider.c.d")
    );
}

#[test]
fn bindings_come_and_go() {
    let mut b: Table<BindingKey, CapabilityConfiguration> = Table::new();
    let cfg = |m: &str| CapabilityConfiguration { module: m.to_string(), values: Table::new() };
    record_binding(&mut b, "M1", "c1", "d", cfg("M1"));
    record_binding(&mut b, "M1", "c2", "d", cfg("M1"));
    record_binding(&mut b, "M2", "c1", "d", cfg("M2"));
    record_binding(&mut b, "M2", "c1", "e", cfg("M2"));
    assert_eq!(b.len(), 4);
    record_binding(&mut b, "M3", "c3", "d", cfg("M3"));
    // to set a binding again replaces its configuration
    let mut values = Table::new();
    values.insert("PORT".to_string(), "80".to_string());
    record_binding(
        &mut b,
        "M3",
        "c3",
        "d",
        CapabilityConfiguration { module: "M3".to_string(), values },
    );
    assert_eq!(b.len(), 5);
    assert_eq!(b.get(&BindingKey::new("M3", "c3", "d")).unwrap().values.len(), 1);
    assert_eq!(b.get(&BindingKey::new("M2", "c1", "e")).unwrap().values.len(), 0);
    remove_binding(&mut b, "M3", "d", "c3");
    assert_eq!(b.len(), 4);
    assert_eq!(
        unsub_all_bindings(&b, None, "c1"),
        vec!["wasmbus.provider.c1.d.M1", "wasmbus.provider.c1.d.M2", "wasmbus.provider.c1.e.M2"]
    );
    assert_eq!(unsub_all_bindings(&b, Some("n"), "c2"), vec!["n.wasmbus.provider.c2.d.M1"]);
    unbind_all_from_cap(&mut b, "c1", "d");
    assert_eq!(b.len(), 2);
    let gone = unbind_actor(&mut b, "M1");
    assert_eq!(gone.len(), 1);
    assert_eq!(gone[0].capid, "c2");
    assert_eq!(b.len(), 1);
    assert_eq!(respond_with_bindings(&b)[0].binding_name, "e");
}

#[test]
fn calls_of_guests_are_judged() {
    struct Deny;
    impl Authorizer for Deny {
        fn can_load(&self, _c: &Claims<ActorMetadata>) -> bool {
            true
        }
        fn can_invoke(&self, _c: &Claims<ActorMetadata>, _t: &WasccEntity, _o: &str) -> bool {
            false
        }
    }
    let key = HostKey::new_server();
    let c = claims("Mx", Some(vec!["wascc:keyvalue".to_string(), KEY.to_string()]), None);
    let call = |ns: &str, bd: &str| {
        wapc_host_callback(&key, &c, Some("ns"), bd, ns, "Op", b"m", &DefaultAuthorizer::new())
    };
    let (subject, inv) = call("wascc:keyvalue", " ").unwrap();
    assert_eq!(subject, "ns.wasmbus.provider.wascc.keyvalue.default.Mx");
    assert_eq!(inv.msg, b"m".to_vec());
    let (subject, _) = call(KEY, "").unwrap();
    assert_eq!(subject, format!("ns.wasmbus.actor.{}", KEY));
    assert_eq!(
        call("wascc:messaging", "b").err().unwrap().to_string(),
        "WebAssembly module authorization failure: Actor Mx attempted to call Op on wascc:messaging,b - PERMISSION DENIED."
    );
    let denied = wapc_host_callback(&key, &c, None, "", "wascc:keyvalue", "Op", b"m", &Deny);
    assert_eq!(
        denied.err().unwrap().to_string(),
        "WebAssembly module authorization failure: Actor Mx attempted to call Capability { capid: \"wascc:keyvalue\", binding: \"default\" } - Authorizer denied access"
    );

    let response = |error: Option<String>| InvocationResponse {
        msg: vec![7],
        error,
        invocation_id: "i".to_string(),
    };
    assert_eq!(finish_callback(Ok(response(None))).unwrap(), vec![7]);
    assert_eq!(
        finish_callback(Ok(response(Some("x".to_string())))).err().unwrap().to_string(),
        "Invocation failure: x"
    );
    let e = finish_callback(Err(errors::new(ErrorKind::MiscHost("x".to_string()))));
    assert!(matches!(e.err().unwrap(), CallError::Host(_)));
}

#[test]
fn descriptors_are_read() {
    let (op, request) = descriptor_request();
    assert_eq!(op, "GetCapabilityDescriptor");
    assert!(!request.is_empty());
    let (caller, op, msg) = description_call();
    assert_eq!((caller.as_str(), op.as_str(), msg.len()), ("system", "GetCapabilityDescriptor", 0));
    let extras = extras_capability().unwrap();
    assert_eq!(extras.id(), "wascc:extras");
    assert_eq!(extras.name(), "waSCC Extras (Internal)");
    assert_eq!(extras.descriptor().supported_operations.len(), 3);
    let bytes = ExtrasCapabilityProvider::new().get_descriptor();
    let d: wascc_codec::capabilities::CapabilityDescriptor =
        wascc_codec::deserialize(&bytes).unwrap();
    assert_eq!(d.id, "wascc:extras");
    assert_eq!(d.version, "0.14.0");
    assert_eq!(d.revision, 2);
    assert_eq!(d.supported_operations[1].name, "RequestRandom");
    assert_eq!(get_descriptor(&bytes).unwrap().supported_operations[1].name, "RequestRandom");
    assert!(get_descriptor(&[193]).is_err());
}

#[test]
fn extras_generate() {
    let mut p = ExtrasCapabilityProvider::new();
    let ask = |guid: bool, sequence: bool, random: bool, min: u32, max: u32| {
        wascc_codec::serialize(GeneratorRequest { guid, sequence, random, min, max }).unwrap()
    };
    let read = |b: Vec<u8>| -> GeneratorResult { wascc_codec::deserialize(&b).unwrap() };
    for i in 0..3 {
        let r = p.try_handle_call("M1", "RequestSequence", &ask(false, true, false, 0, 0));
        assert_eq!(read(r.unwrap().unwrap()).sequence_number, i);
    }
    // the sequence is one for all actors
    let r = p.try_handle_call("M2", "RequestSequence", &ask(false, true, false, 0, 0));
    assert_eq!(read(r.unwrap().unwrap()).sequence_number, 3);
    let r = p.try_handle_call("M1", "RequestSequence", &ask(false, true, false, 0, 0));
    assert_eq!(read(r.unwrap().unwrap()).sequence_number, 4);
    let mut last = ExtrasCapabilityProvider { sequence: u64::MAX };
    assert_eq!(read(last.generate_sequence()).sequence_number, u64::MAX);
    assert_eq!(last.sequence, 0);
    let r = p.try_handle_call("M1", "RequestGuid", &ask(true, false, false, 0, 0));
    let guid = read(r.unwrap().unwrap()).guid.unwrap();
    assert_eq!(guid.len(), 36);
    assert_eq!(guid.matches('-').count(), 4);
    for _ in 0..20 {
        let r = p.try_handle_call("M1", "RequestRandom", &ask(false, false, true, 5, 7));
        let n = read(r.unwrap().unwrap()).random_number;
        assert!(n == 5 || n == 6);
    }
    let r = p.try_handle_call("M1", "RequestRandom", &ask(false, false, false, 5, 7));
    assert_eq!(read(r.unwrap().unwrap()).random_number, 0);
    // an empty range cannot be drawn from
    assert!(p.try_handle_call("M1", "RequestRandom", &ask(false, false, true, 7, 7)).is_none());
    let r = p.try_handle_call("M1", "Nonsense", &[]);
    assert_eq!(r.unwrap().err().unwrap(), "bad dispatch");
    let r = p.try_handle_call("M1", "GetCapabilityDescriptor", &[]);
    assert_eq!(r.unwrap().err().unwrap(), "bad dispatch");
    assert!(p.try_handle_call("system", "GetCapabilityDescriptor", &[]).unwrap().is_ok());
    assert!(p.try_handle_call("M1", "RequestGuid", &[193]).unwrap().is_err());
}

#[test]
fn plugins_are_found() {
    let mut m: PluginManager<u8> = PluginManager::new();
    let cap = |p: u8| NativeCapability {
        plugin: p,
        binding_name: "d".to_string(),
        descriptor: descriptor("c"),
    };
    m.add_plugin(cap(1)).unwrap();
    assert_eq!(
        m.add_plugin(cap(2)).err().unwrap().to_string(),
        "Capability provider error: Duplicate capability ID attempted to register provider: (d,c)"
    );
    let inv = |t: WasccEntity| {
        Invocation::new(&HostKey::new_server(), WasccEntity::Actor("a".into()), t, "Op", vec![])
    };
    match m.handler(&inv(capability("c", "d")), false).unwrap() {
        Handler::Native(p) => assert_eq!(*p, 1),
        Handler::Portable => panic!(),
    }
    assert!(matches!(m.handler(&inv(capability("x", "d")), true), Ok(Handler::Portable)));
    assert_eq!(
        m.handler(&inv(capability("x", "d")), false).err().unwrap().to_string(),
        "Capability provider error: No such capability ID registered as native plug-in or portable provider: (\"d\", \"x\")"
    );
    assert!(m.handler(&inv(WasccEntity::Actor("a".into())), true).is_err());
    assert!(m.register_dispatcher("d", "c", true).is_ok());
    assert_eq!(
        m.register_dispatcher("d", "c", false).err().unwrap().to_string(),
        "Capability provider error: Failed to configure dispatch on provider"
    );
    assert_eq!(
        m.register_dispatcher("d", "x", true).err().unwrap().to_string(),
        "Capability provider error: attempt to register dispatcher for non-existent plugin"
    );
    assert_eq!(m.remove_plugin("d", "c").unwrap().plugin, 1);
    assert!(m.remove_plugin("d", "c").is_none());
}

/// A plugin that tells what it was asked, or that fails.
struct Teller {
    fails: bool,
}

impl Provider for Teller {
    fn handle_call(&self, actor: &String, op: &String, msg: &Vec<u8>) -> Result<Vec<u8>, String> {
        if self.fails {
            Err(format!("{} cannot", actor))
        } else {
            Ok(format!("{} {} {:?}", actor, op, msg).into_bytes())
        }
    }
}

/// A portable provider that sends back what it is sent.
struct Mirror;

impl InvocationHandler for Mirror {
    fn invoke(&self, inv: Invocation) -> InvocationResponse {
        InvocationResponse::success(&inv, inv.msg.clone())
    }
}

#[test]
fn plugins_are_called() {
    let mut m: PluginManager<Teller> = PluginManager::new();
    for (id, fails) in vec![("c", false), ("f", true)] {
        m.add_plugin(NativeCapability {
            plugin: Teller { fails },
            binding_name: "d".to_string(),
            descriptor: descriptor(id),
        })
        .unwrap();
    }
    let inv = |origin: WasccEntity, target: WasccEntity| {
        Invocation::new(&HostKey::new_server(), origin, target, "Op", vec![1, 2])
    };
    let actor = || WasccEntity::Actor("a".into());
    let i = inv(actor(), capability("c", "d"));
    let r = m.call::<Mirror>(&i, None).unwrap();
    assert_eq!(String::from_utf8(r.msg).unwrap(), "a Op [1, 2]");
    assert_eq!(r.error, None);
    assert_eq!(r.invocation_id, i.id);
    // the plugin comes before the route
    let i = inv(capability("x", "y"), capability("c", "d"));
    let r = m.call(&i, Some(&Mirror)).unwrap();
    assert_eq!(String::from_utf8(r.msg).unwrap(), "x Op [1, 2]");
    let r = m.call::<Mirror>(&inv(actor(), capability("f", "d")), None);
    assert_eq!(r.err().unwrap().to_string(), "Error occurred during host call: a cannot");
    let r = m.call(&inv(actor(), capability("c", "other")), Some(&Mirror)).unwrap();
    assert_eq!(r.msg, vec![1, 2]);
    assert!(m.call::<Mirror>(&inv(actor(), capability("c", "other")), None).is_err());
    assert_eq!(
        m.call(&inv(actor(), actor()), Some(&Mirror)).err().unwrap().to_string(),
        "waSCC Host Error: Attempted to invoke a capability provider plugin as though it were an actor. Bad route?"
    );
}

#[test]
fn actors_come_from_gantry() {
    let mut h = host();
    assert_eq!(
        h.add_actor_from_gantry(None).unwrap().err().unwrap().to_string(),
        "waSCC Host Error: No gantry client configured for this host"
    );
    let failed = errors::new(ErrorKind::MiscHost("no reply".to_string()));
    assert_eq!(
        h.add_actor_from_gantry(Some(Err(failed))).unwrap().err().unwrap().to_string(),
        "waSCC Host Error: no reply"
    );
    assert!(h.add_actor_from_gantry(Some(Ok(vec![1, 2]))).unwrap().is_err());
    assert_eq!(h.actors().len(), 0);
    let bytes = module(KEY, &[], false).bytes().clone();
    let start = h.add_actor_from_gantry(Some(Ok(bytes.clone()))).unwrap().unwrap();
    assert!(start.subject.ends_with(KEY));
    assert_eq!(h.actors().len(), 1);
    assert!(h.add_actor_from_gantry(Some(Ok(bytes))).unwrap().is_err());
}

#[test]
fn routes_are_kept() {
    let mut r: Router<u8> = Router::new();
    r.add_route("default", "wascc:x", 1);
    r.add_route(ACTOR_BINDING, "Mx", 2);
    assert_eq!(r.get_route("default", "wascc:x"), Some(&1));
    assert!(r.route_exists(ACTOR_BINDING, "Mx"));
    let caps = r.all_capabilities();
    assert_eq!(caps.len(), 1);
    assert!(caps[0].0 == capability("wascc:x", "default"));
    assert_eq!(caps[0].1, &1);
    assert_eq!(r.terminate_route("default", "wascc:x").unwrap(), 1);
    assert!(r.terminate_route("default", "nope").is_err());
    r.remove_route(ACTOR_BINDING, "Mx");
    assert!(!r.route_exists(ACTOR_BINDING, "Mx"));
    assert_eq!(show_key(&RouteKey::new("a", "b")), "(\"a\", \"b\")");
}

#[test]
fn inproc_bus_subscriptions() {
    let mut bus: InprocBus<u8> = InprocBus::new();
    bus.subscribe("s", 1);
    assert_eq!(bus.invoke("s").unwrap(), &1);
    bus.unsubscribe("s");
    assert_eq!(
        bus.invoke("s").err().unwrap().to_string(),
        "waSCC Host Error: Attempted bus call for s with no subscribers"
    );
    assert_eq!(bus.actor_subject("Mx"), "wasmbus.actor.Mx");
}

#[test]
fn lattice_settings() {
    assert_eq!(get_env(None, "d"), "d");
    assert_eq!(get_env(Some(String::new()), "d"), "d");
    assert_eq!(get_env(Some("v".to_string()), "d"), "v");
    assert_eq!(get_timeout(None), 600);
    assert_eq!(get_timeout(Some(String::new())), 600);
    assert_eq!(get_timeout(Some("1500".to_string())), 1500);
    assert_eq!(get_timeout(Some("+7".to_string())), 7);
    assert_eq!(get_timeout(Some("-7".to_string())), 600);
    assert_eq!(get_timeout(Some("18446744073709551616".to_string())), 600);
    assert_eq!(get_timeout(Some("18446744073709551615".to_string())), u64::MAX);
    assert!(keep_waiting(1, 2));
    assert!(!keep_waiting(1, 3));
    assert!(!keep_waiting(0, 0));
    assert!(check_connection(true).is_ok());
    assert_eq!(
        check_connection(false).err().unwrap().to_string(),
        "waSCC Host Error: Attempted a bus invocation without a live bus connection"
    );
    assert_eq!(
        instance_count_failure("x").to_string(),
        "Error occurred during host call: Failed to determine instance count for actor: x"
    );
}

#[test]
fn claims_are_discovered() {
    let hosts = vec![
        HostActors { host: "N1".to_string(), actors: vec![claims("M1", None, None)] },
        HostActors {
            host: "N2".to_string(),
            actors: vec![claims("M2", None, None), claims("M1", None, None)],
        },
    ];
    let mut local = Table::new();
    local.insert("M3".to_string(), claims("M3", None, None));
    assert_eq!(discover_claims(Some(&hosts), &local, "M2").unwrap().subject, "M2");
    assert_eq!(discover_claims(Some(&hosts), &local, "M3").unwrap().subject, "M3");
    assert!(discover_claims(None, &local, "M1").is_none());
    assert_eq!(instance_count(&hosts, "M1"), 2);
}

#[test]
fn bindings_of_all_hosts() {
    let b = |a: &str| Binding {
        actor: a.to_string(),
        capability_id: "c".to_string(),
        binding_name: "d".to_string(),
        configuration: Table::new(),
    };
    let all = query_bindings(Ok(vec![vec![b("M1")], vec![], vec![b("M2"), b("M3")]])).unwrap();
    let names: Vec<&str> = all.iter().map(|x| x.actor.as_str()).collect();
    assert_eq!(names, vec!["M1", "M2", "M3"]);
    assert_eq!(
        query_bindings(Err("x".to_string())).err().unwrap().to_string(),
        "Error occurred during host call: Failed to query bindings from lattice : x"
    );
}

#[test]
fn control_messages_are_told_apart() {
    let t = |s: &str| control_topic(s, "N1");
    assert_eq!(t("wasmbus.control.N1.actor.launch"), ControlTopic::LaunchActor);
    assert_eq!(t("wasmbus.control.N2.actor.launch"), ControlTopic::Other);
    assert_eq!(t("wasmbus.control.N1.actor.terminate"), ControlTopic::TerminateActor);
    assert_eq!(t("wasmbus.control.N1.provider.launch"), ControlTopic::LaunchProvider);
    assert_eq!(t("wasmbus.control.N1.provider.terminate"), ControlTopic::TerminateProvider);
    assert_eq!(t("wasmbus.control.provauction.request"), ControlTopic::ProviderAuction);
    assert_eq!(t("wasmbus.control.auction.request"), ControlTopic::ActorAuction);
    assert_eq!(inventory_topic("wasmbus.inventory.hosts").unwrap(), InventoryTopic::Hosts);
    assert_eq!(inventory_topic("wasmbus.inventory.nope").err().unwrap(), "Bad inventory topic!");
}

#[test]
fn auctions_and_commands() {
    let mut h = host();
    let a = module(KEY, &[], false);
    let linux = config(&[("hostcore.os", "linux")]);
    let windows = config(&[("hostcore.os", "windows")]);
    assert!(host_satifies_constraints(&h.labels, &linux));
    assert!(!host_satifies_constraints(&h.labels, &config(&[("gpu", "yes")])));
    assert_eq!(h.react(ControlTopic::ActorAuction, "reg/a", &linux), Reaction::Bid);
    assert_eq!(h.react(ControlTopic::ProviderAuction, "reg/a", &windows), Reaction::Ignore);
    assert_eq!(h.react(ControlTopic::TerminateActor, "reg/a", &linux), Reaction::Ignore);
    assert_eq!(h.react(ControlTopic::LaunchActor, "reg/a", &windows), Reaction::Queue);
    assert_eq!(h.react(ControlTopic::Other, "reg/a", &linux), Reaction::Ignore);
    let start = h.try_start_remote_actor("reg/a", &a).unwrap().unwrap();
    assert_eq!(start.subject, format!("wasmbus.actor.{}", KEY));
    assert_eq!(h.actors().len(), 1);
    assert_eq!(h.react(ControlTopic::ActorAuction, "reg/a", &linux), Reaction::Ignore);
    assert_eq!(h.react(ControlTopic::TerminateActor, "reg/a", &linux), Reaction::Queue);
    assert_eq!(h.terminate_actor("reg/a"), start.subject);
    let (subject, _) = h.stop_actor(KEY, Some("reg/a".to_string()));
    assert_eq!(subject, start.subject);
    assert_eq!(h.image_map.len(), 0);
    // one that is not valid leaves its reference behind, and nothing else
    assert!(h.try_start_remote_actor("reg/b", &module(KEY, &[], true)).unwrap().is_none());
    assert_eq!(h.actors().len(), 0);
    assert_eq!(h.image_map.get(&"reg/b".to_string()).unwrap(), KEY);
    assert!(!h.admit_remote_provider("d", &descriptor("c")));
    assert!(h.admit_remote_provider("d", &descriptor("c")));
    let subject = h.start_controlplane();
    assert_eq!(subject, h.disconnect());
    h.stop_controlplane();
    assert_eq!(h.terminators.len(), 0);
}

#[test]
fn control_messages_are_heard() {
    let mut h = host();
    let id = h.id();
    let mine = |verb: &str| format!("wasmbus.control.{}.{}", id, verb);
    let json = |pairs: &[(&str, &str)], constraints: Option<&str>| {
        let mut fields: Vec<String> =
            pairs.iter().map(|(k, v)| format!("\"{}\":\"{}\"", k, v)).collect();
        if let Some(os) = constraints {
            fields.push(format!("\"constraints\":{{\"hostcore.os\":\"{}\"}}", os));
        }
        format!("{{{}}}", fields.join(",")).into_bytes()
    };
    let actor = json(&[("actor_id", "reg/a")], None);
    let provider = json(&[("provider_ref", "reg/p"), ("binding_name", "b")], None);
    let heard = |h: &Host<DefaultAuthorizer>, subject: &str, data: &[u8]| {
        h.hear_control(subject, data).unwrap()
    };
    assert_eq!(
        heard(&h, &mine("actor.launch"), &actor),
        (ControlTopic::LaunchActor, "reg/a".to_string(), Reaction::Queue)
    );
    assert_eq!(
        heard(&h, &mine("provider.launch"), &provider),
        (ControlTopic::LaunchProvider, "reg/p".to_string(), Reaction::Queue)
    );
    assert_eq!(launch_binding(&provider).unwrap(), "b");
    let reply = |topic: ControlTopic| {
        h.reply_to_control(topic, "reg/x").map(|b| String::from_utf8(b).unwrap())
    };
    assert_eq!(
        reply(ControlTopic::LaunchActor).unwrap(),
        format!("{{\"actor_id\":\"reg/x\",\"host\":\"{}\"}}", id)
    );
    assert_eq!(
        reply(ControlTopic::LaunchProvider).unwrap(),
        format!("{{\"provider_ref\":\"reg/x\",\"host\":\"{}\"}}", id)
    );
    assert_eq!(
        reply(ControlTopic::ActorAuction).unwrap(),
        format!("{{\"host_id\":\"{}\"}}", id)
    );
    assert_eq!(
        reply(ControlTopic::ProviderAuction).unwrap(),
        format!("{{\"host_id\":\"{}\",\"provider_ref\":\"reg/x\"}}", id)
    );
    assert!(reply(ControlTopic::TerminateActor).is_none());
    assert!(reply(ControlTopic::TerminateProvider).is_none());
    assert!(launch_binding(&actor).is_err());
    assert_eq!(
        heard(&h, &mine("actor.terminate"), &actor),
        (ControlTopic::TerminateActor, "reg/a".to_string(), Reaction::Ignore)
    );
    assert_eq!(
        heard(&h, &mine("provider.terminate"), &provider),
        (ControlTopic::TerminateProvider, "reg/p".to_string(), Reaction::Ignore)
    );
    let auction = |os: &str| json(&[("actor_id", "reg/a")], Some(os));
    assert_eq!(
        heard(&h, "wasmbus.control.auction.request", &auction("linux")),
        (ControlTopic::ActorAuction, "reg/a".to_string(), Reaction::Bid)
    );
    assert_eq!(
        heard(&h, "wasmbus.control.auction.request", &auction("windows")).2,
        Reaction::Ignore
    );
    let auction = |os: &str| json(&[("provider_ref", "reg/p"), ("binding_name", "b")], Some(os));
    assert_eq!(
        heard(&h, "wasmbus.control.provauction.request", &auction("linux")),
        (ControlTopic::ProviderAuction, "reg/p".to_string(), Reaction::Bid)
    );
    assert_eq!(
        heard(&h, "wasmbus.control.N2.actor.launch", b"whatever"),
        (ControlTopic::Other, String::new(), Reaction::Ignore)
    );
    for (subject, data) in [
        (mine("actor.launch"), &provider),
        (mine("actor.terminate"), &provider),
        (mine("provider.launch"), &actor),
        (mine("provider.terminate"), &actor),
        ("wasmbus.control.auction.request".to_string(), &actor),
        ("wasmbus.control.provauction.request".to_string(), &provider),
    ] {
        assert!(h.hear_control(&subject, data).err().unwrap().contains("missing field"));
    }
    // what is in the host is not bid for, and can be stopped
    h.try_start_remote_actor("reg/a", &module(KEY, &[], false)).unwrap().unwrap();
    assert_eq!(heard(&h, &mine("actor.terminate"), &actor).2, Reaction::Queue);
    let auction = json(&[("actor_id", "reg/a")], Some("linux"));
    assert_eq!(heard(&h, "wasmbus.control.auction.request", &auction).2, Reaction::Ignore);
}

#[test]
fn removed_providers_can_come_back() {
    let mut h = host();
    h.add_native_capability("d", &descriptor("c")).unwrap();
    h.add_native_capability("e", &descriptor("c")).unwrap();
    assert!(h.add_native_capability("d", &descriptor("c")).is_err());
    let start = h.start_provider("c", "d");
    assert_eq!(h.remove_native_capability("c", Some("d".to_string())).unwrap(), start.subject);
    for (actor, binding) in [("M1", "d"), ("M2", "d"), ("M1", "e")] {
        let cfg = CapabilityConfiguration { module: actor.to_string(), values: Table::new() };
        record_binding(&mut h.bindings, actor, "c", binding, cfg);
    }
    let stop = h.stop_native_capability("c", "d");
    assert_eq!(stop.subject, start.subject);
    assert_eq!(stop.private, vec!["wasmbus.provider.c.e.M1"]);
    assert_eq!(h.bindings.len(), 1);
    let listed = |h: &Host<DefaultAuthorizer>, b: &str| {
        h.capabilities().iter().any(|((binding, id), _)| binding == b && id == "c")
    };
    assert!(!listed(&h, "d"));
    assert!(listed(&h, "e"));
    assert!(h.remove_native_capability("c", Some("d".to_string())).is_err());
    h.add_native_capability("d", &descriptor("c")).unwrap();
    assert!(listed(&h, "d"));
}

#[test]
fn inventories() {
    let h = host();
    let p = respond_with_host("N1", None, &h.labels);
    assert_eq!(p.uptime_ms, 0);
    assert_eq!(p.labels.get(&"hostcore.osfamily".to_string()).unwrap(), "unix");
    let caps = respond_with_caps(&h.caps);
    assert_eq!(caps.len(), 1);
    assert_eq!(caps[0].binding_name, "default");
    assert_eq!(caps[0].descriptor.id, "wascc:extras");
}

#[test]
fn failed_checks_are_answered() {
    let inv = sample();
    assert!(reject_or_deliver(&inv, Ok(())).is_none());
    let e = errors::new(ErrorKind::Authorization("bad".to_string()));
    let r = reject_or_deliver(&inv, Err(e)).unwrap();
    assert_eq!(
        r.error.unwrap(),
        "Antiforgery check failure: WebAssembly module authorization failure: bad"
    );
    let e = wascap::jwt::Claims::<ActorClaims>::decode("x").err().unwrap();
    let r = reject_or_deliver(&inv, Err(errors::new(ErrorKind::Wascap(e)))).unwrap();
    assert!(r
        .error
        .unwrap()
        .starts_with("Antiforgery check failure: Embedded JWT failure: "));
}

#[test]
fn threads_follow_up() {
    let key = HostKey::new_server();
    let cfg = CapabilityConfiguration { module: "Mx".to_string(), values: Table::new() };
    let inv = |op: &str, msg: Vec<u8>| {
        Invocation::new(&key, WasccEntity::Actor("system".into()), capability("c", "d"), op, msg)
    };
    let ok = |i: &Invocation| InvocationResponse::success(i, vec![]);
    let bad = |i: &Invocation| InvocationResponse::error(i, "x");
    let bind = inv("BindActor", cfg.encode());
    let remove = inv("RemoveActor", cfg.encode());
    let native = Role::NativeProvider;
    assert!(matches!(try_follow_up(native, &bind, &ok(&bind)), Some(FollowUp::StartBound(a)) if a == "Mx"));
    assert!(matches!(try_follow_up(native, &remove, &ok(&remove)), Some(FollowUp::StopBound(a)) if a == "Mx"));
    assert!(matches!(try_follow_up(native, &bind, &bad(&bind)), Some(FollowUp::Nothing)));
    assert!(matches!(
        try_follow_up(Role::PortableProvider, &bind, &ok(&bind)),
        Some(FollowUp::StartBoundPortable)
    ));
    assert!(matches!(try_follow_up(Role::Actor, &bind, &ok(&bind)), Some(FollowUp::Nothing)));
    let junk = inv("BindActor", vec![193]);
    assert!(try_follow_up(native, &junk, &ok(&junk)).is_none());
}

#[test]
fn dispatchers_address_actors() {
    let d = WasccNativeDispatcher::new(HostKey::new_server(), Some("ns".into()), "c", "d");
    let (subject, inv) = d.dispatch("Mx", "Op", b"m");
    assert_eq!(subject, "ns.wasmbus.actor.Mx");
    assert!(inv.origin == capability("c", "d"));
    assert!(inv.try_validate_antiforgery().unwrap().is_ok());
}

#[test]
fn labels_are_set_once() {
    let b = HostBuilder::new("arm", "macos", "unix", None)
        .with_label("a", "1")
        .with_label("a", "2")
        .with_label("hostcore.arch", "FOOBAR")
        .with_lattice_namespace("MiXed");
    assert_eq!(b.ns, Some("mixed".to_string()));
    let mut h = b.build();
    let get = |h: &Host<DefaultAuthorizer>, k: &str| h.labels.get(&k.to_string()).unwrap().clone();
    assert_eq!(get(&h, "a"), "1");
    assert_eq!(get(&h, "hostcore.arch"), "arm");
    let manifest = HostManifest {
        labels: config(&[("a", "3"), ("b", "4"), ("hostcore.os", "x")]),
        actors: vec![KEY.to_string(), "./a.wasm".to_string()],
        capabilities: vec![Capability { path: "lib.so".to_string(), binding_name: None }],
        bindings: vec![BindingEntry {
            actor: KEY.to_string(),
            capability: "c".to_string(),
            binding: None,
            values: None,
        }],
    };
    let mut files = Table::new();
    files.insert("./a.wasm".to_string(), ());
    files.insert("lib.so".to_string(), ());
    let steps = h.apply_manifest(manifest, &files, true);
    assert_eq!(get(&h, "a"), "3");
    assert_eq!(get(&h, "b"), "4");
    assert_eq!(get(&h, "hostcore.os"), "macos");
    assert_eq!(steps.len(), 4);
    assert!(matches!(&steps[0], ManifestStep::AddActorFromGantry(k) if k == KEY));
    assert!(matches!(&steps[1], ManifestStep::AddActorFile(f) if f == "./a.wasm"));
    assert!(matches!(&steps[2], ManifestStep::AddCapability(c) if c.path == "lib.so"));
    assert!(matches!(&steps[3], ManifestStep::SetBinding { actor, .. } if actor == KEY));
    assert!(matches!(
        locate_actor("r/x".into(), false, true),
        ManifestStep::AddActorFromRegistry(_)
    ));
    assert!(matches!(
        locate_actor(KEY.into(), false, false),
        ManifestStep::AddActorFromRegistry(_)
    ));
    assert!(matches!(locate_actor(KEY.into(), true, true), ManifestStep::AddActorFile(_)));
    let cap = Capability { path: "r/c".to_string(), binding_name: None };
    assert!(matches!(
        locate_capability(cap, false),
        ManifestStep::AddCapabilityFromRegistry(c) if c.path == "r/c"
    ));
    assert_eq!(HostManifest::format(Some("YAML")), ManifestFormat::Yaml);
    assert_eq!(HostManifest::format(Some("json")), ManifestFormat::Json);
    assert_eq!(HostManifest::format(None), ManifestFormat::Yaml);
}

#[test]
fn actors_are_found_by_tag() {
    let mut h = host();
    h.try_add_actor(&module(KEY, &[], false)).unwrap().unwrap();
    let tags = |t: &[&str]| h.actors_by_tag(&t.iter().map(|x| x.to_string()).collect());
    assert_eq!(tags(&["red", "blue"]), vec![KEY.to_string()]);
    assert_eq!(tags(&["red", "green"]).len(), 0);
    assert_eq!(tags(&[]), vec![KEY.to_string()]);
    // no tag is asked for, so an actor without any is found too
    register_claims(&mut h.claims, "Mx", claims("Mx", None, None));
    let tags = |t: &[&str]| h.actors_by_tag(&t.iter().map(|x| x.to_string()).collect());
    assert_eq!(tags(&[]), vec![KEY.to_string(), "Mx".to_string()]);
    assert_eq!(tags(&["red"]), vec![KEY.to_string()]);
}

#[test]
fn shutdown_needs_running_providers() {
    let h = host();
    // the extras provider is there, but its thread was never started
    let plan = h.shutdown();
    assert_eq!(plan.providers.len(), 0);
    assert_eq!(
        plan.result.err().unwrap().to_string(),
        "waSCC Host Error: No such capability"
    );
    assert!(h.remove_native_capability("wascc:extras", None).is_err());
}

#[test]
fn updates_carry_the_new_module() {
    let h = host();
    let a = module(KEY, &[], false);
    let (subject, inv) = h.replace_actor(&a);
    assert!(is_live_update(Role::Actor, &inv));
    assert!(!is_live_update(Role::NativeProvider, &inv));
    assert!(!is_live_update(Role::Actor, &sample()));
    assert_eq!(subject, format!("wasmbus.actor.{}", KEY));
    assert_eq!(inv.operation, "PerformLiveUpdate");
    assert_eq!(&inv.msg, a.bytes());
    let r = Host::<DefaultAuthorizer>::finish_replace(Ok(InvocationResponse::error(&inv, "x")));
    assert!(r.is_ok());
    let reply = Ok(InvocationResponse::error(&inv, "x"));
    assert_eq!(
        Host::<DefaultAuthorizer>::finish_remove_binding(reply).err().unwrap().to_string(),
        "Error occurred during host call: Failed to remove binding: x"
    );
}

#[test]
fn registries() {
    assert_eq!(image_reference("reg.io/x:1").unwrap(), "reg.io/x:1");
    assert_eq!(
        image_reference("x").err().unwrap().to_string(),
        "waSCC Host Error: Failed to parse OCI distribution reference: Failed to parse reference string 'x'. Expected at least one slash (/)"
    );
    assert!(matches!(registry_auth(Some("u".into()), None), RegistryAuth::Anonymous));
    assert!(matches!(registry_auth(None, Some("p".into())), RegistryAuth::Anonymous));
    assert!(matches!(
        registry_auth(Some("u".into()), Some("p".into())),
        RegistryAuth::Basic(u, p) if u == "u" && p == "p"
    ));
    assert_eq!(fetch_oci_bytes(Ok(vec![1])).unwrap(), vec![1]);
    assert_eq!(
        fetch_oci_bytes(Err("x".into())).err().unwrap().to_string(),
        "waSCC Host Error: Failed to fetch OCI bytes"
    );
    let a = module(KEY, &[], false);
    assert_eq!(fetch_actor(Ok(a.bytes().clone())).unwrap().public_key(), KEY);
    assert!(fetch_actor(Ok(vec![1])).is_err());
    assert_eq!(provider_target(&host().labels), "x86_64-linux");
    assert_eq!(provider_library(Some(vec![1]), "t").unwrap(), vec![1]);
    assert!(provider_library(None, "t")
        .err()
        .unwrap()
        .to_string()
        .ends_with("No binary found in provider archive for t"));
    assert!(check_provider_claims(true, "r").is_ok());
    assert!(check_provider_claims(false, "r")
        .err()
        .unwrap()
        .to_string()
        .ends_with("No embedded claims found in provider archive for r"));
    assert!(archive_failure("x").to_string().ends_with("Failed to load provider archive: x"));
}

#[test]
fn texts_are_taken_apart() {
    assert_eq!(split_once("a!b!c", '!'), ("a".to_string(), Some("b!c".to_string())));
    assert_eq!(split_once("abc", '!'), ("abc".to_string(), None));
    assert_eq!(join(&vec!["a".to_string(), "b".to_string()], ", "), "a, b");
    assert_eq!(frame("ab"), "2:ab");
    assert_eq!(frame(""), "0:");
    assert!(is_blank(" \t\u{a0}\u{2003}\u{3000}") && is_blank(""));
    assert!(!is_blank(" x") && !is_blank("\u{200b}"));
    for c in ('\0'..char::MAX).filter(|c| *c < '\u{3100}') {
        assert_eq!(is_blank(&c.to_string()), c.is_whitespace());
    }
    assert_eq!(decimal_text(0), "0");
    assert_eq!(decimal_text(u64::MAX), u64::MAX.to_string());
    assert_eq!(parse_u64(""), None);
    assert_eq!(parse_u64("+"), None);
    assert_eq!(parse_u64("012"), Some(12));
    assert!(contains("abc", "bc") && !contains("abc", "ac") && contains("abc", ""));
    assert!(ends_with("abc", "bc") && !ends_with("bc", "abc"));
}

#[test]
fn tables_keep_their_entries() {
    let mut t: Table<String, u8> = Table::new();
    t.insert("a".to_string(), 1);
    t.insert("b".to_string(), 2);
    t.insert("a".to_string(), 3);
    assert_eq!(t.len(), 2);
    assert_eq!(t.get(&"a".to_string()), Some(&3));
    assert_eq!(t.remove(&"a".to_string()), Some(3));
    assert_eq!(t.remove(&"a".to_string()), None);
    assert_eq!(t.key_at(0), "b");
    assert_eq!(t.value_at(0), &2);
}
