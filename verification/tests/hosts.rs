//! Whole hosts, alone and in a lattice, with guests and plugins that stand for the ones
//! that a network and a WebAssembly engine would give.
use std::cell::{Cell, RefCell};
use std::collections::HashMap;
use std::rc::Rc;

use wascap::jwt::{Actor as ActorClaims, ClaimsBuilder};
use wascap::prelude::KeyPair as SigningKey;

use wascc_host::actor::Actor;
use wascc_host::authz::Authorizer;
use wascc_host::bus::inproc::InprocBus;
use wascc_host::bus::lattice::{
    instance_count as count_instances, respond_with_actors, respond_with_bindings,
    respond_with_host, try_handle_invocation, BusEvent, HostActors, HostProfile,
};
use wascc_host::bus::ns_ref;
use wascc_host::capability::NativeCapability;
use wascc_host::claims::{ActorMetadata, Claims};
use wascc_host::codec::{
    CapabilityConfiguration, OP_BIND_ACTOR, OP_GET_CAPABILITY_DESCRIPTOR, OP_REMOVE_ACTOR,
};
use wascc_host::dispatch::{finish_dispatch, WasccNativeDispatcher};
use wascc_host::entity::WasccEntity;
use wascc_host::errors::Error;
use wascc_host::extras::extras_capability;
use wascc_host::inthost::{Invocation, InvocationResponse};
use wascc_host::messages::{deconfigure_actor, finish_callback, wapc_host_callback};
use wascc_host::middleware::{
    guest_response, invoke_actor, invoke_capability, provider_response, InvocationHandler,
    Middleware, MiddlewareResponse,
};
use wascc_host::plugins::{caller, finish_call, Handler, PluginManager};
use wascc_host::runtime::{Host, HostBuilder};
use wascc_host::spawns::{
    reestablish_bindings, refuse_unbound, try_follow_up, FollowUp, Role,
};
use wascc_host::table::Table;

const ECHO: &str = "MDFD7XZ5KBOPLPHQKHJEMPR54XIW6RAG5D7NNKN22NP7NSEWNTJZP7JN";
const ECHO2: &str = "MB4OLDIC3TCZ4Q4TGGOVAZC43VXFE2JQVRAXQMQFXUCREOOFEKOKZTY2";
const KVCOUNTER: &str = "MASCXFM4R6X63UD5MSCDZYCJNPBVSIU6RKMXUPXRKAOSBQ6UY3VT3NPZ";
const DUMMY: &str = "MD3U6BFGA5LT7VUQK77247Z27XF3NBCSHXTFSZIIVLG5NYVK275I4VQX";

const ARCH: &str = "x86_64";
const OS: &str = "linux";
const FAMILY: &str = "unix";

/// What an actor's module does.
trait Guest {
    fn call(&self, ctx: &Context, op: &str, msg: &[u8]) -> Result<Vec<u8>, String>;
}

/// What a capability provider's library does.
trait Provider {
    fn capid(&self) -> &str;
    fn call(&self, actor: &str, op: &str, msg: &[u8]) -> Result<Vec<u8>, String>;
    fn actor_on(&self, _port: u16) -> Option<String> {
        None
    }
}

struct Echo;

impl Guest for Echo {
    fn call(&self, _ctx: &Context, _op: &str, msg: &[u8]) -> Result<Vec<u8>, String> {
        Ok(msg.to_vec())
    }
}

struct KvCounter;

impl Guest for KvCounter {
    fn call(&self, ctx: &Context, _op: &str, msg: &[u8]) -> Result<Vec<u8>, String> {
        let key = String::from_utf8(msg.to_vec()).unwrap().replace("/", ":");
        let count = ctx.host_call("default", "wascc:keyvalue", "Add", key.as_bytes())?;
        Ok(format!("{{\"counter\":{}}}", String::from_utf8(count).unwrap()).into_bytes())
    }
}

struct DummyActor;

impl Guest for DummyActor {
    fn call(&self, ctx: &Context, _op: &str, _msg: &[u8]) -> Result<Vec<u8>, String> {
        match ctx.host_call(
            "fs_host_error_test_binding",
            "wascc:blobstore",
            "RemoveContainer",
            b"dummy_container_removal",
        ) {
            Ok(_) => panic!("Expected the call to return an error"),
            Err(e) => Err(format!("{}: THIS IS THE WAY", e)),
        }
    }
}

/// An HTTP server: it remembers which actor listens on which port.
struct HttpServer {
    ports: RefCell<HashMap<u16, String>>,
}

impl Provider for HttpServer {
    fn capid(&self) -> &str {
        "wascc:http_server"
    }

    fn call(&self, actor: &str, op: &str, msg: &[u8]) -> Result<Vec<u8>, String> {
        if op == OP_GET_CAPABILITY_DESCRIPTOR {
            return Ok(descriptor("wascc:http_server"));
        }
        assert_eq!(actor, "system");
        let config = CapabilityConfiguration::decode(msg)?;
        let mut ports = self.ports.borrow_mut();
        if op == OP_BIND_ACTOR {
            let port = config.values.get(&"PORT".to_string()).unwrap().parse().unwrap();
            ports.insert(port, config.module);
        } else {
            ports.retain(|_, a| *a != config.module);
        }
        Ok(vec![])
    }

    fn actor_on(&self, port: u16) -> Option<String> {
        self.ports.borrow().get(&port).cloned()
    }
}

/// A key-value store: its counters are shared by all its instances, as with a server
/// behind them.
struct KeyValue {
    store: Rc<RefCell<HashMap<String, i64>>>,
    bound: RefCell<HashMap<String, String>>,
}

impl Provider for KeyValue {
    fn capid(&self) -> &str {
        "wascc:keyvalue"
    }

    fn call(&self, actor: &str, op: &str, msg: &[u8]) -> Result<Vec<u8>, String> {
        if op == OP_GET_CAPABILITY_DESCRIPTOR {
            return Ok(descriptor("wascc:keyvalue"));
        }
        if op == OP_BIND_ACTOR || op == OP_REMOVE_ACTOR {
            let config = CapabilityConfiguration::decode(msg)?;
            if op == OP_BIND_ACTOR {
                let url = config.values.get(&"URL".to_string()).unwrap().clone();
                self.bound.borrow_mut().insert(config.module, url);
            } else {
                self.bound.borrow_mut().remove(&config.module);
            }
            return Ok(vec![]);
        }
        if !self.bound.borrow().contains_key(actor) {
            return Err("unbound actor".to_string());
        }
        let mut store = self.store.borrow_mut();
        let n = store.entry(String::from_utf8(msg.to_vec()).unwrap()).or_insert(0);
        *n += 1;
        Ok(n.to_string().into_bytes())
    }
}

struct DummyFs;

impl Provider for DummyFs {
    fn capid(&self) -> &str {
        "wascc:blobstore"
    }

    fn call(&self, _actor: &str, op: &str, msg: &[u8]) -> Result<Vec<u8>, String> {
        if op == OP_GET_CAPABILITY_DESCRIPTOR {
            Ok(descriptor("wascc:blobstore"))
        } else if op == OP_BIND_ACTOR || op == OP_REMOVE_ACTOR {
            Ok(vec![])
        } else if op == "RemoveContainer" {
            Err(String::from_utf8(msg.to_vec()).unwrap())
        } else {
            Err("bad dispatch".to_string())
        }
    }
}

struct Messaging;

impl Provider for Messaging {
    fn capid(&self) -> &str {
        "wascc:messaging"
    }

    fn call(&self, _actor: &str, op: &str, _msg: &[u8]) -> Result<Vec<u8>, String> {
        if op == OP_GET_CAPABILITY_DESCRIPTOR {
            Ok(descriptor("wascc:messaging"))
        } else {
            Ok(vec![])
        }
    }
}

struct Extras(RefCell<wascc_host::extras::ExtrasCapabilityProvider>);

impl Provider for Extras {
    fn capid(&self) -> &str {
        "wascc:extras"
    }

    fn call(&self, actor: &str, op: &str, msg: &[u8]) -> Result<Vec<u8>, String> {
        self.0.borrow_mut().try_handle_call(actor, op, msg).unwrap()
    }
}

fn descriptor(capid: &str) -> Vec<u8> {
    wascc_codec::serialize(
        wascc_codec::capabilities::CapabilityDescriptor::builder()
            .id(capid)
            .name("Test Provider")
            .long_description("A provider for tests")
            .version("0.0.1")
            .revision(1)
            .build(),
    )
    .unwrap()
}

/// An authorizer that denies loading, or invoking, or neither.
struct DenyAuthorizer {
    deny_load: bool,
    deny_invoke: bool,
}

impl Authorizer for DenyAuthorizer {
    fn can_load(&self, _claims: &Claims<ActorMetadata>) -> bool {
        !self.deny_load
    }

    fn can_invoke(
        &self,
        _claims: &Claims<ActorMetadata>,
        _target: &WasccEntity,
        _operation: &str,
    ) -> bool {
        !self.deny_invoke
    }
}

/// No middleware is ever added here: this gives the empty list its type.
struct Unused;

impl<H: InvocationHandler> Middleware<H> for Unused {
    fn actor_pre_invoke(&self, inv: Invocation) -> Result<Invocation, Error> {
        Ok(inv)
    }
    fn actor_invoke(&self, inv: Invocation, handler: &H) -> Result<MiddlewareResponse, Error> {
        Ok(MiddlewareResponse::Continue(handler.invoke(inv)))
    }
    fn actor_post_invoke(&self, r: InvocationResponse) -> Result<InvocationResponse, Error> {
        Ok(r)
    }
    fn capability_pre_invoke(&self, inv: Invocation) -> Result<Invocation, Error> {
        Ok(inv)
    }
    fn capability_invoke(&self, inv: Invocation, handler: &H) -> Result<MiddlewareResponse, Error> {
        Ok(MiddlewareResponse::Continue(handler.invoke(inv)))
    }
    fn capability_post_invoke(&self, r: InvocationResponse) -> Result<InvocationResponse, Error> {
        Ok(r)
    }
}

/// Who listens on a subject.
#[derive(Clone)]
enum Listener {
    Actor(String),
    Provider(String, String),
    Bound(String, String, String),
}

struct Node {
    host: Host<DenyAuthorizer>,
    bus: InprocBus<Listener>,
    plugins: PluginManager<Rc<dyn Provider>>,
    guests: HashMap<String, Rc<dyn Guest>>,
    events: Vec<BusEvent>,
}

/// The hosts on one message bus.
struct Network {
    nodes: RefCell<Vec<Node>>,
    turn: Cell<usize>,
    lattice: bool,
}

/// A guest on a host.
struct Context<'a> {
    net: &'a Network,
    node: usize,
    pk: String,
}

impl<'a> Context<'a> {
    fn host_call(&self, binding: &str, ns: &str, op: &str, msg: &[u8]) -> Result<Vec<u8>, String> {
        let call = {
            let nodes = self.net.nodes.borrow();
            let host = &nodes[self.node].host;
            let claims = host.claims_for_actor(&self.pk).unwrap();
            wapc_host_callback(
                &host.key,
                &claims,
                ns_ref(&host.ns),
                binding,
                ns,
                op,
                msg,
                &host.authorizer,
            )
        };
        match call {
            Err(e) => Err(e.to_string()),
            Ok((subject, inv)) => finish_callback(self.net.request(self.node, &subject, inv))
                .map_err(|e| e.to_string()),
        }
    }
}

impl<'a> InvocationHandler for Context<'a> {
    fn invoke(&self, inv: Invocation) -> InvocationResponse {
        let guest = self.net.nodes.borrow()[self.node].guests[&self.pk].clone();
        guest_response(&inv, guest.call(self, &inv.operation, &inv.msg))
    }
}

/// The plugins of a host.
struct Plugins<'a> {
    net: &'a Network,
    node: usize,
}

impl<'a> InvocationHandler for Plugins<'a> {
    fn invoke(&self, inv: Invocation) -> InvocationResponse {
        let plugin = {
            let nodes = self.net.nodes.borrow();
            match nodes[self.node].plugins.handler(&inv, false) {
                Ok(Handler::Native(p)) => p.clone(),
                Ok(Handler::Portable) => unreachable!(),
                Err(e) => return provider_response(&inv, Err(e.to_string())),
            }
        };
        let result = finish_call(&inv, plugin.call(&caller(&inv), &inv.operation, &inv.msg));
        provider_response(&inv, result.map_err(|e| e.to_string()))
    }
}

impl Network {
    fn new(lattice: bool) -> Network {
        Network { nodes: RefCell::new(vec![]), turn: Cell::new(0), lattice }
    }

    fn builder(deny_load: bool, deny_invoke: bool) -> HostBuilder<DenyAuthorizer> {
        HostBuilder::new(ARCH, OS, FAMILY, None)
            .with_authorizer(DenyAuthorizer { deny_load, deny_invoke })
    }

    fn add_host(&self, builder: HostBuilder<DenyAuthorizer>) -> usize {
        let mut host = builder.build();
        let mut plugins: PluginManager<Rc<dyn Provider>> = PluginManager::new();
        let mut bus = InprocBus::new();
        let mut events = vec![host.started()];
        let extras = extras_capability().unwrap();
        let start = host.start_provider(&extras.descriptor.id, &extras.binding_name);
        bus.subscribe(
            &start.subject,
            Listener::Provider(extras.descriptor.id.clone(), extras.binding_name.clone()),
        );
        events.push(start.loaded);
        plugins
            .add_plugin(NativeCapability {
                plugin: Rc::new(Extras(RefCell::new(extras.plugin))),
                binding_name: extras.binding_name,
                descriptor: extras.descriptor,
            })
            .unwrap();
        let mut nodes = self.nodes.borrow_mut();
        nodes.push(Node { host, bus, plugins, guests: HashMap::new(), events });
        nodes.len() - 1
    }

    fn add_actor(&self, node: usize, actor: &Actor, guest: Rc<dyn Guest>) -> Result<(), Error> {
        let mut nodes = self.nodes.borrow_mut();
        let n = &mut nodes[node];
        let start = n.host.try_add_actor(actor).unwrap()?;
        n.events.push(start.starting);
        n.bus.subscribe(&start.subject, Listener::Actor(actor.public_key()));
        n.guests.insert(actor.public_key(), guest);
        n.events.push(start.started);
        assert!(!start.binds_extras);
        Ok(())
    }

    fn add_native_capability(
        &self,
        node: usize,
        plugin: Rc<dyn Provider>,
        binding: Option<String>,
    ) -> Result<(), Error> {
        let description = plugin.call("system", OP_GET_CAPABILITY_DESCRIPTOR, &[]).unwrap();
        let capid = plugin.capid().to_string();
        let cap = NativeCapability::from_instance(plugin, binding, &description)?;
        assert_eq!(cap.id(), capid);
        let name = cap.binding_name.clone();
        {
            let mut nodes = self.nodes.borrow_mut();
            let n = &mut nodes[node];
            n.host.add_native_capability(&name, &cap.descriptor)?;
            n.plugins.add_plugin(cap)?;
            let start = n.host.start_provider(&capid, &name);
            n.bus.subscribe(&start.subject, Listener::Provider(capid.clone(), name.clone()));
            n.events.push(start.loaded);
        }
        if self.lattice {
            let invs = {
                let nodes = self.nodes.borrow();
                let host = &nodes[node].host;
                let mut known = vec![];
                for other in nodes.iter().filter(|o| o.host.ns == host.ns) {
                    known.extend(respond_with_bindings(&other.host.bindings));
                }
                reestablish_bindings(&host.key, &known, &capid, &name)
            };
            for (actor, inv) in invs {
                let handler = Plugins { net: self, node };
                let mids: Vec<Unused> = vec![];
                if invoke_capability(&mids, inv, &handler).unwrap().error.is_none() {
                    self.start_bound(node, &capid, &name, &actor);
                }
            }
        }
        Ok(())
    }

    fn start_bound(&self, node: usize, capid: &str, binding: &str, actor: &str) {
        let mut nodes = self.nodes.borrow_mut();
        let n = &mut nodes[node];
        let subject = n.host.start_bound(capid, binding, actor);
        n.bus.subscribe(
            &subject,
            Listener::Bound(capid.to_string(), binding.to_string(), actor.to_string()),
        );
    }

    fn host_actors(&self, node: usize) -> Vec<HostActors> {
        let nodes = self.nodes.borrow();
        let ns = &nodes[node].host.ns;
        nodes
            .iter()
            .filter(|o| o.host.ns == *ns)
            .map(|o| HostActors {
                host: o.host.id(),
                actors: respond_with_actors(&o.host.claims),
            })
            .collect()
    }

    fn set_binding(
        &self,
        node: usize,
        actor: &str,
        capid: &str,
        binding: Option<String>,
        config: Table<String, String>,
    ) -> Result<(), Error> {
        let hosts = if self.lattice { Some(self.host_actors(node)) } else { None };
        let request = self.nodes.borrow()[node].host.set_binding(
            hosts.as_ref(),
            actor,
            capid,
            binding,
            &config,
        )?;
        let reply = self.request(node, &request.subject, request.invocation);
        let mut nodes = self.nodes.borrow_mut();
        let event =
            nodes[node].host.finish_set_binding(actor, capid, &request.binding, config, reply)?;
        nodes[node].events.push(event);
        Ok(())
    }

    /// Sends an invocation on a subject: all instances of a provider get it, and one of
    /// those that share any other subject.
    fn request(
        &self,
        from: usize,
        subject: &str,
        inv: Invocation,
    ) -> Result<InvocationResponse, Error> {
        let found: Vec<(usize, Listener)> = {
            let nodes = self.nodes.borrow();
            let ns = &nodes[from].host.ns;
            (0..nodes.len())
                .filter(|i| nodes[*i].host.ns == *ns)
                .filter_map(|i| nodes[i].bus.invoke(subject).ok().map(|l| (i, l.clone())))
                .collect()
        };
        if found.is_empty() {
            return Err(self.nodes.borrow()[from].bus.invoke(subject).err().unwrap());
        }
        if let Listener::Provider(_, _) = found[0].1 {
            let mut first = None;
            for (i, l) in found {
                let r = self.deliver(i, &l, inv.clone());
                first = first.or(Some(r));
            }
            Ok(first.unwrap())
        } else {
            let turn = self.turn.get();
            self.turn.set(turn + 1);
            let (i, l) = found[turn % found.len()].clone();
            Ok(self.deliver(i, &l, inv))
        }
    }

    fn deliver(&self, node: usize, listener: &Listener, inv: Invocation) -> InvocationResponse {
        if let Some(refusal) = try_handle_invocation(&inv).unwrap() {
            return refusal;
        }
        let role = match listener {
            Listener::Actor(_) => Role::Actor,
            Listener::Provider(_, _) => Role::NativeProvider,
            Listener::Bound(_, _, _) => Role::BoundProvider,
        };
        let mids: Vec<Unused> = vec![];
        let response = match refuse_unbound(role, &inv) {
            Some(r) => r,
            None => match listener {
                Listener::Actor(pk) => {
                    let guest = Context { net: self, node, pk: pk.clone() };
                    invoke_actor(&mids, inv.clone(), &guest).unwrap()
                }
                _ => {
                    let plugins = Plugins { net: self, node };
                    invoke_capability(&mids, inv.clone(), &plugins).unwrap()
                }
            },
        };
        if let Listener::Provider(capid, binding) = listener {
            match try_follow_up(role, &inv, &response).unwrap() {
                FollowUp::StartBound(actor) => self.start_bound(node, capid, binding, &actor),
                FollowUp::StopBound(actor) => self.stop_bound(node, capid, binding, &actor),
                _ => {}
            }
        }
        response
    }

    fn stop_bound(&self, node: usize, capid: &str, binding: &str, actor: &str) {
        let mut nodes = self.nodes.borrow_mut();
        let n = &mut nodes[node];
        let signal = n.host.signal_bound(capid, binding, actor);
        let (subject, event) = n.host.stop_bound(capid, binding, actor);
        assert_eq!(signal, subject);
        n.bus.unsubscribe(&subject);
        n.events.push(event);
    }

    fn remove_actor(&self, node: usize, pk: &str) {
        {
            let mut nodes = self.nodes.borrow_mut();
            let n = &mut nodes[node];
            let signal = n.host.remove_actor(pk);
            let (subject, event) = n.host.stop_actor(pk, None);
            assert_eq!(signal, subject);
            n.bus.unsubscribe(&subject);
            n.guests.remove(pk);
            n.events.push(event);
        }
        let instances =
            if self.lattice { Some(count_instances(&self.host_actors(node), pk)) } else { None };
        let notices = {
            let mut nodes = self.nodes.borrow_mut();
            let host = &mut nodes[node].host;
            let ns = host.ns.clone();
            deconfigure_actor(&host.key, ns_ref(&ns), &mut host.bindings, pk, instances)
        };
        for (subject, inv) in notices {
            let _ = self.request(node, &subject, inv);
        }
    }

    fn shutdown(&self, node: usize) -> Result<(), Error> {
        let (plan, actors, caps) = {
            let nodes = self.nodes.borrow();
            let host = &nodes[node].host;
            (host.shutdown(), host.actors(), host.capabilities())
        };
        assert_eq!(plan.actors.len(), actors.len());
        for (pk, _) in actors {
            self.remove_actor(node, &pk);
        }
        assert_eq!(plan.providers.len(), caps.len());
        for ((binding, capid), _) in caps {
            let mut nodes = self.nodes.borrow_mut();
            let n = &mut nodes[node];
            let stop = n.host.stop_native_capability(&capid, &binding);
            for subject in stop.private {
                n.bus.unsubscribe(&subject);
            }
            n.bus.unsubscribe(&stop.subject);
            assert!(n.plugins.remove_plugin(&binding, &capid).is_some());
            n.events.push(stop.removed);
        }
        let mut nodes = self.nodes.borrow_mut();
        let event = nodes[node].host.stopped();
        nodes[node].events.push(event);
        plan.result
    }

    fn call_actor(&self, node: usize, pk: &str, op: &str, msg: &[u8]) -> Result<Vec<u8>, Error> {
        let (subject, inv) = self.nodes.borrow()[node].host.call_actor(pk, op, msg)?;
        Host::<DenyAuthorizer>::finish_call_actor(self.request(node, &subject, inv))
    }

    /// A request to the HTTP server on a port: it dispatches to the actor that listens
    /// there.
    fn http_get(&self, port: u16, request: &str) -> Result<String, String> {
        let (node, subject, inv) = {
            let nodes = self.nodes.borrow();
            let mut hit = None;
            for (i, n) in nodes.iter().enumerate() {
                for ((binding, capid), _) in n.host.capabilities() {
                    let key = wascc_host::bindings::RouteKey::new(&binding, &capid);
                    let plugin = &n.plugins.plugins.get(&key).unwrap().plugin;
                    if let Some(actor) = plugin.actor_on(port) {
                        let d = WasccNativeDispatcher::new(
                            n.host.key.copy(),
                            n.host.ns.clone(),
                            &capid,
                            &binding,
                        );
                        let (subject, inv) = d.dispatch(&actor, "HandleRequest", request.as_bytes());
                        hit = Some((i, subject, inv));
                    }
                }
            }
            hit.ok_or("connection refused".to_string())?
        };
        finish_dispatch(self.request(node, &subject, inv))
            .map(|v| String::from_utf8(v).unwrap())
            .map_err(|e| e.to_string())
    }

    /// The profiles of the hosts in a namespace.
    fn hosts(&self, ns: &str) -> Vec<HostProfile> {
        self.nodes
            .borrow()
            .iter()
            .filter(|n| n.host.ns == Some(ns.to_string()))
            .map(|n| respond_with_host(&n.host.id(), Some(500), &n.host.labels))
            .collect()
    }

    fn id(&self, node: usize) -> String {
        self.nodes.borrow()[node].host.id()
    }

    fn actor_count(&self, node: usize) -> usize {
        self.nodes.borrow()[node].host.actors().len()
    }
}

/// A key pair that is recognised by its public key.
fn account() -> SigningKey {
    loop {
        let key = SigningKey::new_account();
        if SigningKey::from_public_key(&key.public_key()).is_ok() {
            return key;
        }
    }
}

/// A module without any code, whose token carries a public key and capabilities.
fn module(subject: &str, caps: &[&str]) -> Actor {
    let issuer = account();
    let claims = ClaimsBuilder::<ActorClaims>::new()
        .issuer(&issuer.public_key())
        .subject(subject)
        .with_metadata(ActorClaims {
            name: Some("test".to_string()),
            caps: Some(caps.iter().map(|c| c.to_string()).collect()),
            ..Default::default()
        })
        .build();
    let empty: [u8; 8] = [0, 97, 115, 109, 1, 0, 0, 0];
    let bytes = wascap::wasm::embed_claims(&empty, &claims, &issuer).unwrap();
    Actor::from_slice(&bytes).unwrap()
}

fn kvcounter() -> Actor {
    module(KVCOUNTER, &["wascc:http_server", "wascc:keyvalue"])
}

fn httpsrv() -> Rc<dyn Provider> {
    Rc::new(HttpServer { ports: RefCell::new(HashMap::new()) })
}

fn redis(store: &Rc<RefCell<HashMap<String, i64>>>) -> Rc<dyn Provider> {
    Rc::new(KeyValue { store: store.clone(), bound: RefCell::new(HashMap::new()) })
}

fn redis_config() -> Table<String, String> {
    let mut hm = Table::new();
    hm.insert("URL".to_string(), "redis://127.0.0.1:6379".to_string());
    hm
}

fn generate_port_config(port: u16) -> Table<String, String> {
    let mut hm = Table::new();
    hm.insert("PORT".to_string(), port.to_string());
    hm
}

fn new_store() -> Rc<RefCell<HashMap<String, i64>>> {
    Rc::new(RefCell::new(HashMap::new()))
}

fn gen_stock_host(net: &Network, first_port: u16) -> usize {
    let host = net.add_host(Network::builder(false, false));
    net.add_actor(host, &module(ECHO, &["wascc:http_server"]), Rc::new(Echo)).unwrap();
    net.add_actor(host, &module(ECHO2, &["wascc:http_server"]), Rc::new(Echo)).unwrap();
    net.add_native_capability(host, httpsrv(), Some("stockhost".to_string())).unwrap();
    net.set_binding(
        host,
        ECHO,
        "wascc:http_server",
        Some("stockhost".to_string()),
        generate_port_config(first_port),
    )
    .unwrap();
    net.set_binding(
        host,
        ECHO2,
        "wascc:http_server",
        Some("stockhost".to_string()),
        generate_port_config(first_port + 1),
    )
    .unwrap();
    host
}

fn gen_kvcounter_host(net: &Network, port: u16, host: usize) {
    let store = new_store();
    net.add_actor(host, &kvcounter(), Rc::new(KvCounter)).unwrap();
    net.add_native_capability(host, httpsrv(), None).unwrap();
    net.add_native_capability(host, redis(&store), None).unwrap();
    net.set_binding(host, KVCOUNTER, "wascc:keyvalue", None, redis_config()).unwrap();
    net.set_binding(host, KVCOUNTER, "wascc:http_server", None, generate_port_config(port))
        .unwrap();
}

#[test]
fn lib_stock_host() {
    let net = Network::new(false);
    let host = gen_stock_host(&net, 9090);
    assert_eq!(2, net.actor_count(host));
    if let Some(ref claims) = net.nodes.borrow()[host].host.claims_for_actor(ECHO2) {
        let md = claims.metadata.as_ref().unwrap();
        assert!(md.caps.as_ref().unwrap().contains(&"wascc:http_server".to_string()));
    } else {
        panic!("no claims");
    }
    let request = "{\"method\":\"GET\",\"path\":\"/\",\"query_string\":\"\",\"headers\":{\"accept\":\"*/*\",\"host\":\"localhost:9090\"},\"body\":[]}";
    let resp = net.http_get(9090, request);
    assert!(resp.is_ok());
    assert_eq!(
        resp.unwrap(),
        "{\"method\":\"GET\",\"path\":\"/\",\"query_string\":\"\",\"headers\":{\"accept\":\"*/*\",\"host\":\"localhost:9090\"},\"body\":[]}"
    );
    assert!(net.http_get(9092, request).is_err());
    net.shutdown(host).unwrap();
    assert_eq!(0, net.actor_count(host));
}

#[test]
fn lib_kv_host() {
    let net = Network::new(false);
    let host = net.add_host(Network::builder(false, false));
    gen_kvcounter_host(&net, 8083, host);
    let url = "/1b4e28ba-2fa1-11d2-883f-0016d3cca427";
    assert!(net.http_get(8083, url).is_ok());
    net.http_get(8083, url).unwrap();
    let resp = net.http_get(8083, url); // counter should be at 3 now
    assert!(resp.is_ok());
    assert_eq!(resp.unwrap(), "{\"counter\":3}");
    net.shutdown(host).unwrap();
}

#[test]
fn fs_host_error() {
    let net = Network::new(false);
    let host = net.add_host(Network::builder(false, false));
    let fs_binding_name = "fs_host_error_test_binding".to_string();
    net.add_native_capability(host, Rc::new(DummyFs), Some(fs_binding_name.clone())).unwrap();

    let mut hm = Table::new();
    hm.insert("ROOT".to_string(), "/some/random/dir/that/doesnt/exists".to_string());
    net.add_actor(host, &module(DUMMY, &["wascc:blobstore"]), Rc::new(DummyActor)).unwrap();
    net.set_binding(host, DUMMY, "wascc:blobstore", Some(fs_binding_name), hm).unwrap();

    let config =
        CapabilityConfiguration { module: "actor-init".to_string(), values: Table::new() };
    let buf = config.encode();

    // Expects the actor to trigger a call to a provider that will result in an error.
    let expected_error = net
        .call_actor(host, DUMMY, "Initialize", &buf)
        .err()
        .expect("Actor did not return the expected error.")
        .to_string();
    let expected_end_str = "dummy_container_removal: THIS IS THE WAY";
    assert!(
        expected_error.ends_with(expected_end_str),
        "Error message received does not end with '{}'. Got error: <{}>",
        expected_end_str,
        expected_error
    );
    net.shutdown(host).unwrap();
}

#[test]
fn unload_reload_actor_retains_bindings() {
    let port = 6201_u16;
    let net = Network::new(true);
    let store = new_store();
    let host1 = net.add_host(
        Network::builder(false, false)
            .with_lattice_namespace("unloadreload")
            .with_label("testval", "1"),
    );
    net.add_actor(host1, &kvcounter(), Rc::new(KvCounter)).unwrap();
    net.add_native_capability(host1, httpsrv(), None).unwrap();
    net.add_native_capability(host1, redis(&store), None).unwrap();
    net.set_binding(host1, KVCOUNTER, "wascc:keyvalue", None, redis_config()).unwrap();
    net.set_binding(host1, KVCOUNTER, "wascc:http_server", None, generate_port_config(port))
        .unwrap();

    let host2 = net.add_host(
        Network::builder(false, false)
            .with_lattice_namespace("unloadreload")
            .with_label("testval", "2"),
    );
    net.add_actor(host2, &kvcounter(), Rc::new(KvCounter)).unwrap();
    // The actor in host 2 should immediately be able to talk to this redis
    // provider because of the re-establish binding code
    net.add_native_capability(host2, redis(&store), None).unwrap();

    let url = "/6fa459ea-ee8a-3ca4-894e-db77e160355e";
    // Invoke it enough times to ensure that both actors get exercised...
    assert!(net.http_get(port, url).is_ok());
    net.http_get(port, url).unwrap();
    net.http_get(port, url).unwrap(); // counter should be at 3 now

    net.remove_actor(host2, KVCOUNTER);

    net.http_get(port, url).unwrap();
    let resp = net.http_get(port, url); // counter should be at 5 now
    assert!(resp.is_ok());
    assert_eq!(resp.unwrap(), "{\"counter\":5}");

    net.add_actor(host2, &kvcounter(), Rc::new(KvCounter)).unwrap();
    // should not have to call re-bind here, because the removed actor was not the last of its kind in the lattice
    net.http_get(port, url).unwrap();
    let resp = net.http_get(port, url); // counter should be at 7 now
    assert!(resp.is_ok());
    assert_eq!(resp.unwrap(), "{\"counter\":7}");

    assert_eq!(1, net.actor_count(host2));
    assert_eq!(1, net.actor_count(host1));
    net.shutdown(host1).unwrap();
    net.shutdown(host2).unwrap();
}

#[test]
fn can_bind_from_any_host() {
    let port = 6203_u16;
    let net = Network::new(true);
    let store = new_store();
    let host =
        net.add_host(Network::builder(false, false).with_lattice_namespace("bindanywhere"));
    net.add_actor(host, &kvcounter(), Rc::new(KvCounter)).unwrap();
    net.add_native_capability(host, httpsrv(), None).unwrap();
    net.add_native_capability(host, redis(&store), None).unwrap();

    // Bindings in lattice mode should have a global scope, so we should
    // be able to invoke "set binding" from any host in the lattice
    // and have the binding take effect.
    let host2 =
        net.add_host(Network::builder(false, false).with_lattice_namespace("bindanywhere"));
    net.set_binding(host2, KVCOUNTER, "wascc:keyvalue", None, redis_config()).unwrap();
    net.set_binding(host2, KVCOUNTER, "wascc:http_server", None, generate_port_config(port))
        .unwrap();

    // Pretend to "move" the actor from one host to another
    // pre-existing binding should remain unaffected
    net.add_actor(host2, &kvcounter(), Rc::new(KvCounter)).unwrap();
    net.remove_actor(host, KVCOUNTER);
    println!("Host actor count {}", net.actor_count(host));

    let url = "/886313e1-3b8a-5372-9b90-0c9aee199e5d";
    assert!(net.http_get(port, url).is_ok());
    net.http_get(port, url).unwrap();
    let resp = net.http_get(port, url); // counter should be at 3 now
    assert!(resp.is_ok());
    assert_eq!(resp.unwrap(), "{\"counter\":3}");
    net.shutdown(host).unwrap();
    net.shutdown(host2).unwrap();
}

#[test]
fn instance_count() {
    let port = 6209_u16;
    let net = Network::new(true);
    let store = new_store();
    let host1 = net.add_host(Network::builder(false, false).with_lattice_namespace("icount"));
    net.add_actor(host1, &kvcounter(), Rc::new(KvCounter)).unwrap();
    net.add_native_capability(host1, httpsrv(), None).unwrap();
    net.add_native_capability(host1, redis(&store), None).unwrap();
    net.set_binding(host1, KVCOUNTER, "wascc:keyvalue", None, redis_config()).unwrap();
    net.set_binding(host1, KVCOUNTER, "wascc:http_server", None, generate_port_config(port))
        .unwrap();

    let host2 = net.add_host(Network::builder(false, false).with_lattice_namespace("icount"));
    net.add_actor(host2, &kvcounter(), Rc::new(KvCounter)).unwrap();
    net.add_native_capability(host2, redis(&store), None).unwrap();

    let actors = net.host_actors(host1);
    let anames: Vec<_> =
        actors.iter().flat_map(|h| h.actors.iter().map(|a| a.subject.to_string())).collect();
    assert_eq!(2, anames.len());
    let count = count_instances(&actors, KVCOUNTER);
    assert_eq!(count, 2);
    assert_eq!(count_instances(&actors, ECHO), 0);
    net.shutdown(host1).unwrap();
    net.shutdown(host2).unwrap();
}

#[test]
fn lib_lattice_single_host() {
    let net = Network::new(true);
    let host = net.add_host(
        Network::builder(false, false)
            .with_label("integration", "test")
            .with_label("hostcore.arch", "FOOBAR")
            .with_lattice_namespace("singlehost"),
    );
    let hosts = net.hosts("singlehost");
    assert_eq!(hosts.len(), 1);
    let label = |k: &str| hosts[0].labels.get(&k.to_string()).unwrap().clone();
    assert_eq!(label("hostcore.os"), OS);
    assert_eq!(label("hostcore.osfamily"), FAMILY);
    assert_eq!(label("hostcore.arch"), ARCH);
    assert_eq!(label("integration"), "test");
    net.shutdown(host).unwrap();
}

#[test]
fn lattice_isolation() {
    let net = Network::new(true);
    let host1 = net.add_host(
        Network::builder(false, false)
            .with_lattice_namespace("system.1")
            .with_label("testval", "1"),
    );
    let host2 = net.add_host(
        Network::builder(false, false)
            .with_lattice_namespace("system.2")
            .with_label("testval", "2"),
    );
    let hosts1 = net.hosts("system.1");
    assert_eq!(hosts1.len(), 1);
    assert_eq!(hosts1[0].labels.get(&"testval".to_string()).unwrap(), "1");
    let hosts2 = net.hosts("system.2");
    assert_eq!(hosts2.len(), 1);
    assert_eq!(hosts2[0].labels.get(&"testval".to_string()).unwrap(), "2");
    let hosts3 = net.hosts("system.nope");
    assert_eq!(hosts3.len(), 0);
    net.shutdown(host1).unwrap();
    net.shutdown(host2).unwrap();
}

#[test]
fn lattice_events() {
    // K/V counter host:
    // add_actor x 2
    // add_native_capability
    // bind_actor x 2
    let net = Network::new(true);
    let node = net.add_host(Network::builder(false, false));
    gen_kvcounter_host(&net, 3666, node);
    net.shutdown(node).unwrap();
    let id = net.id(node);
    let nodes = net.nodes.borrow();
    let a = &nodes[node].events;

    let actor = KVCOUNTER.to_string();
    let name = "default".to_string();
    let host = || id.clone();
    assert!(a.contains(&BusEvent::HostStarted(host())));
    assert!(a.contains(&BusEvent::ProviderLoaded {
        capid: "wascc:extras".to_string(),
        instance_name: name.clone(),
        host: host(),
    }));
    assert!(a.contains(&BusEvent::ActorStarting { actor: actor.clone(), host: host() }));
    assert!(a.contains(&BusEvent::ActorStarted { actor: actor.clone(), host: host() }));
    assert!(a.contains(&BusEvent::ProviderLoaded {
        capid: "wascc:http_server".to_string(),
        instance_name: name.clone(),
        host: host(),
    }));
    assert!(a.contains(&BusEvent::ProviderLoaded {
        capid: "wascc:keyvalue".to_string(),
        instance_name: name.clone(),
        host: host(),
    }));
    assert!(a.contains(&BusEvent::ActorBindingCreated {
        actor: actor.clone(),
        capid: "wascc:keyvalue".to_string(),
        instance_name: name.clone(),
        host: host(),
    }));
    assert!(a.contains(&BusEvent::ActorBindingCreated {
        actor: actor.clone(),
        capid: "wascc:http_server".to_string(),
        instance_name: name.clone(),
        host: host(),
    }));
    assert!(a.contains(&BusEvent::ActorStopped { actor: actor.clone(), host: host() }));
    for capid in ["wascc:http_server", "wascc:keyvalue", "wascc:extras"] {
        assert!(a.contains(&BusEvent::ProviderRemoved {
            capid: capid.to_string(),
            host: host(),
            instance_name: name.clone(),
        }));
    }
    assert!(a.contains(&BusEvent::HostStopped(host())));
}

#[test]
fn lib_default_authorizer_enforces_cap_attestations() {
    // Attempt to bind an actor to a capability for which it isn't authorized.
    let net = Network::new(false);
    let host = net.add_host(Network::builder(false, false));
    net.add_actor(host, &kvcounter(), Rc::new(KvCounter)).unwrap();
    net.add_native_capability(host, Rc::new(Messaging), None).unwrap();
    let res = net.set_binding(host, KVCOUNTER, "wascc:messaging", None, Table::new());
    assert!(res.is_err());
    assert_eq!(
        res.err().unwrap().to_string(),
        format!("WebAssembly module authorization failure: Unauthorized binding: actor {} is not authorized to use capability wascc:messaging.", KVCOUNTER)
    );
    net.shutdown(host).unwrap();
}

#[test]
fn integration_auth_default_authorizer_enforces_cap_attestations() {
    // Attempt to bind an actor to a capability for which it isn't authorized.
    let net = Network::new(false);
    let host = net.add_host(Network::builder(false, false));
    gen_kvcounter_host(&net, 8085, host);
    let res = net.set_binding(host, KVCOUNTER, "wascc:messaging", None, Table::new());
    assert!(res.is_err());
}

#[test]
fn lib_authorizer_blocks_bindings() {
    // The authorizer is set before a binding, which should then
    // return permission denied / Err if the authorizer denies that invocation.
    let net = Network::new(false);
    let host = net.add_host(Network::builder(false, true));
    net.add_actor(host, &kvcounter(), Rc::new(KvCounter)).unwrap();
    net.add_native_capability(host, httpsrv(), None).unwrap();
    net.add_native_capability(host, redis(&new_store()), None).unwrap();
    let res = net.set_binding(host, KVCOUNTER, "wascc:keyvalue", None, redis_config());
    assert!(res.is_err());
    net.shutdown(host).unwrap();
}

#[test]
fn integration_auth_authorizer_blocks_bindings() {
    let net = Network::new(false);
    let host = net.add_host(Network::builder(false, true));
    net.add_actor(host, &kvcounter(), Rc::new(KvCounter)).unwrap();
    net.add_native_capability(host, httpsrv(), None).unwrap();
    net.add_native_capability(host, redis(&new_store()), None).unwrap();
    let res = net.set_binding(host, KVCOUNTER, "wascc:keyvalue", None, redis_config());
    assert!(res.is_err());
}

#[test]
fn lib_authorizer_blocks_load() {
    let net = Network::new(false);
    let host = net.add_host(Network::builder(true, false));
    let res = net.add_actor(host, &kvcounter(), Rc::new(KvCounter));
    assert!(res.is_err());
    assert_eq!(
        res.err().unwrap().to_string(),
        "WebAssembly module authorization failure: Authorization hook denied access to module"
    );
    net.shutdown(host).unwrap();
}

#[test]
fn integration_auth_authorizer_blocks_load() {
    let net = Network::new(false);
    let host = net.add_host(Network::builder(true, false));
    let res = net.add_actor(host, &kvcounter(), Rc::new(KvCounter));
    assert!(res.is_err());
}

#[test]
fn actor_only_load() {
    let net = Network::new(true);
    let host =
        net.add_host(Network::builder(false, false).with_lattice_namespace("actoronlyload"));
    net.add_native_capability(host, httpsrv(), None).unwrap();
    net.add_native_capability(host, redis(&new_store()), None).unwrap();
    for i in 0..50 {
        let key = SigningKey::new_module();
        let a = module(&key.public_key(), &["wascc:http_server", "wascc:keyvalue"]);
        net.add_actor(host, &a, Rc::new(KvCounter)).unwrap();
        if i % 10 == 0 {
            println!("Actor {} added", i);
        }
    }
    assert_eq!(50, net.actor_count(host));
    net.shutdown(host).unwrap();
}

#[test]
fn same_actor_is_added_once() {
    let net = Network::new(false);
    let host = net.add_host(Network::builder(false, false));
    net.add_actor(host, &kvcounter(), Rc::new(KvCounter)).unwrap();
    let again = net.add_actor(host, &kvcounter(), Rc::new(KvCounter));
    assert_eq!(
        again.err().unwrap().to_string(),
        format!("waSCC Host Error: Actor {} is already in this host. Cannot host multiple instances of the same actor in the same host", KVCOUNTER)
    );
    assert_eq!(1, net.actor_count(host));
    net.remove_actor(host, KVCOUNTER);
    assert_eq!(0, net.actor_count(host));
    net.add_actor(host, &kvcounter(), Rc::new(KvCounter)).unwrap();
    assert_eq!(1, net.actor_count(host));
}

#[test]
fn same_provider_is_added_once() {
    let net = Network::new(false);
    let host = net.add_host(Network::builder(false, false));
    net.add_native_capability(host, httpsrv(), None).unwrap();
    net.add_native_capability(host, httpsrv(), Some("other".to_string())).unwrap();
    let again = net.add_native_capability(host, httpsrv(), None);
    assert!(again.err().unwrap().to_string().ends_with(
        "Capability provider wascc:http_server cannot be bound to the same name (default) twice, loading failed."
    ));
}

#[test]
fn unknown_actors_are_not_bound_nor_called() {
    let net = Network::new(true);
    let host = net.add_host(Network::builder(false, false));
    let res = net.set_binding(host, ECHO, "wascc:http_server", None, Table::new());
    assert!(res.err().unwrap().to_string().ends_with("Attempted to bind non-existent actor"));
    let res = net.call_actor(host, ECHO, "HandleRequest", b"x");
    assert!(res.err().unwrap().to_string().ends_with("No such actor"));
}

#[test]
fn bindings_need_a_provider() {
    let net = Network::new(false);
    let host = net.add_host(Network::builder(false, false));
    net.add_actor(host, &kvcounter(), Rc::new(KvCounter)).unwrap();
    let res = net.set_binding(host, KVCOUNTER, "wascc:keyvalue", None, redis_config());
    let text = res.err().unwrap().to_string();
    assert!(text.contains("Failed to configure default,wascc:keyvalue - "));
    assert!(text.ends_with(
        "Attempted bus call for wasmbus.provider.wascc.keyvalue.default with no subscribers"
    ));
}

#[test]
fn removed_bindings_end_the_conversation() {
    let net = Network::new(false);
    let host = net.add_host(Network::builder(false, false));
    gen_kvcounter_host(&net, 8090, host);
    assert_eq!(net.http_get(8090, "/a").unwrap(), "{\"counter\":1}");
    let (subject, inv) =
        net.nodes.borrow()[host].host.remove_binding(KVCOUNTER, "wascc:keyvalue", None);
    let reply = net.request(host, &subject, inv);
    Host::<DenyAuthorizer>::finish_remove_binding(reply).unwrap();
    assert!(net.http_get(8090, "/a").is_err());
    assert_eq!(1, net.nodes.borrow()[host].host.bindings.len());
}

#[test]
fn forged_invocations_are_refused() {
    let net = Network::new(false);
    let host = gen_stock_host(&net, 9100);
    let (subject, inv) = net.nodes.borrow()[host].host.call_actor(ECHO, "Op", b"abc").unwrap();
    let mut forged = inv.clone();
    forged.msg = b"xyz".to_vec();
    let good = net.request(host, &subject, inv).unwrap();
    assert_eq!(good.error, None);
    assert_eq!(good.msg, b"abc".to_vec());
    let bad = net.request(host, &subject, forged).unwrap();
    assert!(bad.error.unwrap().starts_with("Antiforgery check failure: "));
}

#[test]
fn providers_refuse_what_needs_a_binding() {
    let net = Network::new(false);
    let host = gen_stock_host(&net, 9110);
    let inv = {
        let nodes = net.nodes.borrow();
        Invocation::new(
            &nodes[host].host.key,
            WasccEntity::Actor(ECHO.to_string()),
            WasccEntity::Capability {
                capid: "wascc:http_server".to_string(),
                binding: "stockhost".to_string(),
            },
            "Anything",
            vec![],
        )
    };
    let reply =
        net.request(host, "wasmbus.provider.wascc.http_server.stockhost", inv.clone()).unwrap();
    assert_eq!(
        reply.error.unwrap(),
        "Attempted to invoke binding-required operation on unbound provider"
    );
    assert!(refuse_unbound(Role::PortableProvider, &inv).is_some());
    assert!(refuse_unbound(Role::BoundProvider, &inv).is_none());
    assert!(refuse_unbound(Role::Actor, &inv).is_none());
}
