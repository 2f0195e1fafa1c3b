//! The host runtime: what a host holds, and what each operation on it decides.
//!
//! A host manages actors and capability providers, and securely manages the
//! communications between them. Messages are exchanged outside of this module: an
//! operation that needs the reply of an actor or a provider comes in two halves, of
//! which the first says what to send on which subject, and the second takes the reply.
use vstd::prelude::*;

use crate::actor::Actor;
use crate::authz::{
    can_invoke, check_auth, enforce_validation, enforcement_outcome, extraction_failure, failure_of,
    get_all_claims, may_invoke, register_claims, unregister_claims, Authorizer, ClaimsMap,
    DefaultAuthorizer,
};
use crate::bindings::{record_binding, BindingsList, RouteKey};
use crate::bus::lattice::{
    control_subject, control_subject_of, discover_claims, known_claims, opt_claims, BusEvent,
    EventView, HostActors,
};
use crate::bus::{
    actor_subject, actor_subject_of, actors_have_own_subjects, ns_ref, provider_subject,
    provider_subject_of,
};
use crate::capability::{binding_or_default, name_or_default};
use crate::claims::{
    attested, checkable, copy_text, decode_actor, decoded_actor, embedded_token, is_checkable, tagged,
    text_view, ActorMetadata, ActorMetadataView, Claims, ClaimsView, HostKey,
};
use crate::codec::{
    copy_table, put, text_map, CapabilityConfiguration, CapabilityDescriptor, ConfigurationView,
    DescriptorView, OP_BIND_ACTOR, OP_REMOVE_ACTOR, SYSTEM_ACTOR,
};
use crate::entity::{EntityView, WasccEntity};
use crate::errors::{self, shows, Error, ErrorKind, Failure};
use crate::extras::{extras_capability, extras_descriptor, CAPABILITY_ID};
use crate::inthost::{copy_bytes, Invocation, InvocationResponse};
use crate::messages::{
    binding_values, carries, encode_removal, from_system, gen_config_invocation,
    gen_liveupdate_invocation, gen_remove_actor, is_actor_key, names_actor,
};
use crate::manifest::{BindingEntry, Capability, HostManifest};
use crate::table::Table;
use crate::text::{begins, list_contains, lowercase, same, starts_with, texts, to_lowercase};

verus! {

pub const CORELABEL_ARCH: &'static str = "hostcore.arch";

pub const CORELABEL_OS: &'static str = "hostcore.os";

pub const CORELABEL_OSFAMILY: &'static str = "hostcore.osfamily";

/// A label that the host sets itself.
pub open spec fn restricted(label: Seq<char>) -> bool {
    label == CORELABEL_OSFAMILY@ || label == CORELABEL_ARCH@ || label == CORELABEL_OS@
}

fn is_restricted(label: &str) -> (r: bool)
    ensures
        r == restricted(label@),
{
    same(label, CORELABEL_OSFAMILY) || same(label, CORELABEL_ARCH) || same(label, CORELABEL_OS)
}

/// The labels that every host has.
pub open spec fn core_labels(arch: Seq<char>, os: Seq<char>, family: Seq<char>) -> Map<
    Seq<char>,
    Seq<char>,
> {
    Map::empty().insert(CORELABEL_ARCH@, arch).insert(CORELABEL_OS@, os).insert(
        CORELABEL_OSFAMILY@,
        family,
    )
}

/// Labels with one more, unless it was set already.
pub open spec fn labelled(
    labels: Map<Seq<char>, Seq<char>>,
    key: Seq<char>,
    value: Seq<char>,
) -> Map<Seq<char>, Seq<char>> {
    if labels.contains_key(key) {
        labels
    } else {
        labels.insert(key, value)
    }
}

/// The labels that every host has, by what it runs on.
pub fn detect_core_host_labels(arch: &str, os: &str, family: &str) -> (r: Table<String, String>)
    ensures
        text_map(r@) == core_labels(arch@, os@, family@),
{
    let mut hm: Table<String, String> = Table::new();
    assert(text_map(hm@) =~= Map::empty());
    put(&mut hm, CORELABEL_ARCH, arch.to_string());
    put(&mut hm, CORELABEL_OS, os.to_string());
    put(&mut hm, CORELABEL_OSFAMILY, family.to_string());
    hm
}

/// A builder pattern implementation for creating a custom-configured host runtime
pub struct HostBuilder<A> {
    pub labels: Table<String, String>,
    pub ns: Option<String>,
    pub authorizer: A,
}

impl HostBuilder<DefaultAuthorizer> {
    /// Creates a new host builder. The labels list will pre-populate with the `hostcore.*`
    /// labels, by what the host runs on, the namespace is the one that the environment
    /// gives, and the default authorizer will be set.
    pub fn new(arch: &str, os: &str, family: &str, ns: Option<String>) -> (r: HostBuilder<
        DefaultAuthorizer,
    >)
        ensures
            text_map(r.labels@) == core_labels(arch@, os@, family@),
            r.ns == ns,
    {
        HostBuilder {
            labels: detect_core_host_labels(arch, os, family),
            ns,
            authorizer: DefaultAuthorizer::new(),
        }
    }
}

impl<A: Authorizer> HostBuilder<A> {
    /// Sets the lattice namespace for this host. A lattice namespace is a unit of multi-tenant
    /// isolation on a network. To reduce the risk of conflicts or subscription failures, the
    /// lattice namespace should not include any non-alphanumeric characters.
    pub fn with_lattice_namespace(self, ns: &str) -> (r: HostBuilder<A>)
        ensures
            text_view(r.ns) == Some(lowercase(ns@)),
            r.labels == self.labels,
            r.authorizer == self.authorizer,
    {
        HostBuilder {
            labels: self.labels,
            ns: Some(to_lowercase(ns)),
            authorizer: self.authorizer,
        }
    }

    /// Sets a custom authorizer to be used for authorizing actors, capability providers,
    /// and invocation requests. Note that the authorizer cannot be used to implement _less_
    /// strict measures than the default authorizer, it can only be used to implement
    /// _more_ strict rules
    pub fn with_authorizer<B: Authorizer>(self, authorizer: B) -> (r: HostBuilder<B>)
        ensures
            r.authorizer == authorizer,
            r.labels == self.labels,
            r.ns == self.ns,
    {
        HostBuilder { labels: self.labels, ns: self.ns, authorizer }
    }

    /// Adds an arbitrary label->value pair of metadata to the host. Cannot override
    /// reserved labels such as those that begin with `hostcore.` Calling this twice
    /// on the same label will have no effect after the first call.
    pub fn with_label(self, key: &str, value: &str) -> (r: HostBuilder<A>)
        ensures
            text_map(r.labels@) == labelled(text_map(self.labels@), key@, value@),
            r.ns == self.ns,
            r.authorizer == self.authorizer,
    {
        let mut labels = self.labels;
        if !labels.contains_key(&key.to_string()) {
            put(&mut labels, key, value.to_string());
        }
        HostBuilder { labels, ns: self.ns, authorizer: self.authorizer }
    }

    /// Converts the transient builder instance into a realized host runtime instance
    pub fn build(self) -> (r: Host<A>)
        ensures
            r.wf(),
            r.fresh(),
            r.labels == self.labels,
            r.ns == self.ns,
            r.authorizer == self.authorizer,
            r.key.spec_public().len() == 56,
            r.key.spec_public()[0] == 'N',
    {
        Host::generate(self.authorizer, self.labels, self.ns)
    }
}

/// Represents an instance of a waSCC host runtime
pub struct Host<A> {
    /// The claims of the actors in the host
    pub claims: ClaimsMap,
    /// The bindings that were set from this host
    pub bindings: BindingsList,
    /// What the capability providers in the host say of themselves
    pub caps: Table<RouteKey, CapabilityDescriptor>,
    /// The subjects of what runs in the host, on which it can be told to stop
    pub terminators: Table<String, ()>,
    /// The public keys of the actors that came from a registry, by their references
    pub image_map: Table<String, String>,
    pub labels: Table<String, String>,
    pub ns: Option<String>,
    pub key: HostKey,
    pub authorizer: A,
}

/// Every actor's claims hold metadata, and stand under its public key.
pub open spec fn loaded(claims: Map<Seq<char>, Claims<ActorMetadata>>) -> bool {
    forall|k: Seq<char>| #[trigger]
        claims.contains_key(k) ==> claims[k]@.metadata is Some && claims[k]@.subject == k
}

/// Every actor's subject is among those on which a thread can be told to stop.
pub open spec fn stoppable(
    claims: Map<Seq<char>, Claims<ActorMetadata>>,
    terminators: Map<Seq<char>, ()>,
    ns: Option<Seq<char>>,
) -> bool {
    forall|k: Seq<char>| #[trigger]
        claims.contains_key(k) ==> terminators.contains_key(actor_subject_of(ns, k))
}

/// What an actor that was admitted needs to run
pub struct ActorStart {
    /// The subject on which the actor takes its invocations
    pub subject: String,
    /// The event before the module is loaded
    pub starting: BusEvent,
    /// The event once the actor can take invocations
    pub started: BusEvent,
    /// Whether the actor is to be bound to the extras provider, so that there is a
    /// private subject on which it can communicate with it
    pub binds_extras: bool,
}

/// What is to be sent to bind an actor
pub struct BindRequest {
    pub subject: String,
    pub invocation: Invocation,
    /// The name of the binding
    pub binding: String,
}

/// What an actor needs to run.
pub open spec fn starts(
    start: ActorStart,
    c: ClaimsView<ActorMetadataView>,
    ns: Option<Seq<char>>,
    host: Seq<char>,
) -> bool {
    &&& start.subject@ == actor_subject_of(ns, c.subject)
    &&& start.starting@ == EventView::ActorStarting { actor: c.subject, host }
    &&& start.started@ == EventView::ActorStarted { actor: c.subject, host }
    &&& start.binds_extras == attested(c).contains(CAPABILITY_ID@)
}

/// The error for an actor that is in the host already.
pub open spec fn duplicate_actor(pk: Seq<char>) -> Failure {
    Failure::MiscHost(
        "Actor "@ + pk
            + " is already in this host. Cannot host multiple instances of the same actor in the same host"@,
    )
}

/// Decides whether an actor is admitted: nothing where it is, else the error. It is
/// refused where it is in the host already, where its token does not pass
/// validation, and where the authorizer does not allow it, in this order.
pub open spec fn admission_failure(
    claims: Map<Seq<char>, Claims<ActorMetadata>>,
    pk: Seq<char>,
    validation: Option<Failure>,
    allowed: bool,
) -> Option<Failure> {
    if claims.contains_key(pk) {
        Some(duplicate_actor(pk))
    } else if validation is Some {
        validation
    } else if !allowed {
        Some(Failure::Authorization("Authorization hook denied access to module"@))
    } else {
        None
    }
}

/// What can come of loading an actor, by what validating its token can give at some time,
/// and by what the authorizer can say of its claims. It is asked only where the token
/// passes.
pub open spec fn load_outcome<A: Authorizer>(
    authorizer: A,
    loaded: Map<Seq<char>, Claims<ActorMetadata>>,
    jwt: Seq<char>,
    c: ClaimsView<ActorMetadataView>,
    failure: Option<Failure>,
) -> bool {
    if loaded.contains_key(c.subject) {
        failure == Some(duplicate_actor(c.subject))
    } else {
        exists|validation: Option<Failure>| #[trigger]
            enforcement_outcome(jwt, validation) && (if validation is Some {
                failure == validation
            } else {
                exists|claims: Claims<ActorMetadata>, allowed: bool|
                    {
                        &&& claims@ == c
                        &&& #[trigger] call_ensures(A::can_load, (&authorizer, &claims), allowed)
                        &&& failure == admission_failure(loaded, c.subject, None, allowed)
                    }
            })
    }
}

/// Why what a Gantry repository was asked for is no actor, if it is none: there is no client
/// for the repository, it could not be had, or the bytes are not those of a signed module.
pub open spec fn refused_download(downloaded: Option<Result<Vec<u8>, Error>>) -> Option<Failure> {
    match downloaded {
        None => Some(Failure::MiscHost("No gantry client configured for this host"@)),
        Some(Err(e)) => Some(e@),
        Some(Ok(bytes)) => extraction_failure(bytes@),
    }
}

/// The claims after an actor was admitted: its own are among them.
pub open spec fn admitted(
    before: Map<Seq<char>, Claims<ActorMetadata>>,
    after: Map<Seq<char>, Claims<ActorMetadata>>,
    c: ClaimsView<ActorMetadataView>,
) -> bool {
    &&& after.dom() == before.dom().insert(c.subject)
    &&& after[c.subject]@ == c
    &&& forall|k: Seq<char>| k != c.subject && #[trigger] before.contains_key(k) ==> after[k] == before[k]
}

/// The error for a capability provider that is in the host already.
pub open spec fn duplicate_provider(binding: Seq<char>, capid: Seq<char>) -> Failure {
    Failure::CapabilityProvider(
        "Capability provider "@ + capid + " cannot be bound to the same name ("@ + binding
            + ") twice, loading failed."@,
    )
}

/// The capability providers after one was added.
pub open spec fn provided(
    before: Map<(Seq<char>, Seq<char>), CapabilityDescriptor>,
    after: Map<(Seq<char>, Seq<char>), CapabilityDescriptor>,
    binding: Seq<char>,
    d: DescriptorView,
) -> bool {
    &&& after.dom() == before.dom().insert((binding, d.id))
    &&& after[(binding, d.id)]@ == d
    &&& forall|k: (Seq<char>, Seq<char>)|
        k != (binding, d.id) && #[trigger] before.contains_key(k) ==> after[k] == before[k]
}

/// Whether a host takes one more capability provider: it has none with the same
/// capability ID and binding name.
pub open spec fn has_room(
    caps: Map<(Seq<char>, Seq<char>), CapabilityDescriptor>,
    binding: Seq<char>,
    capid: Seq<char>,
) -> bool {
    !caps.contains_key((binding, capid))
}

/// A capability provider that was removed from a host can be added again, whatever the
/// host held before, and then the host holds it and whatever else it held.
pub proof fn removal_allows_adding_again(
    before: Map<(Seq<char>, Seq<char>), CapabilityDescriptor>,
    removed: Map<(Seq<char>, Seq<char>), CapabilityDescriptor>,
    added: Map<(Seq<char>, Seq<char>), CapabilityDescriptor>,
    binding: Seq<char>,
    d: DescriptorView,
)
    requires
        removed == before.remove((binding, d.id)),
    ensures
        has_room(removed, binding, d.id),
        provided(removed, added, binding, d) ==> provided(before, added, binding, d),
{
    assert(removed.dom().insert((binding, d.id)) =~= before.dom().insert((binding, d.id)));
    if provided(removed, added, binding, d) {
        assert forall|k: (Seq<char>, Seq<char>)|
            k != (binding, d.id) && #[trigger] before.contains_key(k) implies added[k]
            == before[k] by {
            assert(removed.contains_key(k));
        }
    }
}

/// The error for a binding that is not allowed.
pub open spec fn unauthorized_binding(actor: Seq<char>, capid: Seq<char>) -> Failure {
    Failure::Authorization(
        "Unauthorized binding: actor "@ + actor + " is not authorized to use capability "@ + capid
            + "."@,
    )
}

/// Decides whether a binding may be set: nothing where it may, else the error. The
/// attestations in the claims come first; only where they allow the binding does the
/// authorizer's word count.
pub open spec fn binding_refusal(
    claims: Option<ClaimsView<ActorMetadataView>>,
    actor: Seq<char>,
    capid: Seq<char>,
    allowed: bool,
) -> Option<Failure> {
    match claims {
        None => Some(Failure::MiscHost("Attempted to bind non-existent actor"@)),
        Some(c) => if !may_invoke(c, capid) || !allowed {
            Some(unauthorized_binding(actor, capid))
        } else {
            None
        },
    }
}

/// The subject on which a binding is set: that of the provider, or that of the actor
/// itself where it is the actor that is configured.
pub open spec fn binding_subject(
    ns: Option<Seq<char>>,
    actor: Seq<char>,
    capid: Seq<char>,
    binding: Seq<char>,
) -> Seq<char> {
    if (actor == capid || actor == SYSTEM_ACTOR@) && begins(capid, "M"@) {
        actor_subject_of(ns, actor)
    } else {
        provider_subject_of(ns, capid, binding)
    }
}

/// The error where a provider could not be configured.
pub open spec fn failed_to_configure(binding: Seq<char>, capid: Seq<char>, why: Seq<char>) -> Failure {
    Failure::CapabilityProvider(
        "Failed to configure "@ + binding + ","@ + capid + " - "@ + why,
    )
}

fn refuse_binding(actor: &str, capid: &str) -> (e: Error)
    ensures
        e@ == unauthorized_binding(actor@, capid@),
{
    errors::new(
        ErrorKind::Authorization(
            "Unauthorized binding: actor ".to_string().concat(actor).concat(
                " is not authorized to use capability ",
            ).concat(capid).concat("."),
        ),
    )
}

fn cannot_configure(binding: &str, capid: &str, why: &str) -> (e: Error)
    ensures
        e@ == failed_to_configure(binding@, capid@, why@),
{
    errors::new(
        ErrorKind::CapabilityProvider(
            "Failed to configure ".to_string().concat(binding).concat(",").concat(capid).concat(
                " - ",
            ).concat(why),
        ),
    )
}

/// Decides whether a binding may be set, by the actor's claims and the authorizer's
/// word.
pub fn judge_binding(
    claims: &Option<Claims<ActorMetadata>>,
    actor: &str,
    capid: &str,
    allowed: bool,
) -> (r: Result<(), Error>)
    requires
        claims matches Some(c) ==> c@.metadata is Some,
    ensures
        failure_of(r) == binding_refusal(opt_claims(*claims), actor@, capid@, allowed),
{
    match claims {
        None => Err(
            errors::new(ErrorKind::MiscHost("Attempted to bind non-existent actor".to_string())),
        ),
        Some(c) => if !can_invoke(c, capid, OP_BIND_ACTOR) || !allowed {
            Err(refuse_binding(actor, capid))
        } else {
            Ok(())
        },
    }
}

impl Host<DefaultAuthorizer> {
    /// Creates a new runtime host using all of the default values. Use the host builder
    /// if you want to provide more customization options
    pub fn new(arch: &str, os: &str, family: &str, ns: Option<String>) -> (r: Host<DefaultAuthorizer>)
        ensures
            r.wf(),
            r.fresh(),
            text_map(r.labels@) == core_labels(arch@, os@, family@),
            r.ns == ns,
            r.key.spec_public().len() == 56,
            r.key.spec_public()[0] == 'N',
    {
        Host::generate(
            DefaultAuthorizer::new(),
            detect_core_host_labels(arch, os, family),
            ns,
        )
    }
}

impl<A> Host<A> {
    /// The claims that the host holds are those of loaded actors, and each of them can be
    /// told to stop.
    pub open spec fn wf(self) -> bool {
        &&& loaded(self.claims@)
        &&& stoppable(self.claims@, self.terminators@, self.space())
    }

    /// Nothing runs in the host, and the extras provider is the only one in it.
    pub open spec fn fresh(self) -> bool {
        &&& self.claims@ == Map::<Seq<char>, Claims<ActorMetadata>>::empty()
        &&& self.bindings@ == Map::<
            (Seq<char>, Seq<char>, Seq<char>),
            CapabilityConfiguration,
        >::empty()
        &&& self.caps@.dom() == set![("default"@, CAPABILITY_ID@)]
        &&& self.caps@[("default"@, CAPABILITY_ID@)]@ == extras_descriptor()
        &&& self.terminators@ == Map::<Seq<char>, ()>::empty()
        &&& self.image_map@ == Map::<Seq<char>, String>::empty()
    }

    /// The namespace of the host.
    pub open spec fn space(self) -> Option<Seq<char>> {
        text_view(self.ns)
    }

    /// Nothing but the capability providers of the host differs.
    pub open spec fn same_but_caps(self, other: Self) -> bool {
        &&& self.claims == other.claims
        &&& self.bindings == other.bindings
        &&& self.same_settings(other)
        &&& self.terminators == other.terminators
        &&& self.image_map == other.image_map
    }

    /// Nothing but the threads that run in the host differs.
    pub open spec fn same_but_terminators(self, other: Self) -> bool {
        &&& self.claims == other.claims
        &&& self.bindings == other.bindings
        &&& self.caps == other.caps
        &&& self.image_map == other.image_map
        &&& self.same_settings(other)
    }

    /// Nothing but the labels of the host differs.
    pub open spec fn same_but_labels(self, other: Self) -> bool {
        &&& self.claims == other.claims
        &&& self.bindings == other.bindings
        &&& self.caps == other.caps
        &&& self.terminators == other.terminators
        &&& self.image_map == other.image_map
        &&& self.ns == other.ns
        &&& self.key == other.key
        &&& self.authorizer == other.authorizer
    }

    /// Nothing but the bindings of the host differs.
    pub open spec fn same_but_bindings(self, other: Self) -> bool {
        &&& self.claims == other.claims
        &&& self.caps == other.caps
        &&& self.terminators == other.terminators
        &&& self.image_map == other.image_map
        &&& self.same_settings(other)
    }

    /// The labels, the namespace, the key and the authorizer of the host are the same.
    pub open spec fn same_settings(self, other: Self) -> bool {
        &&& self.labels == other.labels
        &&& self.ns == other.ns
        &&& self.key == other.key
        &&& self.authorizer == other.authorizer
    }

    /// Adds the extras provider to the host, which is part of every host.
    pub fn ensure_extras(&mut self) -> (r: Result<(), Error>)
        requires
            old(self).wf(),
        ensures
            final(self).wf(),
            failure_of(r) == (if old(self).caps@.contains_key(("default"@, CAPABILITY_ID@)) {
                Some(duplicate_provider("default"@, CAPABILITY_ID@))
            } else {
                None
            }),
            r is Err ==> *final(self) == *old(self),
            r is Ok ==> provided(
                old(self).caps@,
                final(self).caps@,
                "default"@,
                extras_descriptor(),
            ),
            final(self).same_but_caps(*old(self)),
    {
        match extras_capability() {
            Ok(extras) => self.add_native_capability(
                extras.binding_name.as_str(),
                &extras.descriptor,
            ),
            Err(e) => Err(e),
        }
    }

    /// A host with a new identity, in which nothing runs yet.
    pub fn generate(authz: A, labels: Table<String, String>, ns: Option<String>) -> (r: Host<A>)
        ensures
            r.wf(),
            r.fresh(),
            r.labels == labels,
            r.ns == ns,
            r.authorizer == authz,
            r.key.spec_public().len() == 56,
            r.key.spec_public()[0] == 'N',
    {
        let mut host = Host {
            claims: Table::new(),
            bindings: Table::new(),
            caps: Table::new(),
            terminators: Table::new(),
            image_map: Table::new(),
            labels,
            ns,
            key: HostKey::new_server(),
            authorizer: authz,
        };
        let _ = host.ensure_extras();
        assert(host.caps@.dom() =~= set![("default"@, CAPABILITY_ID@)]);
        host
    }

    /// Returns the public key of the host
    pub fn id(&self) -> (r: String)
        ensures
            r@ == self.key.spec_public(),
    {
        self.key.public_key()
    }

    /// The event that the host has started.
    pub fn started(&self) -> (r: BusEvent)
        ensures
            r@ == EventView::HostStarted(self.key.spec_public()),
    {
        BusEvent::HostStarted(self.id())
    }

    /// The event that the host has stopped.
    pub fn stopped(&self) -> (r: BusEvent)
        ensures
            r@ == EventView::HostStopped(self.key.spec_public()),
    {
        BusEvent::HostStopped(self.id())
    }

    /// Notes that the thread that carries out control commands runs, and returns the
    /// subject on which it can be told to stop.
    pub fn start_controlplane(&mut self) -> (r: String)
        requires
            old(self).wf(),
        ensures
            final(self).wf(),
            r@ == control_subject_of(old(self).space(), old(self).key.spec_public()),
            final(self).terminators@ == old(self).terminators@.insert(r@, ()),
            final(self).same_but_terminators(*old(self)),
    {
        let id = self.key.public_key();
        let subject = control_subject(ns_ref(&self.ns), id.as_str());
        self.terminators.insert(subject.clone(), ());
        subject
    }

    /// What an actor needs to run. Notes the subject on which it can be told to stop, and
    /// its claims.
    pub fn start_actor(&mut self, claims: &Claims<ActorMetadata>) -> (r: ActorStart)
        requires
            old(self).wf(),
            claims@.metadata is Some,
        ensures
            final(self).wf(),
            starts(r, claims@, old(self).space(), old(self).key.spec_public()),
            admitted(old(self).claims@, final(self).claims@, claims@),
            final(self).terminators@ == old(self).terminators@.insert(r.subject@, ()),
            final(self).bindings == old(self).bindings,
            final(self).caps == old(self).caps,
            final(self).image_map == old(self).image_map,
            final(self).same_settings(*old(self)),
    {
        let subject = actor_subject(ns_ref(&self.ns), claims.subject.as_str());
        self.terminators.insert(subject.clone(), ());
        let ghost before = self.claims@;
        register_claims(&mut self.claims, claims.subject.as_str(), claims.copy());
        assert(self.claims@.dom() =~= before.dom().insert(claims@.subject));
        let caps = claims.caps();
        ActorStart {
            subject,
            starting: BusEvent::ActorStarting { actor: claims.subject.clone(), host: self.id() },
            started: BusEvent::ActorStarted { actor: claims.subject.clone(), host: self.id() },
            binds_extras: list_contains(&caps, CAPABILITY_ID),
        }
    }

    /// Decides whether an actor is admitted, by the result of validating its token
    /// and by the authorizer's word, and starts it if it is.
    pub fn admit_actor(
        &mut self,
        actor: &Actor,
        validation: Result<(), Error>,
        allowed: bool,
    ) -> (r: Result<ActorStart, Error>)
        requires
            old(self).wf(),
        ensures
            final(self).wf(),
            failure_of(r) == admission_failure(
                old(self).claims@,
                actor.spec_claims().subject,
                failure_of(validation),
                allowed,
            ),
            r is Err ==> *final(self) == *old(self),
            r is Ok ==> {
                &&& admitted(old(self).claims@, final(self).claims@, actor.spec_claims())
                &&& starts(
                    r->Ok_0,
                    actor.spec_claims(),
                    old(self).space(),
                    old(self).key.spec_public(),
                )
                &&& final(self).terminators@ == old(self).terminators@.insert(
                    r->Ok_0.subject@,
                    (),
                )
            },
            final(self).bindings == old(self).bindings,
            final(self).caps == old(self).caps,
            final(self).image_map == old(self).image_map,
            final(self).same_settings(*old(self)),
    {
        let pk = actor.public_key();
        if self.claims.contains_key(&pk) {
            return Err(
                errors::new(
                    ErrorKind::MiscHost(
                        "Actor ".to_string().concat(pk.as_str()).concat(
                            " is already in this host. Cannot host multiple instances of the same actor in the same host",
                        ),
                    ),
                ),
            );
        }
        match validation {
            Err(e) => {
                return Err(e);
            },
            Ok(_) => {},
        }
        if !allowed {
            return Err(
                errors::new(
                    ErrorKind::Authorization(
                        "Authorization hook denied access to module".to_string(),
                    ),
                ),
            );
        }
        Ok(self.start_actor(&actor.token().claims))
    }

    /// Removes an actor from the host: the result is the subject on which its thread
    /// is told to stop.
    pub fn remove_actor(&self, pk: &str) -> (r: String)
        requires
            self.terminators@.contains_key(actor_subject_of(self.space(), pk@)),
        ensures
            r@ == actor_subject_of(self.space(), pk@),
    {
        actor_subject(ns_ref(&self.ns), pk)
    }

    /// What becomes of the host when an actor's thread was told to stop: the actor is
    /// no longer in it, and if it came from a registry, its reference is forgotten. The
    /// result is the subject whose subscription ends, and the event. Its bindings are
    /// then removed by [`crate::messages::deconfigure_actor`].
    pub fn stop_actor(&mut self, pk: &str, imgref: Option<String>) -> (r: (String, BusEvent))
        requires
            old(self).wf(),
        ensures
            final(self).wf(),
            r.0@ == actor_subject_of(old(self).space(), pk@),
            r.1@ == (EventView::ActorStopped { actor: pk@, host: old(self).key.spec_public() }),
            final(self).claims@ == old(self).claims@.remove(pk@),
            final(self).terminators@ == old(self).terminators@.remove(r.0@),
            final(self).image_map@ == (match imgref {
                Some(i) => old(self).image_map@.remove(i@),
                None => old(self).image_map@,
            }),
            final(self).bindings == old(self).bindings,
            final(self).caps == old(self).caps,
            final(self).same_settings(*old(self)),
    {
        let subject = actor_subject(ns_ref(&self.ns), pk);
        proof {
            assert forall|k: Seq<char>| k != pk@ implies #[trigger] actor_subject_of(
                self.space(),
                k,
            ) != subject@ by {
                actors_have_own_subjects(self.space(), k, pk@);
            }
        }
        let _ = self.terminators.remove(&subject);
        unregister_claims(&mut self.claims, pk);
        match imgref {
            Some(i) => {
                let _ = self.image_map.remove(&i);
            },
            None => {},
        }
        let event = BusEvent::ActorStopped { actor: pk.to_string(), host: self.id() };
        (subject, event)
    }

    /// The first half of replacing a running actor with another one: the subject of the
    /// actor, and the "live update" message for it.
    pub fn replace_actor(&self, new_actor: &Actor) -> (r: (String, Invocation))
        ensures
            r.0@ == actor_subject_of(self.space(), new_actor.spec_claims().subject),
            from_system(
                r.1@,
                self.key.spec_public(),
                EntityView::Actor(new_actor.spec_claims().subject),
                crate::codec::OP_PERFORM_LIVE_UPDATE@,
            ),
            r.1@.msg == new_actor.spec_bytes(),
    {
        let pk = new_actor.public_key();
        let subject = actor_subject(ns_ref(&self.ns), pk.as_str());
        let inv = gen_liveupdate_invocation(
            &self.key,
            pk.as_str(),
            copy_bytes(new_actor.bytes().as_slice()),
        );
        (subject, inv)
    }

    /// The second half of replacing a running actor: whatever the reply, it is done once
    /// there is one.
    pub fn finish_replace(reply: Result<InvocationResponse, Error>) -> (r: Result<(), Error>)
        ensures
            r is Ok == reply is Ok,
            r is Err ==> r->Err_0 == reply->Err_0,
    {
        match reply {
            Ok(_) => Ok(()),
            Err(e) => Err(e),
        }
    }

    /// Adds a native capability provider to the host runtime, unless there is one with
    /// the same capability ID and binding name.
    pub fn add_native_capability(&mut self, binding_name: &str, descriptor: &CapabilityDescriptor) -> (r:
        Result<(), Error>)
        requires
            old(self).wf(),
        ensures
            final(self).wf(),
            r is Ok == has_room(old(self).caps@, binding_name@, descriptor@.id),
            r is Err ==> r->Err_0@ == duplicate_provider(binding_name@, descriptor@.id),
            r is Err ==> *final(self) == *old(self),
            r is Ok ==> provided(old(self).caps@, final(self).caps@, binding_name@, descriptor@),
            final(self).same_but_caps(*old(self)),
    {
        let key = RouteKey::new(binding_name, descriptor.id.as_str());
        if self.caps.contains_key(&key) {
            return Err(
                errors::new(
                    ErrorKind::CapabilityProvider(
                        "Capability provider ".to_string().concat(descriptor.id.as_str()).concat(
                            " cannot be bound to the same name (",
                        ).concat(binding_name).concat(") twice, loading failed."),
                    ),
                ),
            );
        }
        self.put_capability(binding_name, descriptor);
        Ok(())
    }

    /// Notes a capability provider in the host, in place of one with the same
    /// capability ID and binding name.
    pub fn put_capability(&mut self, binding_name: &str, descriptor: &CapabilityDescriptor)
        requires
            old(self).wf(),
        ensures
            final(self).wf(),
            provided(old(self).caps@, final(self).caps@, binding_name@, descriptor@),
            final(self).same_but_caps(*old(self)),
    {
        let ghost before = self.caps@;
        self.caps.insert(RouteKey::new(binding_name, descriptor.id.as_str()), descriptor.copy());
        assert(self.caps@.dom() =~= before.dom().insert((binding_name@, descriptor@.id)));
    }

    /// Removes a native capability provider plugin from the waSCC runtime: the result is
    /// the subject on which its thread is told to stop.
    pub fn remove_native_capability(&self, capability_id: &str, binding_name: Option<String>) -> (r:
        Result<String, Error>)
        ensures
            ({
                let subject = provider_subject_of(
                    self.space(),
                    capability_id@,
                    name_or_default(text_view(binding_name)),
                );
                &&& r is Ok == self.terminators@.contains_key(subject)
                &&& r is Ok ==> r->Ok_0@ == subject
                &&& r is Err ==> r->Err_0@ == Failure::MiscHost("No such capability"@)
            }),
    {
        let b = binding_or_default(binding_name);
        let subject = provider_subject(ns_ref(&self.ns), capability_id, b.as_str());
        if self.terminators.contains_key(&subject) {
            Ok(subject)
        } else {
            Err(errors::new(ErrorKind::MiscHost("No such capability".to_string())))
        }
    }

    /// The first half of removing a binding between an actor and the indicated capability
    /// provider: the subject of the provider, and the message for it, which goes to all
    /// its instances.
    pub fn remove_binding(&self, actor: &str, capid: &str, binding_name: Option<String>) -> (r: (
        String,
        Invocation,
    ))
        ensures
            ({
                let binding = name_or_default(text_view(binding_name));
                &&& r.0@ == provider_subject_of(self.space(), capid@, binding)
                &&& from_system(
                    r.1@,
                    self.key.spec_public(),
                    EntityView::Capability { capid: capid@, binding },
                    OP_REMOVE_ACTOR@,
                )
                &&& carries(
                    r.1@.msg,
                    ConfigurationView { module: actor@, values: Map::empty() },
                )
            }),
    {
        let buf = encode_removal(actor);
        let binding = binding_or_default(binding_name);
        let subject = provider_subject(ns_ref(&self.ns), capid, binding.as_str());
        (subject, gen_remove_actor(&self.key, buf, binding.as_str(), capid))
    }

    /// The second half of removing a binding.
    pub fn finish_remove_binding(reply: Result<InvocationResponse, Error>) -> (r: Result<(), Error>)
        ensures
            reply is Err ==> r is Err && r->Err_0 == reply->Err_0,
            reply is Ok && reply->Ok_0@.error is None ==> r is Ok,
            reply is Ok && reply->Ok_0@.error is Some ==> r is Err && r->Err_0@
                == Failure::HostCallFailure(
                "Failed to remove binding: "@ + reply->Ok_0@.error->0,
            ),
    {
        match reply {
            Err(e) => Err(e),
            Ok(inv_r) => match inv_r.error {
                Some(s) => Err(
                    errors::new(
                        ErrorKind::HostCallFailure(
                            "Failed to remove binding: ".to_string().concat(s.as_str()),
                        ),
                    ),
                ),
                None => Ok(()),
            },
        }
    }

    /// The second half of binding an actor: where the provider has taken the
    /// configuration, the binding is recorded, and the result is the event.
    pub fn finish_set_binding(
        &mut self,
        actor: &str,
        capid: &str,
        binding: &str,
        config: Table<String, String>,
        reply: Result<InvocationResponse, Error>,
    ) -> (r: Result<BusEvent, Error>)
        requires
            old(self).wf(),
        ensures
            final(self).wf(),
            r is Ok == (reply is Ok && reply->Ok_0@.error is None),
            r is Err ==> *final(self) == *old(self),
            r is Ok ==> r->Ok_0@ == (EventView::ActorBindingCreated {
                host: old(self).key.spec_public(),
                actor: actor@,
                capid: capid@,
                instance_name: binding@,
            }),
            r is Ok ==> final(self).bindings@ == old(self).bindings@.insert(
                (actor@, capid@, binding@),
                final(self).bindings@[(actor@, capid@, binding@)],
            ),
            r is Ok ==> final(self).bindings@[(actor@, capid@, binding@)]@ == (ConfigurationView {
                module: actor@,
                values: text_map(config@),
            }),
            final(self).same_but_bindings(*old(self)),
            reply is Ok && reply->Ok_0@.error is Some ==> r is Err && r->Err_0@
                == failed_to_configure(binding@, capid@, reply->Ok_0@.error->0),
            reply is Err ==> r is Err && exists|why: Seq<char>|
                shows(why, reply->Err_0@) && r->Err_0@ == #[trigger] failed_to_configure(
                    binding@,
                    capid@,
                    why,
                ),
            r is Err ==> r->Err_0@ is CapabilityProvider,
    {
        match reply {
            Ok(inv_r) => match inv_r.error {
                Some(e) => Err(cannot_configure(binding, capid, e.as_str())),
                None => {
                    let cfg = CapabilityConfiguration { module: actor.to_string(), values: config };
                    record_binding(&mut self.bindings, actor, capid, binding, cfg);
                    Ok(
                        BusEvent::ActorBindingCreated {
                            host: self.id(),
                            actor: actor.to_string(),
                            capid: capid.to_string(),
                            instance_name: binding.to_string(),
                        },
                    )
                },
            },
            Err(e) => {
                let why = e.to_string();
                Err(cannot_configure(binding, capid, why.as_str()))
            },
        }
    }

    /// The first half of invoking an operation handler on an actor directly. The actor has
    /// to be in this host.
    pub fn call_actor(&self, actor: &str, operation: &str, msg: &[u8]) -> (r: Result<
        (String, Invocation),
        Error,
    >)
        ensures
            r is Ok == self.claims@.contains_key(actor@),
            r is Err ==> r->Err_0@ == Failure::MiscHost("No such actor"@),
            r is Ok ==> {
                &&& r->Ok_0.0@ == actor_subject_of(self.space(), actor@)
                &&& from_system(
                    r->Ok_0.1@,
                    self.key.spec_public(),
                    EntityView::Actor(actor@),
                    operation@,
                )
                &&& r->Ok_0.1@.msg == msg@
            },
    {
        if !self.claims.contains_key(&actor.to_string()) {
            return Err(errors::new(ErrorKind::MiscHost("No such actor".to_string())));
        }
        let inv = Invocation::new(
            &self.key,
            WasccEntity::Actor(SYSTEM_ACTOR.to_string()),
            WasccEntity::Actor(actor.to_string()),
            operation,
            copy_bytes(msg),
        );
        Ok((actor_subject(ns_ref(&self.ns), actor), inv))
    }

    /// The second half of invoking an operation handler on an actor.
    pub fn finish_call_actor(reply: Result<InvocationResponse, Error>) -> (r: Result<Vec<u8>, Error>)
        ensures
            reply is Err ==> r is Err && r->Err_0 == reply->Err_0,
            reply is Ok && reply->Ok_0@.error is None ==> r is Ok && r->Ok_0@ == reply->Ok_0@.msg,
            reply is Ok && reply->Ok_0@.error is Some ==> r is Err && r->Err_0@
                == Failure::HostCallFailure(reply->Ok_0@.error->0),
    {
        match reply {
            Ok(resp) => match resp.error {
                Some(e) => Err(errors::new(ErrorKind::HostCallFailure(e))),
                None => Ok(resp.msg),
            },
            Err(e) => Err(e),
        }
    }

    /// Returns the full set of JWT claims for a given actor, if that actor is running in the host. This
    /// call will not query other hosts in the lattice if lattice mode is enabled.
    pub fn claims_for_actor(&self, pk: &str) -> (r: Option<Claims<ActorMetadata>>)
        ensures
            opt_claims(r) == (if self.claims@.contains_key(pk@) {
                Some(self.claims@[pk@]@)
            } else {
                None
            }),
    {
        match self.claims.get(&pk.to_string()) {
            Some(c) => Some(c.copy()),
            None => None,
        }
    }

    /// Returns the list of actors registered in the host. Even if lattice mode is enabled, this function
    /// will only return the list of actors in this specific host
    pub fn actors(&self) -> (r: Vec<(String, Claims<ActorMetadata>)>)
        ensures
            self.claims.listed(),
            r@.len() == self.claims.keys().len(),
            forall|i: int|
                0 <= i < r@.len() ==> (#[trigger] r@[i]).0@ == self.claims.keys()[i] && r@[i].1@
                    == self.claims@[self.claims.keys()[i]]@,
    {
        get_all_claims(&self.claims)
    }

    /// Returns the list of capability providers registered in the host, each with its
    /// binding name and its capability ID
    pub fn capabilities(&self) -> (r: Vec<((String, String), CapabilityDescriptor)>)
        ensures
            self.caps.listed(),
            r@.len() == self.caps.keys().len(),
            forall|i: int|
                0 <= i < r@.len() ==> ((#[trigger] r@[i]).0.0@, r@[i].0.1@) == self.caps.keys()[i]
                    && r@[i].1@ == self.caps@[self.caps.keys()[i]]@,
    {
        let mut res: Vec<((String, String), CapabilityDescriptor)> = Vec::new();
        let n: usize = self.caps.len();
        let mut i: usize = 0;
        while i < n
            invariant
                i <= n,
                n == self.caps.keys().len(),
                res@.len() == i,
                forall|j: int|
                    0 <= j < i ==> ((#[trigger] res@[j]).0.0@, res@[j].0.1@) == self.caps.keys()[j]
                        && res@[j].1@ == self.caps@[self.caps.keys()[j]]@,
            decreases n - i,
        {
            let rk = self.caps.key_at(i);
            res.push(
                (
                    (rk.binding_name.clone(), rk.capid.clone()),
                    self.caps.value_at(i).copy(),
                ),
            );
            i += 1;
        }
        res
    }
}

/// Whether an actor's claims hold all of some tags.
pub open spec fn has_tags(c: ClaimsView<ActorMetadataView>, tags: Seq<Seq<char>>) -> bool {
    forall|i: int| 0 <= i < tags.len() ==> tagged(c).contains(#[trigger] tags[i])
}

fn holds_tags(claims: &Claims<ActorMetadata>, tags: &Vec<String>) -> (r: bool)
    ensures
        r == has_tags(claims@, texts(tags@)),
{
    let actor_tags = claims.tags();
    let mut i: usize = 0;
    while i < tags.len()
        invariant
            i <= tags.len(),
            texts(actor_tags@) == tagged(claims@),
            forall|j: int| 0 <= j < i ==> tagged(claims@).contains(#[trigger] texts(tags@)[j]),
        decreases tags.len() - i,
    {
        assert(texts(tags@)[i as int] == tags@[i as int]@);
        if !list_contains(&actor_tags, tags[i].as_str()) {
            return false;
        }
        i += 1;
    }
    true
}

impl<A> Host<A> {
    /// Returns the list of actors in the host that contain all of the tags in the
    /// supplied parameter. This function will not make a lattice-wide tag query
    pub fn actors_by_tag(&self, tags: &Vec<String>) -> (r: Vec<String>)
        ensures
            self.claims.listed(),
            texts(r@) == self.claims.keys().filter(
                |k: Seq<char>| has_tags(self.claims@[k]@, texts(tags@)),
            ),
            tags@.len() == 0 ==> texts(r@) == self.claims.keys(),
    {
        let mut actors: Vec<String> = Vec::new();
        let n: usize = self.claims.len();
        let mut i: usize = 0;
        let ghost p = |k: Seq<char>| has_tags(self.claims@[k]@, texts(tags@));
        proof {
            reveal(Seq::filter);
            assert(texts(actors@) =~= self.claims.keys().take(0).filter(p));
        }
        while i < n
            invariant
                i <= n,
                n == self.claims.keys().len(),
                p == (|k: Seq<char>| has_tags(self.claims@[k]@, texts(tags@))),
                texts(actors@) == self.claims.keys().take(i as int).filter(p),
            decreases n - i,
        {
            proof {
                crate::table::lemma_filter_take(self.claims.keys(), p, i as int);
            }
            if holds_tags(self.claims.value_at(i), tags) {
                let ghost prev = actors@;
                actors.push(self.claims.key_at(i).clone());
                assert(texts(actors@) =~= texts(prev).push(self.claims.keys()[i as int]));
            }
            i += 1;
        }
        assert(self.claims.keys().take(n as int) =~= self.claims.keys());
        proof {
            if tags@.len() == 0 {
                crate::table::lemma_filter_all(self.claims.keys(), p);
            }
        }
        actors
    }
}

/// The labels of a host after those of a manifest were applied: the host's own stay as
/// they are.
pub open spec fn relabelled(
    labels: Map<Seq<char>, Seq<char>>,
    wanted: Map<Seq<char>, Seq<char>>,
) -> Map<Seq<char>, Seq<char>> {
    labels.union_prefer_right(wanted.remove_keys(Set::new(|k: Seq<char>| restricted(k))))
}

/// What a manifest asks for, one after the other
pub enum ManifestStep {
    /// Add the actor in the file
    AddActorFile(String),
    /// Add the actor with the public key, from a Gantry repository
    AddActorFromGantry(String),
    /// Add the actor in the image that is referred to
    AddActorFromRegistry(String),
    /// Add the native capability provider in the file
    AddCapability(Capability),
    /// Add the native capability provider in the image that is referred to
    AddCapabilityFromRegistry(Capability),
    SetBinding {
        actor: String,
        capability: String,
        binding: Option<String>,
        values: Table<String, String>,
    },
}

#[verifier::ext_equal]
pub ghost enum StepView {
    AddActorFile(Seq<char>),
    AddActorFromGantry(Seq<char>),
    AddActorFromRegistry(Seq<char>),
    AddCapability(Seq<char>, Option<Seq<char>>),
    AddCapabilityFromRegistry(Seq<char>, Option<Seq<char>>),
    SetBinding {
        actor: Seq<char>,
        capability: Seq<char>,
        binding: Option<Seq<char>>,
        values: Map<Seq<char>, Seq<char>>,
    },
}

impl View for ManifestStep {
    type V = StepView;

    open spec fn view(&self) -> StepView {
        match *self {
            ManifestStep::AddActorFile(a) => StepView::AddActorFile(a@),
            ManifestStep::AddActorFromGantry(a) => StepView::AddActorFromGantry(a@),
            ManifestStep::AddActorFromRegistry(a) => StepView::AddActorFromRegistry(a@),
            ManifestStep::AddCapability(c) => StepView::AddCapability(
                c.path@,
                text_view(c.binding_name),
            ),
            ManifestStep::AddCapabilityFromRegistry(c) => StepView::AddCapabilityFromRegistry(
                c.path@,
                text_view(c.binding_name),
            ),
            ManifestStep::SetBinding { actor, capability, binding, values } => StepView::SetBinding {
                actor: actor@,
                capability: capability@,
                binding: text_view(binding),
                values: text_map(values@),
            },
        }
    }
}

/// The step that adds an actor of a manifest: a text that exists as a file names the file,
/// a public key names, in a lattice, an actor in a Gantry repository, and anything else is
/// the reference to an image in a registry.
pub open spec fn actor_step(actor: Seq<char>, exists: bool, lattice: bool) -> StepView {
    if exists {
        StepView::AddActorFile(actor)
    } else if lattice && is_actor_key(actor) {
        StepView::AddActorFromGantry(actor)
    } else {
        StepView::AddActorFromRegistry(actor)
    }
}

/// The step that adds a capability provider of a manifest: a path that does not exist as a
/// file is the reference to an image in a registry.
pub open spec fn capability_step(c: Capability, exists: bool) -> StepView {
    if exists {
        StepView::AddCapability(c.path@, text_view(c.binding_name))
    } else {
        StepView::AddCapabilityFromRegistry(c.path@, text_view(c.binding_name))
    }
}

/// The step that sets a binding of a manifest.
pub open spec fn binding_step(b: BindingEntry) -> StepView {
    StepView::SetBinding {
        actor: b.actor@,
        capability: b.capability@,
        binding: text_view(b.binding),
        values: match b.values {
            Some(v) => text_map(v@),
            None => Map::empty(),
        },
    }
}

/// The steps of a manifest: first the actors, then the capability providers, then the
/// bindings. What exists as a file is given.
pub open spec fn steps_of(m: HostManifest, files: Set<Seq<char>>, lattice: bool) -> Seq<StepView> {
    m.actors@.map_values(|a: String| actor_step(a@, files.contains(a@), lattice))
        + m.capabilities@.map_values(|c: Capability| capability_step(c, files.contains(c.path@)))
        + m.bindings@.map_values(|b: BindingEntry| binding_step(b))
}

pub open spec fn step_views(v: Seq<ManifestStep>) -> Seq<StepView> {
    v.map_values(|s: ManifestStep| s@)
}

/// Decides where an actor of a manifest comes from.
pub fn locate_actor(actor: String, exists: bool, lattice: bool) -> (r: ManifestStep)
    ensures
        r@ == actor_step(actor@, exists, lattice),
{
    if exists {
        ManifestStep::AddActorFile(actor)
    } else if lattice && names_actor(actor.as_str()) {
        // This is an actor's public subject
        ManifestStep::AddActorFromGantry(actor)
    } else {
        ManifestStep::AddActorFromRegistry(actor)
    }
}

/// Decides where a capability provider of a manifest comes from.
pub fn locate_capability(capability: Capability, exists: bool) -> (r: ManifestStep)
    ensures
        r@ == capability_step(capability, exists),
{
    if exists {
        ManifestStep::AddCapability(capability)
    } else {
        ManifestStep::AddCapabilityFromRegistry(capability)
    }
}

impl<A> Host<A> {
    fn apply_labels(&mut self, labels: &Table<String, String>)
        requires
            old(self).wf(),
        ensures
            final(self).wf(),
            text_map(final(self).labels@) == relabelled(
                text_map(old(self).labels@),
                text_map(labels@),
            ),
            final(self).same_but_labels(*old(self)),
    {
        let n: usize = labels.len();
        let mut i: usize = 0;
        let ghost before = text_map(self.labels@);
        let ghost wanted = text_map(labels@);
        let ghost keys = labels.keys();
        proof {
            assert(before =~= text_map(self.labels@));
        }
        while i < n
            invariant
                i <= n,
                n == keys.len(),
                keys == labels.keys(),
                wanted == text_map(labels@),
                before == text_map(old(self).labels@),
                self.same_but_labels(*old(self)),
                forall|k: Seq<char>| #[trigger]
                    text_map(self.labels@).contains_key(k) <==> before.contains_key(k) || (
                    !restricted(k) && keys.take(i as int).contains(k)),
                forall|k: Seq<char>| #[trigger]
                    text_map(self.labels@).contains_key(k) ==> text_map(self.labels@)[k] == (if !restricted(
                        k,
                    ) && keys.take(i as int).contains(k) {
                        wanted[k]
                    } else {
                        before[k]
                    }),
            decreases n - i,
        {
            let label = labels.key_at(i);
            let value = labels.value_at(i);
            proof {
                assert(keys.take(i + 1) =~= keys.take(i as int).push(keys[i as int]));
                assert forall|k: Seq<char>| #[trigger]
                    keys.take(i + 1).contains(k) <==> keys.take(i as int).contains(k) || k
                        == keys[i as int] by {
                    if k == keys[i as int] {
                        assert(keys.take(i + 1)[i as int] == k);
                    }
                    if keys.take(i as int).contains(k) {
                        let j = keys.take(i as int).index_of(k);
                        assert(keys.take(i + 1)[j] == k);
                    }
                }
            }
            let ghost mid = text_map(self.labels@);
            assert(labels@.dom().contains(keys[i as int])) by {
                assert(keys.contains(keys[i as int]));
            }
            assert(wanted[keys[i as int]] == value@);
            if !is_restricted(label.as_str()) {
                put(&mut self.labels, label.as_str(), value.clone());
            }
            proof {
                let now = text_map(self.labels@);
                assert forall|k: Seq<char>| #[trigger]
                    now.contains_key(k) <==> before.contains_key(k) || (!restricted(k)
                        && keys.take(i + 1).contains(k)) by {
                    assert(mid.contains_key(k) <==> before.contains_key(k) || (!restricted(k)
                        && keys.take(i as int).contains(k)));
                    assert(keys.take(i + 1).contains(k) <==> keys.take(i as int).contains(k) || k
                        == keys[i as int]);
                }
                assert forall|k: Seq<char>| #[trigger] now.contains_key(k) implies now[k] == (
                if !restricted(k) && keys.take(i + 1).contains(k) {
                    wanted[k]
                } else {
                    before[k]
                }) by {
                    assert(mid.contains_key(k) <==> before.contains_key(k) || (!restricted(k)
                        && keys.take(i as int).contains(k)));
                    assert(keys.take(i + 1).contains(k) <==> keys.take(i as int).contains(k) || k
                        == keys[i as int]);
                }
            }
            i += 1;
        }
        proof {
            assert(keys.take(n as int) =~= keys);
            assert forall|k: Seq<char>| keys.contains(k) <==> wanted.contains_key(k) by {
                assert(labels@.dom().contains(k) <==> labels.keys().contains(k));
            }
            assert(text_map(self.labels@) =~= relabelled(before, wanted));
        }
    }

    /// Applies a manifest to set up a host's actors, capability providers, and actor
    /// bindings: the labels are applied at once, and the result says what else is to be
    /// done, one step after the other, until one fails. What exists as a file is given.
    pub fn apply_manifest(
        &mut self,
        manifest: HostManifest,
        files: &Table<String, ()>,
        lattice: bool,
    ) -> (r: Vec<ManifestStep>)
        requires
            old(self).wf(),
        ensures
            final(self).wf(),
            step_views(r@) == steps_of(manifest, files@.dom(), lattice),
            text_map(final(self).labels@) == relabelled(
                text_map(old(self).labels@),
                text_map(manifest.labels@),
            ),
            final(self).same_but_labels(*old(self)),
    {
        self.apply_labels(&manifest.labels);
        let mut steps: Vec<ManifestStep> = Vec::new();
        let ghost want = steps_of(manifest, files@.dom(), lattice);
        let ghost first = manifest.actors@.len() as int;
        let ghost second = first + manifest.capabilities@.len();
        let mut i: usize = 0;
        while i < manifest.actors.len()
            invariant
                i <= manifest.actors.len(),
                first == manifest.actors@.len(),
                want == steps_of(manifest, files@.dom(), lattice),
                steps@.len() == i,
                step_views(steps@) =~= want.take(i as int),
            decreases manifest.actors.len() - i,
        {
            let actor = manifest.actors[i].clone();
            let exists = files.contains_key(&actor);
            let step = locate_actor(actor, exists, lattice);
            assert(want[i as int] == step@);
            let ghost prev = steps@;
            steps.push(step);
            assert(step_views(steps@) =~= step_views(prev).push(step@));
            i += 1;
        }
        let mut j: usize = 0;
        while j < manifest.capabilities.len()
            invariant
                j <= manifest.capabilities.len(),
                first == manifest.actors@.len(),
                want == steps_of(manifest, files@.dom(), lattice),
                steps@.len() == first + j,
                step_views(steps@) =~= want.take(first + j),
            decreases manifest.capabilities.len() - j,
        {
            let cap = &manifest.capabilities[j];
            let step = locate_capability(
                Capability { path: cap.path.clone(), binding_name: copy_text(&cap.binding_name) },
                files.contains_key(&cap.path),
            );
            assert(want[first + j] == step@);
            let ghost prev = steps@;
            steps.push(step);
            assert(step_views(steps@) =~= step_views(prev).push(step@));
            j += 1;
        }
        let mut k: usize = 0;
        while k < manifest.bindings.len()
            invariant
                k <= manifest.bindings.len(),
                first == manifest.actors@.len(),
                second == first + manifest.capabilities@.len(),
                want == steps_of(manifest, files@.dom(), lattice),
                steps@.len() == second + k,
                step_views(steps@) =~= want.take(second + k),
            decreases manifest.bindings.len() - k,
        {
            let config = &manifest.bindings[k];
            let values = match &config.values {
                Some(v) => copy_table(v),
                None => Table::new(),
            };
            let step = ManifestStep::SetBinding {
                actor: config.actor.clone(),
                capability: config.capability.clone(),
                binding: copy_text(&config.binding),
                values,
            };
            assert(step@ =~= binding_step(manifest.bindings@[k as int]));
            assert(want[second + k] == step@);
            let ghost prev = steps@;
            steps.push(step);
            assert(step_views(steps@) =~= step_views(prev).push(step@));
            k += 1;
        }
        assert(want.take(second + manifest.bindings@.len()) =~= want);
        steps
    }
}

/// What a graceful shutdown does
pub struct Shutdown {
    /// The subjects on which the actors' threads are told to stop
    pub actors: Vec<String>,
    /// The subjects on which the capability providers' threads are told to stop
    pub providers: Vec<String>,
    /// Whether all of them were found
    pub result: Result<(), Error>,
}

impl<A> Host<A> {
    /// The subjects of the capability providers in the host.
    pub open spec fn provider_subjects(self) -> Seq<Seq<char>> {
        self.caps.keys().map_values(
            |k: (Seq<char>, Seq<char>)| provider_subject_of(self.space(), k.1, k.0),
        )
    }

    /// The subjects of the actors in the host.
    pub open spec fn actor_subjects(self) -> Seq<Seq<char>> {
        self.claims.keys().map_values(|k: Seq<char>| actor_subject_of(self.space(), k))
    }

    /// Attempts to perform a graceful shutdown of the host by removing all actors in
    /// the host and then removing all capability providers, up to the first whose thread
    /// does not run.
    pub fn shutdown(&self) -> (r: Shutdown)
        requires
            self.wf(),
        ensures
            shuts_down(*self, r),
    {
        let mut actors: Vec<String> = Vec::new();
        let n: usize = self.claims.len();
        let mut i: usize = 0;
        while i < n
            invariant
                i <= n,
                n == self.claims.keys().len(),
                self.wf(),
                actors@.len() == i,
                texts(actors@) =~= self.actor_subjects().take(i as int),
            decreases n - i,
        {
            let claims = self.claims.value_at(i);
            assert(self.claims@.dom().contains(self.claims.keys()[i as int])) by {
                assert(self.claims.keys().contains(self.claims.keys()[i as int]));
            }
            assert(self.claims@.contains_key(self.claims.keys()[i as int]));
            actors.push(self.remove_actor(claims.subject.as_str()));
            assert(self.actor_subjects()[i as int] == texts(actors@)[i as int]);
            i += 1;
        }
        assert(self.actor_subjects().take(n as int) =~= self.actor_subjects());
        let mut providers: Vec<String> = Vec::new();
        let m: usize = self.caps.len();
        let mut j: usize = 0;
        assert(texts(providers@) =~= self.provider_subjects().take(0));
        while j < m
            invariant
                j <= m,
                m == self.caps.keys().len(),
                providers@.len() == j,
                texts(actors@) == self.actor_subjects(),
                texts(providers@) =~= self.provider_subjects().take(j as int),
                forall|k: int|
                    0 <= k < j ==> self.terminators@.contains_key(
                        #[trigger] self.provider_subjects()[k],
                    ),
            decreases m - j,
        {
            let rk = self.caps.key_at(j);
            match self.remove_native_capability(
                rk.capid.as_str(),
                Some(rk.binding_name.clone()),
            ) {
                Ok(subject) => {
                    assert(self.provider_subjects()[j as int] == subject@);
                    providers.push(subject);
                },
                Err(e) => {
                    return Shutdown { actors, providers, result: Err(e) };
                },
            }
            j += 1;
        }
        Shutdown { actors, providers, result: Ok(()) }
    }
}

/// What a graceful shutdown of a host does: every actor is told to stop, and then every
/// capability provider up to the first whose thread does not run, if there is one.
pub open spec fn shuts_down<A>(host: Host<A>, r: Shutdown) -> bool {
    let n = r.providers@.len();
    let subjects = host.provider_subjects();
    &&& texts(r.actors@) == host.actor_subjects()
    &&& n <= subjects.len()
    &&& texts(r.providers@) == subjects.take(n as int)
    &&& forall|i: int| 0 <= i < n ==> host.terminators@.contains_key(#[trigger] subjects[i])
    &&& r.result is Ok == (n == subjects.len())
    &&& r.result is Err ==> r.result->Err_0@ == Failure::MiscHost("No such capability"@)
        && !host.terminators@.contains_key(subjects[n as int])
}

/// A graceful shutdown stops every actor, and, where every capability provider's thread
/// runs, every capability provider.
pub proof fn shutdown_is_complete<A>(host: Host<A>, r: Shutdown)
    requires
        shuts_down(host, r),
        forall|k: (Seq<char>, Seq<char>)|
            host.caps.keys().contains(k) ==> host.terminators@.contains_key(
                #[trigger] provider_subject_of(host.space(), k.1, k.0),
            ),
    ensures
        r.result is Ok,
        texts(r.actors@) == host.actor_subjects(),
        texts(r.providers@) == host.provider_subjects(),
{
    if r.result is Err {
        let k = host.caps.keys()[r.providers@.len() as int];
        assert(host.caps.keys().contains(k));
        assert(host.provider_subjects()[r.providers@.len() as int] == provider_subject_of(
            host.space(),
            k.1,
            k.0,
        ));
    }
    assert(host.provider_subjects().take(host.provider_subjects().len() as int)
        =~= host.provider_subjects());
}

/// An authorizer can only be used to implement _more_ strict rules: what is refused where
/// it allows everything is refused, with the same error, whatever it says. So an actor
/// whose token does not pass validation is never loaded, and no actor is bound to a
/// capability that its claims do not attest.
pub proof fn authorizers_only_restrict(
    loaded: Map<Seq<char>, Claims<ActorMetadata>>,
    validation: Option<Failure>,
    claims: Option<ClaimsView<ActorMetadataView>>,
    actor: Seq<char>,
    capid: Seq<char>,
    allowed: bool,
)
    ensures
        admission_failure(loaded, actor, validation, true) is Some ==> admission_failure(
            loaded,
            actor,
            validation,
            allowed,
        ) == admission_failure(loaded, actor, validation, true),
        validation is Some ==> admission_failure(loaded, actor, validation, allowed) is Some,
        binding_refusal(claims, actor, capid, true) is Some ==> binding_refusal(
            claims,
            actor,
            capid,
            allowed,
        ) == binding_refusal(claims, actor, capid, true),
        claims is Some && !may_invoke(claims->0, capid) ==> binding_refusal(
            claims,
            actor,
            capid,
            allowed,
        ) == Some(unauthorized_binding(actor, capid)),
{
}

/// The default authorizer adds nothing to what is checked in any case: with it, an actor that
/// is not in the host yet is loaded whenever its token passes validation.
pub proof fn default_authorizer_refuses_nothing(
    authorizer: DefaultAuthorizer,
    loaded: Map<Seq<char>, Claims<ActorMetadata>>,
    jwt: Seq<char>,
    c: ClaimsView<ActorMetadataView>,
    failure: Option<Failure>,
)
    requires
        !loaded.contains_key(c.subject),
        load_outcome(authorizer, loaded, jwt, c, failure),
    ensures
        enforcement_outcome(jwt, failure),
{
}

/// To add an actor and to stop it again leaves the claims and the threads of the host as
/// they were.
pub proof fn stopping_undoes_adding(
    claims: Map<Seq<char>, Claims<ActorMetadata>>,
    added: Map<Seq<char>, Claims<ActorMetadata>>,
    terminators: Map<Seq<char>, ()>,
    c: ClaimsView<ActorMetadataView>,
    ns: Option<Seq<char>>,
)
    requires
        admitted(claims, added, c),
        !claims.contains_key(c.subject),
        !terminators.contains_key(actor_subject_of(ns, c.subject)),
    ensures
        added.remove(c.subject) == claims,
        terminators.insert(actor_subject_of(ns, c.subject), ()).remove(
            actor_subject_of(ns, c.subject),
        ) == terminators,
{
    assert(added.remove(c.subject) =~= claims) by {
        assert forall|k: Seq<char>| #[trigger]
            added.remove(c.subject).contains_key(k) <==> claims.contains_key(k) by {
            assert(added.dom().contains(k) <==> claims.dom().insert(c.subject).contains(k));
        }
    }
    assert(terminators.insert(actor_subject_of(ns, c.subject), ()).remove(
        actor_subject_of(ns, c.subject),
    ) =~= terminators);
}

/// The labels that a host sets itself stay as they are, whatever manifest is applied to
/// it, and while it is built no label at all is replaced: to set one twice has no effect
/// after the first time.
pub proof fn core_labels_stay(
    labels: Map<Seq<char>, Seq<char>>,
    wanted: Map<Seq<char>, Seq<char>>,
    label: Seq<char>,
    value: Seq<char>,
    other: Seq<char>,
)
    ensures
        restricted(label) && labels.contains_key(label) ==> relabelled(labels, wanted).contains_key(
            label,
        ) && relabelled(labels, wanted)[label] == labels[label],
        restricted(label) && !labels.contains_key(label) ==> !relabelled(
            labels,
            wanted,
        ).contains_key(label),
        forall|k: Seq<char>| #[trigger]
            labels.contains_key(k) ==> labelled(labels, label, value).contains_key(k) && labelled(
                labels,
                label,
                value,
            )[k] == labels[k],
        labelled(labelled(labels, label, value), label, other) == labelled(labels, label, value),
{
}

impl<A: Authorizer> Host<A> {
    /// Adds an actor to the host. Actors will not be able to make use of capability providers
    /// unless bindings are added (or existed prior to the actor being added to a host, which
    /// is possible in a lattice).
    pub fn add_actor(&mut self, actor: &Actor) -> (r: Result<ActorStart, Error>)
        requires
            old(self).wf(),
            old(self).claims@.contains_key(actor.spec_claims().subject) || checkable(
                actor.spec_token().jwt,
                decoded_actor(actor.spec_token().jwt),
            ),
        ensures
            final(self).wf(),
            load_outcome(
                old(self).authorizer,
                old(self).claims@,
                actor.spec_token().jwt,
                actor.spec_claims(),
                failure_of(r),
            ),
            r is Err ==> *final(self) == *old(self),
            r is Ok ==> {
                &&& admitted(old(self).claims@, final(self).claims@, actor.spec_claims())
                &&& starts(
                    r->Ok_0,
                    actor.spec_claims(),
                    old(self).space(),
                    old(self).key.spec_public(),
                )
                &&& final(self).terminators@ == old(self).terminators@.insert(
                    r->Ok_0.subject@,
                    (),
                )
            },
            final(self).bindings == old(self).bindings,
            final(self).caps == old(self).caps,
            final(self).image_map == old(self).image_map,
            final(self).same_settings(*old(self)),
    {
        let pk = actor.public_key();
        if self.claims.contains_key(&pk) {
            return self.admit_actor(actor, Ok(()), true);
        }
        let token = actor.token();
        let validation = enforce_validation(token.jwt.as_str());
        let ghost verdict = failure_of(validation);
        assert(enforcement_outcome(actor.spec_token().jwt, verdict));
        if validation.is_err() {
            return self.admit_actor(actor, validation, true);
        }
        // invoke the auth hook, if there is one
        let allowed = check_auth(&self.authorizer, token);
        assert(call_ensures(A::can_load, (&old(self).authorizer, &token.claims), allowed));
        self.admit_actor(actor, validation, allowed)
    }

    /// Adds an actor whose token may be of any form to the host. Of an actor that is not in
    /// the host yet and whose token cannot be put to validation it says nothing, and adds
    /// nothing.
    pub fn try_add_actor(&mut self, actor: &Actor) -> (r: Option<Result<ActorStart, Error>>)
        requires
            old(self).wf(),
        ensures
            final(self).wf(),
            r is Some == (old(self).claims@.contains_key(actor.spec_claims().subject) || checkable(
                actor.spec_token().jwt,
                decoded_actor(actor.spec_token().jwt),
            )),
            r is None ==> *final(self) == *old(self),
            r is Some && r->0 is Err ==> *final(self) == *old(self),
            r is Some ==> load_outcome(
                old(self).authorizer,
                old(self).claims@,
                actor.spec_token().jwt,
                actor.spec_claims(),
                failure_of(r->0),
            ),
            r is Some && r->0 is Ok ==> {
                &&& admitted(old(self).claims@, final(self).claims@, actor.spec_claims())
                &&& starts(
                    r->0->Ok_0,
                    actor.spec_claims(),
                    old(self).space(),
                    old(self).key.spec_public(),
                )
                &&& final(self).terminators@ == old(self).terminators@.insert(
                    r->0->Ok_0.subject@,
                    (),
                )
            },
            final(self).bindings == old(self).bindings,
            final(self).caps == old(self).caps,
            final(self).image_map == old(self).image_map,
            final(self).same_settings(*old(self)),
    {
        if self.claims.contains_key(&actor.public_key()) {
            return Some(self.add_actor(actor));
        }
        let token = actor.token();
        let claims = match decode_actor(token.jwt.as_str()) {
            Ok(c) => Some(c),
            Err(_) => None,
        };
        if is_checkable(token.jwt.as_str(), &claims) {
            Some(self.add_actor(actor))
        } else {
            None
        }
    }

    /// Adds an actor to the host by the bytes that a Gantry repository has for it, or by the
    /// error in their place. By default, hosts do not come configured with clients for such a
    /// repository; no bytes are given where there is none. Of an actor that is not in the host
    /// yet and whose token cannot be put to validation it says nothing, and adds nothing.
    pub fn add_actor_from_gantry(&mut self, downloaded: Option<Result<Vec<u8>, Error>>) -> (r: Option<
        Result<ActorStart, Error>,
    >)
        requires
            old(self).wf(),
        ensures
            final(self).wf(),
            r is None || r->0 is Err ==> *final(self) == *old(self),
            refused_download(downloaded) is Some ==> r is Some && failure_of(r->0)
                == refused_download(downloaded),
            refused_download(downloaded) is None ==> {
                let token = embedded_token(downloaded->0->Ok_0@)->0->0;
                &&& r is Some == (old(self).claims@.contains_key(token.claims.subject) || checkable(
                    token.jwt,
                    decoded_actor(token.jwt),
                ))
                &&& r is Some ==> load_outcome(
                    old(self).authorizer,
                    old(self).claims@,
                    token.jwt,
                    token.claims,
                    failure_of(r->0),
                )
                &&& r is Some && r->0 is Ok ==> {
                    &&& admitted(old(self).claims@, final(self).claims@, token.claims)
                    &&& starts(
                        r->0->Ok_0,
                        token.claims,
                        old(self).space(),
                        old(self).key.spec_public(),
                    )
                    &&& final(self).terminators@ == old(self).terminators@.insert(
                        r->0->Ok_0.subject@,
                        (),
                    )
                }
            },
            final(self).bindings == old(self).bindings,
            final(self).caps == old(self).caps,
            final(self).image_map == old(self).image_map,
            final(self).same_settings(*old(self)),
    {
        match downloaded {
            None => Some(
                Err(
                    errors::new(
                        ErrorKind::MiscHost("No gantry client configured for this host".to_string()),
                    ),
                ),
            ),
            Some(Err(e)) => Some(Err(e)),
            Some(Ok(bytes)) => match Actor::from_slice(bytes.as_slice()) {
                Err(e) => Some(Err(e)),
                Ok(actor) => self.try_add_actor(&actor),
            },
        }
    }

    /// The first half of binding an actor to a capability provider with a given
    /// configuration. If the binding name is `None` then the default binding name will be
    /// used (`default`). In a lattice the actor may run in any host: what the hosts have
    /// replied is given too.
    pub fn set_binding(
        &self,
        hosts: Option<&Vec<HostActors>>,
        actor: &str,
        capid: &str,
        binding_name: Option<String>,
        config: &Table<String, String>,
    ) -> (r: Result<BindRequest, Error>)
        requires
            self.wf(),
            known_claims(
                match hosts {
                    Some(h) => Some(h@),
                    None => None,
                },
                self.claims@,
                actor@,
            ) matches Some(c) ==> c.metadata is Some,
        ensures
            ({
                let known = known_claims(
                    match hosts {
                        Some(h) => Some(h@),
                        None => None,
                    },
                    self.claims@,
                    actor@,
                );
                let binding = name_or_default(text_view(binding_name));
                &&& known is None || !may_invoke(known->0, capid@) ==> failure_of(r)
                    == binding_refusal(known, actor@, capid@, true)
                &&& known is Some && may_invoke(known->0, capid@) ==> exists|
                    claims: Claims<ActorMetadata>,
                    target: WasccEntity,
                    allowed: bool,
                |
                    {
                        &&& claims@ == known->0
                        &&& target@ == EntityView::Capability { capid: capid@, binding }
                        &&& #[trigger] call_ensures(
                            A::can_invoke,
                            (&self.authorizer, &claims, &target, OP_BIND_ACTOR),
                            allowed,
                        )
                        &&& failure_of(r) == binding_refusal(known, actor@, capid@, allowed)
                    }
                &&& r is Ok ==> {
                    &&& known is Some
                    &&& r->Ok_0.binding@ == binding
                    &&& r->Ok_0.subject@ == binding_subject(
                        self.space(),
                        actor@,
                        capid@,
                        binding,
                    )
                    &&& from_system(
                        r->Ok_0.invocation@,
                        self.key.spec_public(),
                        EntityView::Capability { capid: capid@, binding },
                        OP_BIND_ACTOR@,
                    )
                    &&& carries(
                        r->Ok_0.invocation@.msg,
                        ConfigurationView {
                            module: actor@,
                            values: binding_values(text_map(config@), known->0),
                        },
                    )
                }
            }),
    {
        let claims = discover_claims(hosts, &self.claims, actor);
        let c = match claims {
            None => {
                return match judge_binding(&None, actor, capid, true) {
                    Err(e) => Err(e),
                    Ok(_) => Err(refuse_binding(actor, capid)),
                };
            },
            Some(c) => c,
        };
        let binding = binding_or_default(binding_name);
        if !can_invoke(&c, capid, OP_BIND_ACTOR) {
            return Err(refuse_binding(actor, capid));
        }
        let target = WasccEntity::Capability {
            capid: capid.to_string(),
            binding: binding.clone(),
        };
        let allowed = self.authorizer.can_invoke(&c, &target, OP_BIND_ACTOR);
        assert(call_ensures(
            A::can_invoke,
            (&self.authorizer, &c, &target, OP_BIND_ACTOR),
            allowed,
        ));
        if !allowed {
            return Err(refuse_binding(actor, capid));
        }
        let subject = if (same(actor, capid) || same(actor, SYSTEM_ACTOR)) && starts_with(
            capid,
            "M",
        ) {
            // manually injected actor configuration
            actor_subject(ns_ref(&self.ns), actor)
        } else {
            provider_subject(ns_ref(&self.ns), capid, binding.as_str())
        };
        let invocation = gen_config_invocation(
            &self.key,
            actor,
            capid,
            &c,
            binding.as_str(),
            copy_table(config),
        );
        Ok(BindRequest { subject, invocation, binding })
    }
}

} // verus!
