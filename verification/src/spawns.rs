//! The threads of a host: what each does when it starts, when an invocation comes,
//! and when it is told to stop.
//!
//! Every actor and every capability provider has a thread that takes the invocations
//! on its subject. A native capability provider has one more for every actor that is
//! bound to it, which handles the private conversations between the two.
use vstd::prelude::*;

use crate::bindings::{
    of_capability, of_capid, private_subject, remove_binding, unbind_all_from_cap,
    unsub_all_bindings, without, BindingKeyView, RouteKey,
};
use crate::bus::lattice::{Binding, BindingView, BusEvent, EventView};
use crate::bus::{
    actor_subject_of, actors_and_providers_stay_apart, bound_subject_of, ns_ref, ns_view,
    provider_subject, provider_subject_bound_actor, provider_subject_of,
};
use crate::capability::name_or_default;
use crate::claims::HostKey;
use crate::codec::{
    copy_table, decoded_configuration, is_configuration, CapabilityConfiguration, CapabilityDescriptor,
    ConfigurationView, OP_BIND_ACTOR, OP_GET_CAPABILITY_DESCRIPTOR,
    OP_PERFORM_LIVE_UPDATE, OP_REMOVE_ACTOR,
};
use crate::entity::EntityView;
use crate::inthost::{error_response, Invocation, InvocationResponse};
use crate::messages::{carries, from_system, gen_rebind_invocation};
use crate::messagepack::is_readable;
use crate::runtime::Host;
use crate::text::{same, texts};

verus! {

/// What a thread takes invocations for
#[derive(Debug, Clone, Copy, PartialEq, Eq, Structural)]
pub enum Role {
    /// An actor
    Actor,
    /// A capability provider that is a portable module
    PortableProvider,
    /// A capability provider that is a native library
    NativeProvider,
    /// A native capability provider, on behalf of one actor that is bound to it
    BoundProvider,
}

/// The operations that a thread passes on. A provider's own thread takes only those
/// that need no binding.
pub open spec fn passes(role: Role, operation: Seq<char>) -> bool {
    match role {
        Role::Actor => true,
        Role::BoundProvider => true,
        Role::PortableProvider => operation == OP_BIND_ACTOR@ || operation
            == OP_GET_CAPABILITY_DESCRIPTOR@,
        Role::NativeProvider => operation == OP_BIND_ACTOR@ || operation
            == OP_GET_CAPABILITY_DESCRIPTOR@ || operation == OP_REMOVE_ACTOR@,
    }
}

/// Decides whether a thread passes an invocation on: nothing where it does, else what
/// it responds with in place of the actor or the provider.
pub fn refuse_unbound(role: Role, inv: &Invocation) -> (r: Option<InvocationResponse>)
    ensures
        r is None == passes(role, inv@.operation),
        r matches Some(resp) ==> resp@ == error_response(
            inv@,
            "Attempted to invoke binding-required operation on unbound provider"@,
        ),
{
    let op = inv.operation.as_str();
    let passed = match role {
        Role::Actor => true,
        Role::BoundProvider => true,
        Role::PortableProvider => same(op, OP_BIND_ACTOR) || same(op, OP_GET_CAPABILITY_DESCRIPTOR),
        Role::NativeProvider => same(op, OP_BIND_ACTOR) || same(op, OP_GET_CAPABILITY_DESCRIPTOR)
            || same(op, OP_REMOVE_ACTOR),
    };
    if passed {
        None
    } else {
        Some(
            InvocationResponse::error(
                inv,
                "Attempted to invoke binding-required operation on unbound provider",
            ),
        )
    }
}

/// Whether an invocation asks an actor's thread to replace the module that it runs.
pub fn is_live_update(role: Role, inv: &Invocation) -> (r: bool)
    ensures
        r == (role is Actor && inv@.operation == OP_PERFORM_LIVE_UPDATE@),
{
    match role {
        Role::Actor => same(inv.operation.as_str(), OP_PERFORM_LIVE_UPDATE),
        _ => false,
    }
}

/// What a thread does once it has responded
pub enum FollowUp {
    Nothing,
    /// Start the thread for the private conversations of the named actor
    StartBound(String),
    /// Stop the thread for the private conversations of the named actor
    StopBound(String),
    /// Start private conversations with a portable provider
    StartBoundPortable,
}

#[verifier::ext_equal]
pub ghost enum FollowUpView {
    Nothing,
    StartBound(Seq<char>),
    StopBound(Seq<char>),
    StartBoundPortable,
}

impl View for FollowUp {
    type V = FollowUpView;

    open spec fn view(&self) -> FollowUpView {
        match *self {
            FollowUp::Nothing => FollowUpView::Nothing,
            FollowUp::StartBound(a) => FollowUpView::StartBound(a@),
            FollowUp::StopBound(a) => FollowUpView::StopBound(a@),
            FollowUp::StartBoundPortable => FollowUpView::StartBoundPortable,
        }
    }
}

/// Whether what a thread does after it has responded turns on the actor that the
/// message names.
pub open spec fn names_bound_actor(role: Role, operation: Seq<char>, failed: bool) -> bool {
    role is NativeProvider && !failed && (operation == OP_BIND_ACTOR@ || operation
        == OP_REMOVE_ACTOR@)
}

fn concerns_bound_actor(role: Role, operation: &str, failed: bool) -> (r: bool)
    ensures
        r == names_bound_actor(role, operation@, failed),
{
    match role {
        Role::NativeProvider => !failed && (same(operation, OP_BIND_ACTOR) || same(
            operation,
            OP_REMOVE_ACTOR,
        )),
        _ => false,
    }
}

/// What a thread does once it has responded: where a provider was bound to an actor
/// or the actor was removed from it, the thread for their conversations follows.
pub open spec fn follow_up_of(
    role: Role,
    operation: Seq<char>,
    failed: bool,
    actor: Seq<char>,
) -> FollowUpView {
    if failed {
        FollowUpView::Nothing
    } else if role is NativeProvider && operation == OP_BIND_ACTOR@ {
        FollowUpView::StartBound(actor)
    } else if role is NativeProvider && operation == OP_REMOVE_ACTOR@ {
        FollowUpView::StopBound(actor)
    } else if role is PortableProvider && operation == OP_BIND_ACTOR@ {
        FollowUpView::StartBoundPortable
    } else {
        FollowUpView::Nothing
    }
}

/// The actor that a configuration in binary form is for.
pub fn actor_from_config(bytes: &[u8]) -> (r: String)
    requires
        is_configuration(bytes@),
    ensures
        r@ == decoded_configuration(bytes@)->Ok_0.module,
{
    match CapabilityConfiguration::decode(bytes) {
        Ok(config) => config.module,
        Err(e) => e,
    }
}

/// The actor that bytes are a configuration for, if they are one.
pub fn try_actor_from_config(bytes: &[u8]) -> (r: Option<String>)
    ensures
        r is Some == is_configuration(bytes@),
        r matches Some(a) ==> a@ == decoded_configuration(bytes@)->Ok_0.module,
{
    if !is_readable(bytes) {
        return None;
    }
    match CapabilityConfiguration::decode(bytes) {
        Ok(config) => Some(config.module),
        Err(_) => None,
    }
}

/// What a thread does once it has responded, given the actor that the message names.
pub fn follow_up_for(role: Role, operation: &str, failed: bool, actor: String) -> (r: FollowUp)
    ensures
        r@ == follow_up_of(role, operation@, failed, actor@),
{
    if failed {
        return FollowUp::Nothing;
    }
    match role {
        Role::NativeProvider => {
            if same(operation, OP_BIND_ACTOR) {
                FollowUp::StartBound(actor)
            } else if same(operation, OP_REMOVE_ACTOR) {
                FollowUp::StopBound(actor)
            } else {
                FollowUp::Nothing
            }
        },
        Role::PortableProvider => {
            if same(operation, OP_BIND_ACTOR) {
                FollowUp::StartBoundPortable
            } else {
                FollowUp::Nothing
            }
        },
        Role::Actor => FollowUp::Nothing,
        Role::BoundProvider => FollowUp::Nothing,
    }
}

/// What a thread does once it has responded to an invocation.
pub fn follow_up(role: Role, inv: &Invocation, response: &InvocationResponse) -> (r: FollowUp)
    requires
        names_bound_actor(role, inv@.operation, response@.error is Some) ==> is_configuration(
            inv@.msg,
        ),
    ensures
        r@ == follow_up_of(
            role,
            inv@.operation,
            response@.error is Some,
            decoded_configuration(inv@.msg)->Ok_0.module,
        ),
{
    let failed = response.error.is_some();
    let op = inv.operation.as_str();
    let actor = if concerns_bound_actor(role, op, failed) {
        actor_from_config(inv.msg.as_slice())
    } else {
        String::new()
    };
    follow_up_for(role, op, failed, actor)
}

/// What a thread does once it has responded to an invocation whose message may be
/// anything. Nothing comes back where the message ought to name an actor and does not.
pub fn try_follow_up(role: Role, inv: &Invocation, response: &InvocationResponse) -> (r: Option<
    FollowUp,
>)
    ensures
        r is None == (names_bound_actor(role, inv@.operation, response@.error is Some)
            && !is_configuration(inv@.msg)),
        r matches Some(f) ==> f@ == follow_up_of(
            role,
            inv@.operation,
            response@.error is Some,
            decoded_configuration(inv@.msg)->Ok_0.module,
        ),
{
    let failed = response.error.is_some();
    if concerns_bound_actor(role, inv.operation.as_str(), failed) && try_actor_from_config(
        inv.msg.as_slice(),
    ).is_none() {
        None
    } else {
        Some(follow_up(role, inv, response))
    }
}

/// What a capability provider's thread needs to run
pub struct ProviderStart {
    /// The subject on which the provider takes the invocations that need no binding
    pub subject: String,
    /// The event once the provider can take invocations
    pub loaded: BusEvent,
}

/// What is left to do when a native capability provider's thread was told to stop
pub struct ProviderStop {
    /// The private subjects whose subscriptions end
    pub private: Vec<String>,
    /// The provider's own subject, whose subscription ends
    pub subject: String,
    pub removed: BusEvent,
}

impl<A> Host<A> {
    /// What a capability provider in the host needs to run. Notes the subject on which
    /// it can be told to stop.
    pub fn start_provider(&mut self, capid: &str, binding: &str) -> (r: ProviderStart)
        requires
            old(self).wf(),
        ensures
            final(self).wf(),
            r.subject@ == provider_subject_of(old(self).space(), capid@, binding@),
            r.loaded@ == (EventView::ProviderLoaded {
                capid: capid@,
                instance_name: binding@,
                host: old(self).key.spec_public(),
            }),
            final(self).terminators@ == old(self).terminators@.insert(r.subject@, ()),
            final(self).same_but_terminators(*old(self)),
    {
        let subject = provider_subject(ns_ref(&self.ns), capid, binding);
        self.terminators.insert(subject.clone(), ());
        let loaded = BusEvent::ProviderLoaded {
            capid: capid.to_string(),
            instance_name: binding.to_string(),
            host: self.id(),
        };
        ProviderStart { subject, loaded }
    }

    /// Adds a portable capability provider to the host, by what it says of itself. One
    /// that says nothing is not added.
    pub fn add_capability(
        &mut self,
        descriptor: Option<&CapabilityDescriptor>,
        binding: Option<&str>,
    ) -> (r: Option<ProviderStart>)
        requires
            old(self).wf(),
        ensures
            final(self).wf(),
            r is Some == descriptor is Some,
            r is None ==> *final(self) == *old(self),
            r matches Some(start) ==> {
                let name = name_or_default(ns_view(binding));
                let d = descriptor->0@;
                &&& start.subject@ == provider_subject_of(old(self).space(), d.id, name)
                &&& start.loaded@ == (EventView::ProviderLoaded {
                    capid: d.id,
                    instance_name: name,
                    host: old(self).key.spec_public(),
                })
                &&& final(self).terminators@ == old(self).terminators@.insert(start.subject@, ())
            },
            final(self).same_but_terminators(*old(self)),
    {
        let name = match binding {
            Some(b) => b,
            None => "default",
        };
        match descriptor {
            Some(d) => Some(self.start_provider(d.id.as_str(), name)),
            None => None,
        }
    }

    /// Forgets what a capability provider says of itself.
    pub fn remove_cap(&mut self, capid: &str, binding: &str)
        requires
            old(self).wf(),
        ensures
            final(self).wf(),
            final(self).caps@ == old(self).caps@.remove((binding@, capid@)),
            final(self).same_but_caps(*old(self)),
    {
        let _ = self.caps.remove(&RouteKey::new(binding, capid));
    }

    /// What becomes of the host when a portable capability provider's thread was told
    /// to stop: the provider is no longer in it, nor is any binding to it. The result is
    /// the subject whose subscription ends.
    pub fn stop_portable_capability(&mut self, capid: &str, binding: &str) -> (r: String)
        requires
            old(self).wf(),
        ensures
            final(self).wf(),
            r@ == provider_subject_of(old(self).space(), capid@, binding@),
            final(self).terminators@ == old(self).terminators@.remove(r@),
            final(self).caps@ == old(self).caps@.remove((binding@, capid@)),
            final(self).bindings@ == without(
                old(self).bindings@,
                of_capability(capid@, binding@),
            ),
            final(self).claims == old(self).claims,
            final(self).image_map == old(self).image_map,
            final(self).same_settings(*old(self)),
    {
        let subject = provider_subject(ns_ref(&self.ns), capid, binding);
        proof {
            assert forall|k: Seq<char>| #[trigger]
                actor_subject_of(self.space(), k) != subject@ by {
                actors_and_providers_stay_apart(self.space(), k, capid@, binding@, k);
            }
        }
        let _ = self.terminators.remove(&subject);
        self.remove_cap(capid, binding);
        unbind_all_from_cap(&mut self.bindings, capid, binding);
        subject
    }

    /// What becomes of the host when a native capability provider's thread was told to
    /// stop: the provider is no longer in it, nor is any binding to it. The result names
    /// the subjects whose subscriptions end, and the event. Of the private conversations
    /// with the capability those end whose bindings are left, which are to the providers
    /// of it under other names.
    pub fn stop_native_capability(&mut self, capid: &str, binding: &str) -> (r: ProviderStop)
        requires
            old(self).wf(),
        ensures
            final(self).wf(),
            r.subject@ == provider_subject_of(old(self).space(), capid@, binding@),
            r.removed@ == (EventView::ProviderRemoved {
                capid: capid@,
                instance_name: binding@,
                host: old(self).key.spec_public(),
            }),
            final(self).terminators@ == old(self).terminators@.remove(r.subject@),
            final(self).bindings@ == without(
                old(self).bindings@,
                of_capability(capid@, binding@),
            ),
            final(self).bindings.listed(),
            texts(r.private@) == final(self).bindings.keys().filter(of_capid(capid@)).map_values(
                |k: BindingKeyView| private_subject(old(self).space(), k),
            ),
            final(self).caps@ == old(self).caps@.remove((binding@, capid@)),
            final(self).claims == old(self).claims,
            final(self).image_map == old(self).image_map,
            final(self).same_settings(*old(self)),
    {
        unbind_all_from_cap(&mut self.bindings, capid, binding);
        let private = unsub_all_bindings(&self.bindings, ns_ref(&self.ns), capid);
        self.remove_cap(capid, binding);
        let subject = provider_subject(ns_ref(&self.ns), capid, binding);
        proof {
            assert forall|k: Seq<char>| #[trigger]
                actor_subject_of(self.space(), k) != subject@ by {
                actors_and_providers_stay_apart(self.space(), k, capid@, binding@, k);
            }
        }
        let _ = self.terminators.remove(&subject);
        let removed = BusEvent::ProviderRemoved {
            capid: capid.to_string(),
            instance_name: binding.to_string(),
            host: self.id(),
        };
        ProviderStop { private, subject, removed }
    }

    /// The subject of the private conversations of an actor with a native capability
    /// provider. Notes that their thread can be told to stop on it.
    pub fn start_bound(&mut self, capid: &str, binding: &str, actor: &str) -> (r: String)
        requires
            old(self).wf(),
        ensures
            final(self).wf(),
            r@ == bound_subject_of(old(self).space(), capid@, binding@, actor@),
            final(self).terminators@ == old(self).terminators@.insert(r@, ()),
            final(self).same_but_terminators(*old(self)),
    {
        let subject = provider_subject_bound_actor(ns_ref(&self.ns), capid, binding, actor);
        self.terminators.insert(subject.clone(), ());
        subject
    }

    /// The subject on which the thread for private conversations is told to stop.
    pub fn signal_bound(&self, capid: &str, binding: &str, actor: &str) -> (r: String)
        requires
            self.terminators@.contains_key(
                bound_subject_of(self.space(), capid@, binding@, actor@),
            ),
        ensures
            r@ == bound_subject_of(self.space(), capid@, binding@, actor@),
    {
        provider_subject_bound_actor(ns_ref(&self.ns), capid, binding, actor)
    }

    /// What becomes of the host when the thread for private conversations was told to
    /// stop: the binding is removed. The result is the subject whose subscription ends,
    /// and the event.
    pub fn stop_bound(&mut self, capid: &str, binding: &str, actor: &str) -> (r: (String, BusEvent))
        requires
            old(self).wf(),
        ensures
            final(self).wf(),
            r.0@ == bound_subject_of(old(self).space(), capid@, binding@, actor@),
            r.1@ == (EventView::ProviderRemoved {
                capid: capid@,
                instance_name: binding@,
                host: old(self).key.spec_public(),
            }),
            final(self).terminators@ == old(self).terminators@.remove(r.0@),
            final(self).bindings@ == old(self).bindings@.remove((actor@, capid@, binding@)),
            final(self).claims == old(self).claims,
            final(self).caps == old(self).caps,
            final(self).image_map == old(self).image_map,
            final(self).same_settings(*old(self)),
    {
        let subject = provider_subject_bound_actor(ns_ref(&self.ns), capid, binding, actor);
        proof {
            assert forall|k: Seq<char>| #[trigger]
                actor_subject_of(self.space(), k) != subject@ by {
                actors_and_providers_stay_apart(self.space(), k, capid@, binding@, actor@);
            }
        }
        remove_binding(&mut self.bindings, actor, binding, capid);
        let _ = self.terminators.remove(&subject);
        let event = BusEvent::ProviderRemoved {
            capid: capid.to_string(),
            instance_name: binding.to_string(),
            host: self.id(),
        };
        (subject, event)
    }
}

/// The bindings to one capability provider.
pub open spec fn to_provider(capid: Seq<char>, binding: Seq<char>) -> spec_fn(Binding) -> bool {
    |b: Binding| b@.capability_id == capid && b@.binding_name == binding
}

/// An invocation that binds an actor again as it was bound before.
pub open spec fn rebinds(
    actor: Seq<char>,
    inv: Invocation,
    host: Seq<char>,
    b: BindingView,
) -> bool {
    &&& actor == b.actor
    &&& from_system(
        inv@,
        host,
        EntityView::Capability { capid: b.capability_id, binding: b.binding_name },
        OP_BIND_ACTOR@,
    )
    &&& carries(inv@.msg, ConfigurationView { module: b.actor, values: b.configuration })
}

/// Reconstitutes the bindings to a capability provider that other hosts in the lattice
/// know of: for each, the actor, and the invocation that binds the provider to it.
pub fn reestablish_bindings(
    hostkey: &HostKey,
    blist: &Vec<Binding>,
    capid: &str,
    binding_name: &str,
) -> (r: Vec<(String, Invocation)>)
    ensures
        ({
            let known = blist@.filter(to_provider(capid@, binding_name@));
            &&& r@.len() == known.len()
            &&& forall|i: int|
                0 <= i < known.len() ==> rebinds(
                    (#[trigger] r@[i]).0@,
                    r@[i].1,
                    hostkey.spec_public(),
                    known[i]@,
                )
        }),
{
    let mut out: Vec<(String, Invocation)> = Vec::new();
    let mut i: usize = 0;
    let ghost p = to_provider(capid@, binding_name@);
    proof {
        reveal(Seq::filter);
        assert(blist@.take(0).filter(p) =~= Seq::empty());
    }
    while i < blist.len()
        invariant
            i <= blist.len(),
            p == to_provider(capid@, binding_name@),
            out@.len() == blist@.take(i as int).filter(p).len(),
            forall|j: int|
                0 <= j < out@.len() ==> rebinds(
                    (#[trigger] out@[j]).0@,
                    out@[j].1,
                    hostkey.spec_public(),
                    blist@.take(i as int).filter(p)[j]@,
                ),
        decreases blist.len() - i,
    {
        let b = &blist[i];
        proof {
            crate::table::lemma_filter_take(blist@, p, i as int);
        }
        if same(b.capability_id.as_str(), capid) && same(b.binding_name.as_str(), binding_name) {
            let cfgvals = CapabilityConfiguration {
                module: b.actor.clone(),
                values: copy_table(&b.configuration),
            };
            let inv = gen_rebind_invocation(hostkey, &cfgvals, capid, binding_name);
            out.push((b.actor.clone(), inv));
        }
        i += 1;
    }
    assert(blist@.take(blist@.len() as int) =~= blist@);
    out
}

/// A provider's own thread refuses every operation that needs a binding, whatever
/// actors are bound to the provider, and a response with an error starts and stops
/// nothing.
pub proof fn unbound_providers_refuse(role: Role, operation: Seq<char>, actor: Seq<char>)
    requires
        role is PortableProvider || role is NativeProvider,
    ensures
        operation != OP_BIND_ACTOR@ && operation != OP_GET_CAPABILITY_DESCRIPTOR@ && operation
            != OP_REMOVE_ACTOR@ ==> !passes(role, operation),
        follow_up_of(role, operation, true, actor) == FollowUpView::Nothing,
{
}

} // verus!
