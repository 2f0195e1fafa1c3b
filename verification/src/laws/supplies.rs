//! What comes from a registry, what providers say of themselves, and the bus within a process.
use vstd::prelude::*;

use crate::actor::Actor;
use crate::bus::inproc::InprocBus;
use crate::bus::{
    actor_subject, event_subject, inventory_wildcard_subject, provider_subject,
    provider_subject_bound_actor,
};
use crate::capability::{binding_or_default, description_call, NativeCapability};
use crate::codec::{decoded_descriptor, text_map, CapabilityDescriptor};
use crate::errors::{Error, Failure};
use crate::registry::{
    archive_failure, check_provider_claims, fetch_actor, fetch_oci_bytes, image_reference,
    provider_library, provider_target, registry_auth, RegistryAuth,
};
use crate::table::Table;

verus! {

/// A host presents itself to a registry with a user and a password exactly where both are given.
pub proof fn registries_are_told_who_asks(
    user: Option<String>,
    password: Option<String>,
    r: RegistryAuth,
)
    requires
        call_ensures(registry_auth, (user, password), r),
    ensures
        r is Basic <==> user is Some && password is Some,
        r matches RegistryAuth::Basic(u, p) ==> u@ == user->0@ && p@ == password->0@,
{
}

/// A reference to an image has a slash in it, and is used as it is.
pub proof fn references_have_slashes(img: &str, r: Result<String, Error>)
    requires
        call_ensures(image_reference, (img,), r),
    ensures
        r is Ok <==> exists|i: int| 0 <= i < img@.len() && img@[i] == '/',
        r is Ok ==> r->Ok_0@ == img@,
        r is Err ==> r->Err_0@ is MiscHost,
{
}

/// What a registry has given is used byte by byte, also as an actor. Where it has given nothing,
/// there is an error.
pub proof fn images_are_used_as_they_are(
    pulled: Result<Vec<u8>, String>,
    bytes: Result<Vec<u8>, Error>,
    actor: Result<Actor, Error>,
)
    requires
        call_ensures(fetch_oci_bytes, (pulled,), bytes),
        call_ensures(fetch_actor, (pulled,), actor),
    ensures
        bytes is Ok <==> pulled is Ok,
        bytes is Ok ==> bytes->Ok_0@ == pulled->Ok_0@,
        bytes is Err ==> bytes->Err_0@ == Failure::MiscHost("Failed to fetch OCI bytes"@),
        pulled is Err ==> actor is Err && actor->Err_0@ == bytes->Err_0@,
        actor is Ok ==> actor->Ok_0.spec_bytes() == pulled->Ok_0@,
{
}

/// The library of a provider is the one for the host's architecture and operating system, by its
/// own labels. It has to be there, and so do the claims.
pub proof fn providers_come_in_archives(
    labels: &Table<String, String>,
    target: String,
    found: Option<Vec<u8>>,
    t: &str,
    library: Result<Vec<u8>, Error>,
    signed: bool,
    reference: &str,
    claims: Result<(), Error>,
    e: &str,
    bad: Error,
)
    requires
        labels@.contains_key("hostcore.arch"@),
        labels@.contains_key("hostcore.os"@),
        call_ensures(provider_target, (labels,), target),
        call_ensures(provider_library, (found, t), library),
        call_ensures(check_provider_claims, (signed, reference), claims),
        call_ensures(archive_failure, (e,), bad),
    ensures
        target@ == labels@["hostcore.arch"@]@ + "-"@ + labels@["hostcore.os"@]@,
        library is Ok <==> found is Some,
        library is Ok ==> library->Ok_0@ == found->0@,
        library is Err ==> library->Err_0@ == Failure::HostCallFailure(
            "No binary found in provider archive for "@ + t@,
        ),
        claims is Ok <==> signed,
        claims is Err ==> claims->Err_0@ == Failure::HostCallFailure(
            "No embedded claims found in provider archive for "@ + reference@,
        ),
        bad@ == Failure::HostCallFailure("Failed to load provider archive: "@ + e@),
{
    assert(text_map(labels@)["hostcore.arch"@] == labels@["hostcore.arch"@]@);
    assert(text_map(labels@)["hostcore.os"@] == labels@["hostcore.os"@]@);
}

/// A name that is given stays, and where none is given it is "default".
pub proof fn names_have_a_default(binding: Option<String>, r: String)
    requires
        call_ensures(binding_or_default, (binding,), r),
    ensures
        binding is Some ==> r@ == binding->0@,
        binding is None ==> r@ == "default"@,
{
}

/// A native provider is what its plugin says of itself, under the name that it was given.
pub proof fn native_providers_describe_themselves<P>(
    plugin: P,
    binding: Option<String>,
    description: &[u8],
    r: Result<NativeCapability<P>, Error>,
    id: String,
    name: String,
    descriptor: &CapabilityDescriptor,
)
    requires
        call_ensures(NativeCapability::<P>::from_instance, (plugin, binding, description), r),
        r is Ok ==> call_ensures(NativeCapability::<P>::id, (&r->Ok_0,), id),
        r is Ok ==> call_ensures(NativeCapability::<P>::name, (&r->Ok_0,), name),
        r is Ok ==> call_ensures(NativeCapability::<P>::descriptor, (&r->Ok_0,), descriptor),
    ensures
        r is Ok <==> decoded_descriptor(description@) is Ok,
        r is Err ==> r->Err_0@ is HostCallFailure,
        r is Ok ==> r->Ok_0.plugin == plugin,
        r is Ok && binding is Some ==> r->Ok_0.binding_name@ == binding->0@,
        r is Ok && binding is None ==> r->Ok_0.binding_name@ == "default"@,
        r is Ok ==> descriptor@ == decoded_descriptor(description@)->Ok_0,
        r is Ok ==> id@ == descriptor@.id && name@ == descriptor@.name,
{
}

/// A plugin is asked by the system to describe itself, with an empty message.
pub proof fn plugins_are_asked_by_the_system(r: (String, String, Vec<u8>))
    requires
        call_ensures(description_call, (), r),
    ensures
        r.0@ == "system"@,
        r.1@ == "GetCapabilityDescriptor"@,
        r.2@ == Seq::<u8>::empty(),
{
    assert(r.2@ =~= Seq::<u8>::empty());
}

/// An invocation on a subject goes to the last one that has subscribed to it, until its
/// subscription ends, whatever is done about other subjects.
pub proof fn subscribers_take_invocations<S>(
    bus: &mut InprocBus<S>,
    subject: &str,
    subscriber: S,
    after: &InprocBus<S>,
    other: &str,
    r: Result<&S, Error>,
)
    requires
        call_ensures(InprocBus::<S>::subscribe, (bus, subject, subscriber), ()),
        *after == *final(bus),
        call_ensures(InprocBus::<S>::invoke, (after, other), r),
    ensures
        other@ == subject@ ==> r is Ok && *(r->Ok_0) == subscriber,
        other@ != subject@ ==> (r is Ok <==> old(bus).subscriptions@.contains_key(other@)),
        other@ != subject@ && r is Ok ==> *(r->Ok_0) == old(bus).subscriptions@[other@],
        r is Err ==> r->Err_0@ == Failure::MiscHost(
            "Attempted bus call for "@ + other@ + " with no subscribers"@,
        ),
{
}

/// Once a subscription has ended, invocations on its subject fail, and those on others go where
/// they went before.
pub proof fn subscriptions_end<S>(
    bus: &mut InprocBus<S>,
    subject: &str,
    after: &InprocBus<S>,
    other: &str,
    r: Result<&S, Error>,
)
    requires
        call_ensures(InprocBus::<S>::unsubscribe, (bus, subject), ()),
        *after == *final(bus),
        call_ensures(InprocBus::<S>::invoke, (after, other), r),
    ensures
        other@ == subject@ ==> r is Err,
        other@ != subject@ ==> (r is Ok <==> old(bus).subscriptions@.contains_key(other@)),
        other@ != subject@ && r is Ok ==> *(r->Ok_0) == old(bus).subscriptions@[other@],
{
}

/// The subjects within a process are those of a lattice without a namespace.
pub proof fn inproc_subjects_have_no_namespace<S>(
    bus: &InprocBus<S>,
    actor: &str,
    capid: &str,
    binding: &str,
    a: String,
    p: String,
    b: String,
    i: String,
    e: String,
    outer: (String, String, String, String, String),
)
    requires
        call_ensures(InprocBus::<S>::actor_subject, (bus, actor), a),
        call_ensures(InprocBus::<S>::provider_subject, (bus, capid, binding), p),
        call_ensures(InprocBus::<S>::provider_subject_bound_actor, (bus, capid, binding, actor), b),
        call_ensures(InprocBus::<S>::inventory_wildcard_subject, (bus,), i),
        call_ensures(InprocBus::<S>::event_subject, (bus,), e),
        call_ensures(actor_subject, (None, actor), outer.0),
        call_ensures(provider_subject, (None, capid, binding), outer.1),
        call_ensures(provider_subject_bound_actor, (None, capid, binding, actor), outer.2),
        call_ensures(inventory_wildcard_subject, (None,), outer.3),
        call_ensures(event_subject, (None,), outer.4),
    ensures
        a@ == outer.0@,
        p@ == outer.1@,
        b@ == outer.2@,
        i@ == outer.3@,
        e@ == outer.4@,
{
}

} // verus!
