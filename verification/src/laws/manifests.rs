//! Manifests.
use vstd::prelude::*;
use vstd::utf8::encode_utf8;

use crate::codec::text_map;
use crate::manifest::{Capability, HostManifest};
use crate::runtime::{
    actor_step, binding_step, capability_step, locate_actor, locate_capability, step_views,
    steps_of, Host, ManifestStep,
};
use crate::table::Table;

verus! {

/// The steps of a manifest stand in the order of its entries: the actors, the capability
/// providers, the bindings.
proof fn lemma_steps<A>(
    host: &mut Host<A>,
    manifest: HostManifest,
    files: &Table<String, ()>,
    lattice: bool,
    r: Vec<ManifestStep>,
)
    requires
        call_ensures(Host::<A>::apply_manifest, (host, manifest, files, lattice), r),
    ensures
        r@.len() == manifest.actors@.len() + manifest.capabilities@.len()
            + manifest.bindings@.len(),
        forall|i: int|
            0 <= i < manifest.actors@.len() ==> (#[trigger] r@[i])@ == actor_step(
                manifest.actors@[i]@,
                files@.contains_key(manifest.actors@[i]@),
                lattice,
            ),
        forall|j: int|
            0 <= j < manifest.capabilities@.len() ==> (#[trigger] r@[manifest.actors@.len() + j])@
                == capability_step(
                manifest.capabilities@[j],
                files@.contains_key(manifest.capabilities@[j].path@),
            ),
        forall|k: int|
            0 <= k < manifest.bindings@.len() ==> (#[trigger] r@[manifest.actors@.len()
                + manifest.capabilities@.len() + k])@ == binding_step(manifest.bindings@[k]),
{
    let want = steps_of(manifest, files@.dom(), lattice);
    let na = manifest.actors@.len();
    let nc = manifest.capabilities@.len();
    assert(step_views(r@).len() == want.len());
    assert forall|i: int| 0 <= i < r@.len() implies #[trigger] r@[i]@ == want[i] by {
        assert(step_views(r@)[i] == r@[i]@);
    }
}

/// Every entry of a manifest leads to one step, and there are no other steps.
pub proof fn every_entry_has_a_step<A>(
    host: &mut Host<A>,
    manifest: HostManifest,
    files: &Table<String, ()>,
    lattice: bool,
    r: Vec<ManifestStep>,
)
    requires
        call_ensures(Host::<A>::apply_manifest, (host, manifest, files, lattice), r),
    ensures
        r@.len() == manifest.actors@.len() + manifest.capabilities@.len()
            + manifest.bindings@.len(),
        forall|i: int|
            0 <= i < r@.len() ==> ((#[trigger] r@[i]) is SetBinding <==> i >= manifest.actors@.len()
                + manifest.capabilities@.len()),
        forall|i: int|
            0 <= i < r@.len() ==> ((#[trigger] r@[i]) is AddCapability
                || r@[i] is AddCapabilityFromRegistry <==> manifest.actors@.len() <= i
                < manifest.actors@.len() + manifest.capabilities@.len()),
{
    lemma_steps(host, manifest, files, lattice, r);
    let na = manifest.actors@.len() as int;
    let nc = manifest.capabilities@.len() as int;
    assert forall|i: int| 0 <= i < r@.len() implies {
        &&& (#[trigger] r@[i]) is SetBinding <==> i >= na + nc
        &&& (r@[i] is AddCapability || r@[i] is AddCapabilityFromRegistry <==> na <= i < na + nc)
    } by {
        if na <= i < na + nc {
            let j = i - na;
            assert(r@[na + j]@ == capability_step(
                manifest.capabilities@[j],
                files@.contains_key(manifest.capabilities@[j].path@),
            ));
        } else if i >= na + nc {
            let k = i - na - nc;
            assert(r@[na + nc + k]@ == binding_step(manifest.bindings@[k]));
        }
    }
}

/// A binding in a manifest is set as it stands there: behind the actors and the capability
/// providers, in the order of the bindings, for the same actor, capability and name, and with
/// exactly the values of the entry. An entry without values sets none.
pub proof fn bindings_keep_their_values<A>(
    host: &mut Host<A>,
    manifest: HostManifest,
    files: &Table<String, ()>,
    lattice: bool,
    k: int,
    r: Vec<ManifestStep>,
)
    requires
        call_ensures(Host::<A>::apply_manifest, (host, manifest, files, lattice), r),
        0 <= k < manifest.bindings@.len(),
    ensures
        ({
            let entry = manifest.bindings@[k];
            let step = r@[manifest.actors@.len() + manifest.capabilities@.len() + k];
            &&& step is SetBinding
            &&& step->actor@ == entry.actor@
            &&& step->capability@ == entry.capability@
            &&& step->binding is Some <==> entry.binding is Some
            &&& step->binding is Some ==> step->binding->0@ == entry.binding->0@
            &&& forall|key: Seq<char>| #[trigger]
                step->values@.contains_key(key) <==> entry.values is Some
                    && entry.values->0@.contains_key(key)
            &&& forall|key: Seq<char>| #[trigger]
                step->values@.contains_key(key) ==> step->values@[key]@
                    == entry.values->0@[key]@
        }),
{
    lemma_steps(host, manifest, files, lattice, r);
    let entry = manifest.bindings@[k];
    let step = r@[manifest.actors@.len() + manifest.capabilities@.len() + k];
    let want = binding_step(entry);
    assert(step@ == want);
    assert forall|key: Seq<char>| #[trigger] step->values@.contains_key(key)
        <==> entry.values is Some
        && entry.values->0@.contains_key(key) by {
        assert(step@->values.contains_key(key) <==> want->values.contains_key(key));
        assert(step@->values.contains_key(key) <==> step->values@.contains_key(key));
    }
    assert forall|key: Seq<char>| #[trigger]
        step->values@.contains_key(key) implies step->values@[key]@ == entry.values->0@[key]@ by {
        assert(step@->values[key] == step->values@[key]@);
    }
}

/// An actor in a manifest that exists as a file is added from the file. In a lattice, a
/// public key that does not is taken from a Gantry repository. Anything else is an image in a
/// registry. The text is the entry's own in each case.
pub proof fn actors_are_located<A>(
    host: &mut Host<A>,
    manifest: HostManifest,
    files: &Table<String, ()>,
    lattice: bool,
    i: int,
    r: Vec<ManifestStep>,
)
    requires
        call_ensures(Host::<A>::apply_manifest, (host, manifest, files, lattice), r),
        0 <= i < manifest.actors@.len(),
    ensures
        ({
            let actor = manifest.actors@[i]@;
            let key = encode_utf8(actor).len() == 56 && actor.len() > 0 && actor[0] == 'M';
            match r@[i] {
                ManifestStep::AddActorFile(a) => a@ == actor && files@.contains_key(actor),
                ManifestStep::AddActorFromGantry(a) => a@ == actor && !files@.contains_key(actor)
                    && lattice && key,
                ManifestStep::AddActorFromRegistry(a) => a@ == actor && !files@.contains_key(actor)
                    && !(lattice && key),
                _ => false,
            }
        }),
{
    lemma_steps(host, manifest, files, lattice, r);
    assert(r@[i]@ == actor_step(
        manifest.actors@[i]@,
        files@.contains_key(manifest.actors@[i]@),
        lattice,
    ));
}

/// A capability provider in a manifest whose path exists as a file is added from the file,
/// any other from a registry, in both cases under the name that the entry gives.
pub proof fn capabilities_are_located<A>(
    host: &mut Host<A>,
    manifest: HostManifest,
    files: &Table<String, ()>,
    lattice: bool,
    j: int,
    r: Vec<ManifestStep>,
)
    requires
        call_ensures(Host::<A>::apply_manifest, (host, manifest, files, lattice), r),
        0 <= j < manifest.capabilities@.len(),
    ensures
        ({
            let entry = manifest.capabilities@[j];
            match r@[manifest.actors@.len() + j] {
                ManifestStep::AddCapability(c) => files@.contains_key(entry.path@) && c.path@
                    == entry.path@ && (c.binding_name is Some <==> entry.binding_name is Some) && (
                c.binding_name is Some ==> c.binding_name->0@ == entry.binding_name->0@),
                ManifestStep::AddCapabilityFromRegistry(c) => !files@.contains_key(entry.path@)
                    && c.path@ == entry.path@ && (c.binding_name is Some
                    <==> entry.binding_name is Some) && (c.binding_name is Some
                    ==> c.binding_name->0@ == entry.binding_name->0@),
                _ => false,
            }
        }),
{
    lemma_steps(host, manifest, files, lattice, r);
    assert(r@[manifest.actors@.len() + j]@ == capability_step(
        manifest.capabilities@[j],
        files@.contains_key(manifest.capabilities@[j].path@),
    ));
}

/// The labels of a manifest replace those of the host, but for the three that the host sets
/// itself, which stay as they are. Labels that the manifest does not name stay too.
pub proof fn manifests_leave_core_labels<A>(
    host: &mut Host<A>,
    manifest: HostManifest,
    files: &Table<String, ()>,
    lattice: bool,
    r: Vec<ManifestStep>,
)
    requires
        call_ensures(Host::<A>::apply_manifest, (host, manifest, files, lattice), r),
    ensures
        forall|l: Seq<char>|
            #![trigger final(host).labels@.contains_key(l)]
            {
                let core = l == "hostcore.arch"@ || l == "hostcore.os"@ || l
                    == "hostcore.osfamily"@;
                let taken = manifest.labels@.contains_key(l) && !core;
                &&& final(host).labels@.contains_key(l) <==> taken
                    || old(host).labels@.contains_key(l)
                &&& taken ==> final(host).labels@[l]@ == manifest.labels@[l]@
                &&& !taken && old(host).labels@.contains_key(l) ==> final(host).labels@[l]@
                    == old(host).labels@[l]@
            },
        final(host).claims == old(host).claims,
        final(host).caps == old(host).caps,
        final(host).bindings == old(host).bindings,
        final(host).terminators == old(host).terminators,
{
    let before = text_map(old(host).labels@);
    let after = text_map(final(host).labels@);
    let wanted = text_map(manifest.labels@);
    assert forall|l: Seq<char>|
        #![trigger final(host).labels@.contains_key(l)]
        {
            let core = l == "hostcore.arch"@ || l == "hostcore.os"@ || l == "hostcore.osfamily"@;
            let taken = manifest.labels@.contains_key(l) && !core;
            &&& final(host).labels@.contains_key(l) <==> taken || old(host).labels@.contains_key(l)
            &&& taken ==> final(host).labels@[l]@ == manifest.labels@[l]@
            &&& !taken && old(host).labels@.contains_key(l) ==> final(host).labels@[l]@
                == old(host).labels@[l]@
        } by {
        assert(after.contains_key(l) <==> final(host).labels@.contains_key(l));
        assert(before.contains_key(l) <==> old(host).labels@.contains_key(l));
        assert(wanted.contains_key(l) <==> manifest.labels@.contains_key(l));
        assert(after.contains_key(l) ==> after[l] == final(host).labels@[l]@);
        assert(before.contains_key(l) ==> before[l] == old(host).labels@[l]@);
        assert(wanted.contains_key(l) ==> wanted[l] == manifest.labels@[l]@);
    }
}

/// Where a single actor or capability provider comes from is decided in the same way.
pub proof fn single_entries_are_located(
    actor: String,
    capability: Capability,
    exists: bool,
    lattice: bool,
    a: ManifestStep,
    c: ManifestStep,
)
    requires
        call_ensures(locate_actor, (actor, exists, lattice), a),
        call_ensures(locate_capability, (capability, exists), c),
    ensures
        exists ==> a is AddActorFile && a->AddActorFile_0@ == actor@,
        !exists && !lattice ==> a is AddActorFromRegistry && a->AddActorFromRegistry_0@ == actor@,
        !exists && lattice ==> (a is AddActorFromGantry <==> encode_utf8(actor@).len() == 56
            && actor@.len() > 0 && actor@[0] == 'M'),
        exists ==> c is AddCapability && c->AddCapability_0.path@ == capability.path@,
        !exists ==> c is AddCapabilityFromRegistry && c->AddCapabilityFromRegistry_0.path@
            == capability.path@,
{
}

} // verus!
