//! Subjects, entities and the routes to them.
use vstd::prelude::*;

use crate::bindings::RouteKey;
use crate::bus::lattice::{control_subject, controlplane_wildcard_subject};
use crate::bus::{
    actor_subject, event_subject, inventory_wildcard_subject, normalize_capid, nsprefix,
    provider_subject, provider_subject_bound_actor,
};
use crate::entity::{quoted, EntityView, WasccEntity};
use crate::errors::{Error, Failure};
use crate::router::{captarget_for_key, not_actor, route_key, show_key, Router};
use crate::text::ascii;

verus! {

/// All subjects of a namespace begin with the namespace and the word that all subjects have;
/// without a namespace they begin with the word.
pub proof fn subjects_begin_with_namespace(ns: Option<&str>, r: String)
    requires
        call_ensures(nsprefix, (ns,), r),
    ensures
        ns is Some ==> r@ == ns->0@ + ".wasmbus"@,
        ns is None ==> r@ == "wasmbus"@,
{
}

/// The subject of an actor ends with its public key, the one of a provider with its capability
/// ID in the form for subjects and its name, and the one for private conversations with the
/// actor behind those.
pub proof fn subjects_name_their_ends(
    ns: Option<&str>,
    actor: &str,
    capid: &str,
    binding: &str,
    prefix: String,
    normalized: String,
    a: String,
    p: String,
    b: String,
)
    requires
        call_ensures(nsprefix, (ns,), prefix),
        call_ensures(normalize_capid, (capid,), normalized),
        call_ensures(actor_subject, (ns, actor), a),
        call_ensures(provider_subject, (ns, capid, binding), p),
        call_ensures(provider_subject_bound_actor, (ns, capid, binding, actor), b),
    ensures
        a@ == prefix@ + ".actor."@ + actor@,
        p@ == prefix@ + ".provider."@ + normalized@ + "."@ + binding@,
        b@ == p@ + "."@ + actor@,
{
}

/// The subjects on which a host listens for all of its kind, and those for events and for its
/// own control thread.
pub proof fn host_subjects(
    ns: Option<&str>,
    host: &str,
    prefix: String,
    inventory: String,
    events: String,
    control: String,
    all: String,
)
    requires
        call_ensures(nsprefix, (ns,), prefix),
        call_ensures(inventory_wildcard_subject, (ns,), inventory),
        call_ensures(event_subject, (ns,), events),
        call_ensures(control_subject, (ns, host), control),
        call_ensures(controlplane_wildcard_subject, (ns,), all),
    ensures
        inventory@ == prefix@ + ".inventory.*"@,
        events@ == prefix@ + ".events"@,
        control@ == prefix@ + ".control."@ + host@,
        all@ == prefix@ + ".control.>"@,
{
    reveal_strlit(".");
    reveal_strlit("control");
    reveal_strlit(".control.");
    reveal_strlit(".control.>");
    reveal_strlit(".>");
    assert(control@ =~= prefix@ + ".control."@ + host@);
    assert(all@ =~= prefix@ + ".control.>"@);
}

/// A capability ID is normalized character by character: a colon becomes a dot, a space an
/// underscore, a capital letter the small one, and everything else stays. This holds of the
/// characters of ASCII.
pub proof fn capids_are_normalized_by_character(capid: &str, i: int, r: String)
    requires
        call_ensures(normalize_capid, (capid,), r),
        forall|j: int| 0 <= j < capid@.len() ==> (#[trigger] capid@[j] as u32) < 128,
        0 <= i < capid@.len(),
    ensures
        r@.len() == capid@.len(),
        capid@[i] == ':' ==> r@[i] == '.',
        capid@[i] == ' ' ==> r@[i] == '_',
        'A' <= capid@[i] <= 'Z' ==> r@[i] as u32 == capid@[i] as u32 + 32,
        capid@[i] != ':' && capid@[i] != ' ' && !('A' <= capid@[i] <= 'Z') ==> r@[i] == capid@[i],
{
    assert(ascii(capid@));
}

/// The URL of an actor is its public key behind the scheme.
pub proof fn actors_have_urls(e: &WasccEntity, r: String)
    requires
        e@ is Actor,
        call_ensures(WasccEntity::url, (e,), r),
    ensures
        r@ == "wasmbus://"@ + e@->Actor_0,
{
}

/// The URL of a capability is its capability ID, a slash and its name behind the scheme, in
/// small letters, with a slash for each colon of the ID and an underscore for each space. This
/// holds of the characters of ASCII.
pub proof fn capabilities_have_urls(e: &WasccEntity, r: String)
    requires
        e@ is Capability,
        forall|j: int| 0 <= j < e@->capid.len() ==> (#[trigger] e@->capid[j] as u32) < 128,
        forall|j: int| 0 <= j < e@->binding.len() ==> (#[trigger] e@->binding[j] as u32) < 128,
        call_ensures(WasccEntity::url, (e,), r),
    ensures
        r@.len() == 10 + e@->capid.len() + 1 + e@->binding.len(),
        r@.take(10) == "wasmbus://"@,
        r@[10 + e@->capid.len() as int] == '/',
        forall|i: int|
            0 <= i < e@->capid.len() ==> (#[trigger] r@[10 + i]) == (if e@->capid[i] == ':' {
                '/'
            } else if e@->capid[i] == ' ' {
                '_'
            } else if 'A' <= e@->capid[i] <= 'Z' {
                ((e@->capid[i] as u32) + 32) as char
            } else {
                e@->capid[i]
            }),
        forall|i: int|
            0 <= i < e@->binding.len() ==> (#[trigger] r@[11 + e@->capid.len() + i]) == (
            if e@->binding[i] == ' ' {
                '_'
            } else if 'A' <= e@->binding[i] <= 'Z' {
                ((e@->binding[i] as u32) + 32) as char
            } else {
                e@->binding[i]
            }),
{
    reveal_strlit("wasmbus://");
    reveal_strlit("/");
    let c = crate::text::replaced(crate::text::replaced(e@->capid, ':', '/'), ' ', '_');
    let b = crate::text::replaced(e@->binding, ' ', '_');
    assert(ascii(c)) by {
        assert forall|i: int| 0 <= i < c.len() implies (#[trigger] c[i] as u32) < 128 by {
            assert((e@->capid[i] as u32) < 128);
        }
    }
    assert(ascii(b)) by {
        assert forall|i: int| 0 <= i < b.len() implies (#[trigger] b[i] as u32) < 128 by {
            assert((e@->binding[i] as u32) < 128);
        }
    }
    assert(r@.take(10) =~= "wasmbus://"@);
}

/// A route is found under the name and the identifier that it was added under, until it is
/// removed, and adding or removing one leaves the others alone.
pub proof fn routes_are_found<E>(
    router: &mut Router<E>,
    binding: &str,
    id: &str,
    entry: E,
    other_binding: &str,
    other_id: &str,
    after: &Router<E>,
    r: Option<&E>,
    there: bool,
)
    requires
        call_ensures(Router::<E>::add_route, (router, binding, id, entry), ()),
        *after == *final(router),
        call_ensures(Router::<E>::get_route, (after, other_binding, other_id), r),
        call_ensures(Router::<E>::route_exists, (after, other_binding, other_id), there),
    ensures
        there <==> r is Some,
        other_binding@ == binding@ && other_id@ == id@ ==> r is Some && *(r->0) == entry,
        other_binding@ != binding@ || other_id@ != id@ ==> (r is Some
            <==> old(router).routes@.contains_key((other_binding@, other_id@))) && (r is Some
            ==> *(r->0) == old(router).routes@[(other_binding@, other_id@)]),
{
}

/// A route that was removed, by itself or to be told to stop, is not found any more. The others
/// are.
pub proof fn removed_routes_are_gone<E>(
    router: &mut Router<E>,
    ended: &mut Router<E>,
    binding: &str,
    id: &str,
    r: Result<E, Error>,
)
    requires
        call_ensures(Router::<E>::remove_route, (router, binding, id), ()),
        call_ensures(Router::<E>::terminate_route, (ended, binding, id), r),
        *old(ended) == *old(router),
    ensures
        !final(router).routes@.contains_key((binding@, id@)),
        final(ended).routes@ == final(router).routes@,
        forall|b: Seq<char>, i: Seq<char>|
            b != binding@ || i != id@ ==> (#[trigger] final(router).routes@.contains_key((b, i))
                <==> old(router).routes@.contains_key((b, i))),
        forall|k: (Seq<char>, Seq<char>)| #[trigger]
            final(router).routes@.contains_key(k) ==> final(router).routes@[k]
                == old(router).routes@[k],
        r is Ok <==> old(ended).routes@.contains_key((binding@, id@)),
        r is Ok ==> r->Ok_0 == old(ended).routes@[(binding@, id@)],
        r is Err ==> r->Err_0@ is MiscHost,
{
}

/// The routing key of a capability stands for that capability.
pub proof fn routing_keys_stand_for_capabilities(
    binding: &str,
    id: &str,
    key: RouteKey,
    k: &RouteKey,
    r: WasccEntity,
)
    requires
        call_ensures(route_key, (binding, id), key),
        k@ == key@,
        call_ensures(captarget_for_key, (k,), r),
    ensures
        r@ == (EntityView::Capability { capid: id@, binding: binding@ }),
{
}

/// Every route under another name than that of actors leads to a capability.
pub proof fn all_capabilities_are_listed<E>(
    router: &Router<E>,
    binding: Seq<char>,
    id: Seq<char>,
    r: Vec<(WasccEntity, &E)>,
)
    requires
        call_ensures(Router::<E>::all_capabilities, (router,), r),
        router.routes@.contains_key((binding, id)),
        binding != "_actor_"@,
    ensures
        exists|i: int|
            0 <= i < r@.len() && (#[trigger] r@[i]).0@ == (EntityView::Capability {
                capid: id,
                binding,
            }) && *(r@[i].1) == router.routes@[(binding, id)],
{
    let k = (binding, id);
    let keys = router.routes.keys();
    let kept = keys.filter(not_actor());
    assert(keys.contains(k));
    let j = choose|j: int| 0 <= j < keys.len() && keys[j] == k;
    keys.lemma_filter_contains(not_actor(), j);
    let i = choose|i: int| 0 <= i < kept.len() && kept[i] == k;
    assert(*(r@[i].1) == router.routes@[k]);
}

/// No actor is among the capabilities that are listed, and each of them has a route.
pub proof fn only_capabilities_are_listed<E>(
    router: &Router<E>,
    i: int,
    r: Vec<(WasccEntity, &E)>,
)
    requires
        call_ensures(Router::<E>::all_capabilities, (router,), r),
        0 <= i < r@.len(),
    ensures
        r@[i].0@ is Capability,
        r@[i].0@->binding != "_actor_"@,
        router.routes@.contains_key((r@[i].0@->binding, r@[i].0@->capid)),
{
    let keys = router.routes.keys();
    let kept = keys.filter(not_actor());
    keys.lemma_filter_pred(not_actor(), i);
    assert(kept.contains(kept[i]));
    keys.lemma_filter_contains_rev(not_actor(), kept[i]);
    assert(r@[i].0@ == crate::router::captarget(kept[i]));
}

/// An entity is shown by its kind and by what it consists of, each in quotes.
pub proof fn entities_are_shown(e: &WasccEntity, r: String)
    requires
        call_ensures(WasccEntity::show, (e,), r),
    ensures
        e@ is Actor ==> r@ == "Actor("@ + quoted(e@->Actor_0) + ")"@,
        e@ is Capability ==> r@ == "Capability { capid: "@ + quoted(e@->capid) + ", binding: "@
            + quoted(e@->binding) + " }"@,
{
}

/// A routing key is shown with the name in front and the identifier behind it, and so it is told
/// where a route that does not exist was to be taken out.
pub proof fn missing_routes_are_told<E>(
    router: &mut Router<E>,
    binding: &str,
    id: &str,
    key: RouteKey,
    shown: String,
    r: Result<E, Error>,
)
    requires
        call_ensures(route_key, (binding, id), key),
        call_ensures(show_key, (&key,), shown),
        call_ensures(Router::<E>::terminate_route, (router, binding, id), r),
        r is Err,
    ensures
        shown@ == "("@ + quoted(binding@) + ", "@ + quoted(id@) + ")"@,
        r->Err_0@ == Failure::MiscHost("Failed to remove route - does not exist: "@ + shown@),
{
}

/// A router has no routes to begin with.
pub proof fn routers_start_empty<E>(r: Router<E>)
    requires
        call_ensures(Router::<E>::new, (), r),
    ensures
        forall|k: (Seq<char>, Seq<char>)| !(#[trigger] r.routes@.contains_key(k)),
{
}

} // verus!
