//! Invocations, who may make them, and what their replies mean.
use vstd::prelude::*;
use vstd::utf8::encode_utf8;

use crate::authz::{can_invoke, failure_of, Authorizer};
use crate::bindings::RouteKey;
use crate::bus::lattice::{handle_invocation, refusal_response, try_handle_invocation};
use crate::bus::{actor_subject, provider_subject_bound_actor};
use crate::capability::NativeCapability;
use crate::claims::{
    decoded_invocation, invocation_verdict, recognised_key, ActorMetadata, Claims, HostKey,
    InvocationMetadata, TokenValidation,
};
use crate::codec::{
    decoded_configuration, decoded_descriptor, encoded_health_request, short, short_map,
    CapabilityConfiguration, CapabilityDescriptor, ConfigurationView,
};
use crate::dispatch::{finish_dispatch, WasccNativeDispatcher};
use crate::entity::{EntityView, WasccEntity};
use crate::errors::{Error, Failure};
use crate::inthost::{
    altered_invocations_fail, antiforgery_outcome, checks_are_bounded, invocation_hash,
    issued_invocations_pass, sha256, unsigned_invocations_fail, Invocation, InvocationResponse,
};
use crate::messages::{
    descriptor_request, encode_removal, finish_callback, gen_config, gen_config_invocation,
    gen_liveupdate_invocation, gen_rebind_invocation, gen_remove_actor, get_descriptor,
    invocation_from_callback, judge_callback, live_update, names_actor, wapc_host_callback,
    CallError, CallFailure,
};
use crate::messagepack::readable;
use crate::middleware::{guest_response, provider_response, InvocationHandler};
use crate::plugins::{caller, finish_call, Handler, PluginManager, Provider};
use crate::router::show_key;
use crate::table::Table;
use crate::text::{decimal_text, is_blank, join, whitespace};

verus! {

/// A response that reports success holds the message and no error; one that reports an error
/// holds the error and no message. Both have the identifier of the invocation.
pub proof fn responses_answer_their_invocation(
    inv: &Invocation,
    msg: Vec<u8>,
    err: &str,
    good: InvocationResponse,
    bad: InvocationResponse,
)
    requires
        call_ensures(InvocationResponse::success, (inv, msg), good),
        call_ensures(InvocationResponse::error, (inv, err), bad),
    ensures
        good@.invocation_id == inv@.id && bad@.invocation_id == inv@.id,
        good@.error is None && good@.msg == msg@,
        bad@.error == Some(err@) && bad@.msg.len() == 0,
{
}

/// What a guest has made of an invocation is the response: its message as it is, or its error
/// behind a few words. What a provider responds stays as it is, and its error is told.
pub proof fn guests_and_providers_respond(
    inv: &Invocation,
    result: Result<Vec<u8>, String>,
    answer: Result<InvocationResponse, String>,
    guest: InvocationResponse,
    provider: InvocationResponse,
)
    requires
        call_ensures(guest_response, (inv, result), guest),
        call_ensures(provider_response, (inv, answer), provider),
    ensures
        guest@.invocation_id == inv@.id,
        guest@.error is Some <==> result is Err,
        result is Ok ==> guest@.msg == result->Ok_0@,
        result is Err ==> guest@.msg.len() == 0 && guest@.error->0 == "failed to invoke actor: "@
            + result->Err_0@,
        answer is Ok ==> provider@ == answer->Ok_0@,
        answer is Err ==> provider@.invocation_id == inv@.id && provider@.msg.len() == 0
            && provider@.error == Some("Failed to invoke capability: "@ + answer->Err_0@),
{
}

/// The hash of an invocation is the digest of the URL of its origin, the URL of its target and
/// its message, one behind the other, in hexadecimal notation.
pub proof fn hashes_cover_the_invocation(
    target_url: &str,
    origin_url: &str,
    msg: &[u8],
    i: int,
    r: String,
)
    requires
        call_ensures(invocation_hash, (target_url, origin_url, msg), r),
        0 <= i < sha256(encode_utf8(origin_url@) + encode_utf8(target_url@) + msg@).len(),
    ensures
        ({
            let digest = sha256(encode_utf8(origin_url@) + encode_utf8(target_url@) + msg@);
            let high = digest[i] as int / 16;
            let low = digest[i] as int % 16;
            &&& r@.len() == 2 * digest.len()
            &&& high < 10 ==> r@[2 * i] as int == '0' as int + high
            &&& high >= 10 ==> r@[2 * i] as int == 'A' as int + high - 10
            &&& low < 10 ==> r@[2 * i + 1] as int == '0' as int + low
            &&& low >= 10 ==> r@[2 * i + 1] as int == 'A' as int + low - 10
        }),
{
    let digest = sha256(encode_utf8(origin_url@) + encode_utf8(target_url@) + msg@);
    let s = crate::inthost::hex_upper(digest);
    assert((2 * i) / 2 == i && (2 * i) % 2 == 0);
    assert((2 * i + 1) / 2 == i && (2 * i + 1) % 2 == 1);
    assert(r@ == s);
    assert(digest[i] / 16 < 16 && digest[i] % 16 < 16);
}

/// A new invocation says what it was made of, and its token says the same: it was issued by
/// the host, for the identifier of the invocation, and holds its two URLs and its hash.
pub proof fn new_invocations_say_what_they_are(
    hostkey: &HostKey,
    origin: WasccEntity,
    target: WasccEntity,
    op: &str,
    msg: Vec<u8>,
    r: Invocation,
    i: &Invocation,
    origin_url: String,
    target_url: String,
    hash: String,
)
    requires
        call_ensures(Invocation::new, (hostkey, origin, target, op, msg), r),
        *i == r,
        call_ensures(Invocation::origin_url, (i,), origin_url),
        call_ensures(Invocation::target_url, (i,), target_url),
        call_ensures(Invocation::hash, (i,), hash),
    ensures
        r@.origin == origin@ && r@.target == target@,
        r@.operation == op@ && r@.msg == msg@,
        r@.host_id == hostkey.spec_public(),
        decoded_invocation(r@.encoded_claims) is Some,
        ({
            let c = decoded_invocation(r@.encoded_claims)->0;
            &&& c.subject == r@.id
            &&& c.issuer == r@.host_id
            &&& c.expires is None && c.not_before is None
            &&& c.metadata is Some
            &&& c.metadata->0.origin_url == origin_url@
            &&& c.metadata->0.target_url == target_url@
            &&& c.metadata->0.invocation_hash == hash@
        }),
{
}

/// The URL of where an invocation comes from is that of its origin. The URL of what it
/// addresses is that of its target, with the operation behind it. Its hash is over the two and
/// the message.
pub proof fn invocations_have_urls(
    inv: &Invocation,
    origin: String,
    target: String,
    origin_url: String,
    target_url: String,
    t: &str,
    o: &str,
    m: &[u8],
    whole: String,
    hash: String,
)
    requires
        call_ensures(WasccEntity::url, (&inv.origin,), origin),
        call_ensures(WasccEntity::url, (&inv.target,), target),
        call_ensures(Invocation::origin_url, (inv,), origin_url),
        call_ensures(Invocation::target_url, (inv,), target_url),
        call_ensures(Invocation::hash, (inv,), hash),
        t@ == target_url@ && o@ == origin_url@ && m@ == inv@.msg,
        call_ensures(invocation_hash, (t, o, m), whole),
    ensures
        origin_url@ == origin@,
        target_url@ == target@ + "/"@ + inv@.operation,
        hash@ == whole@,
{
}

/// An invocation passes the check exactly where its token has passed validation and says of it
/// what it is: the hash, the identifier, the host and the two URLs are all the same.
pub proof fn sound_invocations_pass(
    inv: &Invocation,
    vr: &TokenValidation,
    claims: &Claims<InvocationMetadata>,
    origin_url: String,
    target_url: String,
    hash: String,
    r: Result<(), Error>,
)
    requires
        claims@.metadata is Some,
        call_ensures(Invocation::origin_url, (inv,), origin_url),
        call_ensures(Invocation::target_url, (inv,), target_url),
        call_ensures(Invocation::hash, (inv,), hash),
        call_ensures(Invocation::judge, (inv, vr, claims), r),
    ensures
        r is Ok <==> !vr.expired && vr.signature_valid && !vr.cannot_use_yet
            && claims@.metadata->0.invocation_hash == hash@ && claims@.subject == inv@.id
            && claims@.issuer == inv@.host_id && claims@.metadata->0.target_url == target_url@
            && claims@.metadata->0.origin_url == origin_url@,
        r is Err ==> r->Err_0@ is Authorization,
{
}

/// The first thing that is wrong with an invocation is what the error says.
pub proof fn unsound_invocations_are_told_why(
    inv: &Invocation,
    vr: &TokenValidation,
    claims: &Claims<InvocationMetadata>,
    hash: String,
    r: Result<(), Error>,
)
    requires
        claims@.metadata is Some,
        call_ensures(Invocation::hash, (inv,), hash),
        call_ensures(Invocation::judge, (inv, vr, claims), r),
    ensures
        vr.expired ==> r is Err && r->Err_0@ == Failure::Authorization(
            "Invocation claims token expired"@,
        ),
        !vr.expired && !vr.signature_valid ==> r is Err && r->Err_0@ == Failure::Authorization(
            "Invocation claims signature invalid"@,
        ),
        !vr.expired && vr.signature_valid && vr.cannot_use_yet ==> r is Err && r->Err_0@
            == Failure::Authorization("Attempt to use invocation before claims token allows"@),
        !vr.expired && vr.signature_valid && !vr.cannot_use_yet
            && claims@.metadata->0.invocation_hash != hash@ ==> r is Err && r->Err_0@
            == Failure::Authorization("Invocation hash does not match signed claims hash"@),
        !vr.expired && vr.signature_valid && !vr.cannot_use_yet
            && claims@.metadata->0.invocation_hash == hash@ && claims@.subject != inv@.id ==> r is
            Err && r->Err_0@ == Failure::Authorization(
            "Subject of invocation claims token does not match invocation ID"@,
        ),
        !vr.expired && vr.signature_valid && !vr.cannot_use_yet
            && claims@.metadata->0.invocation_hash == hash@ && claims@.subject == inv@.id
            && claims@.issuer != inv@.host_id ==> r is Err && r->Err_0@ == Failure::Authorization(
            "Invocation claims issuer does not match invocation host"@,
        ),
{
}

/// A text names an actor exactly where it has the length of a public key and begins with the
/// letter of a module.
pub proof fn actor_keys_are_recognised(s: &str, r: bool)
    requires
        call_ensures(names_actor, (s,), r),
    ensures
        r <==> encode_utf8(s@).len() == 56 && s@.len() > 0 && s@[0] == 'M',
{
}

/// The call of a guest goes to the actor that it names, or else to the capability, under the
/// name that it gives, or under the default one where it gives none.
pub proof fn callbacks_address_what_they_name(
    hostkey: &HostKey,
    origin: &str,
    bd: &str,
    ns: &str,
    op: &str,
    payload: &[u8],
    actor: bool,
    unnamed: bool,
    r: Invocation,
)
    requires
        call_ensures(names_actor, (ns,), actor),
        call_ensures(is_blank, (bd,), unnamed),
        call_ensures(invocation_from_callback, (hostkey, origin, bd, ns, op, payload), r),
    ensures
        actor ==> r@.target == EntityView::Actor(ns@),
        !actor && unnamed ==> r@.target == (EntityView::Capability {
            capid: ns@,
            binding: "default"@,
        }),
        !actor && !unnamed ==> r@.target == (EntityView::Capability {
            capid: ns@,
            binding: bd@,
        }),
        r@.origin == EntityView::Actor(origin@),
        r@.operation == op@,
        r@.msg == payload@,
        r@.host_id == hostkey.spec_public(),
{
}

/// A guest's call is allowed exactly where the claims attest the capability, or name the guest
/// itself, and the authorizer allows it as well.
pub proof fn callbacks_need_attestation(
    claims: &Claims<ActorMetadata>,
    binding: &str,
    namespace: &str,
    operation: &str,
    target: &WasccEntity,
    allowed: bool,
    caps: Vec<String>,
    listed: bool,
    r: Result<(), Error>,
)
    requires
        claims@.metadata is Some,
        call_ensures(
            judge_callback,
            (claims, binding, namespace, operation, target, allowed),
            r,
        ),
        call_ensures(Claims::<ActorMetadata>::caps, (claims,), caps),
        listed <==> exists|i: int| 0 <= i < caps@.len() && (#[trigger] caps@[i])@ == namespace@,
    ensures
        r is Ok <==> (listed || claims@.subject == namespace@) && allowed,
        r is Err ==> r->Err_0@ is Authorization,
{
    let list = crate::text::texts(caps@);
    if listed {
        let i = choose|i: int| 0 <= i < caps@.len() && (#[trigger] caps@[i])@ == namespace@;
        assert(list[i] == namespace@);
        assert(list.contains(namespace@));
    }
    if list.contains(namespace@) {
        let i = choose|i: int| 0 <= i < list.len() && list[i] == namespace@;
        assert(caps@[i]@ == namespace@);
    }
}

/// Where a guest's call is allowed, it goes out on the subject of the actor that it addresses,
/// or on the private subject of the guest and the provider.
pub proof fn callbacks_go_out_on_their_subject<A: Authorizer>(
    hostkey: &HostKey,
    claims: &Claims<ActorMetadata>,
    lattice_ns: Option<&str>,
    binding: &str,
    namespace: &str,
    operation: &str,
    payload: &[u8],
    authorizer: &A,
    r: Result<(String, Invocation), Error>,
)
    requires
        call_ensures(
            wapc_host_callback::<A>,
            (hostkey, claims, lattice_ns, binding, namespace, operation, payload, authorizer),
            r,
        ),
        r is Ok,
    ensures
        r->Ok_0.1@.origin == EntityView::Actor(claims@.subject),
        r->Ok_0.1@.operation == operation@,
        r->Ok_0.1@.msg == payload@,
        forall|pk: &str, s: String|
            r->Ok_0.1@.target == EntityView::Actor(pk@) && #[trigger] call_ensures(
                actor_subject,
                (lattice_ns, pk),
                s,
            ) ==> r->Ok_0.0@ == s@,
        forall|c: &str, b: &str, g: &str, s: String|
            r->Ok_0.1@.target == (EntityView::Capability { capid: c@, binding: b@ }) && g@
                == claims@.subject && #[trigger] call_ensures(
                provider_subject_bound_actor,
                (lattice_ns, c, b, g),
                s,
            ) ==> r->Ok_0.0@ == s@,
        encode_utf8(namespace@).len() == 56 && namespace@.len() > 0 && namespace@[0] == 'M'
            <==> r->Ok_0.1@.target is Actor,
{
}

/// What a caller gets of a reply: its message where it reports success, and its error behind a
/// few words where it does not. This is the same for guests and for providers.
pub proof fn replies_are_handed_on(
    reply: Result<InvocationResponse, Error>,
    guest: Result<Vec<u8>, CallError>,
    provider: Result<Vec<u8>, CallError>,
)
    requires
        call_ensures(finish_callback, (reply,), guest),
        call_ensures(finish_dispatch, (reply,), provider),
    ensures
        guest is Ok <==> reply is Ok && reply->Ok_0@.error is None,
        guest is Ok ==> guest->Ok_0@ == reply->Ok_0@.msg,
        reply is Ok && reply->Ok_0@.error is Some ==> guest->Err_0@ == CallFailure::Text(
            "Invocation failure: "@ + reply->Ok_0@.error->0,
        ),
        reply is Err ==> guest->Err_0@ is Host && guest->Err_0@->Host_0 is HostCallFailure,
        provider is Ok <==> reply is Ok && reply->Ok_0@.error is None,
        provider is Ok ==> provider->Ok_0@ == reply->Ok_0@.msg,
        reply is Ok && reply->Ok_0@.error is Some ==> provider->Err_0@ == CallFailure::Text(
            "Invocation failure: "@ + reply->Ok_0@.error->0,
        ),
        reply is Err ==> provider->Err_0@ == CallFailure::Host(reply->Err_0@),
{
}

/// The response to a live update has the identifier of the request, no message, and an error
/// exactly where the module was not replaced.
pub proof fn live_updates_are_answered(inv: &Invocation, replaced: bool, r: InvocationResponse)
    requires
        call_ensures(live_update, (inv, replaced), r),
    ensures
        r@.invocation_id == inv@.id,
        r@.msg.len() == 0,
        r@.error is None <==> replaced,
        !replaced ==> r@.error->0 == "Failed to perform hot swap"@,
{
}

/// What the host itself sends comes from the system, with the operation that its purpose has:
/// to replace an actor, to remove one from a provider, to bind one, or to bind one again.
pub proof fn the_system_speaks_for_the_host(
    hostkey: &HostKey,
    actor: &str,
    capid: &str,
    binding: &str,
    bytes: Vec<u8>,
    claims: &Claims<ActorMetadata>,
    values: Table<String, String>,
    config: &CapabilityConfiguration,
    update: Invocation,
    removal: Invocation,
    bind: Invocation,
    rebind: Invocation,
)
    requires
        call_ensures(gen_liveupdate_invocation, (hostkey, actor, bytes), update),
        call_ensures(gen_remove_actor, (hostkey, bytes, binding, capid), removal),
        call_ensures(
            gen_config_invocation,
            (hostkey, actor, capid, claims, binding, values),
            bind,
        ),
        call_ensures(gen_rebind_invocation, (hostkey, config, capid, binding), rebind),
    ensures
        update@.origin == EntityView::Actor("system"@) && removal@.origin == EntityView::Actor(
            "system"@,
        ) && bind@.origin == EntityView::Actor("system"@) && rebind@.origin == EntityView::Actor(
            "system"@,
        ),
        update@.operation == "PerformLiveUpdate"@ && update@.target == EntityView::Actor(actor@)
            && update@.msg == bytes@,
        removal@.operation == "RemoveActor"@ && removal@.target == (EntityView::Capability {
            capid: capid@,
            binding: binding@,
        }) && removal@.msg == bytes@,
        bind@.operation == "BindActor"@ && bind@.target == (EntityView::Capability {
            capid: capid@,
            binding: binding@,
        }),
        rebind@.operation == "BindActor"@ && rebind@.target == bind@.target,
        update@.host_id == hostkey.spec_public() && removal@.host_id == hostkey.spec_public()
            && bind@.host_id == hostkey.spec_public() && rebind@.host_id == hostkey.spec_public(),
{
}

/// A provider is given the values of a configuration and, under keys of their own, what the
/// claims say of the actor: the issuer, the capabilities and the tags with commas between
/// them, the name, and the time of expiry, which is 0 where there is none. The claims win over
/// values under the same keys, and no other key is added.
pub proof fn providers_learn_of_their_actors(
    actor: &str,
    claims: &Claims<ActorMetadata>,
    values: Table<String, String>,
    r: CapabilityConfiguration,
    caps: Vec<String>,
    tags: Vec<String>,
    all_caps: String,
    all_tags: String,
    name: String,
    expires: String,
)
    requires
        claims@.metadata is Some,
        call_ensures(gen_config, (actor, claims, values), r),
        call_ensures(Claims::<ActorMetadata>::caps, (claims,), caps),
        call_ensures(Claims::<ActorMetadata>::tags, (claims,), tags),
        call_ensures(Claims::<ActorMetadata>::name, (claims,), name),
        call_ensures(join, (&caps, ","), all_caps),
        call_ensures(join, (&tags, ","), all_tags),
        call_ensures(
            decimal_text,
            (if claims.expires is Some {
                claims.expires->0
            } else {
                0
            },),
            expires,
        ),
    ensures
        r@.module == actor@,
        r@.values.contains_key("__wascc_issuer"@) && r@.values["__wascc_issuer"@]
            == claims@.issuer,
        r@.values.contains_key("__wascc_capabilities"@) && r@.values["__wascc_capabilities"@]
            == all_caps@,
        r@.values.contains_key("__wascc_name"@) && r@.values["__wascc_name"@] == name@,
        r@.values.contains_key("__wascc_expires"@) && r@.values["__wascc_expires"@] == expires@,
        r@.values.contains_key("__wascc_tags"@) && r@.values["__wascc_tags"@] == all_tags@,
        forall|k: Seq<char>|
            #![trigger r@.values.contains_key(k)]
            k != "__wascc_issuer"@ && k != "__wascc_capabilities"@ && k != "__wascc_name"@ && k
                != "__wascc_expires"@ && k != "__wascc_tags"@ ==> (r@.values.contains_key(k)
                <==> values@.contains_key(k)) && (values@.contains_key(k) ==> r@.values[k]
                == values@[k]@),
{
    reveal_strlit("__wascc_issuer");
    reveal_strlit("__wascc_capabilities");
    reveal_strlit("__wascc_name");
    reveal_strlit("__wascc_expires");
    reveal_strlit("__wascc_tags");
    let i = "__wascc_issuer"@;
    let c = "__wascc_capabilities"@;
    let n = "__wascc_name"@;
    let e = "__wascc_expires"@;
    let t = "__wascc_tags"@;
    assert(i[8] == 'i' && c[8] == 'c' && n[8] == 'n' && e[8] == 'e' && t[8] == 't');
    assert(i != c && i != n && i != e && i != t && c != n && c != e && c != t && n != e && n != t
        && e != t);
    assert(claims@.expires == claims.expires);
}

/// A configuration that is sent reads back as it was: the actor and the values, as long as
/// its texts have a place in the binary form.
pub proof fn configurations_read_back(
    hostkey: &HostKey,
    config: &CapabilityConfiguration,
    capid: &str,
    binding: &str,
    rebind: Invocation,
    actor: &str,
    removal: Vec<u8>,
)
    requires
        call_ensures(gen_rebind_invocation, (hostkey, config, capid, binding), rebind),
        call_ensures(encode_removal, (actor,), removal),
        config@.module.len() < 0x4000_0000,
        config@.values.dom().finite(),
        config@.values.dom().len() < 0x1_0000_0000,
        forall|k: Seq<char>| #[trigger]
            config@.values.contains_key(k) ==> k.len() < 0x4000_0000 && config@.values[k].len()
                < 0x4000_0000,
        actor@.len() < 0x4000_0000,
    ensures
        readable(rebind@.msg) && decoded_configuration(rebind@.msg) == Ok::<
            ConfigurationView,
            Seq<char>,
        >(config@),
        readable(removal@) && decoded_configuration(removal@) is Ok && decoded_configuration(
            removal@,
        )->Ok_0.module == actor@ && decoded_configuration(removal@)->Ok_0.values.dom()
            =~= Set::<Seq<char>>::empty(),
{
    assert(short_map(Map::<Seq<char>, Seq<char>>::empty()));
    assert(short(config@.module) && short_map(config@.values));
}

/// A provider's call on an actor comes from the provider, as it was named, and goes out on the
/// subject of the actor.
pub proof fn providers_dispatch_to_actors(
    hk: HostKey,
    ns: Option<String>,
    capid: &str,
    binding: &str,
    d: WasccNativeDispatcher,
    actor: &str,
    op: &str,
    msg: &[u8],
    n: Option<&str>,
    subject: String,
    r: (String, Invocation),
)
    requires
        call_ensures(WasccNativeDispatcher::new, (hk, ns, capid, binding), d),
        call_ensures(WasccNativeDispatcher::dispatch, (&d, actor, op, msg), r),
        n is Some <==> ns is Some,
        n is Some ==> n->0@ == ns->0@,
        call_ensures(actor_subject, (n, actor), subject),
    ensures
        r.0@ == subject@,
        r.1@.origin == (EntityView::Capability { capid: capid@, binding: binding@ }),
        r.1@.target == EntityView::Actor(actor@),
        r.1@.operation == op@,
        r.1@.msg == msg@,
        r.1@.host_id == hk.spec_public(),
{
}

/// A native plugin handles the invocations of its capability, whether or not there is a route.
/// Without one, the portable provider does if there is a route to it. No plugin handles the
/// invocation of an actor.
pub proof fn plugins_come_before_routes<P>(
    plugins: &PluginManager<P>,
    inv: &Invocation,
    routed: bool,
    r: Result<Handler<'_, P>, Error>,
)
    requires
        call_ensures(PluginManager::<P>::handler, (plugins, inv, routed), r),
    ensures
        inv@.target is Actor ==> r is Err && r->Err_0@ is MiscHost,
        inv@.target is Capability ==> ({
            let key = (inv@.target->binding, inv@.target->capid);
            &&& plugins.plugins@.contains_key(key) ==> r is Ok && r->Ok_0 is Native
                && *(r->Ok_0->Native_0) == plugins.plugins@[key].plugin
            &&& !plugins.plugins@.contains_key(key) && routed ==> r is Ok && r->Ok_0 is Portable
            &&& !plugins.plugins@.contains_key(key) && !routed ==> r is Err
                && r->Err_0@ is CapabilityProvider
        }),
{
}

/// A plugin that was added is found, and one that was removed is not. No other plugin is touched,
/// and none takes the place of one that is there.
pub proof fn plugins_are_added_and_removed<P>(
    plugins: &mut PluginManager<P>,
    plugin: NativeCapability<P>,
    r: Result<(), Error>,
    other: &mut PluginManager<P>,
    binding: &str,
    capid: &str,
    removed: Option<NativeCapability<P>>,
)
    requires
        call_ensures(PluginManager::<P>::add_plugin, (plugins, plugin), r),
        call_ensures(PluginManager::<P>::remove_plugin, (other, binding, capid), removed),
    ensures
        ({
            let key = (plugin.binding_name@, plugin.descriptor@.id);
            &&& r is Ok <==> !old(plugins).plugins@.contains_key(key)
            &&& r is Ok ==> final(plugins).plugins@.contains_key(key)
                && final(plugins).plugins@[key] == plugin
            &&& forall|k: (Seq<char>, Seq<char>)|
                (r is Err || k != key) ==> (#[trigger] final(plugins).plugins@.contains_key(k)
                    <==> old(plugins).plugins@.contains_key(k))
            &&& forall|k: (Seq<char>, Seq<char>)|
                (r is Err || k != key) && #[trigger] final(plugins).plugins@.contains_key(k)
                    ==> final(plugins).plugins@[k] == old(plugins).plugins@[k]
            &&& r is Err ==> r->Err_0@ is CapabilityProvider
        }),
        !final(other).plugins@.contains_key((binding@, capid@)),
        removed is Some <==> old(other).plugins@.contains_key((binding@, capid@)),
        removed is Some ==> removed->0 == old(other).plugins@[(binding@, capid@)],
        forall|k: (Seq<char>, Seq<char>)|
            k != (binding@, capid@) ==> (#[trigger] final(other).plugins@.contains_key(k)
                <==> old(other).plugins@.contains_key(k)),
{
}

/// A plugin knows its caller by the public key of an actor or the capability ID of a provider.
/// Its reply is the response, and its error is told.
pub proof fn plugins_know_their_caller(
    inv: &Invocation,
    name: String,
    result: Result<Vec<u8>, String>,
    r: Result<InvocationResponse, Error>,
)
    requires
        call_ensures(caller, (inv,), name),
        call_ensures(finish_call, (inv, result), r),
    ensures
        inv@.origin is Actor ==> name@ == inv@.origin->Actor_0,
        inv@.origin is Capability ==> name@ == inv@.origin->capid,
        r is Ok <==> result is Ok,
        r is Ok ==> r->Ok_0@.msg == result->Ok_0@ && r->Ok_0@.error is None
            && r->Ok_0@.invocation_id == inv@.id,
        r is Err ==> r->Err_0@ == Failure::HostCallFailure(result->Err_0@),
{
}

/// The native plugin that an invocation addresses is given who calls, the operation and the
/// message, and what it replies is the result.
pub proof fn plugins_work_off_invocations<P: Provider, H: InvocationHandler>(
    plugins: &PluginManager<P>,
    inv: &Invocation,
    route: Option<&H>,
    r: Result<InvocationResponse, Error>,
)
    requires
        call_ensures(PluginManager::<P>::call::<H>, (plugins, inv, route), r),
        inv@.target is Capability,
        plugins.plugins@.contains_key((inv@.target->binding, inv@.target->capid)),
    ensures
        exists|actor: String, reply: Result<Vec<u8>, String>|
            {
                &&& inv@.origin is Actor ==> actor@ == inv@.origin->Actor_0
                &&& inv@.origin is Capability ==> actor@ == inv@.origin->capid
                &&& #[trigger] call_ensures(
                    P::handle_call,
                    (
                        &plugins.plugins@[(inv@.target->binding, inv@.target->capid)].plugin,
                        &actor,
                        &inv.operation,
                        &inv.msg,
                    ),
                    reply,
                )
                &&& reply is Ok ==> r is Ok && r->Ok_0@.msg == reply->Ok_0@
                    && r->Ok_0@.error is None && r->Ok_0@.invocation_id == inv@.id
                &&& reply is Err ==> r is Err && r->Err_0@ == Failure::HostCallFailure(
                    reply->Err_0@,
                )
            },
{
}

/// Without a plugin, the portable provider at the end of the route is given the invocation, and
/// what it responds is the result. Without a route there is an error.
pub proof fn routes_take_what_plugins_do_not<P: Provider, H: InvocationHandler>(
    plugins: &PluginManager<P>,
    inv: &Invocation,
    route: Option<&H>,
    r: Result<InvocationResponse, Error>,
)
    requires
        call_ensures(PluginManager::<P>::call::<H>, (plugins, inv, route), r),
        inv@.target is Capability,
        !plugins.plugins@.contains_key((inv@.target->binding, inv@.target->capid)),
    ensures
        route is None ==> r is Err && r->Err_0@ is CapabilityProvider,
        route is Some ==> exists|given: Invocation, response: InvocationResponse|
            given@ == inv@ && #[trigger] call_ensures(H::invoke, (route->0, given), response) && r
                == Ok::<InvocationResponse, Error>(response),
{
}

/// The last things that can be wrong with an invocation are its URLs.
pub proof fn misdirected_invocations_are_told_why(
    inv: &Invocation,
    vr: &TokenValidation,
    claims: &Claims<InvocationMetadata>,
    origin_url: String,
    target_url: String,
    hash: String,
    r: Result<(), Error>,
)
    requires
        claims@.metadata is Some,
        call_ensures(Invocation::origin_url, (inv,), origin_url),
        call_ensures(Invocation::target_url, (inv,), target_url),
        call_ensures(Invocation::hash, (inv,), hash),
        call_ensures(Invocation::judge, (inv, vr, claims), r),
        !vr.expired && vr.signature_valid && !vr.cannot_use_yet,
        claims@.metadata->0.invocation_hash == hash@,
        claims@.subject == inv@.id && claims@.issuer == inv@.host_id,
    ensures
        claims@.metadata->0.target_url != target_url@ ==> r is Err && r->Err_0@
            == Failure::Authorization("Invocation claims and invocation target URL do not match"@),
        claims@.metadata->0.target_url == target_url@ && claims@.metadata->0.origin_url
            != origin_url@ ==> r is Err && r->Err_0@ == Failure::Authorization(
            "Invocation claims and invocation origin URL do not match"@,
        ),
{
}

/// A new invocation has an identifier of its own form: hexadecimal digits in groups of eight,
/// four, four, four and twelve, with hyphens between them.
pub proof fn new_invocations_have_identifiers(
    hostkey: &HostKey,
    origin: WasccEntity,
    target: WasccEntity,
    op: &str,
    msg: Vec<u8>,
    r: Invocation,
)
    requires
        call_ensures(Invocation::new, (hostkey, origin, target, op, msg), r),
    ensures
        r@.id.len() == 36,
        r@.id[8] == '-' && r@.id[13] == '-' && r@.id[18] == '-' && r@.id[23] == '-',
        forall|i: int|
            0 <= i < 36 && i != 8 && i != 13 && i != 18 && i != 23 ==> ('0' <= (#[trigger] r@.id[i])
                <= '9') || ('a' <= r@.id[i] <= 'f'),
{
    assert forall|i: int| 0 <= i < 36 && i != 8 && i != 13 && i != 18 && i != 23 implies ('0' <= (
    #[trigger] r@.id[i]) <= '9') || ('a' <= r@.id[i] <= 'f') by {
        assert(crate::random::hex_digit(r@.id[i]));
    }
}

/// What a host issues passes the check of every host that recognises its key. What has no valid
/// signature is refused by all.
pub proof fn received_invocations_are_checked(
    hostkey: &HostKey,
    origin: WasccEntity,
    target: WasccEntity,
    op: &str,
    msg: Vec<u8>,
    new: Invocation,
    inv: &Invocation,
    r: Option<InvocationResponse>,
    tried: Option<Option<InvocationResponse>>,
)
    requires
        call_ensures(Invocation::new, (hostkey, origin, target, op, msg), new),
        call_ensures(handle_invocation, (inv,), r),
        call_ensures(try_handle_invocation, (inv,), tried),
    ensures
        inv@ == new@ && recognised_key(hostkey.spec_public()) ==> r is None && tried is Some
            && tried->0 is None,
        invocation_verdict(inv@.encoded_claims) != Some(true) ==> r is Some && (tried is Some
            ==> tried->0 is Some),
        r is Some ==> r->0@.invocation_id == inv@.id && r->0@.error is Some,
        tried is Some && tried->0 is Some ==> tried->0->0@.invocation_id == inv@.id
            && tried->0->0@.error is Some,
{
    let f = choose|failure: Option<Failure>|
        {
            &&& #[trigger] antiforgery_outcome(inv@, failure)
            &&& r is Some == failure is Some
            &&& r is Some ==> refusal_response(inv@, failure->0, r->0)
        };
    let host = hostkey.spec_public();
    issued_invocations_pass(new@, host, f);
    if invocation_verdict(inv@.encoded_claims) != Some(true) {
        unsigned_invocations_fail(inv@, f);
    }
    if tried is Some {
        let g = choose|failure: Option<Failure>|
            {
                &&& #[trigger] antiforgery_outcome(inv@, failure)
                &&& tried->0 is Some == failure is Some
                &&& tried->0 is Some ==> refusal_response(inv@, failure->0, tried->0->0)
            };
        issued_invocations_pass(new@, host, g);
        if invocation_verdict(inv@.encoded_claims) != Some(true) {
            unsigned_invocations_fail(inv@, g);
        }
    }
}

/// A received invocation that is not what its token says, in its message, its ends or its
/// operation as far as they change the hash or the URLs, in its identifier or in its host, is
/// refused.
pub proof fn altered_invocations_are_refused(
    hostkey: &HostKey,
    origin: WasccEntity,
    target: WasccEntity,
    op: &str,
    msg: Vec<u8>,
    new: Invocation,
    inv: &Invocation,
    hash: String,
    new_hash: String,
    url: String,
    new_url: String,
    r: Option<InvocationResponse>,
)
    requires
        call_ensures(Invocation::new, (hostkey, origin, target, op, msg), new),
        inv@.encoded_claims == new@.encoded_claims,
        call_ensures(Invocation::hash, (inv,), hash),
        call_ensures(Invocation::hash, (&new,), new_hash),
        call_ensures(Invocation::target_url, (inv,), url),
        call_ensures(Invocation::target_url, (&new,), new_url),
        hash@ != new_hash@ || url@ != new_url@ || inv@.id != new@.id || inv@.host_id
            != new@.host_id,
        call_ensures(handle_invocation, (inv,), r),
    ensures
        r is Some,
{
    let f = choose|failure: Option<Failure>|
        {
            &&& #[trigger] antiforgery_outcome(inv@, failure)
            &&& r is Some == failure is Some
            &&& r is Some ==> refusal_response(inv@, failure->0, r->0)
        };
    altered_invocations_fail(new@, hostkey.spec_public(), inv@, f);
}

/// A guest whose call is refused is told of which kind it is, who it is, and what it has tried.
pub proof fn refused_callbacks_are_told(
    claims: &Claims<ActorMetadata>,
    binding: &str,
    namespace: &str,
    operation: &str,
    target: &WasccEntity,
    allowed: bool,
    may: bool,
    shown: String,
    r: Result<(), Error>,
)
    requires
        claims@.metadata is Some,
        call_ensures(
            judge_callback,
            (claims, binding, namespace, operation, target, allowed),
            r,
        ),
        call_ensures(can_invoke, (claims, namespace, operation), may),
        target@ is Actor <==> encode_utf8(namespace@).len() == 56 && namespace@.len() > 0
            && namespace@[0] == 'M',
        target@ is Actor ==> target@->Actor_0 == namespace@,
        target@ is Capability ==> target@->capid == namespace@ && target@->binding == binding@,
        exists|i: int| 0 <= i < binding@.len() && !whitespace(#[trigger] binding@[i]),
        call_ensures(WasccEntity::show, (target,), shown),
    ensures
        !may ==> r is Err && r->Err_0@ == Failure::Authorization(
            (if claims@.metadata->0.provider {
                "Provider"@
            } else {
                "Actor"@
            }) + " "@ + claims@.subject + " attempted to call "@ + operation@ + " on "@ + namespace@
                + ","@ + binding@ + " - PERMISSION DENIED."@,
        ),
        may && !allowed ==> r is Err && r->Err_0@ == Failure::Authorization(
            (if claims@.metadata->0.provider {
                "Provider"@
            } else {
                "Actor"@
            }) + " "@ + claims@.subject + " attempted to call "@ + shown@
                + " - Authorizer denied access"@,
        ),
{
    let i = choose|i: int| 0 <= i < binding@.len() && !whitespace(#[trigger] binding@[i]);
    assert(!crate::messages::blank(binding@));
}

/// Where the attestations allow a guest's call, what the authorizer says decides; where they do
/// not, it is refused whatever the authorizer says.
pub proof fn authorizers_decide_on_callbacks<A: Authorizer>(
    hostkey: &HostKey,
    claims: &Claims<ActorMetadata>,
    lattice_ns: Option<&str>,
    binding: &str,
    namespace: &str,
    operation: &str,
    payload: &[u8],
    authorizer: &A,
    may: bool,
    answer: bool,
    r: Result<(String, Invocation), Error>,
)
    requires
        claims@.metadata is Some,
        call_ensures(
            wapc_host_callback::<A>,
            (hostkey, claims, lattice_ns, binding, namespace, operation, payload, authorizer),
            r,
        ),
        call_ensures(can_invoke, (claims, namespace, operation), may),
        forall|t: WasccEntity, a: bool|
            #[trigger] call_ensures(A::can_invoke, (authorizer, claims, &t, operation), a) ==> a
                == answer,
    ensures
        r is Ok <==> may && answer,
        r is Err ==> r->Err_0@ is Authorization,
{
}

/// To learn what a portable provider says of itself, it is asked by name, and its reply is read.
pub proof fn portable_providers_are_asked(
    q: (String, Vec<u8>),
    reply: &[u8],
    r: Result<CapabilityDescriptor, Error>,
)
    requires
        call_ensures(descriptor_request, (), q),
        call_ensures(get_descriptor, (reply,), r),
    ensures
        q.0@ == "GetCapabilityDescriptor"@,
        q.1@ == encoded_health_request(false),
        r is Ok <==> decoded_descriptor(reply@) is Ok,
        r is Ok ==> r->Ok_0@ == decoded_descriptor(reply@)->Ok_0,
        r is Err ==> r->Err_0@ == Failure::HostCallFailure(decoded_descriptor(reply@)->Err_0),
{
}

/// Where no one can handle an invocation, the error tells what was looked for. A plugin that is
/// there already is told by its name.
pub proof fn missing_and_duplicate_plugins_are_told<P>(
    plugins: &PluginManager<P>,
    inv: &Invocation,
    routed: bool,
    key: RouteKey,
    shown: String,
    r: Result<Handler<'_, P>, Error>,
    other: &mut PluginManager<P>,
    plugin: NativeCapability<P>,
    q: Result<(), Error>,
)
    requires
        call_ensures(PluginManager::<P>::handler, (plugins, inv, routed), r),
        inv@.target is Capability ==> key@ == (inv@.target->binding, inv@.target->capid),
        call_ensures(show_key, (&key,), shown),
        call_ensures(PluginManager::<P>::add_plugin, (other, plugin), q),
    ensures
        inv@.target is Capability && r is Err ==> r->Err_0@ == Failure::CapabilityProvider(
            "No such capability ID registered as native plug-in or portable provider: "@ + shown@,
        ),
        inv@.target is Actor ==> r is Err && r->Err_0@ == Failure::MiscHost(
            "Attempted to invoke a capability provider plugin as though it were an actor. Bad route?"@,
        ),
        q is Err ==> q->Err_0@ == Failure::CapabilityProvider(
            "Duplicate capability ID attempted to register provider: ("@ + plugin.binding_name@
                + ","@ + plugin.descriptor@.id + ")"@,
        ),
{
}

/// A dispatcher is given to the plugin that it is for, which has to be there and to take it.
pub proof fn dispatchers_are_registered<P>(
    plugins: &PluginManager<P>,
    fresh: PluginManager<P>,
    binding: &str,
    capid: &str,
    configured: bool,
    target: Result<&P, Error>,
    r: Result<(), Error>,
)
    requires
        call_ensures(PluginManager::<P>::new, (), fresh),
        call_ensures(PluginManager::<P>::dispatcher_target, (plugins, binding, capid), target),
        call_ensures(
            PluginManager::<P>::register_dispatcher,
            (plugins, binding, capid, configured),
            r,
        ),
    ensures
        forall|k: (Seq<char>, Seq<char>)| !(#[trigger] fresh.plugins@.contains_key(k)),
        target is Ok <==> plugins.plugins@.contains_key((binding@, capid@)),
        target is Ok ==> *(target->Ok_0) == plugins.plugins@[(binding@, capid@)].plugin,
        target is Err ==> target->Err_0@ == Failure::CapabilityProvider(
            "attempt to register dispatcher for non-existent plugin"@,
        ),
        r is Ok <==> target is Ok && configured,
        target is Err ==> r->Err_0@ == target->Err_0@,
        target is Ok && !configured ==> r->Err_0@ == Failure::CapabilityProvider(
            "Failed to configure dispatch on provider"@,
        ),
{
}

/// An invocation can be checked by itself: what a host issues passes where the key of the host is
/// recognised, and what has no valid signature does not.
pub proof fn invocations_are_validated(
    hostkey: &HostKey,
    origin: WasccEntity,
    target: WasccEntity,
    op: &str,
    msg: Vec<u8>,
    new: Invocation,
    inv: &Invocation,
    r: Result<(), Error>,
    tried: Option<Result<(), Error>>,
)
    requires
        call_ensures(Invocation::new, (hostkey, origin, target, op, msg), new),
        call_ensures(Invocation::validate_antiforgery, (inv,), r),
        call_ensures(Invocation::try_validate_antiforgery, (inv,), tried),
    ensures
        inv@ == new@ && recognised_key(hostkey.spec_public()) ==> r is Ok && tried is Some
            && tried->0 is Ok,
        invocation_verdict(inv@.encoded_claims) != Some(true) ==> r is Err && (tried is Some
            ==> tried->0 is Err),
        invocation_verdict(inv@.encoded_claims) is None ==> r->Err_0@ == Failure::Wascap,
        inv@.encoded_claims == new@.encoded_claims && (inv@.id != new@.id || inv@.host_id
            != new@.host_id) ==> r is Err && (tried is Some ==> tried->0 is Err),
{
    let host = hostkey.spec_public();
    let f = failure_of(r);
    issued_invocations_pass(new@, host, f);
    checks_are_bounded(inv@, f);
    if invocation_verdict(inv@.encoded_claims) != Some(true) {
        unsigned_invocations_fail(inv@, f);
    }
    if inv@.encoded_claims == new@.encoded_claims && (inv@.id != new@.id || inv@.host_id
        != new@.host_id) {
        altered_invocations_fail(new@, host, inv@, f);
    }
    if tried is Some {
        let g = failure_of(tried->0);
        assert(antiforgery_outcome(inv@, g));
        issued_invocations_pass(new@, host, g);
        if invocation_verdict(inv@.encoded_claims) != Some(true) {
            unsigned_invocations_fail(inv@, g);
        }
        if inv@.encoded_claims == new@.encoded_claims && (inv@.id != new@.id || inv@.host_id
            != new@.host_id) {
            altered_invocations_fail(new@, host, inv@, g);
        }
    }
}

/// Where a guest's call got no reply, it is told why, by the text of the error.
pub proof fn lost_calls_are_told(
    e: Error,
    r: Result<Vec<u8>, CallError>,
)
    requires
        call_ensures(finish_callback, (Err(e),), r),
    ensures
        r is Err && r->Err_0@ is Host && r->Err_0@->Host_0 is HostCallFailure,
        e@ is MiscHost ==> r->Err_0@->Host_0->HostCallFailure_0 == "waSCC Host Error: "@
            + e@->MiscHost_0,
        e@ is HostCallFailure ==> r->Err_0@->Host_0->HostCallFailure_0
            == "Error occurred during host call: "@ + e@->HostCallFailure_0,
        e@ is Authorization ==> r->Err_0@->Host_0->HostCallFailure_0
            == "WebAssembly module authorization failure: "@ + e@->Authorization_0,
        e@ is CapabilityProvider ==> r->Err_0@->Host_0->HostCallFailure_0
            == "Capability provider error: "@ + e@->CapabilityProvider_0,
{
}

} // verus!
