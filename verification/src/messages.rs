//! The invocations that a host makes on its own account or for a guest.
use vstd::prelude::*;
use vstd::utf8::encode_utf8;

use crate::authz::{can_invoke, failure_of, may_invoke, Authorizer};
use crate::bindings::{key_views, of_actor, unbind_actor, without, BindingKeyView, BindingsList};
use crate::bus::{
    actor_subject, actor_subject_of, bound_subject_of, ns_view, provider_subject,
    provider_subject_bound_actor, provider_subject_of,
};
use crate::claims::{
    attested, claimed_name, tagged, ActorMetadata, ActorMetadataView, Claims, ClaimsView, HostKey,
};
use crate::codec::{
    decode_descriptor, decoded_configuration, decoded_descriptor, encode_health_request,
    encoded_health_request, put, short, short_map, text_map, CapabilityConfiguration,
    CapabilityDescriptor, ConfigurationView, CONFIG_WASCC_CLAIMS_CAPABILITIES,
    CONFIG_WASCC_CLAIMS_EXPIRES, CONFIG_WASCC_CLAIMS_ISSUER, CONFIG_WASCC_CLAIMS_NAME,
    CONFIG_WASCC_CLAIMS_TAGS, OP_BIND_ACTOR, OP_GET_CAPABILITY_DESCRIPTOR, OP_PERFORM_LIVE_UPDATE,
    OP_REMOVE_ACTOR, SYSTEM_ACTOR,
};
use crate::entity::{shown, EntityView, WasccEntity};
use crate::errors::{self, shows, Error, ErrorKind, Failure};
use crate::inthost::{
    copy_bytes, error_response, issued, success_response, Invocation, InvocationResponse,
    InvocationView, ResponseView,
};
use crate::messagepack::readable;
use crate::table::Table;
use crate::text::{all_whitespace, decimal, decimal_text, is_blank, join, joined};

verus! {

/// An invocation as the host itself issues it to some target.
pub open spec fn from_system(
    v: InvocationView,
    host: Seq<char>,
    target: EntityView,
    operation: Seq<char>,
) -> bool {
    &&& v.origin == EntityView::Actor(SYSTEM_ACTOR@)
    &&& v.target == target
    &&& v.operation == operation
    &&& issued(v, host)
}

/// The invocation that hands a running actor the bytes of its replacement.
pub fn gen_liveupdate_invocation(hostkey: &HostKey, target: &str, bytes: Vec<u8>) -> (r: Invocation)
    ensures
        from_system(
            r@,
            hostkey.spec_public(),
            EntityView::Actor(target@),
            OP_PERFORM_LIVE_UPDATE@,
        ),
        r@.msg == bytes@,
{
    Invocation::new(
        hostkey,
        WasccEntity::Actor(SYSTEM_ACTOR.to_string()),
        WasccEntity::Actor(target.to_string()),
        OP_PERFORM_LIVE_UPDATE,
        bytes,
    )
}

/// The invocation that tells a capability provider that an actor is gone.
pub fn gen_remove_actor(hostkey: &HostKey, msg: Vec<u8>, binding: &str, capid: &str) -> (r:
    Invocation)
    ensures
        from_system(
            r@,
            hostkey.spec_public(),
            (EntityView::Capability { capid: capid@, binding: binding@ }),
            OP_REMOVE_ACTOR@,
        ),
        r@.msg == msg@,
{
    Invocation::new(
        hostkey,
        WasccEntity::Actor(SYSTEM_ACTOR.to_string()),
        WasccEntity::Capability { capid: capid.to_string(), binding: binding.to_string() },
        OP_REMOVE_ACTOR,
        msg,
    )
}

/// The values that a provider is given for an actor: those of the configuration,
/// and what the actor's claims say of it.
pub open spec fn binding_values(
    values: Map<Seq<char>, Seq<char>>,
    c: ClaimsView<ActorMetadataView>,
) -> Map<Seq<char>, Seq<char>> {
    values.insert(CONFIG_WASCC_CLAIMS_ISSUER@, c.issuer).insert(
        CONFIG_WASCC_CLAIMS_CAPABILITIES@,
        joined(attested(c), ","@),
    ).insert(CONFIG_WASCC_CLAIMS_NAME@, claimed_name(c)).insert(
        CONFIG_WASCC_CLAIMS_EXPIRES@,
        decimal(
            match c.expires {
                Some(e) => e as nat,
                None => 0,
            },
        ),
    ).insert(CONFIG_WASCC_CLAIMS_TAGS@, joined(tagged(c), ","@))
}

/// The bytes stand for a configuration, as long as its texts have a place in the
/// binary form.
pub open spec fn carries(bytes: Seq<u8>, config: ConfigurationView) -> bool {
    short(config.module) && short_map(config.values) ==> readable(bytes) && decoded_configuration(
        bytes,
    ) is Ok && decoded_configuration(bytes)->Ok_0 == config
}

/// The configuration that a provider is given for an actor.
pub fn gen_config(
    actor: &str,
    claims: &Claims<ActorMetadata>,
    values: Table<String, String>,
) -> (r: CapabilityConfiguration)
    requires
        claims@.metadata is Some,
    ensures
        r@.module == actor@,
        r@.values == binding_values(text_map(values@), claims@),
{
    let mut values = values;
    put(&mut values, CONFIG_WASCC_CLAIMS_ISSUER, claims.issuer.clone());
    put(&mut values, CONFIG_WASCC_CLAIMS_CAPABILITIES, join(&claims.caps(), ","));
    put(&mut values, CONFIG_WASCC_CLAIMS_NAME, claims.name());
    let expires: u64 = match claims.expires {
        Some(e) => e,
        None => 0,
    };
    put(&mut values, CONFIG_WASCC_CLAIMS_EXPIRES, decimal_text(expires));
    put(&mut values, CONFIG_WASCC_CLAIMS_TAGS, join(&claims.tags(), ","));
    CapabilityConfiguration { module: actor.to_string(), values }
}

/// The invocation that binds an actor to a capability provider.
pub fn gen_config_invocation(
    hostkey: &HostKey,
    actor: &str,
    capid: &str,
    claims: &Claims<ActorMetadata>,
    binding: &str,
    values: Table<String, String>,
) -> (r: Invocation)
    requires
        claims@.metadata is Some,
    ensures
        from_system(
            r@,
            hostkey.spec_public(),
            (EntityView::Capability { capid: capid@, binding: binding@ }),
            OP_BIND_ACTOR@,
        ),
        carries(
            r@.msg,
            (ConfigurationView {
                module: actor@,
                values: binding_values(text_map(values@), claims@),
            }),
        ),
{
    let payload = gen_config(actor, claims, values).encode();
    Invocation::new(
        hostkey,
        WasccEntity::Actor(SYSTEM_ACTOR.to_string()),
        WasccEntity::Capability { capid: capid.to_string(), binding: binding.to_string() },
        OP_BIND_ACTOR,
        payload,
    )
}

/// The invocation that binds an actor again with a configuration as it stands.
pub fn gen_rebind_invocation(
    hostkey: &HostKey,
    config: &CapabilityConfiguration,
    capid: &str,
    binding: &str,
) -> (r: Invocation)
    ensures
        from_system(
            r@,
            hostkey.spec_public(),
            (EntityView::Capability { capid: capid@, binding: binding@ }),
            OP_BIND_ACTOR@,
        ),
        carries(r@.msg, config@),
{
    Invocation::new(
        hostkey,
        WasccEntity::Actor(SYSTEM_ACTOR.to_string()),
        WasccEntity::Capability { capid: capid.to_string(), binding: binding.to_string() },
        OP_BIND_ACTOR,
        config.encode(),
    )
}

/// A text that names an actor rather than a capability.
pub open spec fn is_actor_key(s: Seq<char>) -> bool {
    encode_utf8(s).len() == 56 && s.len() > 0 && s[0] == 'M'
}

/// Whether a text names an actor rather than a capability.
pub fn names_actor(s: &str) -> (r: bool)
    ensures
        r == is_actor_key(s@),
{
    s.as_bytes().len() == 56 && s.unicode_len() > 0 && s.get_char(0) == 'M'
}

/// Nothing but white space.
pub open spec fn blank(s: Seq<char>) -> bool {
    all_whitespace(s)
}

/// What a guest's call addresses.
pub open spec fn callback_target(binding: Seq<char>, namespace: Seq<char>) -> EntityView {
    if is_actor_key(namespace) {
        EntityView::Actor(namespace)
    } else {
        EntityView::Capability {
            capid: namespace,
            binding: if blank(binding) {
                "default"@
            } else {
                binding
            },
        }
    }
}

/// The invocation that a guest's call stands for.
pub fn invocation_from_callback(
    hostkey: &HostKey,
    origin: &str,
    bd: &str,
    ns: &str,
    op: &str,
    payload: &[u8],
) -> (r: Invocation)
    ensures
        r@.origin == EntityView::Actor(origin@),
        r@.target == callback_target(bd@, ns@),
        r@.operation == op@,
        r@.msg == payload@,
        issued(r@, hostkey.spec_public()),
{
    let binding = if is_blank(bd) {
        // Some actor SDKs may not specify a binding field by default
        "default".to_string()
    } else {
        bd.to_string()
    };
    let target = if names_actor(ns) {
        WasccEntity::Actor(ns.to_string())
    } else {
        WasccEntity::Capability { capid: ns.to_string(), binding }
    };
    Invocation::new(
        hostkey,
        WasccEntity::Actor(origin.to_string()),
        target,
        op,
        copy_bytes(payload),
    )
}

/// What kind of guest the claims are of.
pub open spec fn guest_kind(c: ClaimsView<ActorMetadataView>) -> Seq<char> {
    if c.metadata->0.provider {
        "Provider"@
    } else {
        "Actor"@
    }
}

/// Decides on a guest's call: nothing where it may go ahead, else the error. The
/// attestations in the claims come first; only where they allow the call does the
/// authorizer's word count.
pub open spec fn callback_refusal(
    c: ClaimsView<ActorMetadataView>,
    binding: Seq<char>,
    namespace: Seq<char>,
    operation: Seq<char>,
    allowed: bool,
) -> Option<Failure> {
    if !may_invoke(c, namespace) {
        Some(
            Failure::Authorization(
                guest_kind(c) + " "@ + c.subject + " attempted to call "@ + operation + " on "@
                    + namespace + ","@ + binding + " - PERMISSION DENIED."@,
            ),
        )
    } else if !allowed {
        Some(
            Failure::Authorization(
                guest_kind(c) + " "@ + c.subject + " attempted to call "@ + shown(
                    callback_target(binding, namespace),
                ) + " - Authorizer denied access"@,
            ),
        )
    } else {
        None
    }
}

fn guest_word(claims: &Claims<ActorMetadata>) -> (r: String)
    requires
        claims@.metadata is Some,
    ensures
        r@ == guest_kind(claims@),
{
    match &claims.metadata {
        Some(m) => if m.provider {
            "Provider".to_string()
        } else {
            "Actor".to_string()
        },
        None => "Actor".to_string(),
    }
}

/// The error of a call that the attestations do not allow.
fn permission_denied(
    claims: &Claims<ActorMetadata>,
    binding: &str,
    namespace: &str,
    operation: &str,
) -> (e: Error)
    requires
        claims@.metadata is Some,
        !may_invoke(claims@, namespace@),
    ensures
        Some(e@) == callback_refusal(claims@, binding@, namespace@, operation@, false),
        Some(e@) == callback_refusal(claims@, binding@, namespace@, operation@, true),
{
    errors::new(
        ErrorKind::Authorization(
            guest_word(claims).concat(" ").concat(claims.subject.as_str()).concat(
                " attempted to call ",
            ).concat(operation).concat(" on ").concat(namespace).concat(",").concat(binding).concat(
                " - PERMISSION DENIED.",
            ),
        ),
    )
}

/// Decides on a guest's call by its claims and by the authorizer's word.
pub fn judge_callback(
    claims: &Claims<ActorMetadata>,
    binding: &str,
    namespace: &str,
    operation: &str,
    target: &WasccEntity,
    allowed: bool,
) -> (r: Result<(), Error>)
    requires
        claims@.metadata is Some,
        target@ == callback_target(binding@, namespace@),
    ensures
        failure_of(r) == callback_refusal(claims@, binding@, namespace@, operation@, allowed),
{
    if !can_invoke(claims, namespace, operation) {
        return Err(permission_denied(claims, binding, namespace, operation));
    }
    if !allowed {
        return Err(
            errors::new(
                ErrorKind::Authorization(
                    guest_word(claims).concat(" ").concat(claims.subject.as_str()).concat(
                        " attempted to call ",
                    ).concat(target.show().as_str()).concat(" - Authorizer denied access"),
                ),
            ),
        );
    }
    Ok(())
}

/// The subject on which a guest's call is made: its own subject for an actor, and
/// the private one for a capability provider.
pub open spec fn callback_subject(
    ns: Option<Seq<char>>,
    target: EntityView,
    caller: Seq<char>,
) -> Seq<char> {
    match target {
        EntityView::Actor(pk) => actor_subject_of(ns, pk),
        EntityView::Capability { capid, binding } => bound_subject_of(ns, capid, binding, caller),
    }
}

/// The first half of a guest's call: checks that the guest may make it, and forms
/// the invocation and the subject to make it on. The authorizer is asked only
/// where the attestations allow the call.
pub fn wapc_host_callback<A: Authorizer>(
    hostkey: &HostKey,
    claims: &Claims<ActorMetadata>,
    lattice_ns: Option<&str>,
    binding: &str,
    namespace: &str,
    operation: &str,
    payload: &[u8],
    authorizer: &A,
) -> (r: Result<(String, Invocation), Error>)
    requires
        claims@.metadata is Some,
    ensures
        !may_invoke(claims@, namespace@) ==> failure_of(r) == callback_refusal(
            claims@,
            binding@,
            namespace@,
            operation@,
            false,
        ),
        may_invoke(claims@, namespace@) ==> exists|target: WasccEntity, allowed: bool|
            {
                &&& target@ == callback_target(binding@, namespace@)
                &&& #[trigger] call_ensures(
                    A::can_invoke,
                    (authorizer, claims, &target, operation),
                    allowed,
                )
                &&& failure_of(r) == callback_refusal(
                    claims@,
                    binding@,
                    namespace@,
                    operation@,
                    allowed,
                )
            },
        r is Ok ==> {
            let v = r->Ok_0.1@;
            &&& v.origin == EntityView::Actor(claims@.subject)
            &&& v.target == callback_target(binding@, namespace@)
            &&& v.operation == operation@
            &&& v.msg == payload@
            &&& issued(v, hostkey.spec_public())
            &&& r->Ok_0.0@ == callback_subject(ns_view(lattice_ns), v.target, claims@.subject)
        },
{
    let inv = invocation_from_callback(
        hostkey,
        claims.subject.as_str(),
        binding,
        namespace,
        operation,
        payload,
    );
    if !can_invoke(claims, namespace, operation) {
        return Err(permission_denied(claims, binding, namespace, operation));
    }
    let allowed = authorizer.can_invoke(claims, &inv.target, operation);
    let judgement = judge_callback(claims, binding, namespace, operation, &inv.target, allowed);
    assert(call_ensures(A::can_invoke, (authorizer, claims, &inv.target, operation), allowed));
    match judgement {
        Err(e) => Err(e),
        Ok(_) => {
            // Make a request on either `wasmbus.Mxxxxx` for an actor or `wasmbus.{capid}.{binding}.{calling-actor}` for
            // a bound capability provider
            let subject = match &inv.target {
                WasccEntity::Actor(pk) => actor_subject(lattice_ns, pk.as_str()),
                WasccEntity::Capability { capid, binding } => provider_subject_bound_actor(
                    lattice_ns,
                    capid.as_str(),
                    binding.as_str(),
                    claims.subject.as_str(),
                ),
            };
            Ok((subject, inv))
        },
    }
}

/// Why a call failed: an error of this library, or a mere text
#[derive(Debug)]
pub enum CallError {
    Host(Error),
    Text(String),
}

pub ghost enum CallFailure {
    Host(Failure),
    Text(Seq<char>),
}

impl View for CallError {
    type V = CallFailure;

    open spec fn view(&self) -> CallFailure {
        match self {
            CallError::Host(e) => CallFailure::Host(e@),
            CallError::Text(s) => CallFailure::Text(s@),
        }
    }
}

impl CallError {
    /// The text that is shown for the error.
    pub fn to_string(&self) -> (r: String)
        ensures
            self@ matches CallFailure::Text(s) ==> r@ == s,
            self@ matches CallFailure::Host(f) ==> shows(r@, f),
    {
        match self {
            CallError::Host(e) => e.to_string(),
            CallError::Text(s) => s.clone(),
        }
    }
}

/// What the reply to a guest's call means: the message in it, or the error.
pub open spec fn reply_meaning(response: ResponseView) -> Result<Seq<u8>, Seq<char>> {
    match response.error {
        Some(e) => Err("Invocation failure: "@ + e),
        None => Ok(response.msg),
    }
}

/// The second half of a guest's call: turns the reply into what the guest gets.
pub fn finish_callback(reply: Result<InvocationResponse, Error>) -> (r: Result<Vec<u8>, CallError>)
    ensures
        reply is Ok && reply_meaning(reply->Ok_0@) is Ok ==> r is Ok && r->Ok_0@ == reply_meaning(
            reply->Ok_0@,
        )->Ok_0,
        reply is Ok && reply_meaning(reply->Ok_0@) is Err ==> r is Err && r->Err_0@
            == CallFailure::Text(reply_meaning(reply->Ok_0@)->Err_0),
        reply is Err ==> r is Err && r->Err_0@ is Host && r->Err_0@->Host_0 is HostCallFailure,
        reply is Err ==> shows(r->Err_0@->Host_0->HostCallFailure_0, reply->Err_0@),
{
    match reply {
        Ok(inv_r) => match inv_r.error {
            Some(e) => Err(
                CallError::Text("Invocation failure: ".to_string().concat(e.as_str())),
            ),
            None => Ok(inv_r.msg),
        },
        Err(e) => Err(CallError::Host(errors::new(ErrorKind::HostCallFailure(e.to_string())))),
    }
}

/// What hot-swapping the module of an actor leads to.
pub fn live_update(inv: &Invocation, replaced: bool) -> (r: InvocationResponse)
    ensures
        replaced ==> r@ == success_response(inv@, Seq::<u8>::empty()),
        !replaced ==> r@ == error_response(inv@, "Failed to perform hot swap"@),
{
    if replaced {
        InvocationResponse::success(inv, Vec::new())
    } else {
        InvocationResponse::error(inv, "Failed to perform hot swap")
    }
}

/// What is called to learn the descriptor of a portable capability provider: the
/// operation, and the message.
pub fn descriptor_request() -> (r: (String, Vec<u8>))
    ensures
        r.0@ == OP_GET_CAPABILITY_DESCRIPTOR@,
        r.1@ == encoded_health_request(false),
{
    (OP_GET_CAPABILITY_DESCRIPTOR.to_string(), encode_health_request(false))
}

/// The descriptor in the reply of a capability provider.
pub fn get_descriptor(reply: &[u8]) -> (r: Result<CapabilityDescriptor, Error>)
    requires
        readable(reply@),
    ensures
        r is Ok == decoded_descriptor(reply@) is Ok,
        r is Ok ==> r->Ok_0@ == decoded_descriptor(reply@)->Ok_0,
        r is Err ==> r->Err_0@ == Failure::HostCallFailure(decoded_descriptor(reply@)->Err_0),
{
    match decode_descriptor(reply) {
        Ok(d) => Ok(d),
        Err(e) => Err(errors::new(ErrorKind::HostCallFailure(e))),
    }
}

/// A message to a capability provider that an actor is gone.
pub open spec fn removal_notice(
    subject: Seq<char>,
    v: InvocationView,
    host: Seq<char>,
    ns: Option<Seq<char>>,
    k: BindingKeyView,
) -> bool {
    &&& subject == provider_subject_of(ns, k.1, k.2)
    &&& from_system(
        v,
        host,
        EntityView::Capability { capid: k.1, binding: k.2 },
        OP_REMOVE_ACTOR@,
    )
    &&& carries(v.msg, ConfigurationView { module: k.0, values: Map::empty() })
}

/// The messages to capability providers that an actor is gone: one for each of its bindings.
pub open spec fn removal_notices(
    notices: Seq<(String, Invocation)>,
    host: Seq<char>,
    ns: Option<Seq<char>>,
    gone: Seq<BindingKeyView>,
) -> bool {
    &&& notices.len() == gone.len()
    &&& forall|i: int|
        0 <= i < gone.len() ==> removal_notice(
            (#[trigger] notices[i]).0@,
            notices[i].1@,
            host,
            ns,
            gone[i],
        )
}

/// The configuration that names an actor and nothing else, in binary form.
pub fn encode_removal(actor: &str) -> (r: Vec<u8>)
    ensures
        carries(r@, (ConfigurationView { module: actor@, values: Map::empty() })),
{
    let cfg = CapabilityConfiguration { module: actor.to_string(), values: Table::new() };
    assert(cfg@.values =~= Map::empty());
    cfg.encode()
}

/// Removes all bindings for a given actor, and returns the "remove actor" message
/// for each of the capabilities, with the subject that it goes to. Where other
/// instances of the actor are still running, nothing is removed. The number of
/// instances is that of the others, since the actor itself has been taken out of
/// the claims already; it is not known outside a lattice or where the query failed.
pub fn deconfigure_actor(
    hostkey: &HostKey,
    ns: Option<&str>,
    bindings: &mut BindingsList,
    key: &str,
    instances: Option<usize>,
) -> (r: Vec<(String, Invocation)>)
    ensures
        instances matches Some(i) && i > 0 ==> final(bindings)@ == old(bindings)@ && r@.len() == 0,
        !(instances matches Some(i) && i > 0) ==> {
            let gone = old(bindings).keys().filter(of_actor(key@));
            &&& final(bindings)@ == without(old(bindings)@, of_actor(key@))
            &&& removal_notices(r@, hostkey.spec_public(), ns_view(ns), gone)
        },
{
    let mut out: Vec<(String, Invocation)> = Vec::new();
    match instances {
        Some(i) => {
            if i > 0 {
                return out;
            }
        },
        None => {},
    }
    let keys = unbind_actor(bindings, key);
    let buf = encode_removal(key);
    let mut i: usize = 0;
    let ghost gone = old(bindings).keys().filter(of_actor(key@));
    assert(key_views(keys@) == gone);
    while i < keys.len()
        invariant
            i <= keys.len(),
            key_views(keys@) == gone,
            gone == old(bindings).keys().filter(of_actor(key@)),
            carries(buf@, (ConfigurationView { module: key@, values: Map::empty() })),
            out@.len() == i,
            forall|j: int|
                0 <= j < i ==> removal_notice(
                    (#[trigger] out@[j]).0@,
                    out@[j].1@,
                    hostkey.spec_public(),
                    ns_view(ns),
                    gone[j],
                ),
        decreases keys.len() - i,
    {
        let k = &keys[i];
        assert(key_views(keys@)[i as int] == k@);
        proof {
            lemma_filtered(old(bindings).keys(), of_actor(key@), i as int);
        }
        // The OP_REMOVE_ACTOR invocation should go to _all_ instances of the provider being unbound
        let subject = provider_subject(ns, k.capid.as_str(), k.binding.as_str());
        let inv = gen_remove_actor(
            hostkey,
            copy_bytes(buf.as_slice()),
            k.binding.as_str(),
            k.capid.as_str(),
        );
        out.push((subject, inv));
        i += 1;
    }
    out
}

proof fn lemma_filtered<A>(s: Seq<A>, p: spec_fn(A) -> bool, i: int)
    requires
        0 <= i < s.filter(p).len(),
    ensures
        p(s.filter(p)[i]),
    decreases s.len(),
{
    reveal(Seq::filter);
    if s.len() > 0 {
        let f = s.drop_last().filter(p);
        if i < f.len() {
            lemma_filtered(s.drop_last(), p, i);
        }
    }
}

/// Whatever an authorizer says, a call that the attestations do not cover is
/// refused: an authorizer can only be stricter than the attestations.
pub proof fn attestations_cannot_be_overridden(
    c: ClaimsView<ActorMetadataView>,
    binding: Seq<char>,
    namespace: Seq<char>,
    operation: Seq<char>,
    allowed: bool,
)
    requires
        c.subject != namespace,
        !attested(c).contains(namespace),
    ensures
        callback_refusal(c, binding, namespace, operation, allowed) is Some,
        callback_refusal(c, binding, namespace, operation, true) == callback_refusal(
            c,
            binding,
            namespace,
            operation,
            false,
        ),
{
}

} // verus!
