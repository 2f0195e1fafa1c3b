//! What tokens and claims allow.
use vstd::prelude::*;

use crate::actor::Actor;
use crate::authz::{
    can_invoke, check_auth, enforce_validation, enforcement_is_bounded, extract_claims,
    failure_of, get_all_claims, judge_validation, register_claims, try_enforce_validation,
    unregister_claims, Authorizer, ClaimsMap, DefaultAuthorizer,
};
use crate::claims::{
    actor_verdict, decoded_actor, embedded_token, is_checkable, signature_part, ActorMetadata,
    Claims, Token, TokenValidation,
};
use crate::entity::WasccEntity;
use crate::errors::{Error, Failure};
use crate::text::{after, before, lemma_split, texts};

verus! {

/// Claims list the capabilities and the tags in their metadata, in order, and none where the
/// metadata has no such list. Their name is that in the metadata.
pub proof fn claims_hold_lists(
    c: &Claims<ActorMetadata>,
    caps: Vec<String>,
    tags: Vec<String>,
    name: String,
)
    requires
        c.metadata is Some,
        call_ensures(Claims::<ActorMetadata>::caps, (c,), caps),
        call_ensures(Claims::<ActorMetadata>::tags, (c,), tags),
        call_ensures(Claims::<ActorMetadata>::name, (c,), name),
    ensures
        ({
            let m = c.metadata->0;
            &&& m.caps is None ==> caps@.len() == 0
            &&& m.caps is Some ==> caps@.len() == m.caps->0@.len()
            &&& m.caps is Some ==> forall|i: int|
                0 <= i < caps@.len() ==> (#[trigger] caps@[i])@ == m.caps->0@[i]@
            &&& m.tags is None ==> tags@.len() == 0
            &&& m.tags is Some ==> tags@.len() == m.tags->0@.len()
            &&& m.tags is Some ==> forall|i: int|
                0 <= i < tags@.len() ==> (#[trigger] tags@[i])@ == m.tags->0@[i]@
            &&& m.name is Some ==> name@ == m.name->0@
            &&& m.name is None ==> name@ == "Anonymous"@
        }),
{
    let m = c.metadata->0;
    assert(c@.metadata == Some(m@));
    assert(texts(caps@).len() == caps@.len());
    assert(texts(tags@).len() == tags@.len());
    if m.caps is Some {
        assert(texts(caps@) == texts(m.caps->0@));
        assert(texts(m.caps->0@).len() == m.caps->0@.len());
        assert forall|i: int| 0 <= i < caps@.len() implies (#[trigger] caps@[i])@
            == m.caps->0@[i]@ by {
            assert(texts(caps@)[i] == texts(m.caps->0@)[i]);
        }
    }
    if m.tags is Some {
        assert(texts(tags@) == texts(m.tags->0@));
        assert(texts(m.tags->0@).len() == m.tags->0@.len());
        assert forall|i: int| 0 <= i < tags@.len() implies (#[trigger] tags@[i])@
            == m.tags->0@[i]@ by {
            assert(texts(tags@)[i] == texts(m.tags->0@)[i]);
        }
    }
}

/// Claims let an actor use a capability exactly where it is among those that they list, or where
/// it is the actor itself. Which operation it is about does not matter.
pub proof fn attestations_allow(
    c: &Claims<ActorMetadata>,
    capid: &str,
    operation: &str,
    other_operation: &str,
    caps: Vec<String>,
    r: bool,
    other: bool,
)
    requires
        call_ensures(Claims::<ActorMetadata>::caps, (c,), caps),
        call_ensures(can_invoke, (c, capid, operation), r),
        call_ensures(can_invoke, (c, capid, other_operation), other),
    ensures
        r <==> c.subject@ == capid@ || exists|i: int|
            0 <= i < caps@.len() && (#[trigger] caps@[i])@ == capid@,
        other == r,
{
    let list = texts(caps@);
    if list.contains(capid@) {
        let i = choose|i: int| 0 <= i < list.len() && list[i] == capid@;
        assert(caps@[i]@ == capid@);
    }
    if exists|i: int| 0 <= i < caps@.len() && (#[trigger] caps@[i])@ == capid@ {
        let i = choose|i: int| 0 <= i < caps@.len() && (#[trigger] caps@[i])@ == capid@;
        assert(list[i] == capid@);
    }
}

/// The default authorizer allows everything that it is asked for.
pub proof fn default_authorizer_allows(
    authorizer: &DefaultAuthorizer,
    c: &Claims<ActorMetadata>,
    target: &WasccEntity,
    operation: &str,
    load: bool,
    invoke: bool,
)
    requires
        call_ensures(DefaultAuthorizer::can_load, (authorizer, c), load),
        call_ensures(DefaultAuthorizer::can_invoke, (authorizer, c, target, operation), invoke),
    ensures
        load,
        invoke,
{
}

/// A module without a token is refused for that, and one with a token gives it as it is embedded.
pub proof fn tokens_are_extracted(buf: &[u8], r: Result<Token, Error>)
    requires
        call_ensures(extract_claims, (buf,), r),
    ensures
        embedded_token(buf@) == Some(None::<crate::claims::TokenView>) ==> r is Err && r->Err_0@
            == Failure::Authorization("No embedded JWT in actor module"@),
        embedded_token(buf@) is None ==> r is Err && r->Err_0@ == Failure::Wascap,
        embedded_token(buf@) is Some && embedded_token(buf@)->0 is Some ==> r is Ok && r->Ok_0@
            == embedded_token(buf@)->0->0,
{
}

/// A token passes exactly where it has not expired, can be used by now and has a valid
/// signature. The first of these that does not hold is what the error says.
pub proof fn validations_are_judged(v: &TokenValidation, r: Result<(), Error>)
    requires
        call_ensures(judge_validation, (v,), r),
    ensures
        r is Ok <==> !v.expired && !v.cannot_use_yet && v.signature_valid,
        v.expired ==> r->Err_0@ == Failure::Authorization("Expired token"@),
        !v.expired && v.cannot_use_yet ==> r->Err_0@ == Failure::Authorization(
            "Module cannot be used before "@ + v.not_before_human@,
        ),
        !v.expired && !v.cannot_use_yet && !v.signature_valid ==> r->Err_0@
            == Failure::Authorization("Invalid token signature"@),
{
}

/// Whatever the moment, a token passes only with a valid signature, and one with a valid
/// signature and without dates always passes. The two ways to ask agree on this.
pub proof fn tokens_are_enforced(
    jwt: &str,
    r: Result<(), Error>,
    tried: Option<Result<(), Error>>,
)
    requires
        call_ensures(enforce_validation, (jwt,), r),
        call_ensures(try_enforce_validation, (jwt,), tried),
    ensures
        r is Ok ==> actor_verdict(jwt@) == Some(true),
        tried is Some && tried->0 is Ok ==> actor_verdict(jwt@) == Some(true),
        actor_verdict(jwt@) == Some(true) && decoded_actor(jwt@)->0.expires is None
            && decoded_actor(jwt@)->0.not_before is None ==> r is Ok && (tried is Some
            ==> tried->0 is Ok),
        actor_verdict(jwt@) is None ==> r is Err && r->Err_0@ == Failure::Wascap,
{
    enforcement_is_bounded(jwt@, failure_of(r));
    if tried is Some {
        enforcement_is_bounded(jwt@, failure_of(tried->0));
    }
}

/// Claims that were recorded for an actor are held until they are forgotten, and those of other
/// actors are not touched.
pub proof fn claims_are_recorded(
    map: &mut ClaimsMap,
    later: &mut ClaimsMap,
    subject: &str,
    c: Claims<ActorMetadata>,
)
    requires
        call_ensures(register_claims, (map, subject, c), ()),
        call_ensures(unregister_claims, (later, subject), ()),
        *old(later) == *final(map),
    ensures
        final(map)@.contains_key(subject@) && final(map)@[subject@] == c,
        !final(later)@.contains_key(subject@),
        forall|k: Seq<char>|
            k != subject@ ==> (#[trigger] final(later)@.contains_key(k) <==> old(map)@.contains_key(
                k,
            )),
        forall|k: Seq<char>|
            k != subject@ && #[trigger] final(later)@.contains_key(k) ==> final(later)@[k]
                == old(map)@[k] && final(map)@[k] == old(map)@[k],
{
}

/// All claims are listed, each with the key that it stands under.
pub proof fn all_claims_are_listed(map: &ClaimsMap, r: Vec<(String, Claims<ActorMetadata>)>)
    requires
        call_ensures(get_all_claims, (map,), r),
    ensures
        forall|k: Seq<char>| #[trigger]
            map@.contains_key(k) ==> exists|i: int|
                0 <= i < r@.len() && (#[trigger] r@[i]).0@ == k && r@[i].1@ == map@[k]@,
        forall|i: int|
            0 <= i < r@.len() ==> map@.contains_key((#[trigger] r@[i]).0@) && r@[i].1@
                == map@[r@[i].0@]@,
{
    assert forall|k: Seq<char>| #[trigger] map@.contains_key(k) implies exists|i: int|
        0 <= i < r@.len() && (#[trigger] r@[i]).0@ == k && r@[i].1@ == map@[k]@ by {
        assert(map.keys().contains(k));
        let i = choose|i: int| 0 <= i < map.keys().len() && map.keys()[i] == k;
        assert(r@[i].0@ == k);
    }
    assert forall|i: int| 0 <= i < r@.len() implies map@.contains_key((#[trigger] r@[i]).0@)
        && r@[i].1@ == map@[r@[i].0@]@ by {
        assert(map.keys().contains(map.keys()[i]));
    }
}

/// An authorizer is asked about the claims of the token.
pub proof fn authorizers_are_asked_of_claims<A: Authorizer>(authorizer: &A, token: &Token, r: bool)
    requires
        call_ensures(check_auth::<A>, (authorizer, token), r),
    ensures
        call_ensures(A::can_load, (authorizer, &token.claims), r),
{
}

/// An actor is made of the bytes of its module and of the token in them, and says of itself what
/// the token does.
pub proof fn actors_are_what_their_token_says(
    buf: &[u8],
    r: Result<Actor, Error>,
    pk: String,
    name: String,
    issuer: String,
    caps: Vec<String>,
    tags: Vec<String>,
)
    requires
        call_ensures(Actor::from_slice, (buf,), r),
        r is Ok ==> call_ensures(Actor::public_key, (&r->Ok_0,), pk),
        r is Ok ==> call_ensures(Actor::name, (&r->Ok_0,), name),
        r is Ok ==> call_ensures(Actor::issuer, (&r->Ok_0,), issuer),
        r is Ok ==> call_ensures(Actor::capabilities, (&r->Ok_0,), caps),
        r is Ok ==> call_ensures(Actor::tags, (&r->Ok_0,), tags),
    ensures
        r is Ok <==> embedded_token(buf@) is Some && embedded_token(buf@)->0 is Some,
        r is Ok ==> r->Ok_0.spec_bytes() == buf@,
        r is Ok ==> ({
            let c = embedded_token(buf@)->0->0.claims;
            &&& c.metadata is Some
            &&& pk@ == c.subject
            &&& issuer@ == c.issuer
            &&& c.metadata->0.name is Some ==> name@ == c.metadata->0.name->0
            &&& c.metadata->0.name is None ==> name@ == "Unnamed"@
            &&& c.metadata->0.caps is Some ==> texts(caps@) == c.metadata->0.caps->0
            &&& c.metadata->0.caps is None ==> caps@.len() == 0
            &&& c.metadata->0.tags is Some ==> texts(tags@) == c.metadata->0.tags->0
            &&& c.metadata->0.tags is None ==> tags@.len() == 0
        }),
{
    assert(texts(caps@).len() == caps@.len());
    assert(texts(tags@).len() == tags@.len());
}

/// A token without two dots cannot be put to validation. One with two dots can where its claims
/// cannot be decoded, since it is refused for that.
pub proof fn undecodable_tokens_are_refused(
    head: Seq<char>,
    body: Seq<char>,
    tail: Seq<char>,
    jwt: &str,
    none: &Option<Claims<ActorMetadata>>,
    r: bool,
)
    requires
        !head.contains('.') && !body.contains('.'),
        *none is None,
        call_ensures(is_checkable::<ActorMetadata>, (jwt, none), r),
    ensures
        jwt@ == head ==> !r,
        jwt@ == head + seq!['.'] + body ==> !r,
        jwt@ == head + seq!['.'] + body + seq!['.'] + tail ==> r,
{
    lemma_parts(head, body, tail);
}

/// A token in three parts, whose signature is of the form that signatures have and whose issuer
/// is as long as keys are, can be put to validation where its dates, if it has any, are in a
/// calendar.
pub proof fn ordinary_tokens_can_be_validated(
    head: Seq<char>,
    body: Seq<char>,
    sig: Seq<char>,
    jwt: &str,
    claims: &Option<Claims<ActorMetadata>>,
    r: bool,
)
    requires
        !head.contains('.') && !body.contains('.') && !sig.contains('.'),
        jwt@ == head + seq!['.'] + body + seq!['.'] + sig,
        sig.len() == 86,
        sig[85] != '=',
        'A' <= sig[84] <= 'H',
        *claims is Some,
        (*claims)->0@.issuer.len() == 56,
        (*claims)->0@.expires is None || (*claims)->0@.expires->0 <= 8210266876799,
        (*claims)->0@.not_before is None || (*claims)->0@.not_before->0 <= 8210266876799,
        call_ensures(is_checkable::<ActorMetadata>, (jwt, claims), r),
    ensures
        r,
{
    lemma_parts(head, body, sig);
    lemma_no_dot(sig);
    assert(sig.last() == sig[85]);
}

proof fn lemma_no_dot(s: Seq<char>)
    requires
        !s.contains('.'),
    ensures
        before(s, '.') == s,
        after(s, '.') is None,
{
    assert forall|k: int| 0 <= k < s.len() implies s[k] != '.' by {
        assert(s.contains(s[k]));
    }
    lemma_split(s, '.', s.len() as int);
    assert(s.take(s.len() as int) =~= s);
}

proof fn lemma_dot(s: Seq<char>, t: Seq<char>)
    requires
        !s.contains('.'),
    ensures
        before(s + seq!['.'] + t, '.') == s,
        after(s + seq!['.'] + t, '.') == Some(t),
{
    let w = s + seq!['.'] + t;
    let n = s.len() as int;
    assert forall|k: int| 0 <= k < n implies w[k] != '.' by {
        assert(s.contains(s[k]));
    }
    lemma_split(w, '.', n);
    assert(w.take(n) =~= s);
    assert(w.skip(n + 1) =~= t);
}

proof fn lemma_parts(head: Seq<char>, body: Seq<char>, tail: Seq<char>)
    requires
        !head.contains('.') && !body.contains('.'),
    ensures
        signature_part(head) is None,
        signature_part(head + seq!['.'] + body) is None,
        signature_part(head + seq!['.'] + body + seq!['.'] + tail) == Some(before(tail, '.')),
{
    lemma_no_dot(head);
    lemma_no_dot(body);
    lemma_dot(head, body);
    lemma_dot(body, tail);
    lemma_dot(head, body + seq!['.'] + tail);
    assert(head + seq!['.'] + body + seq!['.'] + tail =~= head + seq!['.'] + (body + seq!['.']
        + tail));
}

/// An actor is the same whether it is made of bytes or of a slice of them.
pub proof fn actors_are_made_of_bytes(
    buf: Vec<u8>,
    slice: &[u8],
    r: Result<Actor, Error>,
    q: Result<Actor, Error>,
)
    requires
        slice@ == buf@,
        call_ensures(Actor::from_bytes, (buf,), r),
        call_ensures(Actor::from_slice, (slice,), q),
    ensures
        r is Ok <==> q is Ok,
        r is Ok ==> r->Ok_0.spec_bytes() == buf@ && r->Ok_0.spec_bytes() == q->Ok_0.spec_bytes()
            && r->Ok_0.spec_token() == q->Ok_0.spec_token(),
        r is Err ==> r->Err_0@ == q->Err_0@,
{
}

/// A token in three parts can be put to validation where it is refused for its claims in any case:
/// they have no issuer or no subject.
pub proof fn tokens_without_names_can_be_validated(
    head: Seq<char>,
    body: Seq<char>,
    tail: Seq<char>,
    jwt: &str,
    claims: &Option<Claims<ActorMetadata>>,
    r: bool,
)
    requires
        !head.contains('.') && !body.contains('.'),
        jwt@ == head + seq!['.'] + body + seq!['.'] + tail,
        *claims is Some,
        (*claims)->0@.issuer.len() == 0 || (*claims)->0@.subject.len() == 0,
        call_ensures(is_checkable::<ActorMetadata>, (jwt, claims), r),
    ensures
        r,
{
    lemma_parts(head, body, tail);
}

} // verus!
