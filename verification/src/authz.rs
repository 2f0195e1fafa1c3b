//! Who may be loaded, and who may call whom.
use vstd::prelude::*;

use wascap::prelude::WascapError;

use crate::claims::{
    actor_validated, actor_validations_agree, actor_verdict, attested, checkable, decode_actor,
    decoded_actor, embedded_token, extract_token, is_checkable, validate_actor_now, ActorMetadata, ActorMetadataView, Claims, ClaimsView, Token,
    TokenValidation,
};
use crate::entity::WasccEntity;
use crate::errors::{self, Error, ErrorKind, Failure};
use crate::table::Table;
use crate::text::{list_contains, same};

verus! {

/// The claims of the actors in a host, by their public keys
pub type ClaimsMap = Table<String, Claims<ActorMetadata>>;

/// An authorizer is responsible for determining whether an actor can be loaded as well as
/// whether an actor can invoke another entity. For invocation checks, the authorizer is only ever invoked _after_
/// an initial capability attestation check has been performed and _passed_. This has the net effect of making it
/// impossible to override the base behavior of checking that an actor's embedded JWT contains the right
/// capability attestations.
pub trait Authorizer {
    /// This check is performed during the `add_actor` call, allowing the custom authorizer to do things
    /// like verify a provenance chain, make external calls, etc.
    fn can_load(&self, claims: &Claims<ActorMetadata>) -> bool;

    /// This check will be performed for _every_ invocation that has passed the base capability check,
    /// including the operation that occurs when a binding is set.
    fn can_invoke(
        &self,
        claims: &Claims<ActorMetadata>,
        target: &WasccEntity,
        operation: &str,
    ) -> bool;
}

/// The authorizer that adds nothing to the check of the attestations
pub struct DefaultAuthorizer {}

impl DefaultAuthorizer {
    pub fn new() -> DefaultAuthorizer {
        DefaultAuthorizer {  }
    }
}

impl Authorizer for DefaultAuthorizer {
    fn can_load(&self, _claims: &Claims<ActorMetadata>) -> (r: bool)
        ensures
            r,
    {
        true
    }

    // This doesn't actually mean everyone can invoke everything. Remember that the host itself
    // will _always_ enforce the claims check on an actor having the required capability
    // attestation
    fn can_invoke(
        &self,
        _claims: &Claims<ActorMetadata>,
        target: &WasccEntity,
        _operation: &str,
    ) -> (r: bool)
        ensures
            r,
    {
        match target {
            WasccEntity::Actor(_) => true,
            WasccEntity::Capability { .. } => true,
        }
    }
}

/// The error that a result stands for, if any.
pub open spec fn failure_of<T>(r: Result<T, Error>) -> Option<Failure> {
    match r {
        Ok(_) => None,
        Err(e) => Some(e@),
    }
}

/// Whether the claims attest a capability. An actor may always address itself.
pub open spec fn may_invoke(c: ClaimsView<ActorMetadataView>, capid: Seq<char>) -> bool {
    c.subject == capid || attested(c).contains(capid)
}

/// The list of all claims, each with the public key that it belongs to.
pub fn get_all_claims(map: &ClaimsMap) -> (r: Vec<(String, Claims<ActorMetadata>)>)
    ensures
        r@.len() == map.keys().len(),
        map.listed(),
        forall|i: int|
            0 <= i < r@.len() ==> (#[trigger] r@[i]).0@ == map.keys()[i] && r@[i].1@
                == map@[map.keys()[i]]@,
{
    let mut out: Vec<(String, Claims<ActorMetadata>)> = Vec::new();
    let n: usize = map.len();
    let mut i: usize = 0;
    while i < n
        invariant
            i <= n,
            n == map.keys().len(),
            out@.len() == i,
            forall|j: int|
                0 <= j < i ==> (#[trigger] out@[j]).0@ == map.keys()[j] && out@[j].1@
                    == map@[map.keys()[j]]@,
        decreases n - i,
    {
        out.push((map.key_at(i).clone(), map.value_at(i).copy()));
        i += 1;
    }
    out
}

// We don't (yet) support per-operation security constraints, but when we do, this
// function will be ready to support that without breaking everyone else's calls
/// Whether the claims let an actor use a capability.
pub fn can_invoke(
    claims: &Claims<ActorMetadata>,
    capability_id: &str,
    _operation: &str,
) -> (r: bool)
    requires
        claims@.subject == capability_id@ || claims@.metadata is Some,
    ensures
        r == may_invoke(claims@, capability_id@),
{
    // Edge case - deliver configuration to an actor directly,
    // so "self invocation" needs to be authorized
    if same(claims.subject.as_str(), capability_id) {
        return true;
    }
    let caps = claims.caps();
    list_contains(&caps, capability_id)
}

/// What loading the bytes of a module leads to.
pub open spec fn extraction_failure(module: Seq<u8>) -> Option<Failure> {
    match embedded_token(module) {
        None => Some(Failure::Wascap),
        Some(None) => Some(Failure::Authorization("No embedded JWT in actor module"@)),
        Some(Some(_)) => None,
    }
}

/// Extract claims from the JWT embedded in the wasm module's custom section
pub fn extract_claims(buf: &[u8]) -> (r: Result<Token, Error>)
    ensures
        failure_of(r) == extraction_failure(buf@),
        r is Ok ==> Some(Some(r->Ok_0@)) == embedded_token(buf@),
        r is Ok ==> r->Ok_0@.claims.metadata is Some,
        r is Ok ==> decoded_actor(r->Ok_0@.jwt) == Some(r->Ok_0@.claims),
{
    match extract_token(buf) {
        Err(e) => Err(errors::new(ErrorKind::Wascap(e))),
        Ok(token) => match token {
            Some(token) => Ok(token),
            None => Err(
                errors::new(
                    ErrorKind::Authorization("No embedded JWT in actor module".to_string()),
                ),
            ),
        },
    }
}

/// What a validation of an actor's token leads to.
pub open spec fn validation_failure(
    expired: bool,
    cannot_use_yet: bool,
    not_before_human: Seq<char>,
    signature_valid: bool,
) -> Option<Failure> {
    if expired {
        Some(Failure::Authorization("Expired token"@))
    } else if cannot_use_yet {
        Some(Failure::Authorization("Module cannot be used before "@ + not_before_human))
    } else if !signature_valid {
        Some(Failure::Authorization("Invalid token signature"@))
    } else {
        None
    }
}

/// Decides on a token by the result of its validation.
pub fn judge_validation(v: &TokenValidation) -> (r: Result<(), Error>)
    ensures
        failure_of(r) == validation_failure(
            v.expired,
            v.cannot_use_yet,
            v.not_before_human@,
            v.signature_valid,
        ),
{
    if v.expired {
        Err(errors::new(ErrorKind::Authorization("Expired token".to_string())))
    } else if v.cannot_use_yet {
        Err(
            errors::new(
                ErrorKind::Authorization(
                    "Module cannot be used before ".to_string().concat(v.not_before_human.as_str()),
                ),
            ),
        )
    } else if !v.signature_valid {
        Err(errors::new(ErrorKind::Authorization("Invalid token signature".to_string())))
    } else {
        Ok(())
    }
}

/// What the result of validating an actor's token leads to.
pub open spec fn enforced(o: Result<TokenValidation, WascapError>) -> Option<Failure> {
    match o {
        Ok(v) => validation_failure(
            v.expired,
            v.cannot_use_yet,
            v.not_before_human@,
            v.signature_valid,
        ),
        Err(_) => Some(Failure::Wascap),
    }
}

/// What enforcing the validation of a token leads to, by what the validation has given.
pub open spec fn enforcement_outcome(jwt: Seq<char>, failure: Option<Failure>) -> bool {
    exists|o: Result<TokenValidation, WascapError>| #[trigger]
        actor_validated(jwt, o) && failure == enforced(o)
}

/// Whatever the moment is, enforcing the validation of a token fails on a token that is
/// refused for its form, and otherwise minds only the dates that the token has.
pub proof fn enforcement_is_bounded(jwt: Seq<char>, failure: Option<Failure>)
    requires
        enforcement_outcome(jwt, failure),
    ensures
        actor_verdict(jwt) is None ==> failure == Some(Failure::Wascap),
        actor_verdict(jwt) matches Some(valid) ==> decoded_actor(jwt) is Some && exists|
            expired: bool,
            early: bool,
            human: Seq<char>,
        |
            {
                &&& decoded_actor(jwt)->0.expires is None ==> !expired
                &&& decoded_actor(jwt)->0.not_before is None ==> !early
                &&& failure == #[trigger] validation_failure(expired, early, human, valid)
            },
{
    let o = choose|o: Result<TokenValidation, WascapError>| #[trigger]
        actor_validated(jwt, o) && failure == enforced(o);
    actor_validations_agree(jwt, o);
    if let Ok(v) = o {
        assert(failure == validation_failure(
            v.expired,
            v.cannot_use_yet,
            v.not_before_human@,
            v.signature_valid,
        ));
    }
}

/// Fails unless the token is well-formed, signed by its issuer, and can be used at this
/// moment.
pub fn enforce_validation(jwt: &str) -> (r: Result<(), Error>)
    requires
        checkable(jwt@, decoded_actor(jwt@)),
    ensures
        enforcement_outcome(jwt@, failure_of(r)),
{
    let o = validate_actor_now(jwt);
    let ghost given = o;
    assert(actor_validated(jwt@, given));
    match o {
        Err(e) => Err(errors::new(ErrorKind::Wascap(e))),
        Ok(v) => judge_validation(&v),
    }
}

/// Enforces the validation of a token that may be of any form; of a token that
/// cannot be put to validation it says nothing.
pub fn try_enforce_validation(jwt: &str) -> (r: Option<Result<(), Error>>)
    ensures
        r is Some == checkable(jwt@, decoded_actor(jwt@)),
        r is Some ==> enforcement_outcome(jwt@, failure_of(r->0)),
{
    let claims = match decode_actor(jwt) {
        Ok(c) => Some(c),
        Err(_) => None,
    };
    if is_checkable(jwt, &claims) {
        Some(enforce_validation(jwt))
    } else {
        None
    }
}

/// Records the claims of an actor.
pub fn register_claims(map: &mut ClaimsMap, subject: &str, claims: Claims<ActorMetadata>)
    ensures
        final(map)@ == old(map)@.insert(subject@, claims),
{
    map.insert(subject.to_string(), claims);
}

/// Forgets the claims of an actor.
pub fn unregister_claims(map: &mut ClaimsMap, subject: &str)
    ensures
        final(map)@ == old(map)@.remove(subject@),
{
    let _ = map.remove(&subject.to_string());
}

/// Asks an authorizer whether an actor with the given token may be loaded.
pub fn check_auth<A: Authorizer>(authorizer: &A, token: &Token) -> (r: bool)
    ensures
        call_ensures(A::can_load, (authorizer, &token.claims), r),
{
    authorizer.can_load(&token.claims)
}

/// No token passes unless its signature is that of its issuer.
pub proof fn improperly_signed_tokens_fail(jwt: Seq<char>, failure: Option<Failure>)
    requires
        enforcement_outcome(jwt, failure),
        actor_verdict(jwt) != Some(true),
    ensures
        failure is Some,
{
    enforcement_is_bounded(jwt, failure);
}

/// A token without dates is never refused because of the time.
pub proof fn undated_tokens_always_pass(jwt: Seq<char>, failure: Option<Failure>)
    requires
        enforcement_outcome(jwt, failure),
        decoded_actor(jwt) is Some,
        actor_verdict(jwt) == Some(true),
        decoded_actor(jwt)->0.expires is None,
        decoded_actor(jwt)->0.not_before is None,
    ensures
        failure is None,
{
    enforcement_is_bounded(jwt, failure);
}

} // verus!
