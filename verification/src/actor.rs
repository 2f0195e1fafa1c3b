//! Actors: signed WebAssembly modules.
use vstd::prelude::*;

use crate::authz::{extract_claims, extraction_failure, failure_of};
use crate::claims::{
    attested, decoded_actor, embedded_token, tagged, ActorMetadataView, ClaimsView, Token,
    TokenView,
};
use crate::errors::Error;
use crate::inthost::copy_bytes;
use crate::text::texts;

verus! {

/// An actor is a WebAssembly module that conforms to the waSCC protocols and can securely
/// consume capabilities exposed by native or portable capability providers
#[derive(Debug)]
pub struct Actor {
    token: Token,
    bytes: Vec<u8>,
}

/// The name that is shown for an actor.
pub open spec fn display_name(c: ClaimsView<ActorMetadataView>) -> Seq<char> {
    match c.metadata->0.name {
        Some(n) => n,
        None => "Unnamed"@,
    }
}

impl Actor {
    /// The token of the actor.
    pub closed spec fn spec_token(self) -> TokenView {
        self.token@
    }

    /// The claims of the actor.
    pub open spec fn spec_claims(self) -> ClaimsView<ActorMetadataView> {
        self.spec_token().claims
    }

    /// The bytes of the module.
    pub closed spec fn spec_bytes(self) -> Seq<u8> {
        self.bytes@
    }

    #[verifier::type_invariant]
    spec fn signed(self) -> bool {
        &&& self.token@.claims.metadata is Some
        &&& decoded_actor(self.token@.jwt) == Some(self.token@.claims)
    }

    /// Create an actor from the bytes of a signed WebAssembly module. An unsigned module, or
    /// one whose token is not for its bytes, will result in an error. A module whose token
    /// its issuer has not signed is refused when it is loaded into a host
    pub fn from_bytes(buf: Vec<u8>) -> (r: Result<Actor, Error>)
        ensures
            failure_of(r) == extraction_failure(buf@),
            r is Ok ==> Some(Some(r->Ok_0.spec_token())) == embedded_token(buf@),
            r is Ok ==> r->Ok_0.spec_bytes() == buf@,
            r is Ok ==> r->Ok_0.spec_claims().metadata is Some,
    {
        match extract_claims(buf.as_slice()) {
            Ok(token) => Ok(Actor { token, bytes: buf }),
            Err(e) => Err(e),
        }
    }

    /// Create an actor from a slice with the bytes of a signed WebAssembly module.
    pub fn from_slice(buf: &[u8]) -> (r: Result<Actor, Error>)
        ensures
            failure_of(r) == extraction_failure(buf@),
            r is Ok ==> Some(Some(r->Ok_0.spec_token())) == embedded_token(buf@),
            r is Ok ==> r->Ok_0.spec_bytes() == buf@,
            r is Ok ==> r->Ok_0.spec_claims().metadata is Some,
    {
        Self::from_bytes(copy_bytes(buf))
    }

    /// Obtain the actor's public key (The `sub` field of a JWT). This can be treated as a globally unique identifier
    pub fn public_key(&self) -> (r: String)
        ensures
            r@ == self.spec_claims().subject,
    {
        self.token.claims.subject.clone()
    }

    /// The actor's human-friendly display name
    pub fn name(&self) -> (r: String)
        ensures
            r@ == display_name(self.spec_claims()),
    {
        proof {
            use_type_invariant(&*self);
        }
        match &self.token.claims.metadata {
            Some(m) => match &m.name {
                Some(n) => n.clone(),
                None => "Unnamed".to_string(),
            },
            None => "Unnamed".to_string(),
        }
    }

    /// Obtain the public key of the issuer of the actor's signed token (the `iss` field of the JWT)
    pub fn issuer(&self) -> (r: String)
        ensures
            r@ == self.spec_claims().issuer,
    {
        self.token.claims.issuer.clone()
    }

    /// Obtain the list of capabilities declared in this actor's embedded token
    pub fn capabilities(&self) -> (r: Vec<String>)
        ensures
            texts(r@) == attested(self.spec_claims()),
    {
        self.token.claims.caps()
    }

    /// Obtain the list of tags in the actor's token
    pub fn tags(&self) -> (r: Vec<String>)
        ensures
            texts(r@) == tagged(self.spec_claims()),
    {
        self.token.claims.tags()
    }

    /// The actor's token.
    pub fn token(&self) -> (r: &Token)
        ensures
            r@ == self.spec_token(),
            r@.claims.metadata is Some,
            decoded_actor(r@.jwt) == Some(r@.claims),
    {
        proof {
            use_type_invariant(&*self);
        }
        &self.token
    }

    /// The bytes of the module.
    pub fn bytes(&self) -> (r: &Vec<u8>)
        ensures
            r@ == self.spec_bytes(),
    {
        &self.bytes
    }
}

} // verus!
