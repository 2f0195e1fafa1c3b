//! Invocations, and the support functions of the host around them.
use vstd::prelude::*;
use vstd::utf8::encode_utf8;

use wascap::prelude::WascapError;

use crate::authz::failure_of;
use crate::claims::{
    checkable, decode_invocation, decoded_invocation, invocation_validated,
    invocation_validations_agree, invocation_verdict, is_checkable, recognised_key, signature_part,
    signature_shaped, validate_invocation_now, Claims, ClaimsView, HostKey, InvocationMetadata,
    InvocationMetadataView, TokenValidation,
};
use crate::entity::{url_of, EntityView, WasccEntity};
use crate::errors::{self, Error, ErrorKind, Failure};
use crate::random::{is_guid, new_guid};
use crate::text::same;

verus! {

/// An immutable representation of an invocation within waSCC
#[derive(Debug)]
pub struct Invocation {
    pub origin: WasccEntity,
    pub target: WasccEntity,
    pub operation: String,
    pub msg: Vec<u8>,
    pub id: String,
    pub encoded_claims: String,
    pub host_id: String,
}

#[verifier::ext_equal]
pub ghost struct InvocationView {
    pub origin: EntityView,
    pub target: EntityView,
    pub operation: Seq<char>,
    pub msg: Seq<u8>,
    pub id: Seq<char>,
    pub encoded_claims: Seq<char>,
    pub host_id: Seq<char>,
}

impl View for Invocation {
    type V = InvocationView;

    open spec fn view(&self) -> InvocationView {
        InvocationView {
            origin: self.origin@,
            target: self.target@,
            operation: self.operation@,
            msg: self.msg@,
            id: self.id@,
            encoded_claims: self.encoded_claims@,
            host_id: self.host_id@,
        }
    }
}

/// A second copy of some bytes.
pub fn copy_bytes(bytes: &[u8]) -> (r: Vec<u8>)
    ensures
        r@ == bytes@,
{
    let mut out: Vec<u8> = Vec::new();
    let mut i: usize = 0;
    while i < bytes.len()
        invariant
            i <= bytes@.len(),
            out@ == bytes@.take(i as int),
        decreases bytes@.len() - i,
    {
        out.push(bytes[i]);
        assert(bytes@.take(i as int).push(bytes@[i as int]) =~= bytes@.take(i + 1));
        i += 1;
    }
    assert(bytes@.take(bytes@.len() as int) =~= bytes@);
    out
}

impl Clone for Invocation {
    fn clone(&self) -> (r: Self)
        ensures
            r@ == self@,
    {
        Invocation {
            origin: self.origin.clone(),
            target: self.target.clone(),
            operation: self.operation.clone(),
            msg: copy_bytes(self.msg.as_slice()),
            id: self.id.clone(),
            encoded_claims: self.encoded_claims.clone(),
            host_id: self.host_id.clone(),
        }
    }
}

/// What `ring::digest::digest` computes of some bytes with the SHA-256 algorithm.
pub uninterp spec fn sha256(bytes: Seq<u8>) -> Seq<u8>;

/// `ring::digest::digest` with `SHA256`: the digest of the bytes, 32 bytes long.
#[verifier::external_body]
fn sha256_digest(bytes: &[u8]) -> (r: Vec<u8>)
    ensures
        r@ == sha256(bytes@),
        r@.len() == 32,
{
    ring::digest::digest(&ring::digest::SHA256, bytes).as_ref().to_vec()
}

/// An upper-case hexadecimal digit.
pub open spec fn hex_upper_digit(v: nat) -> char {
    if v < 10 {
        (('0' as u32) + v) as char
    } else {
        (('A' as u32) + v - 10) as char
    }
}

/// Bytes in hexadecimal notation, two digits for each.
pub open spec fn hex_upper(bytes: Seq<u8>) -> Seq<char> {
    Seq::new(
        2 * bytes.len(),
        |i: int|
            hex_upper_digit(
                if i % 2 == 0 {
                    (bytes[i / 2] / 16) as nat
                } else {
                    (bytes[i / 2] % 16) as nat
                },
            ),
    )
}

/// `data_encoding::HEXUPPER.encode`: bytes in upper-case hexadecimal notation.
#[verifier::external_body]
fn encode_hex_upper(bytes: &[u8]) -> (r: String)
    ensures
        r@ == hex_upper(bytes@),
{
    data_encoding::HEXUPPER.encode(bytes)
}

/// The hash of an invocation: over the origin, the target and the payload.
pub open spec fn invocation_hash_of(
    target_url: Seq<char>,
    origin_url: Seq<char>,
    msg: Seq<u8>,
) -> Seq<char> {
    hex_upper(sha256(encode_utf8(origin_url) + encode_utf8(target_url) + msg))
}

/// The hash of an invocation: over the origin, the target and the payload.
pub fn invocation_hash(target_url: &str, origin_url: &str, msg: &[u8]) -> (r: String)
    ensures
        r@ == invocation_hash_of(target_url@, origin_url@, msg@),
{
    let mut cleanbytes: Vec<u8> = copy_bytes(origin_url.as_bytes());
    let mut target: Vec<u8> = copy_bytes(target_url.as_bytes());
    let mut tail: Vec<u8> = copy_bytes(msg);
    cleanbytes.append(&mut target);
    cleanbytes.append(&mut tail);
    let digest = sha256_digest(cleanbytes.as_slice());
    encode_hex_upper(digest.as_slice())
}

/// The URL of what an invocation addresses.
pub open spec fn target_url_of(v: InvocationView) -> Seq<char> {
    url_of(v.target) + "/"@ + v.operation
}

/// The URL of where an invocation comes from.
pub open spec fn origin_url_of(v: InvocationView) -> Seq<char> {
    url_of(v.origin)
}

/// The hash of an invocation.
pub open spec fn hash_of(v: InvocationView) -> Seq<char> {
    invocation_hash_of(target_url_of(v), origin_url_of(v), v.msg)
}

/// What the claims in an invocation's token say of it.
pub open spec fn metadata_of(v: InvocationView) -> InvocationMetadataView {
    InvocationMetadataView {
        target_url: target_url_of(v),
        origin_url: origin_url_of(v),
        invocation_hash: hash_of(v),
    }
}

/// An invocation as a host issues it: with a new identifier, and with a token,
/// signed by the host, that repeats what the invocation says.
pub open spec fn issued(v: InvocationView, host: Seq<char>) -> bool {
    &&& v.host_id == host
    &&& host.len() == 56
    &&& is_guid(v.id)
    &&& decoded_invocation(v.encoded_claims) matches Some(c) && {
        &&& c.expires is None
        &&& c.not_before is None
        &&& c.issuer == host
        &&& c.subject == v.id
        &&& c.metadata == Some(metadata_of(v))
    }
    &&& signature_part(v.encoded_claims) is Some
    &&& signature_shaped(signature_part(v.encoded_claims)->0)
    &&& invocation_verdict(v.encoded_claims) == (if recognised_key(host) {
        Some(true)
    } else {
        None
    })
}

/// Decides on an invocation by the claims in its token and by the result of
/// validating it: nothing where the invocation is sound, else the error.
pub open spec fn judged(
    v: InvocationView,
    expired: bool,
    signature_valid: bool,
    cannot_use_yet: bool,
    c: ClaimsView<InvocationMetadataView>,
) -> Option<Failure> {
    if expired {
        Some(Failure::Authorization("Invocation claims token expired"@))
    } else if !signature_valid {
        Some(Failure::Authorization("Invocation claims signature invalid"@))
    } else if cannot_use_yet {
        Some(Failure::Authorization("Attempt to use invocation before claims token allows"@))
    } else if c.metadata->0.invocation_hash != hash_of(v) {
        Some(Failure::Authorization("Invocation hash does not match signed claims hash"@))
    } else if c.subject != v.id {
        Some(
            Failure::Authorization(
                "Subject of invocation claims token does not match invocation ID"@,
            ),
        )
    } else if c.issuer != v.host_id {
        Some(Failure::Authorization("Invocation claims issuer does not match invocation host"@))
    } else if c.metadata->0.target_url != target_url_of(v) {
        Some(Failure::Authorization("Invocation claims and invocation target URL do not match"@))
    } else if c.metadata->0.origin_url != origin_url_of(v) {
        Some(Failure::Authorization("Invocation claims and invocation origin URL do not match"@))
    } else {
        None
    }
}

/// What the result of validating an invocation's token leads to.
pub open spec fn checked(v: InvocationView, o: Result<TokenValidation, WascapError>) -> Option<
    Failure,
> {
    match (decoded_invocation(v.encoded_claims), o) {
        (Some(c), Ok(vr)) => judged(v, vr.expired, vr.signature_valid, vr.cannot_use_yet, c),
        _ => Some(Failure::Wascap),
    }
}

/// What the check of an invocation leads to, by what validating its token has given.
pub open spec fn antiforgery_outcome(v: InvocationView, failure: Option<Failure>) -> bool {
    exists|o: Result<TokenValidation, WascapError>| #[trigger]
        invocation_validated(v.encoded_claims, o) && failure == checked(v, o)
}

/// A token that has passed validation, and holds no metadata to hold an invocation against.
pub open spec fn unjudgeable(v: InvocationView, o: Result<TokenValidation, WascapError>) -> bool {
    &&& o matches Ok(vr) && !vr.expired && vr.signature_valid && !vr.cannot_use_yet
    &&& decoded_invocation(v.encoded_claims) matches Some(c) && c.metadata is None
}

/// Whatever the moment is, the check of an invocation fails where its token is refused for
/// its form, and otherwise minds only the dates that the token has.
pub proof fn checks_are_bounded(v: InvocationView, failure: Option<Failure>)
    requires
        antiforgery_outcome(v, failure),
    ensures
        invocation_verdict(v.encoded_claims) is None ==> failure == Some(Failure::Wascap),
        invocation_verdict(v.encoded_claims) matches Some(valid) ==> decoded_invocation(
            v.encoded_claims,
        ) is Some && exists|expired: bool, early: bool|
            {
                &&& decoded_invocation(v.encoded_claims)->0.expires is None ==> !expired
                &&& decoded_invocation(v.encoded_claims)->0.not_before is None ==> !early
                &&& failure == #[trigger] judged(
                    v,
                    expired,
                    valid,
                    early,
                    decoded_invocation(v.encoded_claims)->0,
                )
            },
{
    let o = choose|o: Result<TokenValidation, WascapError>| #[trigger]
        invocation_validated(v.encoded_claims, o) && failure == checked(v, o);
    invocation_validations_agree(v.encoded_claims, o);
    if let Ok(vr) = o {
        assert(failure == judged(
            v,
            vr.expired,
            vr.signature_valid,
            vr.cannot_use_yet,
            decoded_invocation(v.encoded_claims)->0,
        ));
    }
}

/// A token that an invocation can be checked by: it can be put to validation, and
/// one with a valid signature holds metadata.
pub open spec fn admissible(jwt: Seq<char>) -> bool {
    &&& checkable(jwt, decoded_invocation(jwt))
    &&& invocation_verdict(jwt) == Some(true) ==> decoded_invocation(jwt)->0.metadata is Some
}

fn refuse(reason: &str) -> (e: Error)
    ensures
        e@ == Failure::Authorization(reason@),
{
    errors::new(ErrorKind::Authorization(reason.to_string()))
}

impl Invocation {
    /// A new invocation, issued by the host with the given key.
    pub fn new(
        hostkey: &HostKey,
        origin: WasccEntity,
        target: WasccEntity,
        op: &str,
        msg: Vec<u8>,
    ) -> (r: Invocation)
        ensures
            r@.origin == origin@,
            r@.target == target@,
            r@.operation == op@,
            r@.msg == msg@,
            issued(r@, hostkey.spec_public()),
    {
        let subject = new_guid();
        let target_url = target.url().concat("/").concat(op);
        let origin_url = origin.url();
        let hash = invocation_hash(target_url.as_str(), origin_url.as_str(), msg.as_slice());
        let claims = InvocationMetadata { target_url, origin_url, invocation_hash: hash };
        let encoded_claims = hostkey.sign(subject.as_str(), &claims);
        Invocation {
            origin,
            target,
            operation: op.to_string(),
            msg,
            id: subject,
            encoded_claims,
            host_id: hostkey.public_key(),
        }
    }

    pub fn origin_url(&self) -> (r: String)
        ensures
            r@ == origin_url_of(self@),
    {
        self.origin.url()
    }

    pub fn target_url(&self) -> (r: String)
        ensures
            r@ == target_url_of(self@),
    {
        self.target.url().concat("/").concat(self.operation.as_str())
    }

    pub fn hash(&self) -> (r: String)
        ensures
            r@ == hash_of(self@),
    {
        invocation_hash(
            self.target_url().as_str(),
            self.origin_url().as_str(),
            self.msg.as_slice(),
        )
    }

    /// Decides on the invocation by the claims in its token and by the result of
    /// validating the token.
    pub fn judge(
        &self,
        vr: &TokenValidation,
        claims: &Claims<InvocationMetadata>,
    ) -> (r: Result<(), Error>)
        requires
            !vr.expired && vr.signature_valid && !vr.cannot_use_yet ==> claims@.metadata is Some,
        ensures
            failure_of(r) == judged(
                self@,
                vr.expired,
                vr.signature_valid,
                vr.cannot_use_yet,
                claims@,
            ),
    {
        if vr.expired {
            return Err(refuse("Invocation claims token expired"));
        }
        if !vr.signature_valid {
            return Err(refuse("Invocation claims signature invalid"));
        }
        if vr.cannot_use_yet {
            return Err(refuse("Attempt to use invocation before claims token allows"));
        }
        match &claims.metadata {
            Some(inv_claims) => {
                if !same(inv_claims.invocation_hash.as_str(), self.hash().as_str()) {
                    return Err(refuse("Invocation hash does not match signed claims hash"));
                }
                if !same(claims.subject.as_str(), self.id.as_str()) {
                    return Err(
                        refuse("Subject of invocation claims token does not match invocation ID"),
                    );
                }
                if !same(claims.issuer.as_str(), self.host_id.as_str()) {
                    return Err(refuse("Invocation claims issuer does not match invocation host"));
                }
                if !same(inv_claims.target_url.as_str(), self.target_url().as_str()) {
                    return Err(refuse("Invocation claims and invocation target URL do not match"));
                }
                if !same(inv_claims.origin_url.as_str(), self.origin_url().as_str()) {
                    return Err(refuse("Invocation claims and invocation origin URL do not match"));
                }
                Ok(())
            },
            None => Err(refuse("Invocation claims hold no metadata")),
        }
    }

    /// Checks an invocation whose token may be of any form. It says nothing of one
    /// whose token cannot be put to validation, or that passes validation and
    /// holds no metadata.
    pub fn try_validate_antiforgery(&self) -> (r: Option<Result<(), Error>>)
        ensures
            r is Some ==> exists|o: Result<TokenValidation, WascapError>| #[trigger]
                invocation_validated(self@.encoded_claims, o) && !unjudgeable(self@, o)
                    && failure_of(r->0) == checked(self@, o),
            r is Some ==> checkable(
                self@.encoded_claims,
                decoded_invocation(self@.encoded_claims),
            ),
            r is None && checkable(self@.encoded_claims, decoded_invocation(self@.encoded_claims))
                ==> exists|o: Result<TokenValidation, WascapError>| #[trigger]
                invocation_validated(self@.encoded_claims, o) && unjudgeable(self@, o),
            admissible(self@.encoded_claims) ==> r is Some,
            r is Some && r->0 is Ok ==> admissible(self@.encoded_claims),
    {
        let jwt = self.encoded_claims.as_str();
        match decode_invocation(jwt) {
            Err(e) => {
                let none: Option<Claims<InvocationMetadata>> = None;
                if !is_checkable(jwt, &none) {
                    return None;
                }
                let o = validate_invocation_now(jwt);
                let ghost given = o;
                assert(invocation_validated(self@.encoded_claims, given));
                match o {
                    Err(e) => Some(Err(errors::new(ErrorKind::Wascap(e)))),
                    Ok(_) => Some(Err(errors::new(ErrorKind::Wascap(e)))),
                }
            },
            Ok(claims) => {
                let some = Some(claims);
                if !is_checkable(jwt, &some) {
                    return None;
                }
                let o = validate_invocation_now(jwt);
                let ghost given = o;
                proof {
                    assert(invocation_validated(self@.encoded_claims, given));
                    invocation_validations_agree(self@.encoded_claims, given);
                }
                match (o, some) {
                    (Ok(vr), Some(claims)) => {
                        if !vr.expired && vr.signature_valid && !vr.cannot_use_yet
                            && claims.metadata.is_none() {
                            return None;
                        }
                        Some(self.judge(&vr, &claims))
                    },
                    (Err(e), _) => Some(Err(errors::new(ErrorKind::Wascap(e)))),
                    (Ok(_), None) => None,
                }
            },
        }
    }

    /// Checks that the invocation is the one that its token was signed for.
    pub fn validate_antiforgery(&self) -> (r: Result<(), Error>)
        requires
            admissible(self@.encoded_claims),
        ensures
            antiforgery_outcome(self@, failure_of(r)),
    {
        match self.try_validate_antiforgery() {
            Some(r) => r,
            None => Err(refuse("Invocation claims token cannot be checked")),
        }
    }
}

/// The token of an invocation that was just issued can be put to the check, and the
/// invocation passes it, where the host is recognised by its public key.
pub proof fn issued_invocations_pass(v: InvocationView, host: Seq<char>, failure: Option<Failure>)
    requires
        issued(v, host),
    ensures
        admissible(v.encoded_claims),
        recognised_key(host) && antiforgery_outcome(v, failure) ==> failure is None,
{
    if antiforgery_outcome(v, failure) {
        checks_are_bounded(v, failure);
    }
}

/// An issued invocation that is altered in its target, origin, identifier or host,
/// or in whatever changes its hash, never passes the check with the same token.
pub proof fn altered_invocations_fail(
    v: InvocationView,
    host: Seq<char>,
    altered: InvocationView,
    failure: Option<Failure>,
)
    requires
        issued(v, host),
        altered.encoded_claims == v.encoded_claims,
        antiforgery_outcome(altered, failure),
        hash_of(altered) != hash_of(v) || target_url_of(altered) != target_url_of(v)
            || origin_url_of(altered) != origin_url_of(v) || altered.id != v.id || altered.host_id
            != v.host_id,
    ensures
        failure is Some,
        recognised_key(host) ==> failure->0 is Authorization,
        recognised_key(host) && hash_of(altered) != hash_of(v) ==> failure == Some(
            Failure::Authorization("Invocation hash does not match signed claims hash"@),
        ),
{
    checks_are_bounded(altered, failure);
}

/// No invocation passes the check unless its token's signature is valid.
pub proof fn unsigned_invocations_fail(v: InvocationView, failure: Option<Failure>)
    requires
        antiforgery_outcome(v, failure),
        invocation_verdict(v.encoded_claims) != Some(true),
    ensures
        failure is Some,
{
    checks_are_bounded(v, failure);
}

/// The response to an invocation
#[derive(Debug)]
pub struct InvocationResponse {
    pub msg: Vec<u8>,
    pub error: Option<String>,
    pub invocation_id: String,
}

#[verifier::ext_equal]
pub ghost struct ResponseView {
    pub msg: Seq<u8>,
    pub error: Option<Seq<char>>,
    pub invocation_id: Seq<char>,
}

impl View for InvocationResponse {
    type V = ResponseView;

    open spec fn view(&self) -> ResponseView {
        ResponseView {
            msg: self.msg@,
            error: match self.error {
                Some(e) => Some(e@),
                None => None,
            },
            invocation_id: self.invocation_id@,
        }
    }
}

impl Clone for InvocationResponse {
    fn clone(&self) -> (r: Self)
        ensures
            r@ == self@,
    {
        InvocationResponse {
            msg: copy_bytes(self.msg.as_slice()),
            error: match &self.error {
                Some(e) => Some(e.clone()),
                None => None,
            },
            invocation_id: self.invocation_id.clone(),
        }
    }
}

/// The response that reports an error.
pub open spec fn error_response(inv: InvocationView, err: Seq<char>) -> ResponseView {
    ResponseView { msg: Seq::empty(), error: Some(err), invocation_id: inv.id }
}

/// The response that reports success.
pub open spec fn success_response(inv: InvocationView, msg: Seq<u8>) -> ResponseView {
    ResponseView { msg, error: None, invocation_id: inv.id }
}

impl InvocationResponse {
    pub fn success(inv: &Invocation, msg: Vec<u8>) -> (r: InvocationResponse)
        ensures
            r@ == success_response(inv@, msg@),
    {
        InvocationResponse { msg, error: None, invocation_id: inv.id.clone() }
    }

    pub fn error(inv: &Invocation, err: &str) -> (r: InvocationResponse)
        ensures
            r@ == error_response(inv@, err@),
    {
        InvocationResponse {
            msg: Vec::new(),
            error: Some(err.to_string()),
            invocation_id: inv.id.clone(),
        }
    }
}

} // verus!
