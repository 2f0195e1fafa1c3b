//! Tokens, the claims in them, and the keys that sign them.
use vstd::prelude::*;

use std::sync::Arc;

use wascap::prelude::WascapError;

use crate::text::{after, before, chars_of, copy_list, split_once, texts};

verus! {

/// The metadata that corresponds to an actor module
#[derive(Debug)]
pub struct ActorMetadata {
    /// A descriptive name for this actor
    pub name: Option<String>,
    /// A hash of the module's bytes as they are without the embedded token
    pub module_hash: String,
    /// Arbitrary tags
    pub tags: Option<Vec<String>>,
    /// Capability attestations
    pub caps: Option<Vec<String>>,
    /// A revision number
    pub rev: Option<i32>,
    /// A human-friendly version
    pub ver: Option<String>,
    /// Whether this module is a capability provider
    pub provider: bool,
}

/// The metadata that corresponds to an invocation
#[derive(Debug)]
pub struct InvocationMetadata {
    pub target_url: String,
    pub origin_url: String,
    pub invocation_hash: String,
}

/// A set of claims, as they stand in a JSON Web Token
#[derive(Debug)]
pub struct Claims<T> {
    /// When the token expires, in seconds since the epoch
    pub expires: Option<u64>,
    pub id: String,
    /// When the token was issued, in seconds since the epoch
    pub issued_at: u64,
    /// The public key of the account that signed the token
    pub issuer: String,
    /// The public key of the module that the token is about
    pub subject: String,
    /// When the token becomes valid, in seconds since the epoch
    pub not_before: Option<u64>,
    pub metadata: Option<T>,
}

/// A token and the claims decoded from it
#[derive(Debug)]
pub struct Token {
    pub jwt: String,
    pub claims: Claims<ActorMetadata>,
}

/// The result of validating a token
#[derive(Debug)]
pub struct TokenValidation {
    /// Whether the token has expired by the system clock
    pub expired: bool,
    /// Whether the token is not yet valid by the system clock
    pub cannot_use_yet: bool,
    pub expires_human: String,
    pub not_before_human: String,
    /// Whether the signature is that of the issuer
    pub signature_valid: bool,
}

#[verifier::ext_equal]
pub ghost struct ActorMetadataView {
    pub name: Option<Seq<char>>,
    pub module_hash: Seq<char>,
    pub tags: Option<Seq<Seq<char>>>,
    pub caps: Option<Seq<Seq<char>>>,
    pub rev: Option<i32>,
    pub ver: Option<Seq<char>>,
    pub provider: bool,
}

#[verifier::ext_equal]
pub ghost struct InvocationMetadataView {
    pub target_url: Seq<char>,
    pub origin_url: Seq<char>,
    pub invocation_hash: Seq<char>,
}

#[verifier::ext_equal]
pub ghost struct ClaimsView<W> {
    pub expires: Option<u64>,
    pub id: Seq<char>,
    pub issued_at: u64,
    pub issuer: Seq<char>,
    pub subject: Seq<char>,
    pub not_before: Option<u64>,
    pub metadata: Option<W>,
}

#[verifier::ext_equal]
pub ghost struct TokenView {
    pub jwt: Seq<char>,
    pub claims: ClaimsView<ActorMetadataView>,
}

/// The view of an optional text.
pub open spec fn text_view(o: Option<String>) -> Option<Seq<char>> {
    match o {
        Some(s) => Some(s@),
        None => None,
    }
}

/// The view of an optional list of texts.
pub open spec fn list_view(o: Option<Vec<String>>) -> Option<Seq<Seq<char>>> {
    match o {
        Some(v) => Some(texts(v@)),
        None => None,
    }
}

impl View for ActorMetadata {
    type V = ActorMetadataView;

    open spec fn view(&self) -> ActorMetadataView {
        ActorMetadataView {
            name: text_view(self.name),
            module_hash: self.module_hash@,
            tags: list_view(self.tags),
            caps: list_view(self.caps),
            rev: self.rev,
            ver: text_view(self.ver),
            provider: self.provider,
        }
    }
}

impl View for InvocationMetadata {
    type V = InvocationMetadataView;

    open spec fn view(&self) -> InvocationMetadataView {
        InvocationMetadataView {
            target_url: self.target_url@,
            origin_url: self.origin_url@,
            invocation_hash: self.invocation_hash@,
        }
    }
}

impl<T: View> View for Claims<T> {
    type V = ClaimsView<T::V>;

    open spec fn view(&self) -> ClaimsView<T::V> {
        ClaimsView {
            expires: self.expires,
            id: self.id@,
            issued_at: self.issued_at,
            issuer: self.issuer@,
            subject: self.subject@,
            not_before: self.not_before,
            metadata: match self.metadata {
                Some(m) => Some(m@),
                None => None,
            },
        }
    }
}

impl View for Token {
    type V = TokenView;

    open spec fn view(&self) -> TokenView {
        TokenView { jwt: self.jwt@, claims: self.claims@ }
    }
}

pub fn copy_text(o: &Option<String>) -> (r: Option<String>)
    ensures
        text_view(r) == text_view(*o),
{
    match o {
        Some(s) => Some(s.clone()),
        None => None,
    }
}

fn copy_texts(o: &Option<Vec<String>>) -> (r: Option<Vec<String>>)
    ensures
        list_view(r) == list_view(*o),
{
    match o {
        Some(v) => Some(copy_list(v)),
        None => None,
    }
}

impl ActorMetadata {
    /// A second copy of the metadata.
    pub fn copy(&self) -> (r: ActorMetadata)
        ensures
            r@ == self@,
    {
        ActorMetadata {
            name: copy_text(&self.name),
            module_hash: self.module_hash.clone(),
            tags: copy_texts(&self.tags),
            caps: copy_texts(&self.caps),
            rev: self.rev,
            ver: copy_text(&self.ver),
            provider: self.provider,
        }
    }
}

/// The capability attestations in a set of claims: none where the claims have
/// no such list.
pub open spec fn attested(c: ClaimsView<ActorMetadataView>) -> Seq<Seq<char>> {
    match c.metadata {
        Some(m) => match m.caps {
            Some(caps) => caps,
            None => Seq::empty(),
        },
        None => Seq::empty(),
    }
}

/// The tags in a set of claims: none where the claims have no such list.
pub open spec fn tagged(c: ClaimsView<ActorMetadataView>) -> Seq<Seq<char>> {
    match c.metadata {
        Some(m) => match m.tags {
            Some(tags) => tags,
            None => Seq::empty(),
        },
        None => Seq::empty(),
    }
}

/// The name in a set of claims.
pub open spec fn claimed_name(c: ClaimsView<ActorMetadataView>) -> Seq<char> {
    match c.metadata {
        Some(m) => match m.name {
            Some(n) => n,
            None => "Anonymous"@,
        },
        None => "Anonymous"@,
    }
}

impl Claims<ActorMetadata> {
    /// A second copy of the claims.
    pub fn copy(&self) -> (r: Claims<ActorMetadata>)
        ensures
            r@ == self@,
    {
        Claims {
            expires: self.expires,
            id: self.id.clone(),
            issued_at: self.issued_at,
            issuer: self.issuer.clone(),
            subject: self.subject.clone(),
            not_before: self.not_before,
            metadata: match &self.metadata {
                Some(m) => Some(m.copy()),
                None => None,
            },
        }
    }

    /// The capability attestations.
    pub fn caps(&self) -> (r: Vec<String>)
        ensures
            texts(r@) == attested(self@),
    {
        let none: Vec<String> = Vec::new();
        assert(texts(none@) =~= Seq::<Seq<char>>::empty());
        match &self.metadata {
            Some(m) => match &m.caps {
                Some(caps) => copy_list(caps),
                None => none,
            },
            None => none,
        }
    }

    /// The tags.
    pub fn tags(&self) -> (r: Vec<String>)
        ensures
            texts(r@) == tagged(self@),
    {
        let none: Vec<String> = Vec::new();
        assert(texts(none@) =~= Seq::<Seq<char>>::empty());
        match &self.metadata {
            Some(m) => match &m.tags {
                Some(tags) => copy_list(tags),
                None => none,
            },
            None => none,
        }
    }

    /// The name.
    pub fn name(&self) -> (r: String)
        ensures
            r@ == claimed_name(self@),
    {
        match &self.metadata {
            Some(m) => match &m.name {
                Some(n) => n.clone(),
                None => "Anonymous".to_string(),
            },
            None => "Anonymous".to_string(),
        }
    }
}

impl Token {
    /// A second copy of the token.
    pub fn copy(&self) -> (r: Token)
        ensures
            r@ == self@,
    {
        Token { jwt: self.jwt.clone(), claims: self.claims.copy() }
    }
}

/// The third of the parts between the dots of a token: its signature.
pub open spec fn signature_part(jwt: Seq<char>) -> Option<Seq<char>> {
    match after(jwt, '.') {
        None => None,
        Some(rest) => match after(rest, '.') {
            None => None,
            Some(last) => Some(before(last, '.')),
        },
    }
}

/// A time that a calendar date can be given for.
pub open spec fn has_date(stamp: Option<u64>) -> bool {
    stamp matches Some(s) ==> s <= 8210266876799 || s >= 18446735739108322816
}

/// `wascap::prelude::KeyPair`, a key pair of the nkeys crate.
#[verifier::external_type_specification]
#[verifier::external_body]
pub struct ExNkeysPair(wascap::prelude::KeyPair);

/// What `KeyPair::public_key` returns for a key pair that holds its seed: nothing
/// for one that has only a public key, and so cannot sign.
pub uninterp spec fn signer(pair: wascap::prelude::KeyPair) -> Option<Seq<char>>;

/// A character of the alphabet in which keys are written, by the bits that it stands for.
pub open spec fn key_value(c: char) -> nat {
    if 'A' <= c && c <= 'Z' {
        (c as nat - 'A' as nat) as nat
    } else {
        (26 + c as nat - '2' as nat) as nat
    }
}

/// A character of the alphabet in which keys are written.
pub open spec fn key_char(c: char) -> bool {
    ('A' <= c && c <= 'Z') || ('2' <= c && c <= '7')
}

/// A text in the alphabet of keys.
pub open spec fn key_text(s: Seq<char>) -> bool {
    forall|i: int| 0 <= i < s.len() ==> key_char(#[trigger] s[i])
}

/// A text that stands for fewer bytes than a key and its checksum have to have: none, one,
/// two or three. No bits are left over behind the last byte.
pub open spec fn cut_short(s: Seq<char>) -> bool {
    ||| s.len() == 0
    ||| key_text(s) && s.len() == 2 && key_value(s.last()) % 4 == 0
    ||| key_text(s) && s.len() == 4 && key_value(s.last()) % 16 == 0
    ||| key_text(s) && s.len() == 5 && key_value(s.last()) % 2 == 0
}

/// Whether `KeyPair::from_public_key` accepts a text. It refuses a few texts that
/// `public_key` writes: those whose checksum happens to equal the first two bytes
/// of the key.
pub uninterp spec fn recognised_key(public: Seq<char>) -> bool;

/// `wascap::prelude::KeyPair::from_public_key`: whether a text is accepted as a
/// public key. It reads past the end of what a text of a few characters stands for.
#[verifier::external_body]
fn recognise_key(public: &str) -> (r: bool)
    requires
        !cut_short(public@),
    ensures
        r == recognised_key(public@),
{
    wascap::prelude::KeyPair::from_public_key(public).is_ok()
}

/// A character of the alphabet in which tokens are written.
pub open spec fn token_char(c: char) -> bool {
    ('A' <= c && c <= 'Z') || ('a' <= c && c <= 'z') || ('0' <= c && c <= '9') || c == '-' || c
        == '_'
}

/// A character of the alphabet in which tokens are written, by the bits that it stands for.
pub open spec fn token_value(c: char) -> nat {
    if 'A' <= c && c <= 'Z' {
        (c as nat - 'A' as nat) as nat
    } else if 'a' <= c && c <= 'z' {
        (26 + c as nat - 'a' as nat) as nat
    } else if '0' <= c && c <= '9' {
        (52 + c as nat - '0' as nat) as nat
    } else if c == '-' {
        62
    } else {
        63
    }
}

/// A text in the alphabet of tokens.
pub open spec fn token_text(s: Seq<char>) -> bool {
    forall|i: int| 0 <= i < s.len() ==> token_char(#[trigger] s[i])
}

/// A text without the padding at its end.
pub open spec fn unpadded(s: Seq<char>) -> Seq<char>
    decreases s.len(),
{
    if s.len() > 0 && s.last() == '=' {
        unpadded(s.drop_last())
    } else {
        s
    }
}

/// A text that can be decoded: it is written in the alphabet of tokens, stands for whole
/// bytes with no bits left over, and has no more padding than fills it up to a multiple of
/// four characters.
pub open spec fn decodable(s: Seq<char>) -> bool {
    let body = unpadded(s);
    let over = body.len() % 4;
    &&& token_text(body)
    &&& over != 1
    &&& s.len() - body.len() <= (if over == 2 {
        2int
    } else if over == 3 {
        1
    } else {
        0
    })
    &&& over == 2 ==> token_value(body.last()) % 16 == 0
    &&& over == 3 ==> token_value(body.last()) % 4 == 0
}

/// A text that decodes, if at all, to the bytes of a signature whose three
/// highest bits are unset.
pub open spec fn signature_shaped(sig: Seq<char>) -> bool {
    let body = unpadded(sig);
    body.len() == 86 && 'A' <= body[84] && body[84] <= 'H'
}

/// Claims that are refused before a signature is compared: without an issuer or a
/// subject, or with an issuer that is not recognised as a key.
pub open spec fn refused_early<W>(c: ClaimsView<W>) -> bool {
    ||| c.issuer.len() == 0
    ||| c.subject.len() == 0
    ||| !cut_short(c.issuer) && !recognised_key(c.issuer)
}

/// Claims and a signature that the validation compares without fail.
pub open spec fn comparable<W>(sig: Seq<char>, c: ClaimsView<W>) -> bool {
    &&& signature_shaped(sig)
    &&& !cut_short(c.issuer)
    &&& has_date(c.expires)
    &&& has_date(c.not_before)
}

/// The first of the parts between the dots of a token: its header.
pub open spec fn header_part(jwt: Seq<char>) -> Seq<char> {
    before(jwt, '.')
}

/// Claims without dates, and a signature, to put behind a header. The signature is not that
/// of the issuer.
pub const BEHIND_HEADER: &'static str = ".eyJqdGkiOiIiLCJpYXQiOjAsImlzcyI6IkFDT0RFUlVWRkZBV1pRRFNTNlNCSUFDVUE1TzZTWEY3SEozWVRZWEJBTEhaUDNQN1I0QlVPNEoyIiwic3ViIjoiaGVhZGVyIn0.AAAAAAAAAAAAAAAAAAAAAAAAAAAAAAAAAAAAAAAAAAAAAAAAAAAAAAAAAAAAAAAAAAAAAAAAAAAAAAAAAAAAAA";

/// A header that the validation refuses: it refuses a token with that header whose
/// signature can be decoded and compared and whose claims it does not refuse.
pub open spec fn refused_header(header: Seq<char>) -> bool {
    let probe = header + BEHIND_HEADER@;
    &&& signature_part(probe) matches Some(sig) && decodable(sig) && {
        decoded_actor(probe) matches Some(c) && !refused_early(c) && comparable(sig, c)
    }
    &&& actor_verdict(probe) is None
}

/// A token that can be put to validation: it has a signature part, and unless it is refused
/// for the form of that part, for its header or for its claims, the signature, the issuer
/// and the dates are such that the signature can be compared.
pub open spec fn checkable<W>(jwt: Seq<char>, claims: Option<ClaimsView<W>>) -> bool {
    &&& signature_part(jwt) is Some
    &&& claims matches Some(c) ==> {
        ||| !decodable(signature_part(jwt)->0)
        ||| refused_early(c)
        ||| comparable(signature_part(jwt)->0, c)
        ||| refused_header(header_part(jwt))
    }
}

fn is_token_text(s: &Vec<char>, n: usize) -> (r: bool)
    requires
        n <= s@.len(),
    ensures
        r == token_text(s@.take(n as int)),
{
    let mut i: usize = 0;
    while i < n
        invariant
            i <= n <= s@.len(),
            token_text(s@.take(i as int)),
        decreases n - i,
    {
        let c = s[i];
        if !(('A' <= c && c <= 'Z') || ('a' <= c && c <= 'z') || ('0' <= c && c <= '9') || c == '-'
            || c == '_') {
            assert(!token_char(s@.take(n as int)[i as int]));
            return false;
        }
        assert forall|k: int| 0 <= k < i + 1 implies token_char(
            #[trigger] s@.take(i + 1)[k],
        ) by {
            if k < i {
                assert(s@.take(i as int)[k] == s@.take(i + 1)[k]);
            }
        }
        i += 1;
    }
    true
}

fn is_key_text(s: &Vec<char>) -> (r: bool)
    ensures
        r == key_text(s@),
{
    let mut i: usize = 0;
    while i < s.len()
        invariant
            i <= s@.len(),
            key_text(s@.take(i as int)),
        decreases s@.len() - i,
    {
        let c = s[i];
        if !(('A' <= c && c <= 'Z') || ('2' <= c && c <= '7')) {
            assert(!key_char(s@[i as int]));
            return false;
        }
        assert forall|k: int| 0 <= k < i + 1 implies key_char(
            #[trigger] s@.take(i + 1)[k],
        ) by {
            if k < i {
                assert(s@.take(i as int)[k] == s@.take(i + 1)[k]);
            }
        }
        i += 1;
    }
    assert(s@.take(i as int) =~= s@);
    true
}

fn is_cut_short(s: &str) -> (r: bool)
    ensures
        r == cut_short(s@),
{
    let v = chars_of(s);
    let n: usize = v.len();
    if n == 0 {
        return true;
    }
    if n > 5 || !is_key_text(&v) {
        return false;
    }
    let c = v[n - 1];
    assert(key_char(v@[n - 1]));
    let bits: u32 = if 'A' <= c && c <= 'Z' {
        c as u32 - 'A' as u32
    } else {
        26 + (c as u32 - '2' as u32)
    };
    assert(bits == key_value(c));
    (n == 2 && bits % 4 == 0) || (n == 4 && bits % 16 == 0) || (n == 5 && bits % 2 == 0)
}

/// How long a text is without the padding at its end.
fn unpadded_len(s: &Vec<char>) -> (n: usize)
    ensures
        n <= s@.len(),
        unpadded(s@) == s@.take(n as int),
{
    let mut n: usize = s.len();
    assert(s@.take(n as int) =~= s@);
    while n > 0 && s[n - 1] == '='
        invariant
            n <= s@.len(),
            unpadded(s@) == unpadded(s@.take(n as int)),
        decreases n,
    {
        assert(s@.take(n as int).drop_last() =~= s@.take(n - 1));
        assert(s@.take(n as int).last() == s@[n - 1]);
        n -= 1;
    }
    proof {
        if n > 0 {
            assert(s@.take(n as int).last() == s@[n - 1]);
        }
    }
    n
}

fn is_decodable(s: &Vec<char>) -> (r: bool)
    ensures
        r == decodable(s@),
{
    let n: usize = unpadded_len(s);
    if !is_token_text(s, n) {
        return false;
    }
    let over: usize = n % 4;
    let padding: usize = s.len() - n;
    if over == 0 {
        return padding == 0;
    }
    if over == 1 {
        return false;
    }
    let c = s[n - 1];
    assert(token_char(s@.take(n as int)[n - 1]));
    let bits: u32 = if 'A' <= c && c <= 'Z' {
        c as u32 - 'A' as u32
    } else if 'a' <= c && c <= 'z' {
        26 + (c as u32 - 'a' as u32)
    } else if '0' <= c && c <= '9' {
        52 + (c as u32 - '0' as u32)
    } else if c == '-' {
        62
    } else {
        63
    };
    assert(bits == token_value(c));
    if over == 2 {
        padding <= 2 && bits % 16 == 0
    } else {
        padding <= 1 && bits % 4 == 0
    }
}

fn is_signature_shaped(sig: &Vec<char>) -> (r: bool)
    ensures
        r == signature_shaped(sig@),
{
    unpadded_len(sig) == 86 && 'A' <= sig[84] && sig[84] <= 'H'
}

fn date_exists(stamp: &Option<u64>) -> (r: bool)
    ensures
        r == has_date(*stamp),
{
    match *stamp {
        Some(s) => s <= 8210266876799 || s >= 18446735739108322816,
        None => true,
    }
}

/// The view of optional claims.
pub open spec fn claims_view<T: View>(o: Option<Claims<T>>) -> Option<ClaimsView<T::V>> {
    match o {
        Some(c) => Some(c@),
        None => None,
    }
}

fn is_refused_early<T: View>(c: &Claims<T>) -> (r: bool)
    ensures
        r == refused_early(c@),
{
    c.issuer.as_str().unicode_len() == 0 || c.subject.as_str().unicode_len() == 0 || (!is_cut_short(
        c.issuer.as_str(),
    ) && !recognise_key(c.issuer.as_str()))
}

fn is_comparable<T: View>(sig: &Vec<char>, c: &Claims<T>) -> (r: bool)
    ensures
        r == comparable(sig@, c@),
{
    is_signature_shaped(sig) && !is_cut_short(c.issuer.as_str()) && date_exists(&c.expires)
        && date_exists(&c.not_before)
}

/// The signature part of a token, by its characters.
fn signature_of(jwt: &str) -> (r: Option<Vec<char>>)
    ensures
        r is Some == signature_part(jwt@) is Some,
        r matches Some(sig) ==> sig@ == signature_part(jwt@)->0,
{
    match split_once(jwt, '.').1 {
        None => None,
        Some(rest) => match split_once(rest.as_str(), '.').1 {
            None => None,
            Some(last) => Some(chars_of(split_once(last.as_str(), '.').0.as_str())),
        },
    }
}

/// Whether the validation refuses a header.
fn refuses_header(header: &str) -> (r: bool)
    ensures
        r == refused_header(header@),
{
    let probe = header.to_string().concat(BEHIND_HEADER);
    match (signature_of(probe.as_str()), decode_actor(probe.as_str())) {
        (Some(sig), Ok(c)) => is_decodable(&sig) && !is_refused_early(&c) && is_comparable(&sig, &c)
            && validate_actor(probe.as_str()).is_err(),
        _ => false,
    }
}

/// Whether a token, with the claims decoded from it, can be put to validation.
pub fn is_checkable<T: View>(jwt: &str, claims: &Option<Claims<T>>) -> (r: bool)
    ensures
        r == checkable(jwt@, claims_view(*claims)),
{
    match (signature_of(jwt), claims) {
        (None, _) => false,
        (_, None) => true,
        (Some(sig), Some(c)) => !is_decodable(&sig) || is_refused_early(c) || is_comparable(&sig, c)
            || refuses_header(split_once(jwt, '.').0.as_str()),
    }
}

/// What `wascap::jwt::Claims::<Invocation>::decode` makes of a token: nothing
/// where it fails.
pub uninterp spec fn decoded_invocation(jwt: Seq<char>) -> Option<
    ClaimsView<InvocationMetadataView>,
>;

/// What `wascap::jwt::Claims::<Actor>::decode` makes of a token: nothing where
/// it fails.
pub uninterp spec fn decoded_actor(jwt: Seq<char>) -> Option<ClaimsView<ActorMetadataView>>;

/// What `wascap::jwt::validate_token::<Invocation>` finds of a token whatever the
/// time is: nothing where it fails, else whether the signature is valid.
pub uninterp spec fn invocation_verdict(jwt: Seq<char>) -> Option<bool>;

/// What `wascap::jwt::validate_token::<Actor>` finds of a token whatever the time
/// is: nothing where it fails, else whether the signature is valid.
pub uninterp spec fn actor_verdict(jwt: Seq<char>) -> Option<bool>;

/// The token that `wascap::wasm::extract_claims` finds in the bytes of a module:
/// nothing where it fails, else the token, if the module holds one.
pub uninterp spec fn embedded_jwt(module: Seq<u8>) -> Option<Option<Seq<char>>>;

/// What holds of a validation whatever the time is: a token without an
/// expiration never expires, and one without a first moment can be used at once.
pub open spec fn timed<W>(v: TokenValidation, claims: Option<ClaimsView<W>>) -> bool {
    &&& claims is Some
    &&& claims->0.expires is None ==> !v.expired && v.expires_human@ == "never"@
    &&& claims->0.not_before is None ==> !v.cannot_use_yet && v.not_before_human@
        == "immediately"@
}

/// `wascap::jwt::Claims::<Invocation>::decode`: the claims in a token, unless it
/// is malformed.
#[verifier::external_body]
pub(crate) fn decode_invocation(jwt: &str) -> (r: Result<Claims<InvocationMetadata>, WascapError>)
    ensures
        r is Ok == decoded_invocation(jwt@) is Some,
        r is Ok ==> r->Ok_0@ == decoded_invocation(jwt@)->0,
{
    let c = wascap::jwt::Claims::<wascap::jwt::Invocation>::decode(jwt)?;
    let metadata = c.metadata.map(
        |m| InvocationMetadata {
            target_url: m.target_url,
            origin_url: m.origin_url,
            invocation_hash: m.invocation_hash,
        },
    );
    let (expires, not_before, issued_at) = (c.expires, c.not_before, c.issued_at);
    let (id, issuer, subject) = (c.id, c.issuer, c.subject);
    Ok(Claims { expires, id, issued_at, issuer, subject, not_before, metadata })
}

/// `wascap::jwt::Claims::<Actor>::decode`: the claims in a token, unless it is
/// malformed.
#[verifier::external_body]
pub(crate) fn decode_actor(jwt: &str) -> (r: Result<Claims<ActorMetadata>, WascapError>)
    ensures
        r is Ok == decoded_actor(jwt@) is Some,
        r is Ok ==> r->Ok_0@ == decoded_actor(jwt@)->0,
{
    let c = wascap::jwt::Claims::<wascap::jwt::Actor>::decode(jwt)?;
    let metadata = c.metadata.map(
        |m| {
            let (name, module_hash, tags, provider) = (m.name, m.module_hash, m.tags, m.provider);
            ActorMetadata { name, module_hash, tags, caps: m.caps, rev: m.rev, ver: m.ver, provider }
        },
    );
    let (expires, not_before, issued_at) = (c.expires, c.not_before, c.issued_at);
    let (id, issuer, subject) = (c.id, c.issuer, c.subject);
    Ok(Claims { expires, id, issued_at, issuer, subject, not_before, metadata })
}

/// `wascap::jwt::validate_token::<Invocation>`: checks the signature and, by the
/// system clock, the dates of a token. It fails on a token that is malformed or
/// that names no issuer or subject.
#[verifier::external_body]
fn validate_invocation(jwt: &str) -> (r: Result<TokenValidation, WascapError>)
    requires
        checkable(jwt@, decoded_invocation(jwt@)),
    ensures
        r is Ok == invocation_verdict(jwt@) is Some,
        r is Ok ==> r->Ok_0.signature_valid == invocation_verdict(jwt@)->0,
        r is Ok ==> timed(r->Ok_0, decoded_invocation(jwt@)),
{
    let v = wascap::jwt::validate_token::<wascap::jwt::Invocation>(jwt)?;
    Ok(
        TokenValidation {
            expired: v.expired,
            cannot_use_yet: v.cannot_use_yet,
            expires_human: v.expires_human,
            not_before_human: v.not_before_human,
            signature_valid: v.signature_valid,
        },
    )
}

/// `wascap::jwt::validate_token::<Actor>`: checks the signature and, by the system
/// clock, the dates of a token. It fails on a token that is malformed or that
/// names no issuer or subject.
#[verifier::external_body]
fn validate_actor(jwt: &str) -> (r: Result<TokenValidation, WascapError>)
    requires
        checkable(jwt@, decoded_actor(jwt@)),
    ensures
        r is Ok == actor_verdict(jwt@) is Some,
        r is Ok ==> r->Ok_0.signature_valid == actor_verdict(jwt@)->0,
        r is Ok ==> timed(r->Ok_0, decoded_actor(jwt@)),
{
    let v = wascap::jwt::validate_token::<wascap::jwt::Actor>(jwt)?;
    Ok(
        TokenValidation {
            expired: v.expired,
            cannot_use_yet: v.cannot_use_yet,
            expires_human: v.expires_human,
            not_before_human: v.not_before_human,
            signature_valid: v.signature_valid,
        },
    )
}

/// What one validation of an invocation's token has given.
pub closed spec fn invocation_validation(
    jwt: &str,
    o: Result<TokenValidation, WascapError>,
) -> bool {
    call_ensures(validate_invocation, (jwt,), o)
}

/// What one validation of an actor's token has given.
pub closed spec fn actor_validation(jwt: &str, o: Result<TokenValidation, WascapError>) -> bool {
    call_ensures(validate_actor, (jwt,), o)
}

/// What validating an invocation's token can give, at some moment.
pub open spec fn invocation_validated(
    jwt: Seq<char>,
    o: Result<TokenValidation, WascapError>,
) -> bool {
    exists|s: &str| s@ == jwt && #[trigger] invocation_validation(s, o)
}

/// What validating an actor's token can give, at some moment.
pub open spec fn actor_validated(jwt: Seq<char>, o: Result<TokenValidation, WascapError>) -> bool {
    exists|s: &str| s@ == jwt && #[trigger] actor_validation(s, o)
}

/// Whatever the moment is, the validation of an invocation's token fails or not, finds its
/// signature valid or not, and minds only the dates that it has.
pub proof fn invocation_validations_agree(
    jwt: Seq<char>,
    o: Result<TokenValidation, WascapError>,
)
    requires
        invocation_validated(jwt, o),
    ensures
        o is Ok == invocation_verdict(jwt) is Some,
        o is Ok ==> o->Ok_0.signature_valid == invocation_verdict(jwt)->0,
        o is Ok ==> timed(o->Ok_0, decoded_invocation(jwt)),
{
}

/// Whatever the moment is, the validation of an actor's token fails or not, finds its
/// signature valid or not, and minds only the dates that it has.
pub proof fn actor_validations_agree(jwt: Seq<char>, o: Result<TokenValidation, WascapError>)
    requires
        actor_validated(jwt, o),
    ensures
        o is Ok == actor_verdict(jwt) is Some,
        o is Ok ==> o->Ok_0.signature_valid == actor_verdict(jwt)->0,
        o is Ok ==> timed(o->Ok_0, decoded_actor(jwt)),
{
}

/// Validates an invocation's token, at this moment.
pub(crate) fn validate_invocation_now(jwt: &str) -> (o: Result<TokenValidation, WascapError>)
    requires
        checkable(jwt@, decoded_invocation(jwt@)),
    ensures
        invocation_validated(jwt@, o),
{
    let o = validate_invocation(jwt);
    assert(invocation_validation(jwt, o));
    o
}

/// Validates an actor's token, at this moment.
pub(crate) fn validate_actor_now(jwt: &str) -> (o: Result<TokenValidation, WascapError>)
    requires
        checkable(jwt@, decoded_actor(jwt@)),
    ensures
        actor_validated(jwt@, o),
{
    let o = validate_actor(jwt);
    assert(actor_validation(jwt, o));
    o
}

/// `wascap::wasm::extract_claims`: the token embedded in a WebAssembly module, if
/// there is one. It fails on bytes that are no module, on a malformed token, and
/// where the token has no metadata or its hash is not that of the module. So the
/// token that it returns can be decoded, and holds metadata.
#[verifier::external_body]
fn extract_jwt(module: &[u8]) -> (r: Result<Option<String>, WascapError>)
    ensures
        r is Ok == embedded_jwt(module@) is Some,
        r is Ok ==> text_view(r->Ok_0) == embedded_jwt(module@)->0,
        r is Ok && r->Ok_0 is Some ==> decoded_actor(r->Ok_0->0@) is Some,
        r is Ok && r->Ok_0 is Some ==> decoded_actor(r->Ok_0->0@)->0.metadata is Some,
{
    match wascap::wasm::extract_claims(module) {
        Ok(token) => Ok(token.map(|t| t.jwt)),
        Err(e) => Err(e),
    }
}

/// The token in a module, with the claims decoded from it.
pub open spec fn embedded_token(module: Seq<u8>) -> Option<Option<TokenView>> {
    match embedded_jwt(module) {
        None => None,
        Some(None) => Some(None),
        Some(Some(jwt)) => Some(Some(TokenView { jwt, claims: decoded_actor(jwt)->0 })),
    }
}

/// The token in a module, with the claims decoded from it, if there is one.
pub(crate) fn extract_token(module: &[u8]) -> (r: Result<Option<Token>, WascapError>)
    ensures
        r is Ok == embedded_token(module@) is Some,
        r is Ok ==> (r->Ok_0 is Some == embedded_token(module@)->0 is Some),
        r is Ok && r->Ok_0 is Some ==> r->Ok_0->0@ == embedded_token(module@)->0->0,
        r is Ok && r->Ok_0 is Some ==> r->Ok_0->0@.claims.metadata is Some,
        r is Ok && r->Ok_0 is Some ==> decoded_actor(r->Ok_0->0@.jwt) == Some(r->Ok_0->0@.claims),
{
    match extract_jwt(module) {
        Err(e) => Err(e),
        Ok(None) => Ok(None),
        Ok(Some(jwt)) => match decode_actor(jwt.as_str()) {
            Ok(claims) => Ok(Some(Token { jwt, claims })),
            Err(e) => Err(e),
        },
    }
}

/// `wascap::jwt::Claims::<Invocation>::new` and `encode`: a token with the given
/// claims, signed with the key pair. Decoding the token gives the claims back. A
/// token whose issuer is the signing key itself has a valid signature, where the
/// issuer is recognised as a key; where it is not, the validation fails.
#[verifier::external_body]
fn sign_invocation(
    pair: &wascap::prelude::KeyPair,
    issuer: &str,
    subject: &str,
    claim: &InvocationMetadata,
) -> (r: Result<String, WascapError>)
    requires
        signer(*pair) is Some,
    ensures
        r is Ok,
        decoded_invocation(r->Ok_0@) is Some,
        decoded_invocation(r->Ok_0@)->0.expires is None,
        decoded_invocation(r->Ok_0@)->0.not_before is None,
        decoded_invocation(r->Ok_0@)->0.issuer == issuer@,
        decoded_invocation(r->Ok_0@)->0.subject == subject@,
        decoded_invocation(r->Ok_0@)->0.metadata == Some(claim@),
        signature_part(r->Ok_0@) is Some,
        signature_shaped(signature_part(r->Ok_0@)->0),
        Some(issuer@) == signer(*pair) && subject@.len() > 0 ==> invocation_verdict(r->Ok_0@) == (
        if recognised_key(issuer@) {
            Some(true)
        } else {
            None
        }),
{
    let (iss, sub) = (issuer.to_string(), subject.to_string());
    let (target, origin, hash) = (&claim.target_url, &claim.origin_url, &claim.invocation_hash);
    wascap::jwt::Claims::<wascap::jwt::Invocation>::new(iss, sub, target, origin, hash).encode(pair)
}

/// `wascap::prelude::KeyPair::new_server`: a new random key pair with its seed. The
/// public key has 56 characters, of which the first is `N`.
#[verifier::external_body]
fn generate_server_key() -> (r: wascap::prelude::KeyPair)
    ensures
        signer(r) is Some,
        signer(r)->0.len() == 56,
        signer(r)->0[0] == 'N',
{
    wascap::prelude::KeyPair::new_server()
}

/// `wascap::prelude::KeyPair::public_key`: the encoded public key.
#[verifier::external_body]
fn encode_public_key(pair: &wascap::prelude::KeyPair) -> (r: String)
    requires
        signer(*pair) is Some,
    ensures
        Some(r@) == signer(*pair),
{
    pair.public_key()
}

/// How many key pairs are drawn at most for one that is recognised by its public
/// key
const DRAWS: u8 = 8;

/// A key pair that can sign
pub struct HostKey {
    pair: Arc<wascap::prelude::KeyPair>,
}

impl HostKey {
    /// The public key.
    pub closed spec fn spec_public(self) -> Seq<char> {
        signer(*self.pair)->0
    }

    #[verifier::type_invariant]
    spec fn signs(self) -> bool {
        signer(*self.pair) is Some && signer(*self.pair)->0.len() == 56
    }

    /// A new random key pair for a host. One that would not be recognised by its
    /// public key is drawn anew, a few times at most.
    pub fn new_server() -> (r: HostKey)
        ensures
            r.spec_public().len() == 56,
            r.spec_public()[0] == 'N',
    {
        let mut drawn = generate_server_key();
        let mut draws: u8 = 1;
        while draws < DRAWS && !recognise_key(encode_public_key(&drawn).as_str())
            invariant
                signer(drawn) is Some,
                signer(drawn)->0.len() == 56,
                signer(drawn)->0[0] == 'N',
                draws <= DRAWS,
            decreases DRAWS - draws,
        {
            drawn = generate_server_key();
            draws += 1;
        }
        HostKey { pair: Arc::new(drawn) }
    }

    /// The encoded public key.
    pub fn public_key(&self) -> (r: String)
        ensures
            r@ == self.spec_public(),
            r@.len() == 56,
    {
        proof {
            use_type_invariant(&*self);
        }
        encode_public_key(&self.pair)
    }

    /// Whether what this key pair signs can be checked by its public key.
    pub fn is_recognised(&self) -> (r: bool)
        ensures
            r == recognised_key(self.spec_public()),
    {
        recognise_key(self.public_key().as_str())
    }

    /// A second handle on the key pair.
    pub fn copy(&self) -> (r: HostKey)
        ensures
            r.spec_public() == self.spec_public(),
    {
        proof {
            use_type_invariant(&*self);
        }
        HostKey { pair: self.pair.clone() }
    }

    /// A token with the given claims, issued and signed by this key pair.
    pub(crate) fn sign(&self, subject: &str, claim: &InvocationMetadata) -> (r: String)
        requires
            subject@.len() > 0,
        ensures
            self.spec_public().len() == 56,
            decoded_invocation(r@) is Some,
            decoded_invocation(r@)->0.expires is None,
            decoded_invocation(r@)->0.not_before is None,
            decoded_invocation(r@)->0.issuer == self.spec_public(),
            decoded_invocation(r@)->0.subject == subject@,
            decoded_invocation(r@)->0.metadata == Some(claim@),
            signature_part(r@) is Some,
            signature_shaped(signature_part(r@)->0),
            invocation_verdict(r@) == (if recognised_key(self.spec_public()) {
                Some(true)
            } else {
                None
            }),
    {
        proof {
            use_type_invariant(&*self);
        }
        let issuer = self.public_key();
        match sign_invocation(&self.pair, issuer.as_str(), subject, claim) {
            Ok(jwt) => jwt,
            Err(_) => String::new(),
        }
    }
}

} // verus!
