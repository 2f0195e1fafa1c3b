//! Actors and capability providers that come from a registry of images.
use vstd::prelude::*;

use crate::actor::Actor;
use crate::authz::{extraction_failure, failure_of};
use crate::claims::embedded_token;
use crate::codec::text_map;
use crate::errors::{self, Error, ErrorKind, Failure};
use crate::runtime::{CORELABEL_ARCH, CORELABEL_OS};
use crate::table::Table;

verus! {

/// The environment variable for the user of a registry
pub const OCI_VAR_USER: &'static str = "OCI_REGISTRY_USER";

/// The environment variable for the password of a registry
pub const OCI_VAR_PASSWORD: &'static str = "OCI_REGISTRY_PASSWORD";

/// How a host presents itself to a registry
pub enum RegistryAuth {
    Anonymous,
    /// With a user and a password
    Basic(String, String),
}

/// How a host presents itself to a registry: with a user and a password where the
/// environment gives both.
pub fn registry_auth(user: Option<String>, password: Option<String>) -> (r: RegistryAuth)
    ensures
        user is Some && password is Some ==> r == RegistryAuth::Basic(user->0, password->0),
        user is None || password is None ==> r is Anonymous,
{
    match (user, password) {
        (Some(u), Some(p)) => RegistryAuth::Basic(u, p),
        _ => RegistryAuth::Anonymous,
    }
}

/// `oci_distribution::Reference::from_str`, by the whole text of the reference or the text
/// of the error: a text is a reference where it holds a slash.
#[verifier::external_body]
fn parse_reference(img: &str) -> (r: Result<String, String>)
    ensures
        r is Ok == img@.contains('/'),
        r is Ok ==> r->Ok_0@ == img@,
        r is Err ==> r->Err_0@ == "Failed to parse reference string '"@ + img@
            + "'. Expected at least one slash (/)"@,
{
    match img.parse::<oci_distribution::Reference>() {
        Ok(reference) => Ok(reference.whole().to_string()),
        Err(e) => Err(e.to_string()),
    }
}

/// The reference to an image, as a registry is asked for it.
pub fn image_reference(img: &str) -> (r: Result<String, Error>)
    ensures
        r is Ok == img@.contains('/'),
        r is Ok ==> r->Ok_0@ == img@,
        r is Err ==> r->Err_0@ == Failure::MiscHost(
            "Failed to parse OCI distribution reference: "@ + ("Failed to parse reference string '"@
                + img@ + "'. Expected at least one slash (/)"@),
        ),
{
    match parse_reference(img) {
        Ok(reference) => Ok(reference),
        Err(e) => Err(
            errors::new(
                ErrorKind::MiscHost(
                    "Failed to parse OCI distribution reference: ".to_string().concat(e.as_str()),
                ),
            ),
        ),
    }
}

/// The bytes of an image, by what the registry has replied.
pub fn fetch_oci_bytes(pulled: Result<Vec<u8>, String>) -> (r: Result<Vec<u8>, Error>)
    ensures
        r is Ok == pulled is Ok,
        r is Ok ==> r->Ok_0 == pulled->Ok_0,
        r is Err ==> r->Err_0@ == Failure::MiscHost("Failed to fetch OCI bytes"@),
{
    match pulled {
        Ok(content) => Ok(content),
        Err(_) => Err(errors::new(ErrorKind::MiscHost("Failed to fetch OCI bytes".to_string()))),
    }
}

/// The actor in an image, by what the registry has replied.
pub fn fetch_actor(pulled: Result<Vec<u8>, String>) -> (r: Result<Actor, Error>)
    ensures
        pulled is Err ==> r is Err && r->Err_0@ == Failure::MiscHost("Failed to fetch OCI bytes"@),
        pulled is Ok ==> failure_of(r) == extraction_failure(pulled->Ok_0@),
        r is Ok ==> {
            &&& Some(Some(r->Ok_0.spec_token())) == embedded_token(pulled->Ok_0@)
            &&& r->Ok_0.spec_bytes() == pulled->Ok_0@
        },
{
    match fetch_oci_bytes(pulled) {
        Ok(bytes) => Actor::from_slice(bytes.as_slice()),
        Err(e) => Err(e),
    }
}

/// The error for bytes that are no provider archive.
pub fn archive_failure(e: &str) -> (r: Error)
    ensures
        r@ == Failure::HostCallFailure("Failed to load provider archive: "@ + e@),
{
    errors::new(
        ErrorKind::HostCallFailure("Failed to load provider archive: ".to_string().concat(e)),
    )
}

/// The target whose library a host takes out of a provider archive, by its labels.
pub fn provider_target(labels: &Table<String, String>) -> (r: String)
    requires
        labels@.contains_key(CORELABEL_ARCH@),
        labels@.contains_key(CORELABEL_OS@),
    ensures
        r@ == text_map(labels@)[CORELABEL_ARCH@] + "-"@ + text_map(labels@)[CORELABEL_OS@],
{
    let arch = labels.get(&CORELABEL_ARCH.to_string());
    let os = labels.get(&CORELABEL_OS.to_string());
    match (arch, os) {
        (Some(a), Some(o)) => a.clone().concat("-").concat(o.as_str()),
        _ => String::new(),
    }
}

/// The library for a target, by what a provider archive holds for it.
pub fn provider_library(found: Option<Vec<u8>>, target: &str) -> (r: Result<Vec<u8>, Error>)
    ensures
        found is Some ==> r is Ok && r->Ok_0 == found->0,
        found is None ==> r is Err && r->Err_0@ == Failure::HostCallFailure(
            "No binary found in provider archive for "@ + target@,
        ),
{
    match found {
        Some(v) => Ok(v),
        None => Err(
            errors::new(
                ErrorKind::HostCallFailure(
                    "No binary found in provider archive for ".to_string().concat(target),
                ),
            ),
        ),
    }
}

/// Whether a provider archive can be used: it has to hold claims.
pub fn check_provider_claims(found: bool, provider_ref: &str) -> (r: Result<(), Error>)
    ensures
        r is Ok == found,
        r is Err ==> r->Err_0@ == Failure::HostCallFailure(
            "No embedded claims found in provider archive for "@ + provider_ref@,
        ),
{
    if found {
        Ok(())
    } else {
        Err(
            errors::new(
                ErrorKind::HostCallFailure(
                    "No embedded claims found in provider archive for ".to_string().concat(
                        provider_ref,
                    ),
                ),
            ),
        )
    }
}

} // verus!
