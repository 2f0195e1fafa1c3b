//! Capability providers.
use vstd::prelude::*;

use crate::claims::text_view;
use crate::codec::{
    decoded_descriptor, CapabilityDescriptor, OP_GET_CAPABILITY_DESCRIPTOR, SYSTEM_ACTOR,
};
use crate::errors::{Error, Failure};
use crate::messages::get_descriptor;
use crate::messagepack::readable;

verus! {

/// Represents a native capability provider compiled as a shared object library, or
/// embedded in the host: the plugin that does its work, the name that it is bound
/// to, and what it says of itself.
pub struct NativeCapability<P> {
    pub plugin: P,
    pub binding_name: String,
    pub descriptor: CapabilityDescriptor,
}

/// A binding name, or the default one.
pub open spec fn name_or_default(binding: Option<Seq<char>>) -> Seq<char> {
    match binding {
        Some(b) => b,
        None => "default"@,
    }
}

/// A binding name, or the default one.
pub fn binding_or_default(binding: Option<String>) -> (r: String)
    ensures
        r@ == name_or_default(text_view(binding)),
{
    match binding {
        Some(b) => b,
        None => "default".to_string(),
    }
}

/// What a plugin is asked in order to describe itself: the caller, the operation
/// and the message.
pub fn description_call() -> (r: (String, String, Vec<u8>))
    ensures
        r.0@ == SYSTEM_ACTOR@,
        r.1@ == OP_GET_CAPABILITY_DESCRIPTOR@,
        r.2@.len() == 0,
{
    (SYSTEM_ACTOR.to_string(), OP_GET_CAPABILITY_DESCRIPTOR.to_string(), Vec::new())
}

impl<P> NativeCapability<P> {
    /// A capability provider made of a plugin and of what it said when it was asked
    /// to describe itself.
    pub fn from_instance(
        plugin: P,
        binding_target_name: Option<String>,
        description: &[u8],
    ) -> (r: Result<NativeCapability<P>, Error>)
        requires
            readable(description@),
        ensures
            r is Ok == decoded_descriptor(description@) is Ok,
            r is Ok ==> r->Ok_0.plugin == plugin,
            r is Ok ==> r->Ok_0.binding_name@ == name_or_default(text_view(binding_target_name)),
            r is Ok ==> r->Ok_0.descriptor@ == decoded_descriptor(description@)->Ok_0,
            r is Err ==> r->Err_0@ == Failure::HostCallFailure(
                decoded_descriptor(description@)->Err_0,
            ),
    {
        match get_descriptor(description) {
            Ok(descriptor) => Ok(
                NativeCapability {
                    plugin,
                    binding_name: binding_or_default(binding_target_name),
                    descriptor,
                },
            ),
            Err(e) => Err(e),
        }
    }

    /// Returns the capability ID (namespace) of the provider
    pub fn id(&self) -> (r: String)
        ensures
            r@ == self.descriptor@.id,
    {
        self.descriptor.id.clone()
    }

    /// Returns the human-friendly name of the provider
    pub fn name(&self) -> (r: String)
        ensures
            r@ == self.descriptor@.name,
    {
        self.descriptor.name.clone()
    }

    /// Returns the full descriptor for the capability provider
    pub fn descriptor(&self) -> (r: &CapabilityDescriptor)
        ensures
            *r == self.descriptor,
    {
        &self.descriptor
    }
}

} // verus!
