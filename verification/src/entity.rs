//! The two ends of an invocation.
use vstd::prelude::*;

use crate::text::{lowercase, replace_char, replaced, same, to_lowercase};

verus! {

/// Represents an invocation target - either an actor or a bound capability provider
#[derive(Debug)]
pub enum WasccEntity {
    Actor(String),
    Capability { capid: String, binding: String },
}

#[verifier::ext_equal]
pub ghost enum EntityView {
    Actor(Seq<char>),
    Capability { capid: Seq<char>, binding: Seq<char> },
}

impl View for WasccEntity {
    type V = EntityView;

    open spec fn view(&self) -> EntityView {
        match self {
            WasccEntity::Actor(pk) => EntityView::Actor(pk@),
            WasccEntity::Capability { capid, binding } => EntityView::Capability {
                capid: capid@,
                binding: binding@,
            },
        }
    }
}

impl Clone for WasccEntity {
    fn clone(&self) -> (r: Self)
        ensures
            r@ == self@,
    {
        match self {
            WasccEntity::Actor(pk) => WasccEntity::Actor(pk.clone()),
            WasccEntity::Capability { capid, binding } => WasccEntity::Capability {
                capid: capid.clone(),
                binding: binding.clone(),
            },
        }
    }
}

impl PartialEq for WasccEntity {
    fn eq(&self, other: &Self) -> (r: bool) {
        match (self, other) {
            (WasccEntity::Actor(a), WasccEntity::Actor(b)) => same(a.as_str(), b.as_str()),
            (
                WasccEntity::Capability { capid: c1, binding: b1 },
                WasccEntity::Capability { capid: c2, binding: b2 },
            ) => same(c1.as_str(), c2.as_str()) && same(b1.as_str(), b2.as_str()),
            _ => false,
        }
    }
}

impl vstd::std_specs::cmp::PartialEqSpecImpl for WasccEntity {
    open spec fn obeys_eq_spec() -> bool {
        true
    }

    open spec fn eq_spec(&self, other: &Self) -> bool {
        self@ == other@
    }
}

/// The URL of an entity.
pub open spec fn url_of(e: EntityView) -> Seq<char> {
    match e {
        EntityView::Actor(pk) => "wasmbus://"@ + pk,
        EntityView::Capability { capid, binding } => "wasmbus://"@ + lowercase(
            replaced(replaced(capid, ':', '/'), ' ', '_'),
        ) + "/"@ + lowercase(replaced(binding, ' ', '_')),
    }
}

/// What `format!("{:?}", ..)` makes of a text: the text in quotes, with the
/// characters escaped that need it.
pub uninterp spec fn quoted(s: Seq<char>) -> Seq<char>;

/// The `Debug` form of a string slice.
#[verifier::external_body]
pub(crate) fn quote(s: &str) -> (r: String)
    ensures
        r@ == quoted(s@),
{
    format!("{:?}", s)
}

/// How an entity is shown in messages.
pub open spec fn shown(e: EntityView) -> Seq<char> {
    match e {
        EntityView::Actor(pk) => "Actor("@ + quoted(pk) + ")"@,
        EntityView::Capability { capid, binding } => "Capability { capid: "@ + quoted(capid)
            + ", binding: "@ + quoted(binding) + " }"@,
    }
}

impl WasccEntity {
    /// The URL of the entity.
    pub fn url(&self) -> (r: String)
        ensures
            r@ == url_of(self@),
    {
        match self {
            WasccEntity::Actor(pk) => "wasmbus://".to_string().concat(pk.as_str()),
            WasccEntity::Capability { capid, binding } => {
                let c = replace_char(capid.as_str(), ':', '/');
                let c = replace_char(c.as_str(), ' ', '_');
                let b = replace_char(binding.as_str(), ' ', '_');
                "wasmbus://".to_string().concat(to_lowercase(c.as_str()).as_str()).concat(
                    "/",
                ).concat(to_lowercase(b.as_str()).as_str())
            },
        }
    }

    /// How the entity is shown in messages.
    pub fn show(&self) -> (r: String)
        ensures
            r@ == shown(self@),
    {
        match self {
            WasccEntity::Actor(pk) => "Actor(".to_string().concat(
                quote(pk.as_str()).as_str(),
            ).concat(")"),
            WasccEntity::Capability { capid, binding } => "Capability { capid: ".to_string().concat(
                quote(capid.as_str()).as_str(),
            ).concat(", binding: ").concat(quote(binding.as_str()).as_str()).concat(" }"),
        }
    }
}

} // verus!
