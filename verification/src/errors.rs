//! Custom error types
use vstd::prelude::*;

use wascap::prelude::WascapError;

use crate::text::begins;

verus! {

/// A failure to read, decode or validate a token.
#[verifier::external_type_specification]
#[verifier::external_body]
pub struct ExWascapError(wascap::prelude::WascapError);

/// An I/O error.
#[verifier::external_type_specification]
#[verifier::external_body]
pub struct ExIoError(std::io::Error);

#[derive(Debug)]
pub struct Error(Box<ErrorKind>);

#[derive(Debug)]
pub enum ErrorKind {
    /// An error of the waPC engine, by its text
    Wapc(String),
    HostCallFailure(String),
    Wascap(WascapError),
    Authorization(String),
    IO(std::io::Error),
    CapabilityProvider(String),
    MiscHost(String),
    /// A failure to load a plugin library, by its text
    Plugin(String),
    Middleware(String),
    Serialization(String),
}

/// What an error says: its kind, and the text that it carries where the text is
/// this library's own.
pub ghost enum Failure {
    Wapc(Seq<char>),
    HostCallFailure(Seq<char>),
    Wascap,
    Authorization(Seq<char>),
    IO,
    CapabilityProvider(Seq<char>),
    MiscHost(Seq<char>),
    Plugin(Seq<char>),
    Middleware(Seq<char>),
    Serialization(Seq<char>),
}

impl View for ErrorKind {
    type V = Failure;

    open spec fn view(&self) -> Failure {
        match *self {
            ErrorKind::Wapc(s) => Failure::Wapc(s@),
            ErrorKind::HostCallFailure(s) => Failure::HostCallFailure(s@),
            ErrorKind::Wascap(_) => Failure::Wascap,
            ErrorKind::Authorization(s) => Failure::Authorization(s@),
            ErrorKind::IO(_) => Failure::IO,
            ErrorKind::CapabilityProvider(s) => Failure::CapabilityProvider(s@),
            ErrorKind::MiscHost(s) => Failure::MiscHost(s@),
            ErrorKind::Plugin(s) => Failure::Plugin(s@),
            ErrorKind::Middleware(s) => Failure::Middleware(s@),
            ErrorKind::Serialization(s) => Failure::Serialization(s@),
        }
    }
}

impl Error {
    pub closed spec fn spec_kind(self) -> ErrorKind {
        *self.0
    }
}

impl View for Error {
    type V = Failure;

    open spec fn view(&self) -> Failure {
        self.spec_kind()@
    }
}

pub fn new(kind: ErrorKind) -> (e: Error)
    ensures
        e.spec_kind() == kind,
{
    Error(Box::new(kind))
}

/// The text in front of what the error carries.
pub open spec fn preamble(f: Failure) -> Seq<char> {
    match f {
        Failure::Wapc(_) => "waPC failure: "@,
        Failure::HostCallFailure(_) => "Error occurred during host call: "@,
        Failure::Wascap => "Embedded JWT failure: "@,
        Failure::Authorization(_) => "WebAssembly module authorization failure: "@,
        Failure::IO => "I/O error: "@,
        Failure::CapabilityProvider(_) => "Capability provider error: "@,
        Failure::MiscHost(_) => "waSCC Host Error: "@,
        Failure::Plugin(_) => "Plugin error: "@,
        Failure::Middleware(_) => "Middleware error: "@,
        Failure::Serialization(_) => "Serialization error: "@,
    }
}

/// The text that the error carries, where it is this library's own.
pub open spec fn detail(f: Failure) -> Option<Seq<char>> {
    match f {
        Failure::Wapc(s) => Some(s),
        Failure::Plugin(s) => Some(s),
        Failure::HostCallFailure(s) => Some(s),
        Failure::Authorization(s) => Some(s),
        Failure::CapabilityProvider(s) => Some(s),
        Failure::MiscHost(s) => Some(s),
        Failure::Middleware(s) => Some(s),
        Failure::Serialization(s) => Some(s),
        _ => None,
    }
}

/// The text that is shown for an error: what kind it is, and then what it carries.
pub open spec fn shows(text: Seq<char>, f: Failure) -> bool {
    &&& begins(text, preamble(f))
    &&& detail(f) is Some ==> text == preamble(f) + detail(f)->0
}

/// A one-line description of each kind of error.
pub open spec fn described(f: Failure) -> Seq<char> {
    match f {
        Failure::Wapc(_) => "waPC error"@,
        Failure::IO => "I/O error"@,
        Failure::HostCallFailure(_) => "Error occurred during host call"@,
        Failure::Wascap => "Embedded JWT Failure"@,
        Failure::Authorization(_) => "Module authorization failure"@,
        Failure::CapabilityProvider(_) => "Capability provider failure"@,
        Failure::MiscHost(_) => "waSCC Host error"@,
        Failure::Plugin(_) => "Plugin error"@,
        Failure::Middleware(_) => "Middleware error"@,
        Failure::Serialization(_) => "Serialization error"@,
    }
}

/// The `Display` text of `WascapError`. Nothing is claimed of it.
#[verifier::external_body]
fn wascap_text(e: &WascapError) -> String {
    e.to_string()
}

/// The `Display` text of `std::io::Error`. Nothing is claimed of it.
#[verifier::external_body]
fn io_text(e: &std::io::Error) -> String {
    e.to_string()
}

impl Error {
    pub fn kind(&self) -> (k: &ErrorKind)
        ensures
            *k == self.spec_kind(),
    {
        &self.0
    }

    pub fn into_kind(self) -> (k: ErrorKind)
        ensures
            k == self.spec_kind(),
    {
        *self.0
    }

    /// A one-line description of the kind of error.
    pub fn description(&self) -> (r: &str)
        ensures
            r@ == described(self@),
    {
        match *self.0 {
            ErrorKind::Wapc(_) => "waPC error",
            ErrorKind::IO(_) => "I/O error",
            ErrorKind::HostCallFailure(_) => "Error occurred during host call",
            ErrorKind::Wascap(_) => "Embedded JWT Failure",
            ErrorKind::Authorization(_) => "Module authorization failure",
            ErrorKind::CapabilityProvider(_) => "Capability provider failure",
            ErrorKind::MiscHost(_) => "waSCC Host error",
            ErrorKind::Plugin(_) => "Plugin error",
            ErrorKind::Middleware(_) => "Middleware error",
            ErrorKind::Serialization(_) => "Serialization error",
        }
    }

    /// The text of the error of another library that led to this one, if any did.
    pub fn cause(&self) -> (r: Option<String>)
        ensures
            r is Some == (self@ is Wapc || self@ is Wascap || self@ is IO || self@ is Plugin),
            self@ matches Failure::Wapc(s) ==> r->0@ == s,
            self@ matches Failure::Plugin(s) ==> r->0@ == s,
    {
        match *self.0 {
            ErrorKind::Wapc(ref err) => Some(err.clone()),
            ErrorKind::Wascap(ref err) => Some(wascap_text(err)),
            ErrorKind::IO(ref err) => Some(io_text(err)),
            ErrorKind::Plugin(ref err) => Some(err.clone()),
            _ => None,
        }
    }

    /// The text that is shown for the error: what kind it is, and what it carries.
    pub fn to_string(&self) -> (r: String)
        ensures
            shows(r@, self@),
    {
        let (head, tail): (&str, String) = match *self.0 {
            ErrorKind::Wapc(ref err) => ("waPC failure: ", err.clone()),
            ErrorKind::HostCallFailure(ref err) => (
                "Error occurred during host call: ",
                err.clone(),
            ),
            ErrorKind::Wascap(ref err) => ("Embedded JWT failure: ", wascap_text(err)),
            ErrorKind::Authorization(ref err) => (
                "WebAssembly module authorization failure: ",
                err.clone(),
            ),
            ErrorKind::IO(ref err) => ("I/O error: ", io_text(err)),
            ErrorKind::CapabilityProvider(ref err) => ("Capability provider error: ", err.clone()),
            ErrorKind::MiscHost(ref err) => ("waSCC Host Error: ", err.clone()),
            ErrorKind::Plugin(ref err) => ("Plugin error: ", err.clone()),
            ErrorKind::Middleware(ref err) => ("Middleware error: ", err.clone()),
            ErrorKind::Serialization(ref err) => ("Serialization error: ", err.clone()),
        };
        let mut out = head.to_string();
        out.append(tail.as_str());
        assert(out@.subrange(0, head@.len() as int) =~= head@);
        out
    }
}

impl From<WascapError> for Error {
    fn from(source: WascapError) -> (e: Error) {
        Error(Box::new(ErrorKind::Wascap(source)))
    }
}

impl vstd::std_specs::convert::FromSpecImpl<WascapError> for Error {
    open spec fn obeys_from_spec() -> bool {
        true
    }

    closed spec fn from_spec(source: WascapError) -> Error {
        Error(Box::new(ErrorKind::Wascap(source)))
    }
}

impl From<std::io::Error> for Error {
    fn from(source: std::io::Error) -> (e: Error) {
        Error(Box::new(ErrorKind::IO(source)))
    }
}

impl vstd::std_specs::convert::FromSpecImpl<std::io::Error> for Error {
    open spec fn obeys_from_spec() -> bool {
        true
    }

    closed spec fn from_spec(source: std::io::Error) -> Error {
        Error(Box::new(ErrorKind::IO(source)))
    }
}

impl From<String> for Error {
    /// An error that is known by its text alone.
    fn from(source: String) -> (e: Error) {
        Error(Box::new(ErrorKind::HostCallFailure(source)))
    }
}

impl vstd::std_specs::convert::FromSpecImpl<String> for Error {
    open spec fn obeys_from_spec() -> bool {
        true
    }

    closed spec fn from_spec(source: String) -> Error {
        Error(Box::new(ErrorKind::HostCallFailure(source)))
    }
}

/// An error that comes from another library, or from a text, is of the kind that stands for it.
pub proof fn sources_have_kinds(
    w: WascapError,
    i: std::io::Error,
    s: String,
    from_token: Error,
    from_io: Error,
    from_text: Error,
)
    requires
        call_ensures(<Error as From<WascapError>>::from, (w,), from_token),
        call_ensures(<Error as From<std::io::Error>>::from, (i,), from_io),
        call_ensures(<Error as From<String>>::from, (s,), from_text),
    ensures
        from_token@ is Wascap,
        from_io@ is IO,
        from_text@ == Failure::HostCallFailure(s@),
{
}

} // verus!
