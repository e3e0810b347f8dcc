use vstd::prelude::*;

verus! {

#[verifier::external_type_specification]
#[verifier::external_body]
pub struct ExConnectionError(x11rb::errors::ConnectionError);

#[verifier::external_type_specification]
#[verifier::external_body]
pub struct ExX11Error(x11rb::x11_utils::X11Error);

/// Failures of the watch and of pid resolution.
#[derive(Debug)]
pub enum Error {
    /// The transport to the display server failed.
    ConnectionError(x11rb::errors::ConnectionError),
    /// The server answered a request with a protocol error.
    X11Error(x11rb::x11_utils::X11Error),
    /// Neither pid source named a process; holds the failure of the primary source.
    ResolutionFailure(Box<Error>),
    /// Any other failure, described in a few words.
    Other(&'static str),
}

/// The text of an error whose innermost cause is a described failure:
/// the description in parentheses.
pub open spec fn described_text(e: Error) -> Option<Seq<char>>
    decreases e,
{
    match e {
        Error::Other(msg) => Some(seq!['('] + msg@ + seq![')']),
        Error::ResolutionFailure(inner) => described_text(*inner),
        _ => None,
    }
}

/// Relies on x11rb's `Display` for `ConnectionError`, for the message of a
/// transport failure.
#[verifier::external_body]
fn connection_error_text(e: &x11rb::errors::ConnectionError) -> String {
    format!("{}", e)
}

/// Relies on x11rb's `Debug` for `X11Error`, for the fields of a protocol error.
#[verifier::external_body]
fn x11_error_text(e: &x11rb::x11_utils::X11Error) -> String {
    format!("{:?}", e)
}

/// The description between parentheses.
fn parenthesized(msg: &str) -> (r: String)
    ensures
        r@ == seq!['('] + msg@ + seq![')'],
{
    proof {
        reveal_strlit("(");
        reveal_strlit(")");
    }
    let mut r = String::from_str("(");
    r.append(msg);
    r.append(")");
    assert(r@ =~= seq!['('] + msg@ + seq![')']);
    r
}

impl Error {
    /// A one-line text for logs; a resolution failure reads as its cause.
    pub fn message(&self) -> (r: String)
        ensures
            described_text(*self) matches Some(t) ==> r@ == t,
        decreases self,
    {
        match self {
            Error::ConnectionError(e) => connection_error_text(e),
            Error::X11Error(e) => x11_error_text(e),
            Error::ResolutionFailure(inner) => inner.message(),
            Error::Other(msg) => parenthesized(msg),
        }
    }
}

impl From<x11rb::errors::ConnectionError> for Error {
    fn from(value: x11rb::errors::ConnectionError) -> (r: Error)
        ensures
            r == Error::ConnectionError(value),
    {
        Error::ConnectionError(value)
    }
}

impl vstd::std_specs::convert::FromSpecImpl<x11rb::errors::ConnectionError> for Error {
    open spec fn obeys_from_spec() -> bool {
        true
    }

    open spec fn from_spec(v: x11rb::errors::ConnectionError) -> Error {
        Error::ConnectionError(v)
    }
}

impl From<x11rb::x11_utils::X11Error> for Error {
    fn from(value: x11rb::x11_utils::X11Error) -> (r: Error)
        ensures
            r == Error::X11Error(value),
    {
        Error::X11Error(value)
    }
}

impl vstd::std_specs::convert::FromSpecImpl<x11rb::x11_utils::X11Error> for Error {
    open spec fn obeys_from_spec() -> bool {
        true
    }

    open spec fn from_spec(v: x11rb::x11_utils::X11Error) -> Error {
        Error::X11Error(v)
    }
}

} // verus!
