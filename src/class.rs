use vstd::prelude::*;

verus! {

/// The exception classes that a projected fault can be raised as.
///
/// `BaseError` roots the classes of network-origin faults; the usage-error
/// classes (`BorrowingError`, the two exhaustion signals, `RuntimeError`) and
/// the parse-error classes stand outside it.
#[derive(Clone, Copy, Debug, PartialEq, Eq, Structural)]
pub enum ExceptionClass {
    BaseError,
    BodyError,
    BuilderError,
    ConnectionError,
    DecodingError,
    RedirectError,
    TimeoutError,
    StatusError,
    RequestError,
    UnknownError,
    BorrowingError,
    DNSResolverError,
    StopIteration,
    StopAsyncIteration,
    RuntimeError,
    HTTPMethodParseError,
    URLParseError,
    MIMEParseError,
}

impl ExceptionClass {
    /// Whether a handler for `BaseError` catches this class.
    pub open spec fn spec_is_base_error(self) -> bool {
        match self {
            ExceptionClass::BaseError
            | ExceptionClass::BodyError
            | ExceptionClass::BuilderError
            | ExceptionClass::ConnectionError
            | ExceptionClass::DecodingError
            | ExceptionClass::RedirectError
            | ExceptionClass::TimeoutError
            | ExceptionClass::StatusError
            | ExceptionClass::RequestError
            | ExceptionClass::UnknownError => true,
            _ => false,
        }
    }

    /// Whether a handler for `BaseError` catches this class.
    pub fn is_base_error(&self) -> (r: bool)
        ensures
            r == self.spec_is_base_error(),
    {
        match self {
            ExceptionClass::BaseError
            | ExceptionClass::BodyError
            | ExceptionClass::BuilderError
            | ExceptionClass::ConnectionError
            | ExceptionClass::DecodingError
            | ExceptionClass::RedirectError
            | ExceptionClass::TimeoutError
            | ExceptionClass::StatusError
            | ExceptionClass::RequestError
            | ExceptionClass::UnknownError => true,
            _ => false,
        }
    }
}

} // verus!
