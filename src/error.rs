use vstd::prelude::*;

use crate::class::ExceptionClass;
use crate::engine::EngineFault;
use crate::outside::{header_name_debug, header_value_debug, io_error_debug, url_error_debug};

verus! {

/// Message of a resource that was used after it had been consumed.
pub const RACE_CONDITION_ERROR_MSG: &'static str = "Due to Rust's memory management with borrowing,
you cannot use certain instances multiple times as they may be consumed.

This error can occur in the following cases:
1) You passed a non-clonable instance to a function that requires ownership.
2) You attempted to use a method that consumes ownership more than once (e.g., reading a response body twice).
3) You tried to reference an instance after it was borrowed.

Potential solutions:
1) Avoid sharing instances; create a new instance each time you use it.
2) Refrain from performing actions that consume ownership multiple times.
3) Change the order of operations to reference the instance before borrowing it.
";

/// Message of a sequence, synchronous or asynchronous, advanced past its end.
pub const EXHAUSTED_MSG: &'static str = "The iterator is exhausted";

/// Message of a WebSocket used after the remote side closed it.
pub const DISCONNECTED_MSG: &'static str = "The WebSocket has been disconnected";

pub const HEADER_NAME_PREFIX: &'static str = "Invalid header name: ";

pub const HEADER_VALUE_PREFIX: &'static str = "Invalid header value: ";

pub const URL_PREFIX: &'static str = "URL parse error: ";

pub const IO_PREFIX: &'static str = "IO error: ";

/// Separates a predicate's name from the fault it matched.
pub const MATCHED_INFIX: &'static str = " error: ";

pub const UNKNOWN_PREFIX: &'static str = "Unknown error occurred: ";

/// Every fault that the binding can raise.
#[derive(Debug)]
pub enum Error {
    /// A single-use value was used a second time.
    MemoryError,
    /// A synchronous sequence was advanced past its end.
    StopIteration,
    /// An asynchronous sequence was advanced past its end.
    StopAsyncIteration,
    /// A WebSocket was used after the remote side closed it.
    WebSocketDisconnect,
    InvalidHeaderName(http::header::InvalidHeaderName),
    InvalidHeaderValue(http::header::InvalidHeaderValue),
    UrlParseError(url::ParseError),
    IoError(std::io::Error),
    /// A fault of the networking engine itself.
    RquestError(EngineFault),
}

/// An exception ready to be raised: its class and its message.
pub struct Projection {
    pub class: ExceptionClass,
    pub message: String,
}

impl Error {
    /// The class this fault is raised as.
    pub open spec fn spec_class(&self) -> ExceptionClass {
        match self {
            Error::MemoryError => ExceptionClass::BorrowingError,
            Error::StopIteration => ExceptionClass::StopIteration,
            Error::StopAsyncIteration => ExceptionClass::StopAsyncIteration,
            Error::WebSocketDisconnect => ExceptionClass::RuntimeError,
            Error::InvalidHeaderName(_) => ExceptionClass::RuntimeError,
            Error::InvalidHeaderValue(_) => ExceptionClass::RuntimeError,
            Error::UrlParseError(_) => ExceptionClass::URLParseError,
            Error::IoError(_) => ExceptionClass::RuntimeError,
            Error::RquestError(f) => f.spec_class(),
        }
    }

    /// Whether this fault is one of the four raised without a payload.
    pub open spec fn spec_is_usage_error(&self) -> bool {
        match self {
            Error::MemoryError
            | Error::StopIteration
            | Error::StopAsyncIteration
            | Error::WebSocketDisconnect => true,
            _ => false,
        }
    }

    /// The message this fault is raised with, where `detail` is the `Debug`
    /// rendering of its payload; the four faults without a payload ignore it.
    pub open spec fn spec_message(&self, detail: Seq<char>) -> Seq<char> {
        match self {
            Error::MemoryError => RACE_CONDITION_ERROR_MSG@,
            Error::StopIteration => EXHAUSTED_MSG@,
            Error::StopAsyncIteration => EXHAUSTED_MSG@,
            Error::WebSocketDisconnect => DISCONNECTED_MSG@,
            Error::InvalidHeaderName(_) => HEADER_NAME_PREFIX@ + detail,
            Error::InvalidHeaderValue(_) => HEADER_VALUE_PREFIX@ + detail,
            Error::UrlParseError(_) => URL_PREFIX@ + detail,
            Error::IoError(_) => IO_PREFIX@ + detail,
            Error::RquestError(f) => match f.spec_matched() {
                Some(p) => p.spec_name() + MATCHED_INFIX@ + detail,
                None => UNKNOWN_PREFIX@ + detail,
            },
        }
    }

    /// The `Debug` rendering of the payload, where it is fixed by the payload
    /// alone; `None` for a URL or I/O fault, whose rendering the library only
    /// obtains at run time.
    pub open spec fn spec_known_detail(&self) -> Option<Seq<char>> {
        match self {
            Error::InvalidHeaderName(_) => Some("InvalidHeaderName"@),
            Error::InvalidHeaderValue(_) => Some("InvalidHeaderValue"@),
            Error::UrlParseError(_) => None,
            Error::IoError(_) => None,
            Error::RquestError(f) => Some(f.detail@),
            _ => Some(Seq::empty()),
        }
    }

    /// Whether this fault is one of the four raised without a payload.
    pub fn is_usage_error(&self) -> (r: bool)
        ensures
            r == self.spec_is_usage_error(),
    {
        match self {
            Error::MemoryError
            | Error::StopIteration
            | Error::StopAsyncIteration
            | Error::WebSocketDisconnect => true,
            _ => false,
        }
    }

    /// The class this fault is raised as.
    pub fn class(&self) -> (r: ExceptionClass)
        ensures
            r == self.spec_class(),
    {
        match self {
            Error::MemoryError => ExceptionClass::BorrowingError,
            Error::StopIteration => ExceptionClass::StopIteration,
            Error::StopAsyncIteration => ExceptionClass::StopAsyncIteration,
            Error::WebSocketDisconnect => ExceptionClass::RuntimeError,
            Error::InvalidHeaderName(_) => ExceptionClass::RuntimeError,
            Error::InvalidHeaderValue(_) => ExceptionClass::RuntimeError,
            Error::UrlParseError(_) => ExceptionClass::URLParseError,
            Error::IoError(_) => ExceptionClass::RuntimeError,
            Error::RquestError(f) => f.class(),
        }
    }

    /// The message this fault is raised with, given the `Debug` rendering of
    /// its payload.
    pub fn message_with(&self, detail: &str) -> (r: String)
        ensures
            r@ == self.spec_message(detail@),
    {
        match self {
            Error::MemoryError => String::from_str(RACE_CONDITION_ERROR_MSG),
            Error::StopIteration => String::from_str(EXHAUSTED_MSG),
            Error::StopAsyncIteration => String::from_str(EXHAUSTED_MSG),
            Error::WebSocketDisconnect => String::from_str(DISCONNECTED_MSG),
            Error::InvalidHeaderName(_) => String::from_str(HEADER_NAME_PREFIX).concat(detail),
            Error::InvalidHeaderValue(_) => String::from_str(HEADER_VALUE_PREFIX).concat(detail),
            Error::UrlParseError(_) => String::from_str(URL_PREFIX).concat(detail),
            Error::IoError(_) => String::from_str(IO_PREFIX).concat(detail),
            Error::RquestError(f) => match f.matched() {
                Some(p) => String::from_str(p.name()).concat(MATCHED_INFIX).concat(detail),
                None => String::from_str(UNKNOWN_PREFIX).concat(detail),
            },
        }
    }

    /// The exception this fault is raised as, given the `Debug` rendering of
    /// its payload.
    pub fn projection_with(&self, detail: &str) -> (r: Projection)
        ensures
            r.class == self.spec_class(),
            r.message@ == self.spec_message(detail@),
    {
        Projection { class: self.class(), message: self.message_with(detail) }
    }

    /// The exception this fault is raised as.
    pub fn project(self) -> (r: Projection)
        ensures
            r.class == self.spec_class(),
            r.message@.len() > 0,
            match self.spec_known_detail() {
                Some(d) => r.message@ == self.spec_message(d),
                None => exists|d: Seq<char>| r.message@ == #[trigger] self.spec_message(d),
            },
    {
        let detail = match &self {
            Error::InvalidHeaderName(e) => header_name_debug(e),
            Error::InvalidHeaderValue(e) => header_value_debug(e),
            Error::UrlParseError(e) => url_error_debug(e),
            Error::IoError(e) => io_error_debug(e),
            Error::RquestError(f) => f.detail.clone(),
            _ => String::new(),
        };
        let r = self.projection_with(detail.as_str());
        proof {
            lemma_message_nonempty(&self, detail@);
        }
        r
    }
}

impl From<http::header::InvalidHeaderName> for Error {
    fn from(err: http::header::InvalidHeaderName) -> (r: Error) {
        Error::InvalidHeaderName(err)
    }
}

impl vstd::std_specs::convert::FromSpecImpl<http::header::InvalidHeaderName> for Error {
    open spec fn obeys_from_spec() -> bool {
        true
    }

    open spec fn from_spec(v: http::header::InvalidHeaderName) -> Error {
        Error::InvalidHeaderName(v)
    }
}

impl From<http::header::InvalidHeaderValue> for Error {
    fn from(err: http::header::InvalidHeaderValue) -> (r: Error) {
        Error::InvalidHeaderValue(err)
    }
}

impl vstd::std_specs::convert::FromSpecImpl<http::header::InvalidHeaderValue> for Error {
    open spec fn obeys_from_spec() -> bool {
        true
    }

    open spec fn from_spec(v: http::header::InvalidHeaderValue) -> Error {
        Error::InvalidHeaderValue(v)
    }
}

impl From<url::ParseError> for Error {
    fn from(err: url::ParseError) -> (r: Error) {
        Error::UrlParseError(err)
    }
}

impl vstd::std_specs::convert::FromSpecImpl<url::ParseError> for Error {
    open spec fn obeys_from_spec() -> bool {
        true
    }

    open spec fn from_spec(v: url::ParseError) -> Error {
        Error::UrlParseError(v)
    }
}

impl From<std::io::Error> for Error {
    fn from(err: std::io::Error) -> (r: Error) {
        Error::IoError(err)
    }
}

impl vstd::std_specs::convert::FromSpecImpl<std::io::Error> for Error {
    open spec fn obeys_from_spec() -> bool {
        true
    }

    open spec fn from_spec(v: std::io::Error) -> Error {
        Error::IoError(v)
    }
}

impl From<EngineFault> for Error {
    fn from(err: EngineFault) -> (r: Error) {
        Error::RquestError(err)
    }
}

impl vstd::std_specs::convert::FromSpecImpl<EngineFault> for Error {
    open spec fn obeys_from_spec() -> bool {
        true
    }

    open spec fn from_spec(v: EngineFault) -> Error {
        Error::RquestError(v)
    }
}

/// Every fault is raised with a message that is not empty, whatever the
/// rendering of its payload.
pub proof fn lemma_message_nonempty(e: &Error, detail: Seq<char>)
    ensures
        e.spec_message(detail).len() > 0,
{
    reveal_strlit("Due to Rust's memory management with borrowing,
you cannot use certain instances multiple times as they may be consumed.

This error can occur in the following cases:
1) You passed a non-clonable instance to a function that requires ownership.
2) You attempted to use a method that consumes ownership more than once (e.g., reading a response body twice).
3) You tried to reference an instance after it was borrowed.

Potential solutions:
1) Avoid sharing instances; create a new instance each time you use it.
2) Refrain from performing actions that consume ownership multiple times.
3) Change the order of operations to reference the instance before borrowing it.
");
    reveal_strlit("The iterator is exhausted");
    reveal_strlit("The WebSocket has been disconnected");
    reveal_strlit("Invalid header name: ");
    reveal_strlit("Invalid header value: ");
    reveal_strlit("URL parse error: ");
    reveal_strlit("IO error: ");
    reveal_strlit(" error: ");
    reveal_strlit("Unknown error occurred: ");
}

} // verus!
