use vstd::prelude::*;

use crate::class::ExceptionClass;

verus! {

/// One of the tests that classify a fault of the networking engine.
#[derive(Clone, Copy, Debug, PartialEq, Eq, Structural)]
pub enum Predicate {
    Body,
    Connect,
    ConnectionReset,
    Decode,
    Redirect,
    Timeout,
    Status,
    Request,
    Builder,
}

/// The order in which the predicates are tested: the first that holds
/// decides the class of a fault that satisfies several.
pub open spec fn cascade_order() -> Seq<Predicate> {
    seq![
        Predicate::Body,
        Predicate::Connect,
        Predicate::ConnectionReset,
        Predicate::Decode,
        Predicate::Redirect,
        Predicate::Timeout,
        Predicate::Status,
        Predicate::Request,
        Predicate::Builder,
    ]
}

impl Predicate {
    /// The predicate's name, which opens the message of a fault it matches.
    pub open spec fn spec_name(self) -> Seq<char> {
        match self {
            Predicate::Body => "is_body"@,
            Predicate::Connect => "is_connect"@,
            Predicate::ConnectionReset => "is_connection_reset"@,
            Predicate::Decode => "is_decode"@,
            Predicate::Redirect => "is_redirect"@,
            Predicate::Timeout => "is_timeout"@,
            Predicate::Status => "is_status"@,
            Predicate::Request => "is_request"@,
            Predicate::Builder => "is_builder"@,
        }
    }

    /// The class that a fault matched by this predicate is raised as.
    pub open spec fn spec_target(self) -> ExceptionClass {
        match self {
            Predicate::Body => ExceptionClass::BodyError,
            Predicate::Connect => ExceptionClass::ConnectionError,
            Predicate::ConnectionReset => ExceptionClass::ConnectionError,
            Predicate::Decode => ExceptionClass::DecodingError,
            Predicate::Redirect => ExceptionClass::RedirectError,
            Predicate::Timeout => ExceptionClass::TimeoutError,
            Predicate::Status => ExceptionClass::StatusError,
            Predicate::Request => ExceptionClass::RequestError,
            Predicate::Builder => ExceptionClass::BuilderError,
        }
    }

    pub fn name(&self) -> (r: &'static str)
        ensures
            r@ == self.spec_name(),
    {
        match self {
            Predicate::Body => "is_body",
            Predicate::Connect => "is_connect",
            Predicate::ConnectionReset => "is_connection_reset",
            Predicate::Decode => "is_decode",
            Predicate::Redirect => "is_redirect",
            Predicate::Timeout => "is_timeout",
            Predicate::Status => "is_status",
            Predicate::Request => "is_request",
            Predicate::Builder => "is_builder",
        }
    }

    pub fn target(&self) -> (r: ExceptionClass)
        ensures
            r == self.spec_target(),
    {
        match self {
            Predicate::Body => ExceptionClass::BodyError,
            Predicate::Connect => ExceptionClass::ConnectionError,
            Predicate::ConnectionReset => ExceptionClass::ConnectionError,
            Predicate::Decode => ExceptionClass::DecodingError,
            Predicate::Redirect => ExceptionClass::RedirectError,
            Predicate::Timeout => ExceptionClass::TimeoutError,
            Predicate::Status => ExceptionClass::StatusError,
            Predicate::Request => ExceptionClass::RequestError,
            Predicate::Builder => ExceptionClass::BuilderError,
        }
    }
}

/// The predicates in the order in which they are tested.
pub fn cascade() -> (r: Vec<Predicate>)
    ensures
        r@ == cascade_order(),
{
    let r = vec![
        Predicate::Body,
        Predicate::Connect,
        Predicate::ConnectionReset,
        Predicate::Decode,
        Predicate::Redirect,
        Predicate::Timeout,
        Predicate::Status,
        Predicate::Request,
        Predicate::Builder,
    ];
    assert(r@ =~= cascade_order());
    r
}

/// A fault of the networking engine, as the classification sees it: which of
/// the engine's predicates hold of it, and its `Debug` rendering.
#[derive(Debug)]
pub struct EngineFault {
    pub is_body: bool,
    pub is_connect: bool,
    pub is_connection_reset: bool,
    pub is_decode: bool,
    pub is_redirect: bool,
    pub is_timeout: bool,
    pub is_status: bool,
    pub is_request: bool,
    pub is_builder: bool,
    pub detail: String,
}

/// The first predicate of `order` that holds of `f`.
pub open spec fn first_holding(f: EngineFault, order: Seq<Predicate>) -> Option<Predicate>
    decreases order.len(),
{
    if order.len() == 0 {
        None
    } else if f.spec_holds(order[0]) {
        Some(order[0])
    } else {
        first_holding(f, order.drop_first())
    }
}

impl EngineFault {
    pub open spec fn spec_holds(self, p: Predicate) -> bool {
        match p {
            Predicate::Body => self.is_body,
            Predicate::Connect => self.is_connect,
            Predicate::ConnectionReset => self.is_connection_reset,
            Predicate::Decode => self.is_decode,
            Predicate::Redirect => self.is_redirect,
            Predicate::Timeout => self.is_timeout,
            Predicate::Status => self.is_status,
            Predicate::Request => self.is_request,
            Predicate::Builder => self.is_builder,
        }
    }

    /// The predicate that decides this fault's class, if any holds.
    pub open spec fn spec_matched(self) -> Option<Predicate> {
        first_holding(self, cascade_order())
    }

    /// The class this fault is raised as.
    pub open spec fn spec_class(self) -> ExceptionClass {
        match self.spec_matched() {
            Some(p) => p.spec_target(),
            None => ExceptionClass::UnknownError,
        }
    }

    pub fn holds(&self, p: Predicate) -> (r: bool)
        ensures
            r == self.spec_holds(p),
    {
        match p {
            Predicate::Body => self.is_body,
            Predicate::Connect => self.is_connect,
            Predicate::ConnectionReset => self.is_connection_reset,
            Predicate::Decode => self.is_decode,
            Predicate::Redirect => self.is_redirect,
            Predicate::Timeout => self.is_timeout,
            Predicate::Status => self.is_status,
            Predicate::Request => self.is_request,
            Predicate::Builder => self.is_builder,
        }
    }

    /// Tests the predicates in cascade order and returns the first that holds.
    pub fn matched(&self) -> (r: Option<Predicate>)
        ensures
            r == self.spec_matched(),
    {
        let order = cascade();
        let n = order.len();
        let mut i: usize = 0;
        assert(order@.subrange(0, n as int) =~= order@);
        while i < n
            invariant
                order@ == cascade_order(),
                n == order@.len(),
                i <= n,
                first_holding(*self, cascade_order()) == first_holding(
                    *self,
                    order@.subrange(i as int, n as int),
                ),
            decreases n - i,
        {
            let p = order[i];
            proof {
                let rest = order@.subrange(i as int, n as int);
                assert(rest[0] == p);
                assert(rest.drop_first() =~= order@.subrange(i + 1, n as int));
            }
            if self.holds(p) {
                return Some(p);
            }
            i = i + 1;
        }
        assert(order@.subrange(n as int, n as int).len() == 0);
        None
    }

    /// The class this fault is raised as.
    pub fn class(&self) -> (r: ExceptionClass)
        ensures
            r == self.spec_class(),
    {
        match self.matched() {
            Some(p) => p.target(),
            None => ExceptionClass::UnknownError,
        }
    }
}

} // verus!
