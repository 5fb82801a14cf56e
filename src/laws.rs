use vstd::prelude::*;

use crate::class::ExceptionClass;
use crate::engine::{cascade_order, first_holding, EngineFault, Predicate};
use crate::error::{Error, UNKNOWN_PREFIX};

verus! {

/// Two engine faults of which the same predicates hold are matched by the
/// same predicate of any order.
proof fn lemma_first_holding_same_predicates(a: EngineFault, b: EngineFault, order: Seq<Predicate>)
    requires
        forall|p: Predicate| a.spec_holds(p) == b.spec_holds(p),
    ensures
        first_holding(a, order) == first_holding(b, order),
    decreases order.len(),
{
    if order.len() > 0 {
        lemma_first_holding_same_predicates(a, b, order.drop_first());
    }
}

/// Engine faults of which the same predicates hold are raised as the same
/// class, and their messages differ only by the rendering of the fault.
pub proof fn lemma_classification_deterministic(a: EngineFault, b: EngineFault, detail: Seq<char>)
    requires
        forall|p: Predicate| a.spec_holds(p) == b.spec_holds(p),
    ensures
        a.spec_class() == b.spec_class(),
        Error::RquestError(a).spec_class() == Error::RquestError(b).spec_class(),
        Error::RquestError(a).spec_message(detail) == Error::RquestError(b).spec_message(detail),
{
    lemma_first_holding_same_predicates(a, b, cascade_order());
}

/// Predicates of `order` that do not hold can be skipped.
proof fn lemma_skip_failing(f: EngineFault, order: Seq<Predicate>, k: int)
    requires
        0 <= k <= order.len(),
        forall|j: int| 0 <= j < k ==> !f.spec_holds(#[trigger] order[j]),
    ensures
        first_holding(f, order) == first_holding(f, order.subrange(k, order.len() as int)),
    decreases k,
{
    if k == 0 {
        assert(order.subrange(0, order.len() as int) =~= order);
    } else {
        lemma_skip_failing(f, order, k - 1);
        let rest = order.subrange(k - 1, order.len() as int);
        assert(rest[0] == order[k - 1]);
        assert(rest.drop_first() =~= order.subrange(k, order.len() as int));
    }
}

/// A fault whose first holding predicate in cascade order is the `i`-th is
/// raised as that predicate's class, whichever later predicates hold too.
pub proof fn lemma_first_holding_decides(f: EngineFault, i: int)
    requires
        0 <= i < cascade_order().len(),
        f.spec_holds(cascade_order()[i]),
        forall|j: int| 0 <= j < i ==> !f.spec_holds(#[trigger] cascade_order()[j]),
    ensures
        f.spec_matched() == Some(cascade_order()[i]),
        f.spec_class() == cascade_order()[i].spec_target(),
{
    lemma_skip_failing(f, cascade_order(), i);
    assert(cascade_order().subrange(i, 9)[0] == cascade_order()[i]);
}

/// A fault that is both a connect fault and a timeout fault, and not a body
/// fault, is raised as `ConnectionError`: connect is tested before timeout.
pub proof fn lemma_connect_precedes_timeout(f: EngineFault)
    requires
        !f.is_body,
        f.is_connect,
        f.is_timeout,
    ensures
        f.spec_matched() == Some(Predicate::Connect),
        f.spec_class() == ExceptionClass::ConnectionError,
        Error::RquestError(f).spec_class() == ExceptionClass::ConnectionError,
{
    assert(cascade_order()[0] == Predicate::Body);
    lemma_first_holding_decides(f, 1);
}

/// A header-name fault converts to the header-name variant and a header-value
/// fault to the header-value variant, and their messages never coincide.
pub proof fn lemma_header_faults_distinct(
    n: http::header::InvalidHeaderName,
    v: http::header::InvalidHeaderValue,
    dn: Seq<char>,
    dv: Seq<char>,
)
    ensures
        <Error as vstd::std_specs::convert::FromSpec<_>>::from_spec(n) is InvalidHeaderName,
        <Error as vstd::std_specs::convert::FromSpec<_>>::from_spec(v) is InvalidHeaderValue,
        Error::InvalidHeaderName(n).spec_message(dn) != Error::InvalidHeaderValue(v).spec_message(
            dv,
        ),
{
    reveal_strlit("Invalid header name: ");
    reveal_strlit("Invalid header value: ");
    let mn = Error::InvalidHeaderName(n).spec_message(dn);
    let mv = Error::InvalidHeaderValue(v).spec_message(dv);
    assert(mn[15] != mv[15]);
}

/// A fault of which no predicate holds is raised as `UnknownError`, with a
/// message that opens with "Unknown error occurred:".
pub proof fn lemma_unmatched_is_unknown(f: EngineFault, detail: Seq<char>)
    requires
        forall|p: Predicate| !f.spec_holds(p),
    ensures
        f.spec_matched() is None,
        f.spec_class() == ExceptionClass::UnknownError,
        Error::RquestError(f).spec_message(detail) == UNKNOWN_PREFIX@ + detail,
        Error::RquestError(f).spec_message(detail).subrange(0, 23) == "Unknown error occurred:"@,
{
    assert forall|j: int| 0 <= j < 9 implies !f.spec_holds(#[trigger] cascade_order()[j]) by {}
    lemma_skip_failing(f, cascade_order(), 9);
    reveal_strlit("Unknown error occurred: ");
    reveal_strlit("Unknown error occurred:");
    assert((UNKNOWN_PREFIX@ + detail).subrange(0, 23) =~= "Unknown error occurred:"@);
}

/// The four faults raised without a payload stand outside `BaseError`, and
/// each has a fixed message that no rendering changes.
pub proof fn lemma_usage_errors_isolated(e: &Error, d1: Seq<char>, d2: Seq<char>)
    requires
        e.spec_is_usage_error(),
    ensures
        !e.spec_class().spec_is_base_error(),
        e.spec_message(d1) == e.spec_message(d2),
        e.spec_known_detail() is Some,
{
}

} // verus!
