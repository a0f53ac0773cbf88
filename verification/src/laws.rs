//! What holds of errors in general, proved from the contracts of their
//! operations.

use crate::cause::ArcError;
use crate::error::Error;
use vstd::prelude::*;
use vstd::std_specs::cmp::PartialEqSpec;

verus! {

/// An error made from a raw code gives that code back: whatever
/// `from_raw_os_error(code)` returns, `raw_os_error` reads `Some(code)` from it.
pub proof fn lemma_raw_code_round_trip(code: i32, made: Error, read: Option<i32>)
    requires
        call_ensures(Error::from_raw_os_error, (code,), made),
        call_ensures(Error::raw_os_error, (&made,), read),
    ensures
        read == Some(code),
{
}

/// Every error, of any shape, is equal to its clone.
pub proof fn lemma_clone_is_equal(e: Error, clone: Error)
    requires
        call_ensures(Error::clone, (&e,), clone),
    ensures
        clone.eq_spec(&e),
        e.eq_spec(&clone),
{
}

/// `==` on errors is an equivalence relation.
pub proof fn lemma_equality_is_equivalence(a: Error, b: Error, c: Error)
    ensures
        a.eq_spec(&a),
        a.eq_spec(&b) ==> b.eq_spec(&a),
        a.eq_spec(&b) && b.eq_spec(&c) ==> a.eq_spec(&c),
{
}

/// Two errors are equal exactly when they have the same view: the same shape
/// with the same content. This holds for every shape.
pub proof fn lemma_equal_exactly_when_same_view(a: Error, b: Error)
    ensures
        a.eq_spec(&b) <==> a@ == b@,
{
}

/// Equal errors have equal classifications: whatever `kind` returns for the one
/// it returns for the other. In particular two calls of `kind` on one error
/// agree.
pub proof fn lemma_equal_errors_have_equal_kinds(
    a: Error,
    b: Error,
    kind_a: std::io::ErrorKind,
    kind_b: std::io::ErrorKind,
)
    requires
        a.eq_spec(&b),
        call_ensures(Error::kind, (&a,), kind_a),
        call_ensures(Error::kind, (&b,), kind_b),
    ensures
        a@.kind() == b@.kind(),
        kind_a == kind_b,
{
}

/// An error without a cause is equal to another error exactly when both have
/// the same shape and content. Where and when the two were made plays no part.
pub proof fn lemma_plain_errors_compare_by_value(a: Error, b: Error)
    requires
        !(a@ is Custom),
    ensures
        a.eq_spec(&b) <==> a@ == b@,
{
}

/// Two custom errors are equal exactly when they have the same classification
/// and `==` holds of their handles, that is when both handles point to one
/// allocation. Handles to two allocations make the errors unequal even where
/// the wrapped objects hold the same content.
pub proof fn lemma_custom_errors_compare_by_kind_and_handle(a: Error, b: Error)
    requires
        a@ is Custom,
        b@ is Custom,
    ensures
        a.eq_spec(&b) <==> a@.kind() == b@.kind() && a@->cause.eq_spec(&b@->cause),
        !a@->cause.eq_spec(&b@->cause) ==> !a.eq_spec(&b),
{
}

/// The handle that `into_inner` gives away is the one that `get_ref` lends: for a
/// custom error both are present and `==` holds of them, for every other error
/// both are absent.
pub proof fn lemma_into_inner_gives_the_lent_handle(
    e: Error,
    lent: Option<&ArcError>,
    given: Option<ArcError>,
)
    requires
        call_ensures(Error::get_ref, (&e,), lent),
        call_ensures(Error::into_inner, (e,), given),
    ensures
        e@ is Custom ==> lent is Some && given is Some && given->0.eq_spec(lent->0),
        !(e@ is Custom) ==> lent is None && given is None,
{
}

} // verus!
