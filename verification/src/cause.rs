//! The shared handle to a wrapped cause.

use std::fmt::Write;
use std::sync::Arc;
use vstd::prelude::*;

verus! {

/// A shared, read-only handle to the error object that caused another error.
///
/// The object sits in one reference-counted allocation. Every clone of the
/// handle points to that same allocation, and nothing reachable through a handle
/// can change the object. The field is the `Arc` itself: callers read the object
/// through it. No function of this crate puts a handle that already exists into
/// a new error; a handle is shared only by the clones of the error that holds
/// it, and by whoever took it out of one.
///
/// Verus does not look inside. In contracts a handle stands for its
/// allocation: two handles are equal there exactly when they share one, whatever
/// the objects hold.
#[verifier::external_body]
#[derive(Debug)]
pub struct ArcError(pub Arc<dyn std::error::Error + Send + Sync>);

/// A borrowed error object, as the `source` of `std::error::Error` hands it
/// out. Verus does not look inside; the field is the reference itself.
#[verifier::external_body]
pub struct SourceRef<'a>(pub &'a (dyn std::error::Error + 'static));

/// A borrowed error object, as the `cause` of `std::error::Error` hands it out.
/// Verus does not look inside; the field is the reference itself.
#[verifier::external_body]
pub struct CauseRef<'a>(pub &'a dyn std::error::Error);

/// An owned, boxed error object that no handle points to yet: what a custom
/// error is made from. Verus does not look inside; the field is the `Box`
/// itself, so callers make one by putting a `Box` into it.
#[verifier::external_body]
pub struct BoxError(pub Box<dyn std::error::Error + Send + Sync>);

/// Moves a boxed error object into a new shared allocation, by the standard
/// conversion from `Box` to `Arc`. Nothing is claimed of the new handle.
#[verifier::external_body]
pub(crate) fn from_box(object: BoxError) -> (handle: ArcError) {
    ArcError(object.0.into())
}

/// Calls `Arc::ptr_eq`. The contract claims that it answers whether the two
/// handles share an allocation, which is what equality of handles means in
/// contracts.
#[verifier::external_body]
pub(crate) fn ptr_eq(a: &ArcError, b: &ArcError) -> (same: bool)
    ensures
        same == (*a == *b),
{
    Arc::ptr_eq(&a.0, &b.0)
}

/// Calls `Arc::clone`. The contract claims that the new handle points to the
/// allocation of the old one.
#[verifier::external_body]
pub(crate) fn share(handle: &ArcError) -> (other: ArcError)
    ensures
        other == *handle,
{
    ArcError(handle.0.clone())
}

/// Writes the wrapped object into a new string, as its own `Display` does, and
/// gives `None` where that `Display` reports a failure. Nothing is claimed of
/// the text: the object decides it.
#[verifier::external_body]
pub(crate) fn message(handle: &ArcError) -> (text: Option<String>) {
    let mut text = String::new();
    match write!(text, "{}", handle.0) {
        Ok(()) => Some(text),
        Err(_) => None,
    }
}

/// Asks the wrapped object for its `source`. Nothing is claimed of the answer:
/// the object decides it.
#[verifier::external_body]
pub(crate) fn source(handle: &ArcError) -> (next: Option<SourceRef<'_>>) {
    match handle.0.source() {
        Some(object) => Some(SourceRef(object)),
        None => None,
    }
}

/// Asks the wrapped object for its `cause`, the older form of `source`. Nothing
/// is claimed of the answer: the object decides it.
#[verifier::external_body]
#[allow(deprecated)]
pub(crate) fn cause(handle: &ArcError) -> (next: Option<CauseRef<'_>>) {
    match handle.0.cause() {
        Some(object) => Some(CauseRef(object)),
        None => None,
    }
}

impl Clone for ArcError {
    /// Another handle to the same object. The object is not copied.
    fn clone(&self) -> (other: Self)
        ensures
            other == *self,
    {
        share(self)
    }
}

impl PartialEq for ArcError {
    /// Whether both handles point to one allocation. What the objects hold plays
    /// no part.
    fn eq(&self, other: &Self) -> (same: bool) {
        ptr_eq(self, other)
    }
}

impl vstd::std_specs::cmp::PartialEqSpecImpl for ArcError {
    open spec fn obeys_eq_spec() -> bool {
        true
    }

    open spec fn eq_spec(&self, other: &Self) -> bool {
        *self == *other
    }
}

impl Eq for ArcError {

}

} // verus!
