//! The standard library's I/O error, as far as this crate reads it.
//!
//! `std::io::Error` and `std::io::ErrorKind` are opaque to Verus. Each
//! function below makes one call into `std::io` and states, without proof, what
//! the standard library documents of that call. Everything else in the crate is
//! proved from these statements.

use crate::cause::BoxError;
use std::fmt::Write;
use vstd::prelude::*;

verus! {

/// `std::io::ErrorKind`, carried and compared but never looked into.
#[verifier::external_type_specification]
#[verifier::external_body]
pub struct ExErrorKind(std::io::ErrorKind);

/// `std::io::Error`, carried but never looked into.
#[verifier::external_type_specification]
#[verifier::external_body]
pub struct ExIoError(std::io::Error);

/// The raw platform code that `std::io::Error::raw_os_error` reports for `e`.
pub uninterp spec fn raw_code_of(e: std::io::Error) -> Option<i32>;

/// The classification that `std::io::Error::kind` reports for `e`.
pub uninterp spec fn kind_of(e: std::io::Error) -> std::io::ErrorKind;

/// The classification that the platform gives to the raw code `code`: what
/// `std::io::Error::kind` reports for every error that carries this code. It is
/// fixed for one build of the standard library and differs between platforms.
pub uninterp spec fn kind_of_code(code: i32) -> std::io::ErrorKind;

/// Whether `std::io::Error::into_inner` finds a wrapped error inside `e`.
pub uninterp spec fn carries_cause(e: std::io::Error) -> bool;

/// The error that `From<std::io::ErrorKind>` of `std::io::Error` makes from
/// `kind`: the bare classification, the same whenever it is made.
pub uninterp spec fn error_of_kind(kind: std::io::ErrorKind) -> std::io::Error;

/// The text that `Display` of `std::io::Error` writes for the bare
/// classification `kind`: a fixed description that belongs to the
/// classification.
pub uninterp spec fn text_of_kind(kind: std::io::ErrorKind) -> Seq<char>;

/// Calls `std::io::Error::raw_os_error`. The contract gives the answer its
/// name. It also claims what the standard library documents of an error that
/// carries a raw code: it wraps no error object, and its classification is the
/// platform's for that code.
#[verifier::external_body]
pub(crate) fn raw_os_error(e: &std::io::Error) -> (code: Option<i32>)
    ensures
        code == raw_code_of(*e),
        code is Some ==> !carries_cause(*e),
        code matches Some(raw) ==> kind_of(*e) == kind_of_code(raw),
{
    e.raw_os_error()
}

/// Calls `std::io::Error::kind`. The contract gives the answer its name and
/// claims that, for an error that carries a raw code, the answer is inferred
/// from that code alone.
#[verifier::external_body]
pub(crate) fn kind(e: &std::io::Error) -> (kind: std::io::ErrorKind)
    ensures
        kind == kind_of(*e),
        raw_code_of(*e) matches Some(code) ==> kind == kind_of_code(code),
{
    e.kind()
}

/// Calls `std::io::Error::into_inner`, which consumes the error. The contract
/// only gives a name to whether a wrapped error comes out; the boxed object
/// itself stays opaque.
#[verifier::external_body]
pub(crate) fn into_inner(e: std::io::Error) -> (inner: Option<BoxError>)
    ensures
        inner is Some <==> carries_cause(e),
{
    match e.into_inner() {
        Some(object) => Some(BoxError(object)),
        None => None,
    }
}

/// Calls `std::io::Error::from_raw_os_error`. The contract claims that the new
/// error carries exactly the code it was made from.
#[verifier::external_body]
pub(crate) fn from_raw_os_error(code: i32) -> (e: std::io::Error)
    ensures
        raw_code_of(e) == Some(code),
{
    std::io::Error::from_raw_os_error(code)
}

/// Calls `std::io::Error::last_os_error`, which reads the calling thread's last
/// platform error. Which code comes back is not known; the contract claims only
/// that the error carries one.
#[verifier::external_body]
pub(crate) fn last_os_error() -> (e: std::io::Error)
    ensures
        raw_code_of(e) is Some,
{
    std::io::Error::last_os_error()
}

/// Compares two classifications with `==` of `std::io::ErrorKind`. The kind is an
/// enum without fields, so the contract claims that `==` holds exactly of equal
/// values.
#[verifier::external_body]
pub(crate) fn same_kind(a: std::io::ErrorKind, b: std::io::ErrorKind) -> (same: bool)
    ensures
        same == (a == b),
{
    a == b
}

/// Calls `From<std::io::ErrorKind>` of `std::io::Error`. The contract gives the
/// new error its name and claims that it is the given classification and
/// nothing else: it carries no raw code and wraps no error object.
#[verifier::external_body]
pub(crate) fn from_kind(kind: std::io::ErrorKind) -> (e: std::io::Error)
    ensures
        e == error_of_kind(kind),
        raw_code_of(e) is None,
        !carries_cause(e),
        kind_of(e) == kind,
{
    std::io::Error::from(kind)
}

/// Writes a standard I/O error into a new string, as its `Display` does, and
/// gives `None` where that `Display` reports a failure. Writing into a string
/// fails only where the `Display` itself does, and the contract claims of two
/// sorts of error that it does not and that it writes something. For an error
/// with a raw code the text is the platform's message followed by the code; the
/// message may follow the locale, so the text gets no name. For an error made
/// from a bare classification the text is the fixed description of that
/// classification, by name. Nothing is claimed of any other error.
#[verifier::external_body]
pub(crate) fn message(e: &std::io::Error) -> (text: Option<String>)
    ensures
        raw_code_of(*e) is Some ==> text is Some && text->0@.len() > 0,
        *e == error_of_kind(kind_of(*e)) ==> text is Some && text->0@.len() > 0,
        *e == error_of_kind(kind_of(*e)) ==> text is Some && text->0@ == text_of_kind(
            kind_of(*e),
        ),
{
    let mut text = String::new();
    match write!(text, "{}", e) {
        Ok(()) => Some(text),
        Err(_) => None,
    }
}

} // verus!
