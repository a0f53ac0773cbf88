//! The error value, its model and its operations.

use crate::cause::{ArcError, BoxError, CauseRef, SourceRef};
use crate::platform::{carries_cause, kind_of, kind_of_code, raw_code_of, text_of_kind};
use std::io::ErrorKind;
use vstd::prelude::*;

verus! {

/// What an [`Error`] is, as contracts see it: exactly one of three shapes, fixed
/// when the error is made.
pub enum ErrorView {
    /// A raw platform code. Its classification is looked up when asked for.
    Os { code: i32 },
    /// A classification and nothing else.
    Simple { kind: ErrorKind },
    /// A classification and a shared handle to the cause.
    Custom { kind: ErrorKind, cause: ArcError },
}

impl ErrorView {
    /// The raw platform code, present only in the `Os` shape.
    pub open spec fn raw_code(self) -> Option<i32> {
        match self {
            ErrorView::Os { code } => Some(code),
            _ => None,
        }
    }

    /// The classification: the platform's for a raw code, the stored one
    /// otherwise.
    pub open spec fn kind(self) -> ErrorKind {
        match self {
            ErrorView::Os { code } => kind_of_code(code),
            ErrorView::Simple { kind } => kind,
            ErrorView::Custom { kind, .. } => kind,
        }
    }

    /// The handle to the cause, present only in the `Custom` shape.
    pub open spec fn handle(self) -> Option<ArcError> {
        match self {
            ErrorView::Custom { cause, .. } => Some(cause),
            _ => None,
        }
    }

    /// Where the text that describes an error of this shape comes from.
    pub open spec fn text_source<'a>(self) -> TextSource<'a> {
        match self {
            ErrorView::Os { code } => TextSource::Platform { code },
            ErrorView::Simple { kind } => TextSource::Classification { kind },
            ErrorView::Custom { cause, .. } => TextSource::Cause { handle: &cause },
        }
    }

    /// Whether `text` is a description of an error of this shape. For a raw code
    /// it is what the standard library wrote for an error made from that very
    /// code; for a bare classification, what it wrote for an error made from that
    /// very classification; for a custom error, what the wrapped object wrote of
    /// itself when asked through this very handle. It is absent where the one
    /// that was asked reported a failure.
    pub closed spec fn is_described_by(self, text: Option<String>) -> bool {
        match self {
            ErrorView::Os { code } => is_message_for_code(code, text),
            ErrorView::Simple { kind } => is_message_for_kind(kind, text),
            ErrorView::Custom { cause, .. } => call_ensures(crate::cause::message, (&cause,), text),
        }
    }

    /// Whether `next` is the source of an error of this shape: absent for an
    /// error without a cause, and for a custom error an answer that the wrapped
    /// object gave when its `source` was asked through this very handle.
    pub closed spec fn has_source<'a>(self, next: Option<SourceRef<'a>>) -> bool {
        match self {
            ErrorView::Custom { cause, .. } => call_ensures(crate::cause::source, (&cause,), next),
            _ => next is None,
        }
    }

    /// As [`ErrorView::has_source`], for the older `cause` of the wrapped object.
    pub closed spec fn has_cause<'a>(self, next: Option<CauseRef<'a>>) -> bool {
        match self {
            ErrorView::Custom { cause, .. } => call_ensures(crate::cause::cause, (&cause,), next),
            _ => next is None,
        }
    }

    /// What `==` on errors means. Both must have the same shape. Raw codes
    /// compare by code, never by the classification that the platform derives
    /// from them, and bare classifications compare by value. Custom errors
    /// compare by classification and by handle, that is by allocation: what the
    /// wrapped objects hold plays no part.
    pub open spec fn equals(self, other: ErrorView) -> bool {
        match (self, other) {
            (ErrorView::Os { code: a }, ErrorView::Os { code: b }) => a == b,
            (ErrorView::Simple { kind: a }, ErrorView::Simple { kind: b }) => a == b,
            (
                ErrorView::Custom { kind: ka, cause: a },
                ErrorView::Custom { kind: kb, cause: b },
            ) => ka == kb && a == b,
            _ => false,
        }
    }
}

/// Where the text that describes an error comes from.
pub enum TextSource<'a> {
    /// The platform's message for a raw code.
    Platform { code: i32 },
    /// The standard text for a classification.
    Classification { kind: ErrorKind },
    /// What the wrapped object behind the handle says of itself.
    Cause { handle: &'a ArcError },
}

#[derive(Debug)]
enum Repr {
    Os(i32),
    Simple(ErrorKind),
    Custom(ErrorKind, ArcError),
}

/// An I/O error that can be cloned and compared.
///
/// It never changes after it is made. Cloning copies a code or a classification,
/// or shares the handle to the cause; the cause itself is never copied.
#[derive(Debug)]
pub struct Error(Repr);

impl View for Error {
    type V = ErrorView;

    closed spec fn view(&self) -> ErrorView {
        match self.0 {
            Repr::Os(code) => ErrorView::Os { code },
            Repr::Simple(kind) => ErrorView::Simple { kind },
            Repr::Custom(kind, cause) => ErrorView::Custom { kind, cause },
        }
    }
}

/// Whether `text` is what the standard library wrote for an error made from the
/// raw code `code`.
pub closed spec fn is_message_for_code(code: i32, text: Option<String>) -> bool {
    exists|e: std::io::Error|
        #[trigger] call_ensures(crate::platform::from_raw_os_error, (code,), e)
            && call_ensures(crate::platform::message, (&e,), text)
}

/// Whether `text` is what the standard library wrote for an error made from the
/// classification `kind`.
pub closed spec fn is_message_for_kind(kind: ErrorKind, text: Option<String>) -> bool {
    exists|e: std::io::Error|
        #[trigger] call_ensures(crate::platform::from_kind, (kind,), e)
            && call_ensures(crate::platform::message, (&e,), text)
}

/// Whether `handle` is a handle that was made for `object`: the boxed object,
/// moved into a shared allocation of its own.
pub closed spec fn wraps(handle: ArcError, object: BoxError) -> bool {
    call_ensures(crate::cause::from_box, (object,), handle)
}

/// Whether `handle` is a handle that was made for the error object wrapped in
/// `e`: the object that `std::io::Error::into_inner` took out of `e`, moved into
/// a shared allocation of its own.
pub closed spec fn holds_cause_of(handle: ArcError, e: std::io::Error) -> bool {
    exists|object: BoxError|
        #[trigger] call_ensures(crate::platform::into_inner, (e,), Some(object)) && wraps(
            handle,
            object,
        )
}

/// Whether `code` is a raw code that the platform reported as the calling
/// thread's last error.
pub closed spec fn is_last_os_error(code: i32) -> bool {
    exists|e: std::io::Error|
        #[trigger] call_ensures(crate::platform::last_os_error, (), e)
            && raw_code_of(e) == Some(code)
}

impl From<std::io::Error> for Error {
    /// Takes over what a standard I/O error carries. An error with a raw platform
    /// code becomes that code. Any other error keeps its classification, and a
    /// wrapped cause, if there is one, moves into a new shared handle. Either
    /// way the classification stays what it was, and a cause is there afterwards
    /// exactly when one was there before.
    fn from(e: std::io::Error) -> (error: Error)
        ensures
            match raw_code_of(e) {
                Some(code) => error@ == (ErrorView::Os { code }),
                None => if carries_cause(e) {
                    error@ matches ErrorView::Custom { kind, cause } && kind == kind_of(e)
                        && holds_cause_of(cause, e)
                } else {
                    error@ == (ErrorView::Simple { kind: kind_of(e) })
                },
            },
            error@ is Custom <==> carries_cause(e),
            error@.kind() == kind_of(e),
    {
        if let Some(os) = crate::platform::raw_os_error(&e) {
            return Error(Repr::Os(os));
        }
        let kind = crate::platform::kind(&e);
        Error(
            if let Some(inner) = crate::platform::into_inner(e) {
                Repr::Custom(kind, crate::cause::from_box(inner))
            } else {
                Repr::Simple(kind)
            },
        )
    }
}

impl vstd::std_specs::convert::FromSpecImpl<std::io::Error> for Error {
    /// The conversion is no function of its argument, because a wrapped cause
    /// moves into a new allocation. What it returns is stated on `from` itself.
    open spec fn obeys_from_spec() -> bool {
        false
    }

    open spec fn from_spec(e: std::io::Error) -> Error {
        arbitrary()
    }
}

impl From<ErrorKind> for Error {
    /// An error that is the classification `kind` and nothing else.
    fn from(kind: ErrorKind) -> (error: Error)
        ensures
            error@ == (ErrorView::Simple { kind }),
    {
        Error(Repr::Simple(kind))
    }
}

impl vstd::std_specs::convert::FromSpecImpl<ErrorKind> for Error {
    open spec fn obeys_from_spec() -> bool {
        true
    }

    closed spec fn from_spec(kind: ErrorKind) -> Error {
        Error(Repr::Simple(kind))
    }
}

impl Error {
    /// An error with the classification `kind`, caused by the object `error`.
    /// The object moves into a new shared allocation, and the error holds the
    /// first handle to it: no error made elsewhere shares its cause.
    pub fn new(kind: ErrorKind, error: BoxError) -> (made: Error)
        ensures
            made@ matches ErrorView::Custom { kind: stored, cause } && stored == kind && wraps(
                cause,
                error,
            ),
    {
        Error(Repr::Custom(kind, crate::cause::from_box(error)))
    }

    /// The calling thread's last platform error. It is read once, when this is
    /// called, and which code it is depends on what the thread did before.
    pub fn last_os_error() -> (error: Error)
        ensures
            error@ matches ErrorView::Os { code } && is_last_os_error(code),
    {
        Error::from(crate::platform::last_os_error())
    }

    /// An error that is the raw platform code `code`. The platform is not asked
    /// about the code here.
    pub fn from_raw_os_error(code: i32) -> (error: Error)
        ensures
            error@ == (ErrorView::Os { code }),
    {
        Error(Repr::Os(code))
    }

    /// The raw platform code, if this error is one.
    pub fn raw_os_error(&self) -> (code: Option<i32>)
        ensures
            code == self@.raw_code(),
    {
        if let Repr::Os(os) = &self.0 {
            Some(*os)
        } else {
            None
        }
    }

    /// The handle to the cause, if this error has one. The wrapped object is
    /// read through the handle.
    pub fn get_ref(&self) -> (cause: Option<&ArcError>)
        ensures
            cause is Some <==> self@ is Custom,
            match cause {
                Some(handle) => self@.handle() == Some(*handle),
                None => self@.handle() is None,
            },
    {
        if let Repr::Custom(_, err) = &self.0 {
            Some(err)
        } else {
            None
        }
    }

    /// Gives up the error for the handle to its cause, if it has one. The handle
    /// is the error's own, not a clone of it.
    pub fn into_inner(self) -> (cause: Option<ArcError>)
        ensures
            cause is Some <==> self@ is Custom,
            cause == self@.handle(),
    {
        if let Repr::Custom(_, err) = self.0 {
            Some(err)
        } else {
            None
        }
    }

    /// The classification. For a raw code the platform is asked each time; the
    /// other shapes give back what they store.
    pub fn kind(&self) -> (kind: ErrorKind)
        ensures
            kind == self@.kind(),
    {
        match &self.0 {
            Repr::Os(os) => crate::platform::kind(&crate::platform::from_raw_os_error(*os)),
            Repr::Simple(kind) | Repr::Custom(kind, _) => *kind,
        }
    }

    /// What lies behind the cause: the custom error's cause is asked for its
    /// own source. An error without a cause has none.
    pub fn source(&self) -> (next: Option<SourceRef<'_>>)
        ensures
            !(self@ is Custom) ==> next is None,
            self@.has_source(next),
    {
        if let Repr::Custom(_, err) = &self.0 {
            crate::cause::source(err)
        } else {
            None
        }
    }

    /// As [`Error::source`], by the older `cause` of the wrapped object.
    pub fn cause(&self) -> (next: Option<CauseRef<'_>>)
        ensures
            !(self@ is Custom) ==> next is None,
            self@.has_cause(next),
    {
        if let Repr::Custom(_, err) = &self.0 {
            crate::cause::cause(err)
        } else {
            None
        }
    }

    /// Where the text that describes the error comes from. Nothing is asked yet:
    /// the caller formats what this names, with a formatter of its own.
    pub fn text_source(&self) -> (source: TextSource<'_>)
        ensures
            source == self@.text_source(),
    {
        match &self.0 {
            Repr::Os(os) => TextSource::Platform { code: *os },
            Repr::Simple(kind) => TextSource::Classification { kind: *kind },
            Repr::Custom(_, err) => TextSource::Cause { handle: err },
        }
    }

    /// The text that describes the error. A raw code gives the platform's message
    /// for it, a bare classification the standard text for that classification,
    /// and a custom error whatever its cause says of itself. Without a cause
    /// there is always a text and it is not empty. With one, the cause decides:
    /// the text may be empty, and it is absent where the cause reported a failure
    /// instead of writing.
    pub fn describe(&self) -> (text: Option<String>)
        ensures
            self@.is_described_by(text),
            !(self@ is Custom) ==> text is Some && text->0@.len() > 0,
            self@ matches ErrorView::Simple { kind } ==> text is Some && text->0@ == text_of_kind(
                kind,
            ),
    {
        match self.text_source() {
            TextSource::Platform { code } => {
                let e = crate::platform::from_raw_os_error(code);
                crate::platform::message(&e)
            },
            TextSource::Classification { kind } => {
                let e = crate::platform::from_kind(kind);
                crate::platform::message(&e)
            },
            TextSource::Cause { handle } => crate::cause::message(handle),
        }
    }
}

impl Clone for Error {
    /// A second error of the same shape and content, equal to this one. A custom
    /// error shares its cause with the clone.
    fn clone(&self) -> (other: Error)
        ensures
            other@ == self@,
            other@.equals(self@),
    {
        Error(
            match &self.0 {
                Repr::Os(os) => Repr::Os(*os),
                Repr::Simple(kind) => Repr::Simple(*kind),
                Repr::Custom(kind, err) => Repr::Custom(*kind, err.clone()),
            },
        )
    }
}

impl PartialEq for Error {
    /// Whether the two errors are equal, as [`ErrorView::equals`] defines it.
    fn eq(&self, other: &Error) -> (same: bool) {
        match (&self.0, &other.0) {
            (Repr::Os(a), Repr::Os(b)) => *a == *b,
            (Repr::Simple(a), Repr::Simple(b)) => crate::platform::same_kind(*a, *b),
            (Repr::Custom(ka, a), Repr::Custom(kb, b)) => {
                crate::platform::same_kind(*ka, *kb) && a.eq(b)
            },
            _ => false,
        }
    }
}

impl vstd::std_specs::cmp::PartialEqSpecImpl for Error {
    open spec fn obeys_eq_spec() -> bool {
        true
    }

    open spec fn eq_spec(&self, other: &Error) -> bool {
        self@.equals(other@)
    }
}

impl Eq for Error {

}

} // verus!
