//! An I/O error value that can be cloned and compared.
//!
//! [`Error`] mirrors `std::io::Error`: it is a raw platform code, a bare
//! classification, or a classification together with a shared handle to the
//! error object that caused it. Unlike the standard type it is `Clone` and `Eq`.
//!
//! The crate performs no I/O. Its contracts are stated over [`ErrorView`], the
//! model of an error, and are proved from what `platform` and `cause` state,
//! without proof, of the standard library.

pub mod cause;
pub mod error;
pub mod laws;
pub mod platform;

pub use cause::ArcError;
pub use cause::BoxError;
pub use cause::CauseRef;
pub use cause::SourceRef;
pub use error::Error;
pub use error::ErrorView;
pub use error::TextSource;
