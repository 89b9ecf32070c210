//! Decoding of time-stamped pricing records from a self-describing document.
//!
//! A document is a tree of scalars, sequences and maps ([`Value`]). The
//! decoder turns one such tree into a [`Builtin`] record, enforcing that each
//! object holds exactly its recognised fields, each once, with values of the
//! expected shape; the first offending entry, in input order, decides the
//! error.

pub mod decode;
pub mod document;
pub mod encode;
pub mod error;
pub mod laws;
pub mod record;

pub use document::Value;
pub use error::{DecodeError, DecodeErrorView, Expected, Field, PathSegment};
pub use record::{Builtin, BuiltinView, Pricing, PricingAt};

