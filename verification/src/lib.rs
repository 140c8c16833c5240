//! A local persistence cache for chemical-compound property records.
//!
//! Compound property sets are keyed on a namespace-tagged identifier and
//! persisted to a single JSON document between runs.  The crate provides the
//! identity model, the lookup/insert semantics of the cache, and the
//! serialization/deserialization of the fixed, wide property schema.  The
//! network client that resolves an identifier into a property set is an
//! external collaborator: cache operations take its outcome as an argument.
use vstd::prelude::*;

pub mod num;
pub mod ident;
pub mod props;
pub mod doc;
pub mod store;
pub mod text;
pub mod parse;

verus! {

/// Everything that can go wrong in the cache layer.
#[derive(Clone, Copy, Debug, PartialEq, Eq, Structural)]
pub enum CacheError {
    /// An identifier carries a namespace tag that is not one of the
    /// recognized ones (possible only for deserialized or hand-built keys).
    InvalidIdentifier,
    /// An identifier value does not parse for its namespace
    /// (a numeric-id value that is not an unsigned integer).
    MalformedValue,
    /// The external resolver call errored.
    ResolutionFailed,
    /// The external resolver reported that no such compound exists.
    NotFound,
    /// The persisted document is not valid JSON.
    MalformedDocument,
    /// The root object of the persisted document lacks the `cache` array.
    MissingField,
    /// A `cache` array element is not an object, or one of its mandatory
    /// fields is absent or has the wrong type.
    MalformedEntry,
}

} // verus!
