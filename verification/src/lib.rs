//! A shared full-text index that multiplexes many small logical tenants
//! ("segments", identified by a caller-chosen `u64`) into one physical
//! inverted index, instead of building one index per tenant.
//!
//! Every query is the conjunction of a content predicate and an exact-match
//! filter on the segment id, so the shared index behaves, from each caller's
//! perspective, as an independent per-segment index. Matches are reported as
//! the caller's own per-segment local document ids, unordered.
//!
//! The inverted index itself (tokenization, postings, query execution) is the
//! work of the `tantivy` crate; this crate states a mathematical model of the
//! index contents and proves its own composition logic against that model.
use vstd::prelude::*;

pub mod engine;
pub mod laws;
pub mod model;
pub mod reader;
pub mod writer;

verus! {

/// The error channel of the library.
#[derive(Debug)]
pub enum TextIndexError {
    /// The analyzer configuration handed to `SharedTextIndexWriter::new` does
    /// not describe the built-in standard analyzer.
    InvalidAnalyzerParams,
    /// The text field name handed to `SharedTextIndexWriter::new` is one the
    /// engine's schema refuses: empty, starting with `-`, or colliding with
    /// one of the reserved id fields.
    InvalidFieldName,
    /// A failure surfaced by the underlying index engine, carried verbatim.
    Engine(String),
}

} // verus!
