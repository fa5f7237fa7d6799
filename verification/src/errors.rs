//! Error taxonomy of the aggregation engine.
//!
//! An undefined density is not an error: it is reported as all-unknown
//! fields. The variants here are data-integrity failures detected at the
//! boundary, before any arithmetic runs.

use vstd::prelude::*;

verus! {

/// A validation or lookup failure of the aggregation engine.
#[derive(Clone, Copy, Debug, PartialEq, Eq, Structural)]
pub enum AggregationError {
    /// A consumed or item weight was zero or negative; the offending
    /// weight is carried along.
    InvalidWeight(i64),
    /// A meal component referenced a dish or ingredient id that the
    /// supplied catalogs do not contain.
    UnknownReference(i64),
    /// A raw meal component carried neither a dish id nor an ingredient id.
    MissingComponentReference,
    /// A raw meal component carried both a dish id and an ingredient id.
    ConflictingComponentReference,
}

} // verus!
