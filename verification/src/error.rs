//! The ways in which fetching or decoding a reading can fail.

use vstd::prelude::*;

verus! {

/// Why a field of the document broke the schema.
#[derive(Clone, Copy, Debug, PartialEq, Eq, Structural)]
pub enum Reason {
    /// A mandatory key is not in the document.
    Missing,
    /// The key is there, but its value has the wrong JSON type or range.
    WrongType,
}

/// Every failure that ends a fetch or a decode.
#[derive(Clone, Copy, Debug, PartialEq, Eq)]
pub enum SensorError {
    /// A status field held an integer outside `0..=3`.
    UnrecognizedStatusCode(u64),
    /// The timestamp did not match `YYYY/MM/DDTHH:MM:SSz`.
    MalformedTimestamp,
    /// The named field was missing or had the wrong type.
    SchemaViolation { field: &'static str, reason: Reason },
    /// The text is not a JSON object at all.
    MalformedDocument,
    /// The fetch did not complete, or the device answered without success.
    TransportFailure,
}

/// A `SensorError` with its field name as a sequence of characters.
pub enum SensorErrorView {
    UnrecognizedStatusCode(u64),
    MalformedTimestamp,
    SchemaViolation { field: Seq<char>, reason: Reason },
    MalformedDocument,
    TransportFailure,
}

impl View for SensorError {
    type V = SensorErrorView;

    open spec fn view(&self) -> SensorErrorView {
        match *self {
            SensorError::UnrecognizedStatusCode(n) => SensorErrorView::UnrecognizedStatusCode(n),
            SensorError::MalformedTimestamp => SensorErrorView::MalformedTimestamp,
            SensorError::SchemaViolation { field, reason } => SensorErrorView::SchemaViolation {
                field: field@,
                reason,
            },
            SensorError::MalformedDocument => SensorErrorView::MalformedDocument,
            SensorError::TransportFailure => SensorErrorView::TransportFailure,
        }
    }
}

} // verus!
