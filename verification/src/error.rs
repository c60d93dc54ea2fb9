//! The error algebra of the crate.
//!
//! Every failure a builder, decoder or engine call can report is one of the
//! variants below, so callers can always tell construction-time rejections
//! apart from decode failures, type mismatches, schema problems, unfinished
//! operations and engine-reported errors.

use vstd::prelude::*;

verus! {

/// A distinguishable, descriptive failure.
#[derive(Debug)]
pub enum PlError {
    /// Malformed arguments at builder time: an unknown enumeration string or
    /// mismatched list lengths.
    Construction { message: String },
    /// A handle-bearing argument could not be decoded: a missing or spent
    /// handle, or an element without a numeric identifier.
    Decode { message: String },
    /// A type-specific column constructor received a value it cannot coerce
    /// to the target primitive type.
    TypeMismatch { message: String },
    /// Plan schema resolution failed, e.g. on an unknown column reference.
    Schema { message: String },
    /// The requested operation is deliberately unfinished and fails fatally
    /// instead of approximating a result.
    NotImplemented { message: String },
    /// A failure reported by the execution engine, propagated unchanged.
    Engine { message: String },
}

impl PlError {
    /// The human-readable description carried by any variant.
    pub fn message(&self) -> (r: &String)
        ensures
            r@ == self.text(),
    {
        match self {
            PlError::Construction { message } => message,
            PlError::Decode { message } => message,
            PlError::TypeMismatch { message } => message,
            PlError::Schema { message } => message,
            PlError::NotImplemented { message } => message,
            PlError::Engine { message } => message,
        }
    }

    /// The description of this error, as a sequence of characters.
    pub open spec fn text(self) -> Seq<char> {
        match self {
            PlError::Construction { message } => message@,
            PlError::Decode { message } => message@,
            PlError::TypeMismatch { message } => message@,
            PlError::Schema { message } => message@,
            PlError::NotImplemented { message } => message@,
            PlError::Engine { message } => message@,
        }
    }
}

} // verus!
