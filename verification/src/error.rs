//! The one error kind that a pass can end in.
use vstd::prelude::*;
use vstd::string::StringExecFns;

verus! {

/// Why a pass failed. Every failure aborts the pass; a value that cannot be
/// coerced is never one: it is stored as null.
#[derive(Debug, PartialEq, Eq)]
pub enum ComputeError {
    /// The type of the field has no column buffer.
    UnsupportedType { field: String },
    /// The buffer of the field has another length than the first buffer.
    LengthMismatch { field: String },
    /// The step does not follow the stage that the pass is in.
    OutOfOrder,
    /// The pass has taken as many documents as its row limit allows.
    RowLimit,
    /// The pass was finalized before.
    Finalized,
}

impl ComputeError {
    /// The message of the error as a sequence of characters.
    pub open spec fn text(self) -> Seq<char> {
        match self {
            ComputeError::UnsupportedType { field } => "unsupported data type of field "@ + field@,
            ComputeError::LengthMismatch { field } => "unequal length of column "@ + field@,
            ComputeError::OutOfOrder => "step out of order"@,
            ComputeError::RowLimit => "row limit reached"@,
            ComputeError::Finalized => "already finalized"@,
        }
    }

    /// A message that describes the error.
    pub fn message(&self) -> (r: String)
        ensures
            r@ == self.text(),
    {
        match self {
            ComputeError::UnsupportedType { field } => {
                String::from_str("unsupported data type of field ").concat(field.as_str())
            },
            ComputeError::LengthMismatch { field } => {
                String::from_str("unequal length of column ").concat(field.as_str())
            },
            ComputeError::OutOfOrder => String::from_str("step out of order"),
            ComputeError::RowLimit => String::from_str("row limit reached"),
            ComputeError::Finalized => String::from_str("already finalized"),
        }
    }
}

} // verus!
