//! The outcomes of a supervised operation that are not a result.

use vstd::prelude::*;

verus! {

/// Why a supervised operation produced no result.
///
/// New kinds may be added without breaking callers.
#[derive(Debug, Clone, PartialEq)]
#[non_exhaustive]
pub enum AssemblyError {
    /// The operation was cancelled by a caller or by the system.
    Cancelled,
    /// The operation exceeded its time budget.
    Timeout,
    /// The operation exceeded its iteration budget.
    IterationLimit,
    /// A panic occurred while the operation was live.
    Panic,
    /// The request was malformed: lengths differ, or it is oversized.
    InvalidInput,
    /// A kernel returned an invalid or inconsistent result.
    ExecutionError(String),
}

/// The text of an error.
pub open spec fn error_text(e: AssemblyError) -> Seq<char> {
    match e {
        AssemblyError::Cancelled => "Assembly operation was cancelled"@,
        AssemblyError::Timeout => "Assembly operation timed out"@,
        AssemblyError::IterationLimit => "Assembly operation exceeded iteration limit"@,
        AssemblyError::Panic => "Panic occurred during assembly operation"@,
        AssemblyError::InvalidInput => "Invalid input parameters"@,
        AssemblyError::ExecutionError(msg) => "Assembly execution error: "@ + msg@,
    }
}

impl AssemblyError {
    /// A sentence that describes the error.
    pub fn message(&self) -> (r: String)
        ensures
            r@ == error_text(*self),
    {
        match self {
            AssemblyError::Cancelled => String::from_str("Assembly operation was cancelled"),
            AssemblyError::Timeout => String::from_str("Assembly operation timed out"),
            AssemblyError::IterationLimit => String::from_str(
                "Assembly operation exceeded iteration limit",
            ),
            AssemblyError::Panic => String::from_str("Panic occurred during assembly operation"),
            AssemblyError::InvalidInput => String::from_str("Invalid input parameters"),
            AssemblyError::ExecutionError(msg) => {
                let mut s = String::from_str("Assembly execution error: ");
                s.append(msg.as_str());
                s
            },
        }
    }
}

} // verus!
