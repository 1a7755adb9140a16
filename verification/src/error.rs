//! The error type shared by every fallible operation of the library.
use vstd::prelude::*;

use crate::text::{append_decimal, decimal_text};

verus! {

/// Errors reported by the library.
#[derive(Debug, Clone)]
pub enum CrcError {
    InvalidInput(String),
    Unsupported(String),
    MissingParameter(String),
    ConvergenceFailed { family: String, iterations: usize },
    BranchLimitExceeded { factors: usize, branches: usize, limit: usize },
}

/// The mathematical value of a [`CrcError`]: its variant with every message
/// taken as a character sequence.
pub enum CrcErrorView {
    InvalidInput(Seq<char>),
    Unsupported(Seq<char>),
    MissingParameter(Seq<char>),
    ConvergenceFailed { family: Seq<char>, iterations: usize },
    BranchLimitExceeded { factors: usize, branches: usize, limit: usize },
}

impl View for CrcError {
    type V = CrcErrorView;

    open spec fn view(&self) -> CrcErrorView {
        match self {
            CrcError::InvalidInput(m) => CrcErrorView::InvalidInput(m@),
            CrcError::Unsupported(m) => CrcErrorView::Unsupported(m@),
            CrcError::MissingParameter(m) => CrcErrorView::MissingParameter(m@),
            CrcError::ConvergenceFailed { family, iterations } => CrcErrorView::ConvergenceFailed {
                family: family@,
                iterations: *iterations,
            },
            CrcError::BranchLimitExceeded { factors, branches, limit } =>
                CrcErrorView::BranchLimitExceeded {
                factors: *factors,
                branches: *branches,
                limit: *limit,
            },
        }
    }
}

/// The human-readable text of an error.
pub open spec fn error_message(e: CrcErrorView) -> Seq<char> {
    match e {
        CrcErrorView::InvalidInput(m) => "invalid input: "@ + m,
        CrcErrorView::Unsupported(m) => "unsupported operation: "@ + m,
        CrcErrorView::MissingParameter(m) => "missing parameter: "@ + m,
        CrcErrorView::ConvergenceFailed { family, iterations } => family
            + " fitting did not converge after "@ + decimal_text(iterations as nat)
            + " iterations"@,
        CrcErrorView::BranchLimitExceeded { factors, branches, limit } => decimal_text(
            factors as nat,
        ) + " factors require "@ + decimal_text(branches as nat)
            + " spanning branches, above limit "@ + decimal_text(limit as nat),
    }
}

/// A `MissingParameter` error whose message is `prefix`, `detail`, `suffix`.
pub fn missing_parameter(prefix: &str, detail: &str, suffix: &str) -> (e: CrcError)
    ensures
        e@ == CrcErrorView::MissingParameter(prefix@ + detail@ + suffix@),
{
    let mut m = String::from_str(prefix);
    m.append(detail);
    m.append(suffix);
    CrcError::MissingParameter(m)
}

impl CrcError {
    /// The text that describes the error.
    pub fn message(&self) -> (s: String)
        ensures
            s@ == error_message(self@),
    {
        match self {
            CrcError::InvalidInput(m) => {
                let mut s = String::from_str("invalid input: ");
                s.append(m.as_str());
                s
            },
            CrcError::Unsupported(m) => {
                let mut s = String::from_str("unsupported operation: ");
                s.append(m.as_str());
                s
            },
            CrcError::MissingParameter(m) => {
                let mut s = String::from_str("missing parameter: ");
                s.append(m.as_str());
                s
            },
            CrcError::ConvergenceFailed { family, iterations } => {
                let mut s = String::from_str(family.as_str());
                s.append(" fitting did not converge after ");
                append_decimal(&mut s, *iterations as u64);
                s.append(" iterations");
                s
            },
            CrcError::BranchLimitExceeded { factors, branches, limit } => {
                let mut s = String::new();
                append_decimal(&mut s, *factors as u64);
                s.append(" factors require ");
                append_decimal(&mut s, *branches as u64);
                s.append(" spanning branches, above limit ");
                append_decimal(&mut s, *limit as u64);
                s
            },
        }
    }
}

} // verus!
