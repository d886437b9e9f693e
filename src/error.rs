use vstd::prelude::*;
use vstd::string::*;

use crate::text::{decimal, push_decimal};

verus! {

/// Errors that can occur when the input matrices are checked before a computation.
#[derive(Debug, Clone, Copy, PartialEq, Eq)]
pub enum FtpError {
    /// Input matrices have different numbers of rows.
    DimensionMismatch { expected: (usize, usize), got: (usize, usize) },
    /// `input_outstanding` must have exactly 1 column.
    InvalidOutstandingColumns { got: usize },
    /// `input_rate` must have exactly one fewer column than `input_profiles`.
    RateProfileColumnMismatch { rate_cols: usize, profile_cols: usize },
}

/// The human-readable text of an error.
pub open spec fn message_text(e: FtpError) -> Seq<char> {
    match e {
        FtpError::DimensionMismatch { expected, got } => "dimension mismatch: expected "@
            + decimal(expected.0 as nat) + "x"@ + decimal(expected.1 as nat) + ", got "@
            + decimal(got.0 as nat) + "x"@ + decimal(got.1 as nat),
        FtpError::InvalidOutstandingColumns { got } => "'input_outstanding' must have 1 column, got "@
            + decimal(got as nat),
        FtpError::RateProfileColumnMismatch { rate_cols, profile_cols } =>
            "'input_rate' must have one fewer column than 'input_profiles' (rate_cols="@
            + decimal(rate_cols as nat) + ", profile_cols="@ + decimal(profile_cols as nat) + ")"@,
    }
}

impl FtpError {
    /// Describes the error in words, with the sizes involved.
    pub fn message(&self) -> (r: String)
        ensures
            r@ == message_text(*self),
    {
        match *self {
            FtpError::DimensionMismatch { expected, got } => {
                let mut s = String::from_str("dimension mismatch: expected ");
                push_decimal(&mut s, expected.0);
                s.append("x");
                push_decimal(&mut s, expected.1);
                s.append(", got ");
                push_decimal(&mut s, got.0);
                s.append("x");
                push_decimal(&mut s, got.1);
                s
            },
            FtpError::InvalidOutstandingColumns { got } => {
                let mut s = String::from_str("'input_outstanding' must have 1 column, got ");
                push_decimal(&mut s, got);
                s
            },
            FtpError::RateProfileColumnMismatch { rate_cols, profile_cols } => {
                let mut s = String::from_str(
                    "'input_rate' must have one fewer column than 'input_profiles' (rate_cols=",
                );
                push_decimal(&mut s, rate_cols);
                s.append(", profile_cols=");
                push_decimal(&mut s, profile_cols);
                s.append(")");
                s
            },
        }
    }
}

} // verus!
