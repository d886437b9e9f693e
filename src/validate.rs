use vstd::prelude::*;

use crate::error::FtpError;

verus! {

/// The error that the shapes `(rows, cols)` of the outstanding, profile and
/// rate matrices call for, if any. Row counts are checked first, then the
/// single outstanding column, then the rate columns against the profile columns.
pub open spec fn dims_error(
    outstanding: (usize, usize),
    profiles: (usize, usize),
    rate: (usize, usize),
) -> Option<FtpError> {
    if outstanding.0 != profiles.0 || outstanding.0 != rate.0 {
        Some(FtpError::DimensionMismatch { expected: (outstanding.0, 0), got: (profiles.0, rate.0) })
    } else if outstanding.1 != 1 {
        Some(FtpError::InvalidOutstandingColumns { got: outstanding.1 })
    } else if rate.1 + 1 != profiles.1 {
        Some(FtpError::RateProfileColumnMismatch { rate_cols: rate.1, profile_cols: profiles.1 })
    } else {
        None
    }
}

/// Checks that the three input shapes fit together: one outstanding column,
/// equal row counts, and one rate column fewer than there are profile columns.
/// Only the shapes are inspected, never the values.
pub fn check_dims(
    outstanding: (usize, usize),
    profiles: (usize, usize),
    rate: (usize, usize),
) -> (r: Result<(), FtpError>)
    ensures
        r matches Ok(_) <==> dims_error(outstanding, profiles, rate) is None,
        r matches Err(e) ==> dims_error(outstanding, profiles, rate) == Some(e),
{
    let (nrows_outs, ncols_outs) = outstanding;
    let (nrows_profiles, ncols_profiles) = profiles;
    let (nrows_rate, ncols_rate) = rate;
    if nrows_outs != nrows_profiles || nrows_outs != nrows_rate {
        return Err(
            FtpError::DimensionMismatch {
                expected: (nrows_outs, 0),
                got: (nrows_profiles, nrows_rate),
            },
        );
    }
    if ncols_outs != 1 {
        return Err(FtpError::InvalidOutstandingColumns { got: ncols_outs });
    }
    if ncols_profiles == 0 || ncols_profiles - 1 != ncols_rate {
        return Err(
            FtpError::RateProfileColumnMismatch { rate_cols: ncols_rate, profile_cols: ncols_profiles },
        );
    }
    Ok(())
}

/// Each broken shape rule fails with its own named error: differing row
/// counts give `DimensionMismatch`; with the rows in agreement, an outstanding
/// matrix of other than one column gives `InvalidOutstandingColumns`; with
/// both of those in order, a rate column count other than the profile column
/// count less one gives `RateProfileColumnMismatch`; and shapes that keep
/// all three rules are accepted.
pub proof fn validation_names_each_error(
    outstanding: (usize, usize),
    profiles: (usize, usize),
    rate: (usize, usize),
)
    ensures
        outstanding.0 != profiles.0 || outstanding.0 != rate.0 ==> dims_error(
            outstanding,
            profiles,
            rate,
        ) matches Some(FtpError::DimensionMismatch { .. }),
        outstanding.0 == profiles.0 && outstanding.0 == rate.0 && outstanding.1 != 1
            ==> dims_error(outstanding, profiles, rate) matches Some(
            FtpError::InvalidOutstandingColumns { .. },
        ),
        outstanding.0 == profiles.0 && outstanding.0 == rate.0 && outstanding.1 == 1 && rate.1
            + 1 != profiles.1 ==> dims_error(outstanding, profiles, rate) matches Some(
            FtpError::RateProfileColumnMismatch { .. },
        ),
        outstanding.0 == profiles.0 && outstanding.0 == rate.0 && outstanding.1 == 1 && rate.1
            + 1 == profiles.1 ==> dims_error(outstanding, profiles, rate) is None,
{
}

} // verus!
