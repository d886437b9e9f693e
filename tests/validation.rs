use ftp_core::{check_dims, FtpError};

#[test]
fn test_ftp_result_invalid_dimensions() {
    // outstanding 2 rows, profiles 1 row, rates 1 row
    let result = check_dims((2, 1), (1, 2), (1, 1));
    assert!(result.is_err());
}

#[test]
fn test_ftp_result_invalid_outstanding_columns() {
    // outstanding with 2 columns
    let result = check_dims((1, 2), (1, 2), (1, 1));
    assert!(result.is_err());
}

#[test]
fn test_ftp_result_invalid_rate_columns() {
    // rates should have 2 columns
    let result = check_dims((1, 1), (1, 3), (1, 1));
    assert!(result.is_err());
}

#[test]
fn consistent_shapes_are_accepted() {
    assert_eq!(check_dims((3, 1), (3, 4), (3, 3)), Ok(()));
    assert_eq!(check_dims((2, 1), (2, 3), (2, 2)), Ok(()));
    assert_eq!(check_dims((1, 1), (1, 1), (1, 0)), Ok(()));
}

#[test]
fn row_mismatch_names_dimension_mismatch() {
    assert_eq!(
        check_dims((2, 1), (1, 2), (1, 1)),
        Err(FtpError::DimensionMismatch { expected: (2, 0), got: (1, 1) })
    );
    assert_eq!(
        check_dims((3, 1), (3, 4), (2, 3)),
        Err(FtpError::DimensionMismatch { expected: (3, 0), got: (3, 2) })
    );
}

#[test]
fn row_mismatch_is_reported_before_column_errors() {
    assert_eq!(
        check_dims((2, 5), (1, 2), (1, 7)),
        Err(FtpError::DimensionMismatch { expected: (2, 0), got: (1, 1) })
    );
}

#[test]
fn outstanding_columns_other_than_one_are_refused() {
    assert_eq!(
        check_dims((1, 2), (1, 2), (1, 1)),
        Err(FtpError::InvalidOutstandingColumns { got: 2 })
    );
    assert_eq!(
        check_dims((1, 0), (1, 2), (1, 1)),
        Err(FtpError::InvalidOutstandingColumns { got: 0 })
    );
}

#[test]
fn rate_columns_must_be_one_fewer_than_profile_columns() {
    assert_eq!(
        check_dims((1, 1), (1, 3), (1, 1)),
        Err(FtpError::RateProfileColumnMismatch { rate_cols: 1, profile_cols: 3 })
    );
    assert_eq!(
        check_dims((1, 1), (1, 3), (1, 3)),
        Err(FtpError::RateProfileColumnMismatch { rate_cols: 3, profile_cols: 3 })
    );
    assert_eq!(
        check_dims((1, 1), (1, 0), (1, 0)),
        Err(FtpError::RateProfileColumnMismatch { rate_cols: 0, profile_cols: 0 })
    );
}

#[test]
fn error_messages_give_the_sizes() {
    assert_eq!(
        FtpError::DimensionMismatch { expected: (2, 0), got: (1, 1) }.message(),
        "dimension mismatch: expected 2x0, got 1x1"
    );
    assert_eq!(
        FtpError::InvalidOutstandingColumns { got: 2 }.message(),
        "'input_outstanding' must have 1 column, got 2"
    );
    assert_eq!(
        FtpError::RateProfileColumnMismatch { rate_cols: 1, profile_cols: 3 }.message(),
        "'input_rate' must have one fewer column than 'input_profiles' (rate_cols=1, profile_cols=3)"
    );
}

#[test]
fn error_messages_write_large_numbers_in_decimal() {
    assert_eq!(
        FtpError::InvalidOutstandingColumns { got: 1234567890 }.message(),
        "'input_outstanding' must have 1 column, got 1234567890"
    );
    assert_eq!(
        FtpError::DimensionMismatch { expected: (10, 0), got: (100, 909) }.message(),
        "dimension mismatch: expected 10x0, got 100x909"
    );
}
