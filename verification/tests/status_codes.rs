use ime_alt::status::{
    nonzero_error, removal_status, status_result, value_read_outcome, value_size_outcome,
    ERROR_ACCESS_DENIED, ERROR_CANCELLED, ERROR_FILE_NOT_FOUND, ERROR_GEN_FAILURE,
    ERROR_INVALID_PARAMETER, ERROR_SUCCESS,
};
use windows_sys::Win32::Foundation as win;

#[test]
fn codes_match_win32() {
    assert_eq!(ERROR_SUCCESS, win::ERROR_SUCCESS);
    assert_eq!(ERROR_FILE_NOT_FOUND, win::ERROR_FILE_NOT_FOUND);
    assert_eq!(ERROR_ACCESS_DENIED, win::ERROR_ACCESS_DENIED);
    assert_eq!(ERROR_GEN_FAILURE, win::ERROR_GEN_FAILURE);
    assert_eq!(ERROR_INVALID_PARAMETER, win::ERROR_INVALID_PARAMETER);
    assert_eq!(ERROR_CANCELLED, win::ERROR_CANCELLED);
}

#[test]
fn status_result_maps_success() {
    assert_eq!(status_result(0), Ok(()));
    assert_eq!(status_result(5), Err(5));
}

#[test]
fn removing_absent_value_succeeds() {
    assert_eq!(removal_status(ERROR_FILE_NOT_FOUND), ERROR_SUCCESS);
    assert_eq!(removal_status(ERROR_SUCCESS), ERROR_SUCCESS);
    assert_eq!(removal_status(ERROR_ACCESS_DENIED), ERROR_ACCESS_DENIED);
}

#[test]
fn nonzero_error_replaces_zero() {
    assert_eq!(nonzero_error(0), 31);
    assert_eq!(nonzero_error(1223), 1223);
}

#[test]
fn value_size_outcomes() {
    assert_eq!(value_size_outcome(ERROR_FILE_NOT_FOUND), Ok(false));
    assert_eq!(value_size_outcome(ERROR_SUCCESS), Ok(true));
    assert_eq!(value_size_outcome(ERROR_ACCESS_DENIED), Err(5));
}

#[test]
fn value_read_outcomes() {
    assert_eq!(value_read_outcome(0, vec![1, 2, 3, 4], 2), Ok(Some(vec![1, 2])));
    assert_eq!(value_read_outcome(0, vec![1, 2], 7), Ok(Some(vec![1, 2])));
    assert_eq!(value_read_outcome(234, vec![1, 2], 2), Err(234));
}
