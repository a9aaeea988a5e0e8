//! Win32 status codes, as the registry and process calls report them.
use vstd::prelude::*;

verus! {

/// The call succeeded.
pub const ERROR_SUCCESS: u32 = 0;

/// The registry value (or file) does not exist.
pub const ERROR_FILE_NOT_FOUND: u32 = 2;

/// Administrator rights are required.
pub const ERROR_ACCESS_DENIED: u32 = 5;

/// A device attached to the system is not functioning: the code used when
/// the system reports a failure without a code.
pub const ERROR_GEN_FAILURE: u32 = 31;

/// A parameter is incorrect.
pub const ERROR_INVALID_PARAMETER: u32 = 87;

/// The user declined the request (the UAC prompt).
pub const ERROR_CANCELLED: u32 = 1223;

/// `Ok` for success, else the code as the error.
pub fn status_result(code: u32) -> (r: Result<(), u32>)
    ensures
        code == ERROR_SUCCESS ==> r == Ok::<(), u32>(()),
        code != ERROR_SUCCESS ==> r == Err::<(), u32>(code),
{
    if code == ERROR_SUCCESS {
        Ok(())
    } else {
        Err(code)
    }
}

/// The status of removing a registry value: a value that was already absent
/// counts as removed.
pub fn removal_status(code: u32) -> (r: u32)
    ensures
        r == (if code == ERROR_FILE_NOT_FOUND {
            ERROR_SUCCESS
        } else {
            code
        }),
{
    if code == ERROR_FILE_NOT_FOUND {
        ERROR_SUCCESS
    } else {
        code
    }
}

/// A failure code that is never 0, since 0 means success wherever the code
/// is handed on: 0 becomes `ERROR_GEN_FAILURE`.
pub fn nonzero_error(code: u32) -> (r: u32)
    ensures
        r == (if code == 0 {
            ERROR_GEN_FAILURE
        } else {
            code
        }),
        r != 0,
{
    if code == 0 {
        ERROR_GEN_FAILURE
    } else {
        code
    }
}

/// What asking for the size of a registry value tells: `Ok(true)` when the
/// value exists, `Ok(false)` when it does not, else the error.
pub fn value_size_outcome(code: u32) -> (r: Result<bool, u32>)
    ensures
        code == ERROR_FILE_NOT_FOUND ==> r == Ok::<bool, u32>(false),
        code == ERROR_SUCCESS ==> r == Ok::<bool, u32>(true),
        code != ERROR_FILE_NOT_FOUND && code != ERROR_SUCCESS ==> r == Err::<bool, u32>(code),
{
    if code == ERROR_FILE_NOT_FOUND {
        Ok(false)
    } else if code != ERROR_SUCCESS {
        Err(code)
    } else {
        Ok(true)
    }
}

/// The result of reading a registry value into `buf`: on success the first
/// `size` bytes (all of `buf` if it is shorter), else the error.
pub fn value_read_outcome(code: u32, buf: Vec<u8>, size: u32) -> (r: Result<Option<Vec<u8>>, u32>)
    ensures
        code != ERROR_SUCCESS ==> r == Err::<Option<Vec<u8>>, u32>(code),
        code == ERROR_SUCCESS ==> (r matches Ok(Some(data)) && data@ == (if size <= buf@.len() {
            buf@.take(size as int)
        } else {
            buf@
        })),
{
    if code == ERROR_SUCCESS {
        let mut data = buf;
        data.truncate(size as usize);
        Ok(Some(data))
    } else {
        Err(code)
    }
}

} // verus!
