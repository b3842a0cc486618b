use vstd::prelude::*;

verus! {

/// The Win32 error code of a buffer too small for what is asked of it.
pub const ERROR_INSUFFICIENT_BUFFER: u32 = 122;

/// The Win32 error code of a success.
pub const ERROR_SUCCESS: u32 = 0;

/// The `HRESULT` value that a Win32 error code stands for: success stays
/// zero, a code that is already negative as an `i32` is kept, and any other
/// code keeps its low 16 bits under the Win32 facility (7) with the failure
/// bit set.
pub open spec fn hresult_from_win32(code: u32) -> int {
    if code == 0 {
        0
    } else if code >= 0x8000_0000 {
        code - 0x1_0000_0000
    } else {
        (code % 0x1_0000) + 0x7_0000 - 0x8000_0000
    }
}

/// Only success maps to a succeeding `HRESULT`: every other Win32 code maps
/// to a negative one, and a code below 0x1_0000 sits in its low 16 bits under
/// the Win32 facility (7), so that it can be read back.
pub proof fn lemma_win32_failures_fail(code: u32)
    ensures
        code == ERROR_SUCCESS <==> hresult_from_win32(code) == 0,
        code != ERROR_SUCCESS ==> hresult_from_win32(code) < 0,
        0 < code < 0x1_0000 ==> hresult_from_win32(code) + 0x1_0000_0000 == 0x8007_0000 + code,
        code >= 0x8000_0000 ==> hresult_from_win32(code) + 0x1_0000_0000 == code,
        hresult_from_win32(ERROR_INSUFFICIENT_BUFFER) + 0x1_0000_0000 == 0x8007_007A,
        -0x8000_0000 <= hresult_from_win32(code) < 0x8000_0000,
{
}

/// `HRESULT::from_win32`, defined by `windows-result` and reached through
/// `windows-core` (what `WIN32_ERROR::to_hresult`
/// and the conversion of a `WIN32_ERROR` into an error of the `windows` crate
/// compute). The contract claims the mapping that its source computes as
/// `if code as i32 <= 0 { code } else { (code & 0xFFFF) | (7 << 16) | 0x8000_0000 }`,
/// written over integers.
#[verifier::external_body]
fn win32_error_to_hresult(code: u32) -> (r: i32)
    ensures
        r == hresult_from_win32(code),
{
    windows_core::HRESULT::from_win32(code).0
}

/// The `HRESULT` value of a Win32 error code.
pub fn hresult_of_win32(code: u32) -> (r: i32)
    ensures
        r == hresult_from_win32(code),
{
    win32_error_to_hresult(code)
}

/// Whether an error's `HRESULT` code is that of a buffer too small for what
/// is asked of it.
pub fn is_insufficient_buffer(error_code: i32) -> (r: bool)
    ensures
        r == (error_code == hresult_from_win32(ERROR_INSUFFICIENT_BUFFER)),
{
    error_code == win32_error_to_hresult(ERROR_INSUFFICIENT_BUFFER)
}

/// The outcome of a call that reports a Win32 status code: success for
/// `ERROR_SUCCESS`, else the failure with the code's `HRESULT`.
pub fn check_win32_status(code: u32) -> (r: Result<(), i32>)
    ensures
        r is Ok <==> code == ERROR_SUCCESS,
        r matches Err(h) ==> h == hresult_from_win32(code),
{
    if code == ERROR_SUCCESS {
        Ok(())
    } else {
        Err(win32_error_to_hresult(code))
    }
}

/// Whether a raw handle value is one that names no object: the null handle
/// or `INVALID_HANDLE_VALUE` (-1), as `HANDLE::is_invalid` decides.
pub open spec fn handle_value_invalid(value: isize) -> bool {
    value == 0 || value == -1
}

/// Exactly two raw handle values name no object, the null handle and
/// `INVALID_HANDLE_VALUE` (-1); every other value is a handle to keep.
pub proof fn lemma_handle_values(value: isize)
    ensures
        handle_value_invalid(value) <==> (value == 0 || value == -1),
        value != 0 && value != -1 ==> !handle_value_invalid(value),
{
}

/// Accepts the raw value of a handle that an open call produced, unless it
/// names no object.
pub fn accept_handle(value: isize) -> (r: Option<isize>)
    ensures
        r == (if handle_value_invalid(value) { None } else { Some(value) }),
        r is None <==> (value == 0 || value == -1),
        r matches Some(h) ==> h == value,
{
    if value == -1 || value == 0 {
        None
    } else {
        Some(value)
    }
}

} // verus!
