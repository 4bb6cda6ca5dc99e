//! The `HRESULT` codes this runtime hands back across the GDK ABI.
//!
//! An `HRESULT` is a 32-bit signed status word; the library keeps it as a plain `i32` so
//! that contracts can compare codes directly.
use vstd::prelude::*;

verus! {

/// Success.
pub const S_OK: i32 = 0;
/// `E_NOTIMPL` (0x80004001).
pub const E_NOTIMPL: i32 = -2147467263;
/// `E_NOINTERFACE` (0x80004002).
pub const E_NOINTERFACE: i32 = -2147467262;
/// `E_POINTER` (0x80004003).
pub const E_POINTER: i32 = -2147467261;
/// `E_ABORT` (0x80004004).
pub const E_ABORT: i32 = -2147467260;
/// `E_FAIL` (0x80004005).
pub const E_FAIL: i32 = -2147467259;
/// `E_PENDING` (0x8000000A).
pub const E_PENDING: i32 = -2147483638;
/// `E_ILLEGAL_METHOD_CALL` (0x8000000E).
pub const E_ILLEGAL_METHOD_CALL: i32 = -2147483634;
/// `E_INVALIDARG` (0x80070057).
pub const E_INVALIDARG: i32 = -2147024809;
/// `E_NOT_SUFFICIENT_BUFFER` (0x8007007A).
pub const E_NOT_SUFFICIENT_BUFFER: i32 = -2147024774;
/// `HRESULT_FROM_WIN32(ERROR_CANCELLED)` (0x800704C7), how the shell reports a dismissed dialog.
pub const E_CANCELLED: i32 = -2147023673;
/// `CLASS_E_CLASSNOTAVAILABLE` (0x80040111).
pub const CLASS_E_CLASSNOTAVAILABLE: i32 = -2147221231;

} // verus!
