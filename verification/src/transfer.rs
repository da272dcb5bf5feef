//! Transfer sizes and transfer results.
//!
//! The native read and write calls carry at most a signed 32-bit count of
//! bytes per call, and answer with a signed count where a negative value is
//! the failure sentinel. Requests are clamped to the representable range
//! before the call; results are split into a byte count or the captured
//! error after it.

use vstd::prelude::*;

use crate::error::HdfsError;

verus! {

/// The largest transfer the native layer accepts in one call: the maximum of
/// its signed 32-bit size type.
pub const MAX_TRANSFER: usize = 0x7fff_ffff;

/// Clamps a requested transfer length to what one native call can carry.
pub fn clamp_transfer_len(requested: usize) -> (r: i32)
    ensures
        r as usize == (if requested <= MAX_TRANSFER {
            requested
        } else {
            MAX_TRANSFER
        }),
        0 <= r as usize <= requested,
{
    if requested <= MAX_TRANSFER {
        requested as i32
    } else {
        0x7fff_ffff
    }
}

/// Interprets a signed native transfer result: a negative count is the
/// failure whose cause `last_error` captured from the OS right after the
/// call; anything else is the number of bytes actually moved — which may be
/// less than requested, and zero at end of stream.
pub fn interpret_transfer(rt: i32, last_error: HdfsError) -> (r: Result<usize, HdfsError>)
    ensures
        rt >= 0 ==> r == Result::<usize, HdfsError>::Ok(rt as usize),
        rt < 0 ==> r == Result::<usize, HdfsError>::Err(last_error),
{
    if rt >= 0 {
        Ok(rt as usize)
    } else {
        Err(last_error)
    }
}

} // verus!
