//! Seek-position arithmetic, decided before any native call.
//!
//! The native layer seeks only to absolute offsets in a signed 64-bit range,
//! and only reports the current position otherwise. Requests are therefore
//! planned here first: absolute and current-relative addressing are resolved
//! to one absolute target, a current-relative move of zero becomes a pure
//! position query, arithmetic overflow and end-relative addressing are
//! rejected outright — never forwarded.

use vstd::prelude::*;

verus! {

/// Where a seek request points.
#[derive(Clone, Copy, PartialEq, Eq, Structural, Debug)]
pub enum SeekFrom {
    /// An absolute offset from the start of the stream.
    Start(u64),
    /// An offset relative to the current position.
    Current(i64),
    /// An offset relative to the end; the native layer cannot address this.
    End(i64),
}

/// What the file layer must do for a seek request.
#[derive(Clone, Copy, PartialEq, Eq, Structural, Debug)]
pub enum SeekPlan {
    /// Report the current position; no position-changing call is issued.
    Tell,
    /// Issue one native seek to this absolute offset.
    MoveTo(i64),
    /// Reject before any native call: the target cannot be expressed in the
    /// native signed offset range.
    RejectOverflow,
    /// Reject before any native call: end-relative addressing is not offered
    /// by the native layer.
    RejectUnsupported,
}

/// The seek decision, given the position `current` that the stream reports.
pub open spec fn seek_plan(from: SeekFrom, current: i64) -> SeekPlan {
    match from {
        SeekFrom::Start(offset) => if offset <= i64::MAX as u64 {
            SeekPlan::MoveTo(offset as i64)
        } else {
            SeekPlan::RejectOverflow
        },
        SeekFrom::Current(delta) => if delta == 0 {
            SeekPlan::Tell
        } else if i64::MIN <= current + delta <= i64::MAX {
            SeekPlan::MoveTo((current + delta) as i64)
        } else {
            SeekPlan::RejectOverflow
        },
        SeekFrom::End(_) => SeekPlan::RejectUnsupported,
    }
}

/// Computes [`seek_plan`] executably, detecting signed overflow instead of
/// wrapping.
pub fn resolve_seek(from: SeekFrom, current: i64) -> (r: SeekPlan)
    ensures
        r == seek_plan(from, current),
{
    match from {
        SeekFrom::Start(offset) => {
            if offset <= i64::MAX as u64 {
                SeekPlan::MoveTo(offset as i64)
            } else {
                SeekPlan::RejectOverflow
            }
        },
        SeekFrom::Current(delta) => {
            if delta == 0 {
                SeekPlan::Tell
            } else {
                match current.checked_add(delta) {
                    Some(target) => SeekPlan::MoveTo(target),
                    None => SeekPlan::RejectOverflow,
                }
            }
        },
        SeekFrom::End(_) => SeekPlan::RejectUnsupported,
    }
}

} // verus!
