//! Structured errors for a native, sentinel-based client API.
//!
//! The native layer signals failure with a distinguished return value (a
//! nonzero status code or a null pointer) and leaves the real cause in the
//! thread-local OS error, which must be read immediately after the failing
//! call. The functions here turn that convention into a structured,
//! catchable error, and give the one deliberate exception — "not found"
//! absorbed into a boolean by the existence check — an exact statement.

use vstd::prelude::*;

verus! {

/// How a failure is classified.
#[derive(Clone, Copy, PartialEq, Eq, Structural, Debug)]
pub enum HdfsErrorKind {
    /// The native layer reported that a path does not exist.
    NotFound,
    /// An argument was rejected by this layer before any native call was made.
    InvalidInput,
    /// The request asks for something the native layer cannot do at all.
    Unsupported,
    /// Any other failure reported by the native layer.
    Other,
}

/// A structured error: a classification, the OS-level error code captured
/// right after the failing native call (0 when no native call was involved),
/// and a human-readable message.
#[derive(Debug)]
pub struct HdfsError {
    pub kind: HdfsErrorKind,
    pub raw_os: i32,
    pub message: String,
}

impl HdfsError {
    /// An error carried back from a failed native call.
    ///
    /// `not_found` says whether the captured OS error had "not found"
    /// semantics; that classification must be made by the caller while the
    /// OS error is still fresh.
    pub fn native(raw_os: i32, not_found: bool, message: String) -> (r: HdfsError)
        ensures
            r.kind == (if not_found {
                HdfsErrorKind::NotFound
            } else {
                HdfsErrorKind::Other
            }),
            r.raw_os == raw_os,
            r.message == message,
    {
        HdfsError {
            kind: if not_found {
                HdfsErrorKind::NotFound
            } else {
                HdfsErrorKind::Other
            },
            raw_os,
            message,
        }
    }

    /// A "not found" failure reported by this layer's own namespace logic.
    pub fn not_found(message: String) -> (r: HdfsError)
        ensures
            r.kind == HdfsErrorKind::NotFound,
            r.raw_os == 0,
            r.message == message,
    {
        HdfsError { kind: HdfsErrorKind::NotFound, raw_os: 0, message }
    }

    /// An input rejected before any native call.
    pub fn invalid_input(message: String) -> (r: HdfsError)
        ensures
            r.kind == HdfsErrorKind::InvalidInput,
            r.raw_os == 0,
            r.message == message,
    {
        HdfsError { kind: HdfsErrorKind::InvalidInput, raw_os: 0, message }
    }

    /// A request for something the native layer cannot do.
    pub fn unsupported(message: String) -> (r: HdfsError)
        ensures
            r.kind == HdfsErrorKind::Unsupported,
            r.raw_os == 0,
            r.message == message,
    {
        HdfsError { kind: HdfsErrorKind::Unsupported, raw_os: 0, message }
    }

    /// A generic failure with no useful OS code.
    pub fn other(message: String) -> (r: HdfsError)
        ensures
            r.kind == HdfsErrorKind::Other,
            r.raw_os == 0,
            r.message == message,
    {
        HdfsError { kind: HdfsErrorKind::Other, raw_os: 0, message }
    }

    /// Whether this error has "not found" semantics.
    pub fn is_not_found(&self) -> (r: bool)
        ensures
            r == (self.kind == HdfsErrorKind::NotFound),
    {
        self.kind == HdfsErrorKind::NotFound
    }

    /// The classification of this error.
    pub fn kind(&self) -> (r: HdfsErrorKind)
        ensures
            r == self.kind,
    {
        self.kind
    }

    /// The OS-level error code, 0 when no native call was involved.
    pub fn raw_os(&self) -> (r: i32)
        ensures
            r == self.raw_os,
    {
        self.raw_os
    }

    /// The human-readable message.
    pub fn message(&self) -> (r: &String)
        ensures
            r == self.message,
    {
        &self.message
    }
}

/// Checks a native status code: zero is success, anything else is the
/// failure whose cause `last_error` captured from the OS immediately after
/// the call.
pub fn check_rt(rt: i32, last_error: HdfsError) -> (r: Result<(), HdfsError>)
    ensures
        rt == 0 <==> r is Ok,
        rt != 0 ==> r == Result::<(), HdfsError>::Err(last_error),
{
    if rt == 0 {
        Ok(())
    } else {
        Err(last_error)
    }
}

/// Interprets the native existence check, which answers with a sentinel on
/// both "absent" and "failed": success means the path exists; a failure whose
/// captured OS error has "not found" semantics means the path does not exist;
/// any other failure is propagated.
pub fn interpret_exists(rt: i32, last_error: HdfsError) -> (r: Result<bool, HdfsError>)
    ensures
        rt == 0 ==> r == Result::<bool, HdfsError>::Ok(true),
        rt != 0 && last_error.kind == HdfsErrorKind::NotFound ==> r == Result::<
            bool,
            HdfsError,
        >::Ok(false),
        rt != 0 && last_error.kind != HdfsErrorKind::NotFound ==> r == Result::<
            bool,
            HdfsError,
        >::Err(last_error),
{
    if rt == 0 {
        Ok(true)
    } else if last_error.is_not_found() {
        Ok(false)
    } else {
        Err(last_error)
    }
}

} // verus!
