//! Error type of a control-point handle: a persistent descriptor onto one
//! kernel control file. The handle itself performs file I/O and therefore
//! lives with the surrounding process; the library's contracts speak of the
//! values it hands over and of this error type.
use vstd::prelude::*;

verus! {

/// Failure of one read or write on a control point. The payload carries the
/// operating system's description of the failure.
#[derive(Debug, Clone, PartialEq, Eq)]
pub enum PersFdError {
    ReadErr(String),
    WriteErr(String),
    /// A write was attempted on a control point that was opened read-only.
    NotWritable,
}

} // verus!
