//! One error taxonomy for the device runtime and the linear-algebra library.
//!
//! Each native API reports a numeric status with its own success sentinel. The
//! translators here are the only place that knows those sentinels; everything
//! above them sees a `ComputeError`.

use vstd::prelude::*;

verus! {

/// The status the device runtime returns on success.
pub const RUNTIME_SUCCESS: i32 = 0;

/// The status the linear-algebra library returns on success.
pub const BLAS_SUCCESS: i32 = 0;

/// What went wrong, independent of the API that reported it.
#[derive(Clone, Copy, Debug, PartialEq, Eq, Structural)]
pub enum ErrorKind {
    /// Selecting or binding the device failed.
    DeviceError,
    /// A device memory request could not be satisfied.
    AllocationFailure,
    /// A host/device copy failed or its length did not match.
    TransferFailure,
    /// Creating or destroying the library handle failed, or it was used while not live.
    HandleError,
    /// The GEMM call reported a non-success status.
    ComputeFailure,
    /// The caller's dimensions are inconsistent; found before anything is acquired.
    PreconditionViolation,
}

/// The part of the system that raised an error.
#[derive(Clone, Copy, Debug, PartialEq, Eq, Structural)]
pub enum Subsystem {
    /// The device runtime API.
    Runtime,
    /// The linear-algebra library API.
    Blas,
    /// A check made on the host before any native call.
    Host,
}

/// A call of the device runtime whose status is translated.
#[derive(Clone, Copy, Debug, PartialEq, Eq, Structural)]
pub enum RuntimeCall {
    SetDevice,
    Malloc,
    Memcpy,
    Free,
}

/// A call of the linear-algebra library whose status is translated.
#[derive(Clone, Copy, Debug, PartialEq, Eq, Structural)]
pub enum BlasCall {
    Create,
    Destroy,
    Gemm,
}

/// An error with the numeric code it came from and a readable native label.
#[derive(Clone, Debug)]
pub struct ComputeError {
    pub kind: ErrorKind,
    pub subsystem: Subsystem,
    pub code: i32,
    pub label: String,
}

/// The kind of error that a failed runtime call stands for.
pub open spec fn runtime_kind(call: RuntimeCall) -> ErrorKind {
    match call {
        RuntimeCall::SetDevice => ErrorKind::DeviceError,
        RuntimeCall::Malloc => ErrorKind::AllocationFailure,
        RuntimeCall::Memcpy => ErrorKind::TransferFailure,
        RuntimeCall::Free => ErrorKind::AllocationFailure,
    }
}

/// The kind of error that a failed library call stands for.
pub open spec fn blas_kind(call: BlasCall) -> ErrorKind {
    match call {
        BlasCall::Create => ErrorKind::HandleError,
        BlasCall::Destroy => ErrorKind::HandleError,
        BlasCall::Gemm => ErrorKind::ComputeFailure,
    }
}

/// `e` carries `kind`, `subsystem`, `code` and `label`.
pub open spec fn error_is(
    e: ComputeError,
    kind: ErrorKind,
    subsystem: Subsystem,
    code: i32,
    label: Seq<char>,
) -> bool {
    e.kind == kind && e.subsystem == subsystem && e.code == code && e.label@ == label
}

/// Translates the status of a runtime call: `None` on the success sentinel,
/// otherwise the error that the call stands for.
pub fn translate_runtime_status(call: RuntimeCall, code: i32, label: String) -> (r: Option<
    ComputeError,
>)
    ensures
        code == RUNTIME_SUCCESS <==> r is None,
        r matches Some(e) ==> error_is(e, runtime_kind(call), Subsystem::Runtime, code, label@),
{
    if code == RUNTIME_SUCCESS {
        return None;
    }
    let kind = match call {
        RuntimeCall::SetDevice => ErrorKind::DeviceError,
        RuntimeCall::Malloc => ErrorKind::AllocationFailure,
        RuntimeCall::Memcpy => ErrorKind::TransferFailure,
        RuntimeCall::Free => ErrorKind::AllocationFailure,
    };
    Some(ComputeError { kind, subsystem: Subsystem::Runtime, code, label })
}

/// Translates the status of a library call: `None` on the success sentinel,
/// otherwise the error that the call stands for.
pub fn translate_compute_status(call: BlasCall, code: i32, label: String) -> (r: Option<
    ComputeError,
>)
    ensures
        code == BLAS_SUCCESS <==> r is None,
        r matches Some(e) ==> error_is(e, blas_kind(call), Subsystem::Blas, code, label@),
{
    if code == BLAS_SUCCESS {
        return None;
    }
    let kind = match call {
        BlasCall::Create => ErrorKind::HandleError,
        BlasCall::Destroy => ErrorKind::HandleError,
        BlasCall::Gemm => ErrorKind::ComputeFailure,
    };
    Some(ComputeError { kind, subsystem: Subsystem::Blas, code, label })
}

/// An error found on the host, before or between native calls.
pub fn host_error(kind: ErrorKind, label: String) -> (r: ComputeError)
    ensures
        error_is(r, kind, Subsystem::Host, 0, label@),
{
    ComputeError { kind, subsystem: Subsystem::Host, code: 0, label }
}

} // verus!
