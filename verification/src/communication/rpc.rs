//! Errors of invoking (remote) service operations, and their correspondence
//! with failed statuses.
use vstd::prelude::*;

use crate::ustatus::{status_message, UCode, UStatus};

verus! {

/// A problem with invoking a (remote) service operation.
#[derive(Clone, Debug)]
pub enum ServiceInvocationError {
    /// The calling uE requested to add or create something that already exists.
    AlreadyExists(String),
    /// The reply to a request has not been received within its time-to-live
    /// (the service may still have processed the request).
    DeadlineExceeded,
    /// The service provider is in a state that prevents it from handling the request.
    FailedPrecondition(String),
    /// A serious but unspecified internal error occurred while sending or processing the request.
    Internal(String),
    /// Some parameters of the request are invalid, e.g. not properly formatted.
    InvalidArgument(String),
    /// The requested entity was not found.
    NotFound(String),
    /// The calling uE is authenticated but may not invoke the method.
    PermissionDenied(String),
    /// Some resources required for processing the request have been exhausted.
    ResourceExhausted(String),
    /// An unspecific error occurred at the transport layer.
    RpcError(UStatus),
    /// The calling uE could not be authenticated.
    Unauthenticated,
    /// Some resources required for processing the request are currently unavailable.
    Unavailable(String),
    /// Part or all of the invoked operation has not been implemented.
    Unimplemented(String),
}

/// Whether a status code has an invocation error variant of its own.
pub open spec fn has_invocation_variant(c: UCode) -> bool {
    match c {
        UCode::AlreadyExists | UCode::FailedPrecondition | UCode::Internal | UCode::InvalidArgument | UCode::NotFound | UCode::PermissionDenied | UCode::ResourceExhausted | UCode::Unavailable | UCode::Unimplemented | UCode::DeadlineExceeded | UCode::Unauthenticated => true,
        _ => false,
    }
}

/// Whether `e` is the invocation error that status `s` stands for: the
/// variant of its code, carrying its message (`DeadlineExceeded` and
/// `Unauthenticated` carry none), or `RpcError` with the whole status for a
/// code without a variant of its own.
pub open spec fn is_invocation_error_for(e: ServiceInvocationError, s: UStatus) -> bool {
    let m = status_message(s);
    match s.code {
        UCode::AlreadyExists => e matches ServiceInvocationError::AlreadyExists(x) && x@ == m,
        UCode::FailedPrecondition => e matches ServiceInvocationError::FailedPrecondition(x) && x@ == m,
        UCode::Internal => e matches ServiceInvocationError::Internal(x) && x@ == m,
        UCode::InvalidArgument => e matches ServiceInvocationError::InvalidArgument(x) && x@ == m,
        UCode::NotFound => e matches ServiceInvocationError::NotFound(x) && x@ == m,
        UCode::PermissionDenied => e matches ServiceInvocationError::PermissionDenied(x) && x@ == m,
        UCode::ResourceExhausted => e matches ServiceInvocationError::ResourceExhausted(x) && x@ == m,
        UCode::Unavailable => e matches ServiceInvocationError::Unavailable(x) && x@ == m,
        UCode::Unimplemented => e matches ServiceInvocationError::Unimplemented(x) && x@ == m,
        UCode::DeadlineExceeded => e is DeadlineExceeded,
        UCode::Unauthenticated => e is Unauthenticated,
        _ => e == ServiceInvocationError::RpcError(s),
    }
}

/// The code of the status that an invocation error stands for (`Unknown`
/// for a transport error).
pub open spec fn invocation_error_code(e: ServiceInvocationError) -> UCode {
    match e {
        ServiceInvocationError::AlreadyExists(_) => UCode::AlreadyExists,
        ServiceInvocationError::FailedPrecondition(_) => UCode::FailedPrecondition,
        ServiceInvocationError::Internal(_) => UCode::Internal,
        ServiceInvocationError::InvalidArgument(_) => UCode::InvalidArgument,
        ServiceInvocationError::NotFound(_) => UCode::NotFound,
        ServiceInvocationError::PermissionDenied(_) => UCode::PermissionDenied,
        ServiceInvocationError::ResourceExhausted(_) => UCode::ResourceExhausted,
        ServiceInvocationError::Unavailable(_) => UCode::Unavailable,
        ServiceInvocationError::Unimplemented(_) => UCode::Unimplemented,
        ServiceInvocationError::DeadlineExceeded => UCode::DeadlineExceeded,
        ServiceInvocationError::Unauthenticated => UCode::Unauthenticated,
        ServiceInvocationError::RpcError(_) => UCode::Unknown,
    }
}

/// The message of the status that an invocation error stands for.
pub open spec fn invocation_error_message(e: ServiceInvocationError) -> Seq<char> {
    match e {
        ServiceInvocationError::AlreadyExists(m) => m@,
        ServiceInvocationError::FailedPrecondition(m) => m@,
        ServiceInvocationError::Internal(m) => m@,
        ServiceInvocationError::InvalidArgument(m) => m@,
        ServiceInvocationError::NotFound(m) => m@,
        ServiceInvocationError::PermissionDenied(m) => m@,
        ServiceInvocationError::ResourceExhausted(m) => m@,
        ServiceInvocationError::Unavailable(m) => m@,
        ServiceInvocationError::Unimplemented(m) => m@,
        ServiceInvocationError::DeadlineExceeded => "request timed out"@,
        ServiceInvocationError::Unauthenticated => "client must authenticate"@,
        ServiceInvocationError::RpcError(_) => "unknown"@,
    }
}

impl ServiceInvocationError {
    /// The invocation error that a failed status stands for.
    pub fn from_status(value: UStatus) -> (e: ServiceInvocationError)
        ensures
            is_invocation_error_for(e, value),
    {
        match value.code {
            UCode::AlreadyExists => ServiceInvocationError::AlreadyExists(value.get_message()),
            UCode::FailedPrecondition => ServiceInvocationError::FailedPrecondition(value.get_message()),
            UCode::Internal => ServiceInvocationError::Internal(value.get_message()),
            UCode::InvalidArgument => ServiceInvocationError::InvalidArgument(value.get_message()),
            UCode::NotFound => ServiceInvocationError::NotFound(value.get_message()),
            UCode::PermissionDenied => ServiceInvocationError::PermissionDenied(value.get_message()),
            UCode::ResourceExhausted => ServiceInvocationError::ResourceExhausted(value.get_message()),
            UCode::Unavailable => ServiceInvocationError::Unavailable(value.get_message()),
            UCode::Unimplemented => ServiceInvocationError::Unimplemented(value.get_message()),
            UCode::DeadlineExceeded => ServiceInvocationError::DeadlineExceeded,
            UCode::Unauthenticated => ServiceInvocationError::Unauthenticated,
            _ => ServiceInvocationError::RpcError(value),
        }
    }

    /// The failed status that this invocation error stands for.
    pub fn into_status(self) -> (s: UStatus)
        ensures
            s.code == invocation_error_code(self),
            s.message is Some,
            status_message(s) == invocation_error_message(self),
    {
        match self {
            ServiceInvocationError::AlreadyExists(msg) => UStatus { code: UCode::AlreadyExists, message: Some(msg) },
            ServiceInvocationError::FailedPrecondition(msg) => UStatus { code: UCode::FailedPrecondition, message: Some(msg) },
            ServiceInvocationError::Internal(msg) => UStatus { code: UCode::Internal, message: Some(msg) },
            ServiceInvocationError::InvalidArgument(msg) => UStatus { code: UCode::InvalidArgument, message: Some(msg) },
            ServiceInvocationError::NotFound(msg) => UStatus { code: UCode::NotFound, message: Some(msg) },
            ServiceInvocationError::PermissionDenied(msg) => UStatus { code: UCode::PermissionDenied, message: Some(msg) },
            ServiceInvocationError::ResourceExhausted(msg) => UStatus { code: UCode::ResourceExhausted, message: Some(msg) },
            ServiceInvocationError::Unavailable(msg) => UStatus { code: UCode::Unavailable, message: Some(msg) },
            ServiceInvocationError::Unimplemented(msg) => UStatus { code: UCode::Unimplemented, message: Some(msg) },
            ServiceInvocationError::DeadlineExceeded => UStatus::fail_with_code(UCode::DeadlineExceeded, "request timed out"),
            ServiceInvocationError::Unauthenticated => UStatus::fail_with_code(UCode::Unauthenticated, "client must authenticate"),
            ServiceInvocationError::RpcError(_) => UStatus::fail_with_code(UCode::Unknown, "unknown"),
        }
    }
}

/// A status turned into an invocation error and back keeps its code when
/// the code has a variant of its own and becomes `Unknown` otherwise; its
/// message survives unless the variant carries a fixed text.
pub proof fn lemma_status_round_trip(s: UStatus, e: ServiceInvocationError)
    requires
        is_invocation_error_for(e, s),
    ensures
        invocation_error_code(e) == (if has_invocation_variant(s.code) { s.code } else { UCode::Unknown }),
        has_invocation_variant(s.code) && s.code != UCode::DeadlineExceeded && s.code != UCode::Unauthenticated
            ==> invocation_error_message(e) == status_message(s),
{
}

/// An invocation error other than a transport error, turned into its status
/// and back, is the same error: same variant, same message.
pub proof fn lemma_error_round_trip(e: ServiceInvocationError, s: UStatus, back: ServiceInvocationError)
    requires
        !(e is RpcError),
        s.code == invocation_error_code(e),
        status_message(s) == invocation_error_message(e),
        is_invocation_error_for(back, s),
    ensures
        invocation_error_code(back) == invocation_error_code(e),
        invocation_error_message(back) == invocation_error_message(e),
{
    match e {
        ServiceInvocationError::DeadlineExceeded => {},
        ServiceInvocationError::Unauthenticated => {},
        _ => {},
    }
}

} // verus!
