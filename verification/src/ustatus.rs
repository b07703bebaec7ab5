//! Status codes and status values.
use vstd::prelude::*;

verus! {

/// uProtocol status codes (numbered 0 to 16 in declaration order).
#[derive(Clone, Copy, Debug, PartialEq, Eq, Hash)]
#[allow(non_camel_case_types)]
pub enum UCode {
    OK,
    Cancelled,
    Unknown,
    InvalidArgument,
    DeadlineExceeded,
    NotFound,
    AlreadyExists,
    PermissionDenied,
    ResourceExhausted,
    FailedPrecondition,
    Aborted,
    OutOfRange,
    Unimplemented,
    Internal,
    Unavailable,
    DataLoss,
    Unauthenticated,
}

/// The number of a status code.
pub open spec fn ucode_value(c: UCode) -> int {
    match c {
        UCode::OK => 0,
        UCode::Cancelled => 1,
        UCode::Unknown => 2,
        UCode::InvalidArgument => 3,
        UCode::DeadlineExceeded => 4,
        UCode::NotFound => 5,
        UCode::AlreadyExists => 6,
        UCode::PermissionDenied => 7,
        UCode::ResourceExhausted => 8,
        UCode::FailedPrecondition => 9,
        UCode::Aborted => 10,
        UCode::OutOfRange => 11,
        UCode::Unimplemented => 12,
        UCode::Internal => 13,
        UCode::Unavailable => 14,
        UCode::DataLoss => 15,
        UCode::Unauthenticated => 16,
    }
}

/// The numbers of the status codes are those of the protobuf `UCode` enum,
/// from OK 0 to UNAUTHENTICATED 16; every other number names no code.
pub proof fn lemma_ucode_numbers(v: int)
    ensures
        ucode_value(UCode::OK) == 0,
        ucode_value(UCode::Cancelled) == 1,
        ucode_value(UCode::Unknown) == 2,
        ucode_value(UCode::InvalidArgument) == 3,
        ucode_value(UCode::DeadlineExceeded) == 4,
        ucode_value(UCode::NotFound) == 5,
        ucode_value(UCode::AlreadyExists) == 6,
        ucode_value(UCode::PermissionDenied) == 7,
        ucode_value(UCode::ResourceExhausted) == 8,
        ucode_value(UCode::FailedPrecondition) == 9,
        ucode_value(UCode::Aborted) == 10,
        ucode_value(UCode::OutOfRange) == 11,
        ucode_value(UCode::Unimplemented) == 12,
        ucode_value(UCode::Internal) == 13,
        ucode_value(UCode::Unavailable) == 14,
        ucode_value(UCode::DataLoss) == 15,
        ucode_value(UCode::Unauthenticated) == 16,
        ucode_from_value(0) == Some(UCode::OK),
        ucode_from_value(1) == Some(UCode::Cancelled),
        ucode_from_value(2) == Some(UCode::Unknown),
        ucode_from_value(3) == Some(UCode::InvalidArgument),
        ucode_from_value(4) == Some(UCode::DeadlineExceeded),
        ucode_from_value(5) == Some(UCode::NotFound),
        ucode_from_value(6) == Some(UCode::AlreadyExists),
        ucode_from_value(7) == Some(UCode::PermissionDenied),
        ucode_from_value(8) == Some(UCode::ResourceExhausted),
        ucode_from_value(9) == Some(UCode::FailedPrecondition),
        ucode_from_value(10) == Some(UCode::Aborted),
        ucode_from_value(11) == Some(UCode::OutOfRange),
        ucode_from_value(12) == Some(UCode::Unimplemented),
        ucode_from_value(13) == Some(UCode::Internal),
        ucode_from_value(14) == Some(UCode::Unavailable),
        ucode_from_value(15) == Some(UCode::DataLoss),
        ucode_from_value(16) == Some(UCode::Unauthenticated),
        !(0 <= v <= 16) ==> ucode_from_value(v) is None,
{
}

/// The status code numbered `v`, if any.
pub open spec fn ucode_from_value(v: int) -> Option<UCode> {
    if v == 0 { Some(UCode::OK) }
    else if v == 1 { Some(UCode::Cancelled) }
    else if v == 2 { Some(UCode::Unknown) }
    else if v == 3 { Some(UCode::InvalidArgument) }
    else if v == 4 { Some(UCode::DeadlineExceeded) }
    else if v == 5 { Some(UCode::NotFound) }
    else if v == 6 { Some(UCode::AlreadyExists) }
    else if v == 7 { Some(UCode::PermissionDenied) }
    else if v == 8 { Some(UCode::ResourceExhausted) }
    else if v == 9 { Some(UCode::FailedPrecondition) }
    else if v == 10 { Some(UCode::Aborted) }
    else if v == 11 { Some(UCode::OutOfRange) }
    else if v == 12 { Some(UCode::Unimplemented) }
    else if v == 13 { Some(UCode::Internal) }
    else if v == 14 { Some(UCode::Unavailable) }
    else if v == 15 { Some(UCode::DataLoss) }
    else if v == 16 { Some(UCode::Unauthenticated) }
    else { None }
}

/// Status codes and their numbers correspond one to one.
pub proof fn lemma_ucode_value_round_trip(c: UCode)
    ensures
        0 <= ucode_value(c) <= 16,
        ucode_from_value(ucode_value(c)) == Some(c),
{
}

impl UCode {
    /// Returns the number of this status code.
    pub fn value(&self) -> (v: i32)
        ensures
            v as int == ucode_value(*self),
    {
        match self {
            UCode::OK => 0,
            UCode::Cancelled => 1,
            UCode::Unknown => 2,
            UCode::InvalidArgument => 3,
            UCode::DeadlineExceeded => 4,
            UCode::NotFound => 5,
            UCode::AlreadyExists => 6,
            UCode::PermissionDenied => 7,
            UCode::ResourceExhausted => 8,
            UCode::FailedPrecondition => 9,
            UCode::Aborted => 10,
            UCode::OutOfRange => 11,
            UCode::Unimplemented => 12,
            UCode::Internal => 13,
            UCode::Unavailable => 14,
            UCode::DataLoss => 15,
            UCode::Unauthenticated => 16,
        }
    }

    /// Returns the status code numbered `v`; fails for numbers outside `0..=16`.
    pub fn try_from_i32(v: i32) -> (r: Result<UCode, ()>)
        ensures
            r is Ok <==> ucode_from_value(v as int) is Some,
            r matches Ok(c) ==> ucode_from_value(v as int) == Some(c),
    {
        match v {
            0 => Ok(UCode::OK),
            1 => Ok(UCode::Cancelled),
            2 => Ok(UCode::Unknown),
            3 => Ok(UCode::InvalidArgument),
            4 => Ok(UCode::DeadlineExceeded),
            5 => Ok(UCode::NotFound),
            6 => Ok(UCode::AlreadyExists),
            7 => Ok(UCode::PermissionDenied),
            8 => Ok(UCode::ResourceExhausted),
            9 => Ok(UCode::FailedPrecondition),
            10 => Ok(UCode::Aborted),
            11 => Ok(UCode::OutOfRange),
            12 => Ok(UCode::Unimplemented),
            13 => Ok(UCode::Internal),
            14 => Ok(UCode::Unavailable),
            15 => Ok(UCode::DataLoss),
            16 => Ok(UCode::Unauthenticated),
            _ => Err(()),
        }
    }
}

/// A status: a code and an optional human-readable message.
#[derive(Debug, PartialEq, Eq)]
pub struct UStatus {
    pub code: UCode,
    pub message: Option<String>,
}

impl UStatus {
    /// Creates a failure status with the given code and message.
    pub fn fail_with_code(code: UCode, message: &str) -> (s: UStatus)
        ensures
            s.code == code,
            s.message matches Some(m) && m@ == message@,
    {
        UStatus { code, message: Some(String::from_str(message)) }
    }

    /// Returns the status code.
    pub fn get_code(&self) -> (c: UCode)
        ensures
            c == self.code,
    {
        self.code
    }

    /// Returns the status message, or an empty string when there is none.
    pub fn get_message(&self) -> (m: String)
        ensures
            m@ == status_message(*self),
    {
        match &self.message {
            Some(m) => m.clone(),
            None => String::new(),
        }
    }
}

/// The text of a status's message; empty when it has none.
pub open spec fn status_message(s: UStatus) -> Seq<char> {
    match s.message {
        Some(m) => m@,
        None => Seq::empty(),
    }
}

impl Clone for UStatus {
    fn clone(&self) -> (c: UStatus)
        ensures
            c == *self,
    {
        UStatus {
            code: self.code,
            message: match &self.message {
                Some(m) => Some(m.clone()),
                None => None,
            },
        }
    }
}

} // verus!
