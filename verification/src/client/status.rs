//! Status codes of the backend protocol and their classification.

use crate::client::retry::ErrorClass;
use vstd::prelude::*;

verus! {

/// The status codes with which a call can end.
#[derive(Clone, Copy, Debug, PartialEq, Eq, Structural)]
pub enum StatusCode {
    /// Not an error: the call succeeded.
    Success,
    /// The caller cancelled the call.
    Cancelled,
    /// An error of no other code.
    Unknown,
    /// The request was malformed.
    InvalidArgument,
    /// The backend did not answer in time.
    DeadlineExceeded,
    /// What was asked for does not exist.
    NotFound,
    /// What was to be created exists already.
    AlreadyExists,
    /// The caller may not make this call.
    PermissionDenied,
    /// A quota or a resource of the backend is used up.
    ResourceExhausted,
    /// The backend is not in a state for this call.
    FailedPrecondition,
    /// The call was aborted, often by a conflict.
    Aborted,
    /// The call reached past a valid range.
    OutOfRange,
    /// The backend does not offer this call.
    Unimplemented,
    /// The backend failed internally.
    Internal,
    /// The backend cannot be reached now.
    Unavailable,
    /// Data was lost or corrupted.
    DataLoss,
    /// The caller did not prove who it is.
    Unauthenticated,
}

impl StatusCode {
    /// The number of the code on the wire.
    pub open spec fn number(self) -> int {
        match self {
            StatusCode::Success => 0,
            StatusCode::Cancelled => 1,
            StatusCode::Unknown => 2,
            StatusCode::InvalidArgument => 3,
            StatusCode::DeadlineExceeded => 4,
            StatusCode::NotFound => 5,
            StatusCode::AlreadyExists => 6,
            StatusCode::PermissionDenied => 7,
            StatusCode::ResourceExhausted => 8,
            StatusCode::FailedPrecondition => 9,
            StatusCode::Aborted => 10,
            StatusCode::OutOfRange => 11,
            StatusCode::Unimplemented => 12,
            StatusCode::Internal => 13,
            StatusCode::Unavailable => 14,
            StatusCode::DataLoss => 15,
            StatusCode::Unauthenticated => 16,
        }
    }

    /// The failure is transient: the backend was unavailable, failed
    /// internally or did not answer in time.
    pub open spec fn is_transient(self) -> bool {
        self == StatusCode::Unavailable || self == StatusCode::Internal || self
            == StatusCode::DeadlineExceeded
    }

    /// The class of a call that ended with this code: transient failures are
    /// retryable, all others terminal.
    pub open spec fn class(self) -> ErrorClass {
        if self.is_transient() {
            ErrorClass::Retryable
        } else {
            ErrorClass::Terminal
        }
    }

    /// The code with the given number on the wire. A number that no code
    /// has stands for an unknown error.
    pub fn from_number(number: i32) -> (code: StatusCode)
        ensures
            0 <= number <= 16 ==> code.number() == number,
            !(0 <= number <= 16) ==> code == StatusCode::Unknown,
    {
        match number {
            0 => StatusCode::Success,
            1 => StatusCode::Cancelled,
            2 => StatusCode::Unknown,
            3 => StatusCode::InvalidArgument,
            4 => StatusCode::DeadlineExceeded,
            5 => StatusCode::NotFound,
            6 => StatusCode::AlreadyExists,
            7 => StatusCode::PermissionDenied,
            8 => StatusCode::ResourceExhausted,
            9 => StatusCode::FailedPrecondition,
            10 => StatusCode::Aborted,
            11 => StatusCode::OutOfRange,
            12 => StatusCode::Unimplemented,
            13 => StatusCode::Internal,
            14 => StatusCode::Unavailable,
            15 => StatusCode::DataLoss,
            16 => StatusCode::Unauthenticated,
            _ => StatusCode::Unknown,
        }
    }

    /// The number of the code on the wire.
    pub fn to_number(self) -> (number: i32)
        ensures
            number == self.number(),
    {
        match self {
            StatusCode::Success => 0,
            StatusCode::Cancelled => 1,
            StatusCode::Unknown => 2,
            StatusCode::InvalidArgument => 3,
            StatusCode::DeadlineExceeded => 4,
            StatusCode::NotFound => 5,
            StatusCode::AlreadyExists => 6,
            StatusCode::PermissionDenied => 7,
            StatusCode::ResourceExhausted => 8,
            StatusCode::FailedPrecondition => 9,
            StatusCode::Aborted => 10,
            StatusCode::OutOfRange => 11,
            StatusCode::Unimplemented => 12,
            StatusCode::Internal => 13,
            StatusCode::Unavailable => 14,
            StatusCode::DataLoss => 15,
            StatusCode::Unauthenticated => 16,
        }
    }

    /// Whether a call that ended with this code may be repeated.
    pub fn is_retryable(self) -> (retryable: bool)
        ensures
            retryable == self.is_transient(),
    {
        match self {
            StatusCode::Unavailable => true,
            StatusCode::Internal => true,
            StatusCode::DeadlineExceeded => true,
            _ => false,
        }
    }

    /// The class of a call that ended with this code.
    pub fn classify(self) -> (class: ErrorClass)
        ensures
            class == self.class(),
    {
        if self.is_retryable() {
            ErrorClass::Retryable
        } else {
            ErrorClass::Terminal
        }
    }
}

/// Two codes with the same number are the same code.
pub proof fn law_number_names_code(a: StatusCode, b: StatusCode)
    requires
        a.number() == b.number(),
    ensures
        a == b,
{
}

} // verus!
