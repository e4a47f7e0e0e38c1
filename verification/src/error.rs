//! Error codes shared by every driver.

use vstd::prelude::*;

verus! {

/// The failure kinds that the kernel and the drivers report.
#[derive(Clone, Copy, Debug, PartialEq, Eq, Structural)]
pub enum ErrorCode {
    /// Generic kernel-side failure.
    Fail,
    /// An operation is already outstanding on this driver.
    Busy,
    /// The requested state change had no effect.
    Already,
    /// The component is powered down.
    Off,
    /// A reservation is required before use.
    Reserve,
    /// An argument or the driver state rejected the request.
    Invalid,
    /// A size argument was out of range.
    Size,
    /// The operation was cancelled.
    Cancel,
    /// No matching cached data, or a buffer was too small.
    NoMem,
    /// The operation is not implemented for this combination.
    NoSupport,
    /// The device is not available.
    NoDevice,
    /// The device is not physically installed.
    Uninstalled,
    /// The packet transmission was not acknowledged.
    NoAck,
    /// The kernel returned a result shape the caller could not interpret.
    BadRVal,
}

impl ErrorCode {
    /// The number that stands for this error on the wire.
    pub open spec fn code(self) -> u32 {
        match self {
            ErrorCode::Fail => 1,
            ErrorCode::Busy => 2,
            ErrorCode::Already => 3,
            ErrorCode::Off => 4,
            ErrorCode::Reserve => 5,
            ErrorCode::Invalid => 6,
            ErrorCode::Size => 7,
            ErrorCode::Cancel => 8,
            ErrorCode::NoMem => 9,
            ErrorCode::NoSupport => 10,
            ErrorCode::NoDevice => 11,
            ErrorCode::Uninstalled => 12,
            ErrorCode::NoAck => 13,
            ErrorCode::BadRVal => 1024,
        }
    }

    /// Whether some error has `value` as its wire number.
    pub open spec fn is_code(value: u32) -> bool {
        1 <= value <= 13 || value == 1024
    }

    /// The error that a wire number stands for, if it stands for one.
    pub open spec fn from_code(value: u32) -> Option<ErrorCode> {
        if value == 1 {
            Some(ErrorCode::Fail)
        } else if value == 2 {
            Some(ErrorCode::Busy)
        } else if value == 3 {
            Some(ErrorCode::Already)
        } else if value == 4 {
            Some(ErrorCode::Off)
        } else if value == 5 {
            Some(ErrorCode::Reserve)
        } else if value == 6 {
            Some(ErrorCode::Invalid)
        } else if value == 7 {
            Some(ErrorCode::Size)
        } else if value == 8 {
            Some(ErrorCode::Cancel)
        } else if value == 9 {
            Some(ErrorCode::NoMem)
        } else if value == 10 {
            Some(ErrorCode::NoSupport)
        } else if value == 11 {
            Some(ErrorCode::NoDevice)
        } else if value == 12 {
            Some(ErrorCode::Uninstalled)
        } else if value == 13 {
            Some(ErrorCode::NoAck)
        } else if value == 1024 {
            Some(ErrorCode::BadRVal)
        } else {
            None
        }
    }

    /// The wire number of this error.
    pub fn to_u32(self) -> (r: u32)
        ensures
            r == self.code(),
            Self::is_code(r),
    {
        match self {
            ErrorCode::Fail => 1,
            ErrorCode::Busy => 2,
            ErrorCode::Already => 3,
            ErrorCode::Off => 4,
            ErrorCode::Reserve => 5,
            ErrorCode::Invalid => 6,
            ErrorCode::Size => 7,
            ErrorCode::Cancel => 8,
            ErrorCode::NoMem => 9,
            ErrorCode::NoSupport => 10,
            ErrorCode::NoDevice => 11,
            ErrorCode::Uninstalled => 12,
            ErrorCode::NoAck => 13,
            ErrorCode::BadRVal => 1024,
        }
    }

    /// Reads a wire number: the error it stands for, or `None` for a number
    /// that stands for none (zero, the success status, among them).
    pub fn try_from_u32(value: u32) -> (r: Option<ErrorCode>)
        ensures
            r == Self::from_code(value),
    {
        match value {
            1 => Some(ErrorCode::Fail),
            2 => Some(ErrorCode::Busy),
            3 => Some(ErrorCode::Already),
            4 => Some(ErrorCode::Off),
            5 => Some(ErrorCode::Reserve),
            6 => Some(ErrorCode::Invalid),
            7 => Some(ErrorCode::Size),
            8 => Some(ErrorCode::Cancel),
            9 => Some(ErrorCode::NoMem),
            10 => Some(ErrorCode::NoSupport),
            11 => Some(ErrorCode::NoDevice),
            12 => Some(ErrorCode::Uninstalled),
            13 => Some(ErrorCode::NoAck),
            1024 => Some(ErrorCode::BadRVal),
            _ => None,
        }
    }
}

/// Writing an error as its wire number and reading the number gives the
/// error back, and a number that reads as an error is that error's number.
pub proof fn lemma_code_round_trip(e: ErrorCode, value: u32)
    ensures
        ErrorCode::from_code(e.code()) == Some(e),
        ErrorCode::from_code(value) matches Some(read) ==> read.code() == value,
        ErrorCode::from_code(value).is_some() <==> ErrorCode::is_code(value),
{
}

} // verus!
