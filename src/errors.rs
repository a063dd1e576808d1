//! Error codes shared across the native boundary.

use vstd::prelude::*;

verus! {

/// Error codes.
#[derive(Clone, Copy, Debug, PartialEq, Eq, Structural)]
pub enum FusionErrorCode {
    /// Operation failed.
    Fail,
    /// Invalid input parameter(s).
    InvalidParam,
}

/// IPC specific result; the error is the raw integer status.
pub type FusionResult<T> = Result<T, i32>;

/// The fixed integer that stands for each error code across the boundary.
pub open spec fn code_of(e: FusionErrorCode) -> i32 {
    match e {
        FusionErrorCode::Fail => -1i32,
        FusionErrorCode::InvalidParam => -2i32,
    }
}

/// Decoding of an integer: the code it stands for, `Fail` for any other.
pub open spec fn decode_spec(v: i32) -> Result<FusionErrorCode, FusionErrorCode> {
    if v == code_of(FusionErrorCode::Fail) {
        Ok(FusionErrorCode::Fail)
    } else if v == code_of(FusionErrorCode::InvalidParam) {
        Ok(FusionErrorCode::InvalidParam)
    } else {
        Err(FusionErrorCode::Fail)
    }
}

impl FusionErrorCode {
    /// The integer that stands for this code.
    pub fn code(self) -> (r: i32)
        ensures
            r == code_of(self),
    {
        match self {
            FusionErrorCode::Fail => -1i32,
            FusionErrorCode::InvalidParam => -2i32,
        }
    }

    /// The code that an integer stands for; an unknown integer fails closed to `Fail`.
    pub fn decode(value: i32) -> (r: Result<FusionErrorCode, FusionErrorCode>)
        ensures
            r == decode_spec(value),
    {
        if FusionErrorCode::Fail.code() == value {
            Ok(FusionErrorCode::Fail)
        } else if FusionErrorCode::InvalidParam.code() == value {
            Ok(FusionErrorCode::InvalidParam)
        } else {
            Err(FusionErrorCode::Fail)
        }
    }
}

impl From<FusionErrorCode> for i32 {
    fn from(value: FusionErrorCode) -> (r: i32)
        ensures
            r == code_of(value),
    {
        value.code()
    }
}

impl vstd::std_specs::convert::FromSpecImpl<FusionErrorCode> for i32 {
    open spec fn obeys_from_spec() -> bool {
        true
    }

    open spec fn from_spec(v: FusionErrorCode) -> i32 {
        code_of(v)
    }
}

impl TryFrom<i32> for FusionErrorCode {
    type Error = FusionErrorCode;

    fn try_from(value: i32) -> (r: Result<FusionErrorCode, FusionErrorCode>)
        ensures
            r == decode_spec(value),
    {
        FusionErrorCode::decode(value)
    }
}

impl vstd::std_specs::convert::TryFromSpecImpl<i32> for FusionErrorCode {
    open spec fn obeys_try_from_spec() -> bool {
        true
    }

    open spec fn try_from_spec(v: i32) -> Result<FusionErrorCode, FusionErrorCode> {
        decode_spec(v)
    }
}

/// Decoding the integer of a code gives back that code, for every code.
pub proof fn lemma_code_round_trip(e: FusionErrorCode)
    ensures
        decode_spec(code_of(e)) == Ok::<FusionErrorCode, FusionErrorCode>(e),
{
}

/// Decoding an integer that stands for no code yields `Fail`.
pub proof fn lemma_unknown_code_fails_closed(v: i32)
    requires
        v != code_of(FusionErrorCode::Fail),
        v != code_of(FusionErrorCode::InvalidParam),
    ensures
        decode_spec(v) == Err::<FusionErrorCode, FusionErrorCode>(FusionErrorCode::Fail),
{
}

} // verus!
