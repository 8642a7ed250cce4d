use vstd::prelude::*;

use crate::error::DecodeError;

verus! {

/// A JSON value found where the wire format puts an integer-encoded flag.
#[derive(Debug, Clone, Copy, PartialEq, Eq)]
pub enum RawFlag {
    /// An integer, of any sign.
    Int(i128),
    /// Any JSON value that is not an integer.
    NotInteger,
}

/// What a flag value means: `0` is false, any other integer true, anything
/// else a type mismatch.
pub open spec fn spec_flag(v: RawFlag) -> Result<bool, DecodeError> {
    match v {
        RawFlag::Int(n) => Ok(n != 0),
        RawFlag::NotInteger => Err(DecodeError::TypeMismatch),
    }
}

/// A flag that may be absent; absence reads as false.
pub open spec fn spec_opt_flag(v: Option<RawFlag>) -> Result<bool, DecodeError> {
    match v {
        Some(f) => spec_flag(f),
        None => Ok(false),
    }
}

/// Turns an integer-encoded flag into a `bool`.
pub fn int_to_bool(v: &RawFlag) -> (r: Result<bool, DecodeError>)
    ensures
        r == spec_flag(*v),
        *v == RawFlag::Int(0) ==> r == Ok::<bool, DecodeError>(false),
        (*v is Int && *v != RawFlag::Int(0)) ==> r == Ok::<bool, DecodeError>(true),
        *v is NotInteger ==> r == Err::<bool, DecodeError>(DecodeError::TypeMismatch),
{
    match v {
        RawFlag::Int(n) => Ok(*n != 0),
        RawFlag::NotInteger => Err(DecodeError::TypeMismatch),
    }
}

/// Reads a flag that the record may leave out.
pub fn opt_flag(v: &Option<RawFlag>) -> (r: Result<bool, DecodeError>)
    ensures
        r == spec_opt_flag(*v),
{
    match v {
        Some(f) => int_to_bool(f),
        None => Ok(false),
    }
}

} // verus!
