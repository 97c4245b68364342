use vstd::prelude::*;

verus! {

/// One value as a document reader presents it to a field codec.
#[derive(Debug)]
pub enum Value {
    /// A non-negative integer token.
    Unsigned(u64),
    /// A signed integer token.
    Signed(i64),
    /// An explicit null or unit token.
    Unit,
    /// The reader's signal that no value is present.
    Absent,
    /// A sequence of values, in document order.
    List(Vec<Value>),
    /// Any other token (a string, a float, a map, a boolean).
    Other,
}

/// Why a value could not be decoded.
#[derive(Debug, Clone, Copy, PartialEq, Eq, Structural)]
pub enum DecodeError {
    /// The token is not of the expected kind.
    InvalidType,
    /// The token is an integer outside the range the target accepts.
    InvalidValue,
}

/// Why a duration could not be encoded.
#[derive(Debug, Clone, Copy, PartialEq, Eq, Structural)]
pub enum EncodeError {
    /// The nanosecond count does not fit in a signed 64-bit integer.
    OutOfRange,
}

/// The integer a token holds, if it holds one.
pub open spec fn int_of(v: Value) -> Option<int> {
    match v {
        Value::Unsigned(n) => Some(n as int),
        Value::Signed(n) => Some(n as int),
        _ => None,
    }
}

/// Reads a token as an integer within `[lo, hi]`.
pub open spec fn int_in(v: Value, lo: int, hi: int) -> Result<int, DecodeError> {
    match int_of(v) {
        None => Err(DecodeError::InvalidType),
        Some(n) => if lo <= n && n <= hi {
            Ok(n)
        } else {
            Err(DecodeError::InvalidValue)
        },
    }
}

/// The token an encoder writes for a nanosecond count, or the reason it cannot.
pub open spec fn encoded(n: int) -> Result<i64, EncodeError> {
    if i64::MIN <= n && n <= i64::MAX {
        Ok(n as i64)
    } else {
        Err(EncodeError::OutOfRange)
    }
}

/// Reads a token as an unsigned 64-bit integer.
pub fn read_u64(v: &Value) -> (r: Result<u64, DecodeError>)
    ensures
        match (r, int_in(*v, 0, u64::MAX as int)) {
            (Ok(n), Ok(m)) => n as int == m,
            (Err(e), Err(f)) => e == f,
            _ => false,
        },
{
    match v {
        Value::Unsigned(n) => Ok(*n),
        Value::Signed(n) => if *n >= 0 {
            Ok(*n as u64)
        } else {
            Err(DecodeError::InvalidValue)
        },
        _ => Err(DecodeError::InvalidType),
    }
}

/// Reads a token as a signed 64-bit integer.
pub fn read_i64(v: &Value) -> (r: Result<i64, DecodeError>)
    ensures
        match (r, int_in(*v, i64::MIN as int, i64::MAX as int)) {
            (Ok(n), Ok(m)) => n as int == m,
            (Err(e), Err(f)) => e == f,
            _ => false,
        },
{
    match v {
        Value::Unsigned(n) => if *n <= i64::MAX as u64 {
            Ok(*n as i64)
        } else {
            Err(DecodeError::InvalidValue)
        },
        Value::Signed(n) => Ok(*n),
        _ => Err(DecodeError::InvalidType),
    }
}

} // verus!
