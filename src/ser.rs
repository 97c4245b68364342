use vstd::prelude::*;

use crate::duration::{Duration, SignedDuration};
use crate::token::{encoded, EncodeError};

verus! {

/// Types that encode as a signed 64-bit count of nanoseconds.
pub trait Serialize {
    /// The exact length of the value, in nanoseconds.
    spec fn nanos_spec(&self) -> int;

    /// The nanosecond count to write, or `OutOfRange` when it does not fit in an `i64`.
    fn serialize(&self) -> (r: Result<i64, EncodeError>)
        ensures
            r == encoded(self.nanos_spec()),
    ;
}

impl Serialize for Duration {
    open spec fn nanos_spec(&self) -> int {
        self@
    }

    fn serialize(&self) -> (r: Result<i64, EncodeError>) {
        let n = self.as_nanos();
        if n <= i64::MAX as u128 {
            Ok(n as i64)
        } else {
            Err(EncodeError::OutOfRange)
        }
    }
}

impl Serialize for SignedDuration {
    open spec fn nanos_spec(&self) -> int {
        self@
    }

    fn serialize(&self) -> (r: Result<i64, EncodeError>) {
        let n = self.as_nanos();
        if i64::MIN as i128 <= n && n <= i64::MAX as i128 {
            Ok(n as i64)
        } else {
            Err(EncodeError::OutOfRange)
        }
    }
}

/// Encodes each item of a sequence in order; fails with `OutOfRange` when any
/// item does not fit, and otherwise returns one count per item.
pub fn serialize_all<T: Serialize>(items: &Vec<T>) -> (r: Result<Vec<i64>, EncodeError>)
    ensures
        match r {
            Ok(out) => out@.len() == items@.len() && forall|i: int|
                0 <= i < items@.len() ==> encoded(items@[i].nanos_spec()) == Ok::<i64, EncodeError>(#[trigger] out@[i]),
            Err(e) => e == EncodeError::OutOfRange && exists|i: int|
                0 <= i < items@.len() && #[trigger] encoded(items@[i].nanos_spec()) is Err,
        },
{
    let mut out: Vec<i64> = Vec::with_capacity(items.len());
    let mut i: usize = 0;
    while i < items.len()
        invariant
            i <= items@.len(),
            out@.len() == i,
            forall|j: int| 0 <= j < i ==> encoded(items@[j].nanos_spec()) == Ok::<i64, EncodeError>(#[trigger] out@[j]),
        decreases items@.len() - i,
    {
        match items[i].serialize() {
            Ok(n) => out.push(n),
            Err(e) => {
                assert(encoded(items@[i as int].nanos_spec()) is Err);
                return Err(e);
            },
        }
        i += 1;
    }
    Ok(out)
}

} // verus!
