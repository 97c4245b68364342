use vstd::prelude::*;

use crate::duration::{Duration, SignedDuration};
use crate::token::{int_in, read_i64, read_u64, DecodeError, Value};

verus! {

/// Types that decode from one integer token holding a count of nanoseconds.
pub trait FromToken: Sized {
    /// The result of decoding token `v`.
    spec fn decode_spec(v: Value) -> Result<Self, DecodeError>;

    /// Decodes one token.
    fn decode(v: &Value) -> (r: Result<Self, DecodeError>)
        ensures
            r == Self::decode_spec(*v),
    ;
}

/// Types that decode from a value as a document reader presents it.
pub trait Deserialize: Sized {
    /// Whether `r` is the outcome of decoding `v`.
    spec fn decodes(v: Value, r: Result<Self, DecodeError>) -> bool;

    /// Decodes `v`.
    fn deserialize(v: &Value) -> (r: Result<Self, DecodeError>)
        ensures
            Self::decodes(*v, r),
    ;
}

impl FromToken for Duration {
    /// An integer in `0..=u64::MAX` read as nanoseconds.
    open spec fn decode_spec(v: Value) -> Result<Duration, DecodeError> {
        match int_in(v, 0, u64::MAX as int) {
            Ok(n) => Ok(Duration::of_nanos(n as nat)),
            Err(e) => Err(e),
        }
    }

    fn decode(v: &Value) -> (r: Result<Duration, DecodeError>) {
        match read_u64(v) {
            Ok(n) => Ok(Duration::from_nanos(n)),
            Err(e) => Err(e),
        }
    }
}

impl FromToken for SignedDuration {
    /// An integer in the range of `i64` read as nanoseconds.
    open spec fn decode_spec(v: Value) -> Result<SignedDuration, DecodeError> {
        match int_in(v, i64::MIN as int, i64::MAX as int) {
            Ok(n) => Ok(SignedDuration::of_nanos(n)),
            Err(e) => Err(e),
        }
    }

    fn decode(v: &Value) -> (r: Result<SignedDuration, DecodeError>) {
        match read_i64(v) {
            Ok(n) => Ok(SignedDuration::nanoseconds(n)),
            Err(e) => Err(e),
        }
    }
}

/// Decodes each token in order; the first failure, counted from the front, is
/// the result.
pub open spec fn decode_all<T: FromToken>(items: Seq<Value>) -> Result<Seq<T>, DecodeError>
    decreases items.len(),
{
    if items.len() == 0 {
        Ok(Seq::empty())
    } else {
        match decode_all::<T>(items.drop_last()) {
            Err(e) => Err(e),
            Ok(ds) => match T::decode_spec(items.last()) {
                Err(e) => Err(e),
                Ok(d) => Ok(ds.push(d)),
            },
        }
    }
}

/// An optional field: a null or unit token, or no value at all, is absence;
/// anything else is decoded as one duration, and its failure is the result.
pub open spec fn option_decodes<T: FromToken>(v: Value, r: Result<Option<T>, DecodeError>) -> bool {
    match v {
        Value::Unit | Value::Absent => r == Ok::<Option<T>, DecodeError>(None),
        _ => match T::decode_spec(v) {
            Ok(d) => r == Ok::<Option<T>, DecodeError>(Some(d)),
            Err(e) => r == Err::<Option<T>, DecodeError>(e),
        },
    }
}

/// A sequence field: a list of tokens decoded one by one, in order; any other
/// value is of the wrong type.
pub open spec fn list_decodes<T: FromToken>(v: Value, r: Result<Vec<T>, DecodeError>) -> bool {
    match v {
        Value::List(items) => match (decode_all::<T>(items@), r) {
            (Ok(ds), Ok(out)) => out@ == ds,
            (Err(e), Err(f)) => e == f,
            _ => false,
        },
        _ => r == Err::<Vec<T>, DecodeError>(DecodeError::InvalidType),
    }
}

/// A failure in a prefix is the failure of the whole sequence.
pub proof fn lemma_decode_all_prefix<T: FromToken>(items: Seq<Value>, k: int)
    requires
        0 <= k <= items.len(),
        decode_all::<T>(items.take(k)) is Err,
    ensures
        decode_all::<T>(items) == decode_all::<T>(items.take(k)),
    decreases items.len(),
{
    if k == items.len() {
        assert(items.take(k) =~= items);
    } else {
        assert(items.drop_last().take(k) =~= items.take(k));
        lemma_decode_all_prefix::<T>(items.drop_last(), k);
    }
}

/// Decodes an optional field.
pub fn decode_option<T: FromToken>(v: &Value) -> (r: Result<Option<T>, DecodeError>)
    ensures
        option_decodes::<T>(*v, r),
{
    match v {
        Value::Unit | Value::Absent => Ok(None),
        _ => match T::decode(v) {
            Ok(d) => Ok(Some(d)),
            Err(e) => Err(e),
        },
    }
}

/// Decodes a sequence field, stopping at the first element that fails.
pub fn decode_list<T: FromToken>(v: &Value) -> (r: Result<Vec<T>, DecodeError>)
    ensures
        list_decodes::<T>(*v, r),
{
    match v {
        Value::List(items) => {
            let mut out: Vec<T> = Vec::with_capacity(items.len());
            let mut i: usize = 0;
            while i < items.len()
                invariant
                    *v == Value::List(*items),
                    i <= items@.len(),
                    decode_all::<T>(items@.take(i as int)) == Ok::<Seq<T>, DecodeError>(out@),
                decreases items@.len() - i,
            {
                assert(items@.take(i + 1).drop_last() =~= items@.take(i as int));
                match T::decode(&items[i]) {
                    Ok(d) => out.push(d),
                    Err(e) => {
                        proof {
                            let pre = items@.take(i + 1);
                            assert(pre.last() == items@[i as int]);
                            assert(decode_all::<T>(pre) == Err::<Seq<T>, DecodeError>(e));
                            lemma_decode_all_prefix::<T>(items@, i + 1);
                        }
                        return Err(e);
                    },
                }
                i += 1;
            }
            assert(items@.take(items@.len() as int) =~= items@);
            Ok(out)
        },
        _ => Err(DecodeError::InvalidType),
    }
}

impl Deserialize for Duration {
    open spec fn decodes(v: Value, r: Result<Duration, DecodeError>) -> bool {
        r == Duration::decode_spec(v)
    }

    fn deserialize(v: &Value) -> (r: Result<Duration, DecodeError>) {
        Duration::decode(v)
    }
}

impl Deserialize for Option<Duration> {
    open spec fn decodes(v: Value, r: Result<Option<Duration>, DecodeError>) -> bool {
        option_decodes::<Duration>(v, r)
    }

    fn deserialize(v: &Value) -> (r: Result<Option<Duration>, DecodeError>) {
        decode_option::<Duration>(v)
    }
}

impl Deserialize for Vec<Duration> {
    open spec fn decodes(v: Value, r: Result<Vec<Duration>, DecodeError>) -> bool {
        list_decodes::<Duration>(v, r)
    }

    fn deserialize(v: &Value) -> (r: Result<Vec<Duration>, DecodeError>) {
        decode_list::<Duration>(v)
    }
}

impl Deserialize for SignedDuration {
    open spec fn decodes(v: Value, r: Result<SignedDuration, DecodeError>) -> bool {
        r == SignedDuration::decode_spec(v)
    }

    fn deserialize(v: &Value) -> (r: Result<SignedDuration, DecodeError>) {
        SignedDuration::decode(v)
    }
}

impl Deserialize for Option<SignedDuration> {
    open spec fn decodes(v: Value, r: Result<Option<SignedDuration>, DecodeError>) -> bool {
        option_decodes::<SignedDuration>(v, r)
    }

    fn deserialize(v: &Value) -> (r: Result<Option<SignedDuration>, DecodeError>) {
        decode_option::<SignedDuration>(v)
    }
}

impl Deserialize for Vec<SignedDuration> {
    open spec fn decodes(v: Value, r: Result<Vec<SignedDuration>, DecodeError>) -> bool {
        list_decodes::<SignedDuration>(v, r)
    }

    fn deserialize(v: &Value) -> (r: Result<Vec<SignedDuration>, DecodeError>) {
        decode_list::<SignedDuration>(v)
    }
}

} // verus!
