//! Properties that relate the encoder and the decoders.

use vstd::prelude::*;

use crate::de::{decode_all, lemma_decode_all_prefix, FromToken};
use crate::duration::{Duration, SignedDuration};
use crate::ser::Serialize;
use crate::token::{encoded, DecodeError, EncodeError, Value};

verus! {

/// A non-negative duration whose nanosecond count fits in an `i64` encodes to
/// that count, and decoding the count, whether the reader presents it as a
/// signed or an unsigned integer, gives the same duration back.
pub proof fn lemma_round_trip_unsigned(d: Duration)
    requires
        d.wf(),
        d@ <= i64::MAX,
    ensures
        encoded(d.nanos_spec()) == Ok::<i64, EncodeError>(d@ as i64),
        Duration::decode_spec(Value::Signed(d@ as i64)) == Ok::<Duration, DecodeError>(d),
        Duration::decode_spec(Value::Unsigned(d@ as u64)) == Ok::<Duration, DecodeError>(d),
{
    Duration::lemma_view_nonneg(d);
    Duration::lemma_of_nanos(d@ as nat);
    Duration::lemma_view_injective(d, Duration::of_nanos(d@ as nat));
}

/// A signed duration whose nanosecond count fits in an `i64` encodes to that
/// count, and decoding the count gives the same duration back.
pub proof fn lemma_round_trip_signed(d: SignedDuration)
    requires
        d.wf(),
        i64::MIN <= d@ <= i64::MAX,
    ensures
        encoded(d.nanos_spec()) == Ok::<i64, EncodeError>(d@ as i64),
        SignedDuration::decode_spec(Value::Signed(d@ as i64)) == Ok::<SignedDuration, DecodeError>(d),
{
    SignedDuration::lemma_of_nanos(d@);
    SignedDuration::lemma_view_injective(d, SignedDuration::of_nanos(d@));
}

/// The tokens a sequence of durations is written as: one signed integer each.
pub open spec fn tokens_of(ds: Seq<Duration>) -> Seq<Value> {
    ds.map_values(|d: Duration| Value::Signed(d@ as i64))
}

/// Decoding the tokens that a sequence of encodable durations is written as
/// gives back the same durations, in the same order; an empty sequence gives
/// an empty one.
pub proof fn lemma_list_round_trip(ds: Seq<Duration>)
    requires
        forall|i: int| 0 <= i < ds.len() ==> (#[trigger] ds[i]).wf() && ds[i]@ <= i64::MAX,
    ensures
        decode_all::<Duration>(tokens_of(ds)) == Ok::<Seq<Duration>, DecodeError>(ds),
    decreases ds.len(),
{
    if ds.len() > 0 {
        let init = ds.drop_last();
        assert(tokens_of(ds).drop_last() =~= tokens_of(init));
        assert forall|i: int| 0 <= i < init.len() implies (#[trigger] init[i]).wf() && init[i]@ <= i64::MAX by {
            assert(init[i] == ds[i]);
        }
        lemma_list_round_trip(init);
        lemma_round_trip_unsigned(ds.last());
        let toks = tokens_of(ds);
        assert(toks.last() == Value::Signed(ds.last()@ as i64));
        assert(init.push(ds.last()) =~= ds);
        assert(decode_all::<Duration>(toks) == Ok::<Seq<Duration>, DecodeError>(init.push(ds.last())));
    } else {
        assert(tokens_of(ds) =~= Seq::<Value>::empty());
        assert(ds =~= Seq::<Duration>::empty());
    }
}

/// When any element of a sequence fails to decode, decoding the sequence fails,
/// and no partial result is produced.
pub proof fn lemma_failure_propagates<T: FromToken>(items: Seq<Value>, i: int)
    requires
        0 <= i < items.len(),
        T::decode_spec(items[i]) is Err,
    ensures
        decode_all::<T>(items) is Err,
{
    let pre = items.take(i + 1);
    assert(pre.drop_last() =~= items.take(i));
    assert(pre.last() == items[i]);
    assert(decode_all::<T>(pre) is Err);
    lemma_decode_all_prefix::<T>(items, i + 1);
}

} // verus!
