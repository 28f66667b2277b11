//! Length-prefixed access units to a start-code stream.

use vstd::prelude::*;
use crate::bytes::{
    be32, be32_bytes, join_with_marker, lemma_be32_bytes, lemma_join_len, lemma_join_push, push_unit,
    read_be32, total_len,
};
use crate::error::BitstreamError;

verus! {

/// The units of a length-prefixed buffer, or the first fault met when reading
/// it from the front. Fewer than four bytes left over at the end hold no
/// further prefix and are passed over.
pub open spec fn avcc_units(data: Seq<u8>) -> Result<Seq<Seq<u8>>, BitstreamError>
    decreases data.len(),
{
    if data.len() < 4 {
        Ok(Seq::empty())
    } else {
        let n = be32(data[0], data[1], data[2], data[3]);
        if n == 0 {
            Err(BitstreamError::ZeroLength)
        } else if n > data.len() - 4 {
            Err(BitstreamError::Truncated)
        } else {
            match avcc_units(data.skip(4 + n)) {
                Ok(rest) => Ok(seq![data.subrange(4, 4 + n)] + rest),
                Err(e) => Err(e),
            }
        }
    }
}

/// What is still to be read from `pos`, placed behind the units read so far.
pub open spec fn avcc_resume(done: Seq<Seq<u8>>, data: Seq<u8>, pos: int) -> Result<
    Seq<Seq<u8>>,
    BitstreamError,
> {
    match avcc_units(data.skip(pos)) {
        Ok(rest) => Ok(done + rest),
        Err(e) => Err(e),
    }
}

/// Rewrites a buffer of units, each behind a four-byte big-endian length,
/// into the same units each behind the start-code marker.
pub fn avcc_to_annex_b(data: &[u8]) -> (result: Result<Vec<u8>, BitstreamError>)
    ensures
        match avcc_units(data@) {
            Ok(units) => result is Ok && result->Ok_0@ == join_with_marker(units),
            Err(e) => result == Err::<Vec<u8>, BitstreamError>(e),
        },
{
    let mut out: Vec<u8> = Vec::new();
    let mut pos: usize = 0;
    let ghost mut done: Seq<Seq<u8>> = Seq::empty();
    proof {
        assert(data@.skip(0) =~= data@);
        assert(done + avcc_units(data@)->Ok_0 =~= avcc_units(data@)->Ok_0);
    }
    while data.len() - pos >= 4
        invariant
            pos <= data@.len(),
            out@ == join_with_marker(done),
            avcc_units(data@) == avcc_resume(done, data@, pos as int),
        decreases data@.len() - pos,
    {
        let ghost rest = data@.skip(pos as int);
        let n32: u32 = read_be32(data, pos);
        let n: usize = n32 as usize;
        assert(n == be32(rest[0], rest[1], rest[2], rest[3]));
        if n == 0 {
            return Err(BitstreamError::ZeroLength);
        }
        if n > data.len() - pos - 4 {
            return Err(BitstreamError::Truncated);
        }
        push_unit(&mut out, data, pos + 4, pos + 4 + n);
        proof {
            let unit = data@.subrange(pos + 4, pos + 4 + n);
            assert(rest.subrange(4, 4 + n) =~= unit);
            assert(rest.skip(4 + n) =~= data@.skip(pos + 4 + n));
            lemma_join_push(done, unit);
            let tail = avcc_units(data@.skip(pos + 4 + n));
            if tail is Ok {
                assert(done + (seq![unit] + tail->Ok_0) =~= done.push(unit) + tail->Ok_0);
            }
            done = done.push(unit);
        }
        pos = pos + 4 + n;
    }
    proof {
        assert(avcc_units(data@.skip(pos as int)) == Ok::<Seq<Seq<u8>>, BitstreamError>(Seq::empty()));
        assert(done + Seq::<Seq<u8>>::empty() =~= done);
    }
    Ok(out)
}

/// The length-prefixed buffer that holds the given units, in order.
pub open spec fn avcc_frame(units: Seq<Seq<u8>>) -> Seq<u8>
    decreases units.len(),
{
    if units.len() == 0 {
        Seq::<u8>::empty()
    } else {
        be32_bytes(units.first().len() as int) + units.first() + avcc_frame(units.drop_first())
    }
}

/// Units that a length-prefixed buffer can hold: none is empty, and each
/// length fits the four-byte prefix.
pub open spec fn avcc_admissible(units: Seq<Seq<u8>>) -> bool {
    forall|i: int| 0 <= i < units.len() ==> 0 < #[trigger] units[i].len() < 4294967296
}

/// Reading a buffer that begins with well-formed units gives those units,
/// followed by whatever the rest of the buffer gives; a fault in the rest
/// is the fault of the whole.
pub proof fn lemma_avcc_units_prefix(units: Seq<Seq<u8>>, tail: Seq<u8>)
    requires
        avcc_admissible(units),
    ensures
        avcc_units(avcc_frame(units) + tail) == match avcc_units(tail) {
            Ok(rest) => Ok::<Seq<Seq<u8>>, BitstreamError>(units + rest),
            Err(e) => Err(e),
        },
    decreases units.len(),
{
    if units.len() == 0 {
        assert(avcc_frame(units) + tail =~= tail);
        if avcc_units(tail) is Ok {
            assert(units + avcc_units(tail)->Ok_0 =~= avcc_units(tail)->Ok_0);
        }
    } else {
        let first = units.first();
        let others = units.drop_first();
        let n = first.len() as int;
        let data = avcc_frame(units) + tail;
        lemma_be32_bytes(n);
        assert(avcc_admissible(others)) by {
            assert forall|i: int| 0 <= i < others.len() implies 0 < #[trigger] others[i].len()
                < 4294967296 by {
                assert(others[i] == units[i + 1]);
            }
        }
        lemma_avcc_units_prefix(others, tail);
        assert(data[0] == be32_bytes(n)[0]);
        assert(data[1] == be32_bytes(n)[1]);
        assert(data[2] == be32_bytes(n)[2]);
        assert(data[3] == be32_bytes(n)[3]);
        assert(data.subrange(4, 4 + n) =~= first);
        assert(data.skip(4 + n) =~= avcc_frame(others) + tail);
        if avcc_units(tail) is Ok {
            assert(seq![first] + (others + avcc_units(tail)->Ok_0) =~= units + avcc_units(
                tail,
            )->Ok_0);
        }
    }
}

/// A buffer made of well-formed units normalises to exactly those units,
/// each behind the marker and in the order given; the output has four bytes
/// per unit besides the units' own.
pub proof fn lemma_valid_input_normalizes(units: Seq<Seq<u8>>)
    requires
        avcc_admissible(units),
    ensures
        avcc_units(avcc_frame(units)) == Ok::<Seq<Seq<u8>>, BitstreamError>(units),
        join_with_marker(units).len() == 4 * units.len() + total_len(units),
{
    lemma_avcc_units_prefix(units, Seq::empty());
    assert(avcc_frame(units) + Seq::<u8>::empty() =~= avcc_frame(units));
    assert(units + Seq::<Seq<u8>>::empty() =~= units);
    lemma_join_len(units);
}

/// A length prefix that is zero, or that declares more than is left, makes
/// the whole buffer faulty, however many well-formed units precede it.
pub proof fn lemma_bad_prefix_fails(units: Seq<Seq<u8>>, tail: Seq<u8>)
    requires
        avcc_admissible(units),
        tail.len() >= 4,
        be32(tail[0], tail[1], tail[2], tail[3]) == 0 || be32(tail[0], tail[1], tail[2], tail[3])
            > tail.len() - 4,
    ensures
        avcc_units(avcc_frame(units) + tail) == Err::<Seq<Seq<u8>>, BitstreamError>(
            if be32(tail[0], tail[1], tail[2], tail[3]) == 0 {
                BitstreamError::ZeroLength
            } else {
                BitstreamError::Truncated
            },
        ),
{
    lemma_avcc_units_prefix(units, tail);
}

} // verus!
