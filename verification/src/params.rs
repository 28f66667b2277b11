//! Parameter sets out of a codec's out-of-band configuration record.

use vstd::prelude::*;
use crate::bytes::{
    be16, be16_bytes, join_with_marker, lemma_be16_bytes, lemma_join_push, push_unit, read_be16,
};
use crate::error::BitstreamError;

verus! {

/// The sequence and picture parameter sets of an AVC configuration record:
/// a two-byte length at offset 6, the first set, one byte that is passed
/// over, a two-byte length and the second set. `None` where a field or a
/// set reaches past the end.
pub open spec fn h264_parameter_sets(data: Seq<u8>) -> Option<Seq<Seq<u8>>> {
    if data.len() < 8 {
        None
    } else {
        let s = be16(data[6], data[7]);
        if data.len() < 11 + s {
            None
        } else {
            let p = be16(data[9 + s], data[10 + s]);
            if data.len() < 11 + s + p {
                None
            } else {
                Some(seq![data.subrange(8, 8 + s), data.subrange(11 + s, 11 + s + p)])
            }
        }
    }
}

/// Extracts the two parameter sets of an AVC configuration record, each
/// behind the start-code marker.
pub fn parse_h264_config(data: &[u8]) -> (result: Result<Vec<u8>, BitstreamError>)
    ensures
        match h264_parameter_sets(data@) {
            Some(sets) => result is Ok && result->Ok_0@ == join_with_marker(sets),
            None => result == Err::<Vec<u8>, BitstreamError>(BitstreamError::Truncated),
        },
{
    if data.len() < 8 {
        return Err(BitstreamError::Truncated);
    }
    let sps_len: usize = read_be16(data, 6);
    if data.len() < 11 || data.len() - 11 < sps_len {
        return Err(BitstreamError::Truncated);
    }
    let pps_len: usize = read_be16(data, 9 + sps_len);
    if data.len() - 11 - sps_len < pps_len {
        return Err(BitstreamError::Truncated);
    }
    let mut cfg: Vec<u8> = Vec::new();
    push_unit(&mut cfg, data, 8, 8 + sps_len);
    push_unit(&mut cfg, data, 11 + sps_len, 11 + sps_len + pps_len);
    proof {
        let sps = data@.subrange(8, 8 + sps_len);
        let pps = data@.subrange(11 + sps_len, 11 + sps_len + pps_len);
        lemma_join_push(Seq::empty(), sps);
        lemma_join_push(seq![sps], pps);
        assert(Seq::<Seq<u8>>::empty().push(sps) =~= seq![sps]);
        assert(seq![sps].push(pps) =~= seq![sps, pps]);
        assert(join_with_marker(Seq::empty()) =~= Seq::<u8>::empty());
    }
    Ok(cfg)
}

/// `count` units read from `pos`, each behind a two-byte length, together
/// with the position behind the last of them. `None` where a length or a
/// unit reaches past the end.
pub open spec fn hvcc_units(data: Seq<u8>, pos: int, count: nat) -> Option<(Seq<Seq<u8>>, int)>
    decreases count,
{
    if count == 0 {
        Some((Seq::empty(), pos))
    } else if pos + 2 > data.len() {
        None
    } else {
        let n = be16(data[pos], data[pos + 1]);
        if pos + 2 + n > data.len() {
            None
        } else {
            match hvcc_units(data, pos + 2 + n, (count - 1) as nat) {
                Some((rest, end)) => Some((seq![data.subrange(pos + 2, pos + 2 + n)] + rest, end)),
                None => None,
            }
        }
    }
}

/// The units of `count` arrays read from `pos`, in the order met. An array
/// is one type byte, a two-byte count of units, and the units.
pub open spec fn hvcc_arrays(data: Seq<u8>, pos: int, count: nat) -> Option<Seq<Seq<u8>>>
    decreases count,
{
    if count == 0 {
        Some(Seq::empty())
    } else if pos + 3 > data.len() {
        None
    } else {
        match hvcc_units(data, pos + 3, be16(data[pos + 1], data[pos + 2]) as nat) {
            Some((units, next)) => match hvcc_arrays(data, next, (count - 1) as nat) {
                Some(rest) => Some(units + rest),
                None => None,
            },
            None => None,
        }
    }
}

/// The parameter sets of an HEVC configuration record: five bytes that are
/// passed over, one byte that counts the arrays, and the arrays.
pub open spec fn h265_parameter_sets(data: Seq<u8>) -> Option<Seq<Seq<u8>>> {
    if data.len() < 6 {
        None
    } else {
        hvcc_arrays(data, 6, data[5] as nat)
    }
}

/// What `count` more units from `pos` give, behind the units read so far.
pub open spec fn hvcc_units_resume(done: Seq<Seq<u8>>, data: Seq<u8>, pos: int, count: nat) -> Option<
    (Seq<Seq<u8>>, int),
> {
    match hvcc_units(data, pos, count) {
        Some((rest, end)) => Some((done + rest, end)),
        None => None,
    }
}

/// What `count` more arrays from `pos` give, behind the units read so far.
pub open spec fn hvcc_arrays_resume(done: Seq<Seq<u8>>, data: Seq<u8>, pos: int, count: nat) -> Option<
    Seq<Seq<u8>>,
> {
    match hvcc_arrays(data, pos, count) {
        Some(rest) => Some(done + rest),
        None => None,
    }
}

/// Appends to `out` the `count` units that start at `pos`, each behind the
/// marker, and returns the position behind them.
fn append_hvcc_units(out: &mut Vec<u8>, data: &[u8], pos: usize, count: usize) -> (end: Option<usize>)
    requires
        pos <= data@.len(),
    ensures
        match hvcc_units(data@, pos as int, count as nat) {
            Some((units, next)) => end == Some(next as usize) && pos <= next <= data@.len()
                && final(out)@ == old(out)@ + join_with_marker(units),
            None => end is None,
        },
{
    let mut at: usize = pos;
    let mut left: usize = count;
    let ghost mut done: Seq<Seq<u8>> = Seq::empty();
    proof {
        let whole = hvcc_units(data@, pos as int, count as nat);
        if whole is Some {
            assert(done + whole->Some_0.0 =~= whole->Some_0.0);
        }
        assert(old(out)@ + join_with_marker(done) =~= old(out)@);
    }
    while left > 0
        invariant
            pos <= at <= data@.len(),
            out@ == old(out)@ + join_with_marker(done),
            hvcc_units(data@, pos as int, count as nat) == hvcc_units_resume(
                done,
                data@,
                at as int,
                left as nat,
            ),
        decreases left,
    {
        if data.len() - at < 2 {
            return None;
        }
        let n: usize = read_be16(data, at);
        if data.len() - at - 2 < n {
            return None;
        }
        let ghost before = out@;
        push_unit(out, data, at + 2, at + 2 + n);
        proof {
            let unit = data@.subrange(at + 2, at + 2 + n);
            lemma_join_push(done, unit);
            assert(out@ =~= old(out)@ + join_with_marker(done.push(unit)));
            let tail = hvcc_units(data@, at + 2 + n, (left - 1) as nat);
            if tail is Some {
                assert(done + (seq![unit] + tail->Some_0.0) =~= done.push(unit) + tail->Some_0.0);
            }
            done = done.push(unit);
        }
        at = at + 2 + n;
        left = left - 1;
    }
    proof {
        assert(done + Seq::<Seq<u8>>::empty() =~= done);
    }
    Some(at)
}

/// Extracts every unit of every array of an HEVC configuration record, in
/// the order met, each behind the start-code marker.
pub fn parse_h265_config(data: &[u8]) -> (result: Result<Vec<u8>, BitstreamError>)
    ensures
        match h265_parameter_sets(data@) {
            Some(sets) => result is Ok && result->Ok_0@ == join_with_marker(sets),
            None => result == Err::<Vec<u8>, BitstreamError>(BitstreamError::Truncated),
        },
{
    if data.len() < 6 {
        return Err(BitstreamError::Truncated);
    }
    let num_arrays: u8 = data[5];
    let mut pos: usize = 6;
    let mut left: u8 = num_arrays;
    let mut cfg: Vec<u8> = Vec::new();
    let ghost mut done: Seq<Seq<u8>> = Seq::empty();
    proof {
        let whole = h265_parameter_sets(data@);
        if whole is Some {
            assert(done + whole->Some_0 =~= whole->Some_0);
        }
    }
    while left > 0
        invariant
            6 <= pos <= data@.len(),
            cfg@ == join_with_marker(done),
            h265_parameter_sets(data@) == hvcc_arrays_resume(done, data@, pos as int, left as nat),
        decreases left,
    {
        if data.len() - pos < 3 {
            return Err(BitstreamError::Truncated);
        }
        let num_nalus: usize = read_be16(data, pos + 1);
        let ghost run = hvcc_units(data@, pos + 3, num_nalus as nat);
        match append_hvcc_units(&mut cfg, data, pos + 3, num_nalus) {
            None => {
                return Err(BitstreamError::Truncated);
            },
            Some(next) => {
                proof {
                    let units = run->Some_0.0;
                    crate::bytes::lemma_join_concat(done, units);
                    let tail = hvcc_arrays(data@, next as int, (left - 1) as nat);
                    if tail is Some {
                        assert(done + (units + tail->Some_0) =~= (done + units) + tail->Some_0);
                    }
                    done = done + units;
                }
                pos = next;
                left = left - 1;
            },
        }
    }
    proof {
        assert(done + Seq::<Seq<u8>>::empty() =~= done);
    }
    Ok(cfg)
}

/// The codec families whose configuration records are understood.
#[derive(Debug, Clone, Copy, PartialEq, Eq, Structural)]
pub enum CodecFamily {
    /// Identifiers that begin with `avc1`.
    Avc,
    /// Identifiers that begin with `hvc1`.
    Hevc,
}

/// Whether `s` begins with the four characters given.
pub open spec fn starts_with4(s: Seq<char>, a: char, b: char, c: char, d: char) -> bool {
    s.len() >= 4 && s[0] == a && s[1] == b && s[2] == c && s[3] == d
}

/// The family that a codec identifier names, by its first four characters.
pub open spec fn codec_family(codec: Seq<char>) -> Option<CodecFamily> {
    if starts_with4(codec, 'a', 'v', 'c', '1') {
        Some(CodecFamily::Avc)
    } else if starts_with4(codec, 'h', 'v', 'c', '1') {
        Some(CodecFamily::Hevc)
    } else {
        None
    }
}

/// The parameter sets that a configuration record holds for a codec
/// identifier, or the reason why there are none.
pub open spec fn parameter_sets(codec: Seq<char>, data: Seq<u8>) -> Result<
    Seq<Seq<u8>>,
    BitstreamError,
> {
    match codec_family(codec) {
        None => Err(BitstreamError::UnsupportedCodec),
        Some(family) => {
            let sets = match family {
                CodecFamily::Avc => h264_parameter_sets(data),
                CodecFamily::Hevc => h265_parameter_sets(data),
            };
            match sets {
                Some(found) => Ok(found),
                None => Err(BitstreamError::Truncated),
            }
        },
    }
}

/// Tells the codec family of an identifier such as `avc1.64001f`.
pub fn classify_codec(codec: &str) -> (family: Option<CodecFamily>)
    ensures
        family == codec_family(codec@),
{
    if codec.unicode_len() < 4 {
        return None;
    }
    let c0: char = codec.get_char(0);
    let c1: char = codec.get_char(1);
    let c2: char = codec.get_char(2);
    let c3: char = codec.get_char(3);
    if c1 == 'v' && c2 == 'c' && c3 == '1' {
        if c0 == 'a' {
            Some(CodecFamily::Avc)
        } else if c0 == 'h' {
            Some(CodecFamily::Hevc)
        } else {
            None
        }
    } else {
        None
    }
}

/// Extracts the parameter sets from a configuration record, by the codec
/// family that the identifier names.
pub fn parse_codec_config(codec: &str, extra_data: &[u8]) -> (result: Result<Vec<u8>, BitstreamError>)
    ensures
        match parameter_sets(codec@, extra_data@) {
            Ok(sets) => result is Ok && result->Ok_0@ == join_with_marker(sets),
            Err(e) => result == Err::<Vec<u8>, BitstreamError>(e),
        },
{
    match classify_codec(codec) {
        Some(CodecFamily::Avc) => parse_h264_config(extra_data),
        Some(CodecFamily::Hevc) => parse_h265_config(extra_data),
        None => Err(BitstreamError::UnsupportedCodec),
    }
}

/// An AVC configuration record that holds the two sets given, read back:
/// six leading bytes, the first set behind its length, one byte, the second
/// set behind its length, and anything after that.
pub proof fn lemma_h264_record(head: Seq<u8>, sps: Seq<u8>, between: u8, pps: Seq<u8>, rest: Seq<u8>)
    requires
        head.len() == 6,
        sps.len() < 65536,
        pps.len() < 65536,
    ensures
        h264_parameter_sets(
            head + be16_bytes(sps.len() as int) + sps + seq![between] + be16_bytes(pps.len() as int)
                + pps + rest,
        ) == Some(seq![sps, pps]),
{
    let s = sps.len() as int;
    let p = pps.len() as int;
    let data = head + be16_bytes(s) + sps + seq![between] + be16_bytes(p) + pps + rest;
    lemma_be16_bytes(s);
    lemma_be16_bytes(p);
    assert(data[6] == be16_bytes(s)[0]);
    assert(data[7] == be16_bytes(s)[1]);
    assert(data[9 + s] == be16_bytes(p)[0]);
    assert(data[10 + s] == be16_bytes(p)[1]);
    assert(data.subrange(8, 8 + s) =~= sps);
    assert(data.subrange(11 + s, 11 + s + p) =~= pps);
}

/// The bytes of a run of units, each behind its two-byte length.
pub open spec fn hvcc_units_bytes(units: Seq<Seq<u8>>) -> Seq<u8>
    decreases units.len(),
{
    if units.len() == 0 {
        Seq::<u8>::empty()
    } else {
        be16_bytes(units.first().len() as int) + units.first() + hvcc_units_bytes(
            units.drop_first(),
        )
    }
}

/// The bytes of a run of arrays: for each its type byte, the count of its
/// units, and the units.
pub open spec fn hvcc_arrays_bytes(arrays: Seq<(u8, Seq<Seq<u8>>)>) -> Seq<u8>
    decreases arrays.len(),
{
    if arrays.len() == 0 {
        Seq::<u8>::empty()
    } else {
        seq![arrays.first().0] + be16_bytes(arrays.first().1.len() as int) + hvcc_units_bytes(
            arrays.first().1,
        ) + hvcc_arrays_bytes(arrays.drop_first())
    }
}

/// The units of all the arrays, in the order met.
pub open spec fn hvcc_all_units(arrays: Seq<(u8, Seq<Seq<u8>>)>) -> Seq<Seq<u8>>
    decreases arrays.len(),
{
    if arrays.len() == 0 {
        Seq::empty()
    } else {
        arrays.first().1 + hvcc_all_units(arrays.drop_first())
    }
}

/// Units whose lengths fit the two-byte fields of a configuration record.
pub open spec fn hvcc_units_fit(units: Seq<Seq<u8>>) -> bool {
    units.len() < 65536 && forall|i: int| 0 <= i < units.len() ==> #[trigger] units[i].len() < 65536
}

/// Arrays whose counts and lengths fit the fields of a configuration record.
pub open spec fn hvcc_arrays_fit(arrays: Seq<(u8, Seq<Seq<u8>>)>) -> bool {
    arrays.len() < 256 && forall|i: int| 0 <= i < arrays.len() ==> hvcc_units_fit(#[trigger] arrays[i].1)
}

/// A run of units written behind `before` is read back from there, and the
/// reading ends where the run ends.
pub proof fn lemma_hvcc_units_read(before: Seq<u8>, units: Seq<Seq<u8>>, after: Seq<u8>)
    requires
        forall|i: int| 0 <= i < units.len() ==> #[trigger] units[i].len() < 65536,
    ensures
        hvcc_units(before + hvcc_units_bytes(units) + after, before.len() as int, units.len())
            == Some((units, (before.len() + hvcc_units_bytes(units).len()) as int)),
    decreases units.len(),
{
    let data = before + hvcc_units_bytes(units) + after;
    let pos = before.len() as int;
    if units.len() > 0 {
        let first = units.first();
        let others = units.drop_first();
        let n = first.len() as int;
        lemma_be16_bytes(n);
        let before2 = before + be16_bytes(n) + first;
        assert forall|i: int| 0 <= i < others.len() implies #[trigger] others[i].len() < 65536 by {
            assert(others[i] == units[i + 1]);
        }
        lemma_hvcc_units_read(before2, others, after);
        assert(before2 + hvcc_units_bytes(others) + after =~= data);
        assert(data[pos] == be16_bytes(n)[0]);
        assert(data[pos + 1] == be16_bytes(n)[1]);
        assert(data.subrange(pos + 2, pos + 2 + n) =~= first);
        assert(seq![first] + others =~= units);
    }
}

/// A run of arrays written behind `before` is read back from there.
pub proof fn lemma_hvcc_arrays_read(before: Seq<u8>, arrays: Seq<(u8, Seq<Seq<u8>>)>, after: Seq<u8>)
    requires
        forall|i: int| 0 <= i < arrays.len() ==> hvcc_units_fit(#[trigger] arrays[i].1),
    ensures
        hvcc_arrays(before + hvcc_arrays_bytes(arrays) + after, before.len() as int, arrays.len())
            == Some(hvcc_all_units(arrays)),
    decreases arrays.len(),
{
    let data = before + hvcc_arrays_bytes(arrays) + after;
    let pos = before.len() as int;
    if arrays.len() > 0 {
        let kind = arrays.first().0;
        let units = arrays.first().1;
        let others = arrays.drop_first();
        let k = units.len() as int;
        assert(hvcc_units_fit(arrays[0].1));
        lemma_be16_bytes(k);
        let before1 = before + seq![kind] + be16_bytes(k);
        let before2 = before1 + hvcc_units_bytes(units);
        assert forall|i: int| 0 <= i < others.len() implies hvcc_units_fit(#[trigger] others[i].1) by {
            assert(others[i] == arrays[i + 1]);
        }
        lemma_hvcc_units_read(before1, units, hvcc_arrays_bytes(others) + after);
        assert(before1 + hvcc_units_bytes(units) + (hvcc_arrays_bytes(others) + after) =~= data);
        lemma_hvcc_arrays_read(before2, others, after);
        assert(before2 + hvcc_arrays_bytes(others) + after =~= data);
        assert(data[pos + 1] == be16_bytes(k)[0]);
        assert(data[pos + 2] == be16_bytes(k)[1]);
    }
}

/// An HEVC configuration record that holds the arrays given, read back: five
/// leading bytes, the count of arrays, the arrays, and anything after that.
/// Every unit of every array comes out, in the order met.
pub proof fn lemma_h265_record(head: Seq<u8>, arrays: Seq<(u8, Seq<Seq<u8>>)>, rest: Seq<u8>)
    requires
        head.len() == 5,
        hvcc_arrays_fit(arrays),
    ensures
        h265_parameter_sets(head + seq![arrays.len() as u8] + hvcc_arrays_bytes(arrays) + rest)
            == Some(hvcc_all_units(arrays)),
{
    let before = head + seq![arrays.len() as u8];
    lemma_hvcc_arrays_read(before, arrays, rest);
    let data = before + hvcc_arrays_bytes(arrays) + rest;
    assert(data[5] == arrays.len() as u8);
}

} // verus!
