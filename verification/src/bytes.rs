//! Big-endian fields, the start-code marker and joining units with it.

use vstd::prelude::*;

verus! {

/// The four bytes that precede every unit of a start-code stream.
pub open spec fn marker() -> Seq<u8> {
    seq![0u8, 0u8, 0u8, 1u8]
}

/// Value of a two-byte big-endian field.
pub open spec fn be16(hi: u8, lo: u8) -> int {
    hi as int * 256 + lo as int
}

/// Value of a four-byte big-endian field.
pub open spec fn be32(b0: u8, b1: u8, b2: u8, b3: u8) -> int {
    b0 as int * 16777216 + b1 as int * 65536 + b2 as int * 256 + b3 as int
}

/// Every unit preceded by the marker, in order.
pub open spec fn join_with_marker(units: Seq<Seq<u8>>) -> Seq<u8>
    decreases units.len(),
{
    if units.len() == 0 {
        Seq::<u8>::empty()
    } else {
        join_with_marker(units.drop_last()) + marker() + units.last()
    }
}

/// Sum of the units' lengths.
pub open spec fn total_len(units: Seq<Seq<u8>>) -> int
    decreases units.len(),
{
    if units.len() == 0 {
        0
    } else {
        total_len(units.drop_last()) + units.last().len()
    }
}

/// A joined stream has four marker bytes per unit besides the units' own bytes.
pub proof fn lemma_join_len(units: Seq<Seq<u8>>)
    ensures
        join_with_marker(units).len() == 4 * units.len() + total_len(units),
    decreases units.len(),
{
    if units.len() > 0 {
        lemma_join_len(units.drop_last());
    }
}

/// Joining is compatible with appending one unit.
pub proof fn lemma_join_push(units: Seq<Seq<u8>>, unit: Seq<u8>)
    ensures
        join_with_marker(units.push(unit)) == join_with_marker(units) + marker() + unit,
{
    assert(units.push(unit).drop_last() =~= units);
}

/// Joining is compatible with concatenation.
pub proof fn lemma_join_concat(a: Seq<Seq<u8>>, b: Seq<Seq<u8>>)
    ensures
        join_with_marker(a + b) == join_with_marker(a) + join_with_marker(b),
    decreases b.len(),
{
    if b.len() == 0 {
        assert(a + b =~= a);
        assert(join_with_marker(a) + join_with_marker(b) =~= join_with_marker(a));
    } else {
        lemma_join_concat(a, b.drop_last());
        assert((a + b).drop_last() =~= a + b.drop_last());
        assert((a + b).last() == b.last());
        assert(join_with_marker(a + b) =~= join_with_marker(a) + join_with_marker(b));
    }
}

/// Reads the two-byte big-endian field at `pos`.
pub fn read_be16(data: &[u8], pos: usize) -> (value: usize)
    requires
        pos + 2 <= data@.len(),
    ensures
        value == be16(data@[pos as int], data@[pos + 1]),
        value < 65536,
{
    let hi: usize = data[pos] as usize;
    let lo: usize = data[pos + 1] as usize;
    hi * 256 + lo
}

/// Reads the four-byte big-endian field at `pos`.
pub fn read_be32(data: &[u8], pos: usize) -> (value: u32)
    requires
        pos + 4 <= data@.len(),
    ensures
        value == be32(data@[pos as int], data@[pos + 1], data@[pos + 2], data@[pos + 3]),
{
    let b0: u32 = data[pos] as u32;
    let b1: u32 = data[pos + 1] as u32;
    let b2: u32 = data[pos + 2] as u32;
    let b3: u32 = data[pos + 3] as u32;
    b0 * 16777216 + b1 * 65536 + b2 * 256 + b3
}

/// Appends the marker and then `data[from..to]` to `out`.
pub fn push_unit(out: &mut Vec<u8>, data: &[u8], from: usize, to: usize)
    requires
        from <= to <= data@.len(),
    ensures
        final(out)@ == old(out)@ + marker() + data@.subrange(from as int, to as int),
{
    out.push(0u8);
    out.push(0u8);
    out.push(0u8);
    out.push(1u8);
    let mut i: usize = from;
    while i < to
        invariant
            from <= i <= to <= data@.len(),
            out@ == old(out)@ + marker() + data@.subrange(from as int, i as int),
        decreases to - i,
    {
        out.push(data[i]);
        i += 1;
        assert(out@ =~= old(out)@ + marker() + data@.subrange(from as int, i as int));
    }
}

/// The two bytes of a big-endian field that holds `n`.
pub open spec fn be16_bytes(n: int) -> Seq<u8> {
    seq![(n / 256) as u8, (n % 256) as u8]
}

/// The four bytes of a big-endian field that holds `n`.
pub open spec fn be32_bytes(n: int) -> Seq<u8> {
    seq![
        (n / 16777216) as u8,
        ((n / 65536) % 256) as u8,
        ((n / 256) % 256) as u8,
        (n % 256) as u8,
    ]
}

/// A two-byte field reads back the value written into it.
pub proof fn lemma_be16_bytes(n: int)
    requires
        0 <= n < 65536,
    ensures
        be16_bytes(n).len() == 2,
        be16(be16_bytes(n)[0], be16_bytes(n)[1]) == n,
{
}

/// A four-byte field reads back the value written into it.
pub proof fn lemma_be32_bytes(n: int)
    requires
        0 <= n < 4294967296,
    ensures
        be32_bytes(n).len() == 4,
        be32(be32_bytes(n)[0], be32_bytes(n)[1], be32_bytes(n)[2], be32_bytes(n)[3]) == n,
{
}

} // verus!
