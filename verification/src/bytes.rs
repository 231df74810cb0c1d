//! Numbers in byte sequences.

use vstd::prelude::*;

verus! {

/// The number that four bytes hold, least significant byte first.
pub open spec fn le32(bytes: Seq<u8>) -> int {
    bytes[0] + 0x100 * bytes[1] + 0x1_0000 * bytes[2] + 0x100_0000 * bytes[3]
}

/// The number that four bytes hold, most significant byte first.
pub open spec fn be32(bytes: Seq<u8>) -> int {
    0x100_0000 * bytes[0] + 0x1_0000 * bytes[1] + 0x100 * bytes[2] + bytes[3]
}

/// The number that two bytes hold, most significant byte first.
pub open spec fn be16(bytes: Seq<u8>) -> int {
    0x100 * bytes[0] + bytes[1]
}

/// A number as four bytes, least significant byte first.
pub open spec fn le32_bytes(n: u32) -> Seq<u8> {
    seq![
        (n % 0x100) as u8,
        (n / 0x100 % 0x100) as u8,
        (n / 0x1_0000 % 0x100) as u8,
        (n / 0x100_0000) as u8,
    ]
}

/// A number as four bytes, most significant byte first.
pub open spec fn be32_bytes(n: u32) -> Seq<u8> {
    seq![
        (n / 0x100_0000) as u8,
        (n / 0x1_0000 % 0x100) as u8,
        (n / 0x100 % 0x100) as u8,
        (n % 0x100) as u8,
    ]
}

/// A number written down can be read back.
pub proof fn words_read_back(n: u32)
    ensures
        le32(le32_bytes(n)) == n,
        be32(be32_bytes(n)) == n,
{
}

/// Each byte of a number has its weight, and those of two words in opposite orders are the
/// same bytes.
pub proof fn words_are_weighed(n: u32)
    ensures
        ({
            let big = be32_bytes(n);
            let little = le32_bytes(n);
            &&& big.len() == 4 && little.len() == 4
            &&& 16777216 * big[0] + 65536 * big[1] + 256 * big[2] + big[3] == n
            &&& little[0] + 256 * little[1] + 65536 * little[2] + 16777216 * little[3] == n
        }),
{
}

/// The weight of each byte that is read.
pub proof fn bytes_are_weighed(bytes: Seq<u8>)
    requires
        bytes.len() >= 4,
    ensures
        be32(bytes) == 16777216 * bytes[0] + 65536 * bytes[1] + 256 * bytes[2] + bytes[3],
        le32(bytes) == bytes[0] + 256 * bytes[1] + 65536 * bytes[2] + 16777216 * bytes[3],
        be16(bytes) == 256 * bytes[0] + bytes[1],
{
}

pub fn read_le32(bytes: &[u8], at: usize) -> (n: u32)
    requires
        at + 4 <= bytes@.len(),
    ensures
        n == le32(bytes@.subrange(at as int, at + 4)),
{
    bytes[at] as u32 + 0x100 * bytes[at + 1] as u32 + 0x1_0000 * bytes[at + 2] as u32 + 0x100_0000
        * bytes[at + 3] as u32
}

pub fn read_be32(bytes: &[u8], at: usize) -> (n: u32)
    requires
        at + 4 <= bytes@.len(),
    ensures
        n == be32(bytes@.subrange(at as int, at + 4)),
{
    0x100_0000 * bytes[at] as u32 + 0x1_0000 * bytes[at + 1] as u32 + 0x100 * bytes[at + 2] as u32
        + bytes[at + 3] as u32
}

pub fn read_be16(bytes: &[u8], at: usize) -> (n: u32)
    requires
        at + 2 <= bytes@.len(),
    ensures
        n == be16(bytes@.subrange(at as int, at + 2)),
        n <= 0xffff,
{
    0x100 * bytes[at] as u32 + bytes[at + 1] as u32
}

pub fn push_le32(out: &mut Vec<u8>, n: u32)
    ensures
        final(out)@ == old(out)@ + le32_bytes(n),
{
    out.push((n % 0x100) as u8);
    out.push((n / 0x100 % 0x100) as u8);
    out.push((n / 0x1_0000 % 0x100) as u8);
    out.push((n / 0x100_0000) as u8);
    assert(out@ =~= old(out)@ + le32_bytes(n));
}

pub fn push_be32(out: &mut Vec<u8>, n: u32)
    ensures
        final(out)@ == old(out)@ + be32_bytes(n),
{
    out.push((n / 0x100_0000) as u8);
    out.push((n / 0x1_0000 % 0x100) as u8);
    out.push((n / 0x100 % 0x100) as u8);
    out.push((n % 0x100) as u8);
    assert(out@ =~= old(out)@ + be32_bytes(n));
}

/// A sequence of zero bytes.
pub open spec fn zeros(count: nat) -> Seq<u8> {
    Seq::new(count, |i: int| 0u8)
}

pub fn push_zeros(out: &mut Vec<u8>, count: usize)
    ensures
        final(out)@ == old(out)@ + zeros(count as nat),
{
    let ghost before = out@;
    let mut i: usize = 0;
    assert(before + zeros(0) =~= before);
    while i < count
        invariant
            i <= count,
            out@ == before + zeros(i as nat),
        decreases count - i,
    {
        out.push(0);
        i += 1;
        assert(out@ =~= before + zeros(i as nat));
    }
}

/// The part of a byte sequence from one position to another.
pub fn copy_range(bytes: &[u8], from: usize, to: usize) -> (out: Vec<u8>)
    requires
        from <= to <= bytes@.len(),
    ensures
        out@ == bytes@.subrange(from as int, to as int),
{
    let mut out: Vec<u8> = Vec::new();
    let mut i: usize = from;
    while i < to
        invariant
            from <= i <= to <= bytes@.len(),
            out@ == bytes@.subrange(from as int, i as int),
        decreases to - i,
    {
        out.push(bytes[i]);
        i += 1;
        assert(out@ =~= bytes@.subrange(from as int, i as int));
    }
    out
}

/// A sequence, such as the content of a card, after bytes were written at a position.
pub open spec fn spliced(whole: Seq<u8>, at: int, data: Seq<u8>) -> Seq<u8> {
    Seq::new(
        whole.len(),
        |i: int|
            if at <= i < at + data.len() {
                data[i - at]
            } else {
                whole[i]
            },
    )
}

/// What was written at a position can be read back from it, and everything else
/// stays.
pub proof fn written_bytes_read_back(whole: Seq<u8>, at: int, data: Seq<u8>)
    requires
        0 <= at,
        at + data.len() <= whole.len(),
    ensures
        spliced(whole, at, data).len() == whole.len(),
        spliced(whole, at, data).subrange(at, at + data.len()) == data,
        forall|i: int|
            0 <= i < whole.len() && !(at <= i < at + data.len()) ==> #[trigger] spliced(
                whole,
                at,
                data,
            )[i] == whole[i],
{
    assert(spliced(whole, at, data).subrange(at, at + data.len()) =~= data);
}

} // verus!
