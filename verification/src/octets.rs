//! Big-endian integers and QUIC variable-length integers on byte buffers.

use vstd::prelude::*;

use crate::error::Error;

verus! {

/// The largest value that a variable-length integer can hold.
pub const MAX_VARINT: u64 = 4_611_686_018_427_387_903;

/// The two big-endian bytes of `x`.
pub open spec fn u16_be(x: u16) -> Seq<u8> {
    seq![(x >> 8u16) as u8, x as u8]
}

/// The four big-endian bytes of `x`.
pub open spec fn u32_be(x: u32) -> Seq<u8> {
    seq![(x >> 24u32) as u8, (x >> 16u32) as u8, (x >> 8u32) as u8, x as u8]
}

/// The eight big-endian bytes of `x`.
pub open spec fn u64_be(x: u64) -> Seq<u8> {
    seq![
        (x >> 56u64) as u8,
        (x >> 48u64) as u8,
        (x >> 40u64) as u8,
        (x >> 32u64) as u8,
        (x >> 24u64) as u8,
        (x >> 16u64) as u8,
        (x >> 8u64) as u8,
        x as u8,
    ]
}

/// The 16-bit integer whose big-endian bytes are `b0, b1`.
pub open spec fn be16(b0: u8, b1: u8) -> u16 {
    ((b0 as u16) << 8u16) | (b1 as u16)
}

/// The 32-bit integer whose big-endian bytes start `s`.
pub open spec fn be32(s: Seq<u8>) -> u32 {
    ((s[0] as u32) << 24u32) | ((s[1] as u32) << 16u32) | ((s[2] as u32) << 8u32) | (s[3] as u32)
}

/// The 64-bit integer whose big-endian bytes start `s`.
pub open spec fn be64(s: Seq<u8>) -> u64 {
    ((s[0] as u64) << 56u64) | ((s[1] as u64) << 48u64) | ((s[2] as u64) << 40u64) | ((
    s[3] as u64) << 32u64) | ((s[4] as u64) << 24u64) | ((s[5] as u64) << 16u64) | ((
    s[6] as u64) << 8u64) | (s[7] as u64)
}

/// The number of bytes in which `v` is encoded as a variable-length integer.
pub open spec fn varint_size(v: u64) -> nat {
    if v <= 63 {
        1
    } else if v <= 16383 {
        2
    } else if v <= 1_073_741_823 {
        4
    } else {
        8
    }
}

/// The encoding of `v` as a variable-length integer: the value in big-endian
/// bytes, with the two top bits of the first byte giving the size (1, 2, 4
/// or 8 bytes).
pub open spec fn varint_bytes(v: u64) -> Seq<u8> {
    let n = varint_size(v);
    if n == 1 {
        seq![v as u8]
    } else if n == 2 {
        u16_be((v as u16) | 0x4000u16)
    } else if n == 4 {
        u32_be((v as u32) | 0x8000_0000u32)
    } else {
        u64_be(v | 0xc000_0000_0000_0000u64)
    }
}

/// The size of a variable-length integer whose first byte is `first`.
pub open spec fn varint_parse_size(first: u8) -> nat {
    if first >> 6u8 == 0 {
        1
    } else if first >> 6u8 == 1 {
        2
    } else if first >> 6u8 == 2 {
        4
    } else {
        8
    }
}

/// Reads a variable-length integer at the start of `s`: its value and size,
/// or `None` when `s` is shorter than the size that its first byte gives.
pub open spec fn parse_varint(s: Seq<u8>) -> Option<(u64, nat)> {
    if s.len() == 0 {
        None
    } else {
        let n = varint_parse_size(s[0]);
        if n > s.len() {
            None
        } else if n == 1 {
            Some((s[0] as u64, 1))
        } else if n == 2 {
            Some(((be16(s[0], s[1]) & 0x3fffu16) as u64, 2))
        } else if n == 4 {
            Some(((be32(s) & 0x3fff_ffffu32) as u64, 4))
        } else {
            Some((be64(s) & 0x3fff_ffff_ffff_ffffu64, 8))
        }
    }
}

/// Reading a variable-length integer: the two top bits of the first byte
/// give its size, 1, 2, 4 or 8 bytes, whatever the value (an encoding need
/// not be the shortest); the read fails exactly when fewer bytes are
/// there; and the value is the big-endian number in those bytes without
/// the two size bits.
pub proof fn lemma_varint_read(s: Seq<u8>)
    ensures
        s.len() == 0 ==> parse_varint(s) is None,
        s.len() > 0 && s[0] < 0x40 ==> parse_varint(s) == Some::<(u64, nat)>((s[0] as u64, 1)),
        s.len() > 0 && 0x40 <= s[0] < 0x80 ==> (parse_varint(s) is None <==> s.len() < 2),
        s.len() >= 2 && 0x40 <= s[0] < 0x80 ==> parse_varint(s) == Some::<(u64, nat)>(
            (((s[0] - 0x40) * 0x100 + s[1]) as u64, 2),
        ),
        s.len() > 0 && 0x80 <= s[0] < 0xc0 ==> (parse_varint(s) is None <==> s.len() < 4),
        s.len() >= 4 && 0x80 <= s[0] < 0xc0 ==> parse_varint(s) == Some::<(u64, nat)>(
            (((s[0] - 0x80) * 0x100_0000 + s[1] * 0x1_0000 + s[2] * 0x100 + s[3]) as u64, 4),
        ),
        s.len() > 0 && 0xc0 <= s[0] ==> (parse_varint(s) is None <==> s.len() < 8),
        s.len() >= 8 && 0xc0 <= s[0] ==> parse_varint(s) == Some::<(u64, nat)>(
            (((s[0] - 0xc0) * 0x100_0000_0000_0000 + s[1] * 0x1_0000_0000_0000 + s[2]
                * 0x100_0000_0000 + s[3] * 0x1_0000_0000 + s[4] * 0x100_0000 + s[5] * 0x1_0000
                + s[6] * 0x100 + s[7]) as u64, 8),
        ),
{
    if s.len() > 0 {
        let b0 = s[0];
        assert(b0 < 0x40 <==> b0 >> 6u8 == 0) by (bit_vector);
        assert(0x40 <= b0 < 0x80 <==> b0 >> 6u8 == 1) by (bit_vector);
        assert(0x80 <= b0 < 0xc0 <==> b0 >> 6u8 == 2) by (bit_vector);
        if s.len() >= 2 && 0x40 <= b0 < 0x80 {
            let b1 = s[1];
            assert(((((b0 as u16) << 8u16) | (b1 as u16)) & 0x3fffu16) as int == (b0 - 0x40)
                * 0x100 + b1) by (bit_vector)
                requires
                    0x40 <= b0 < 0x80,
            ;
        }
        if s.len() >= 4 && 0x80 <= b0 < 0xc0 {
            let (b1, b2, b3) = (s[1], s[2], s[3]);
            assert(((((b0 as u32) << 24u32) | ((b1 as u32) << 16u32) | ((b2 as u32) << 8u32)
                | (b3 as u32)) & 0x3fff_ffffu32) as int == (b0 - 0x80) * 0x100_0000 + b1
                * 0x1_0000 + b2 * 0x100 + b3) by (bit_vector)
                requires
                    0x80 <= b0 < 0xc0,
            ;
        }
        if s.len() >= 8 && 0xc0 <= b0 {
            let (b1, b2, b3, b4, b5, b6, b7) = (s[1], s[2], s[3], s[4], s[5], s[6], s[7]);
            assert(((((b0 as u64) << 56u64) | ((b1 as u64) << 48u64) | ((b2 as u64) << 40u64)
                | ((b3 as u64) << 32u64) | ((b4 as u64) << 24u64) | ((b5 as u64) << 16u64) | ((
            b6 as u64) << 8u64) | (b7 as u64)) & 0x3fff_ffff_ffff_ffffu64) as int == (b0 - 0xc0)
                * 0x100_0000_0000_0000 + b1 * 0x1_0000_0000_0000 + b2 * 0x100_0000_0000 + b3
                * 0x1_0000_0000 + b4 * 0x100_0000 + b5 * 0x1_0000 + b6 * 0x100 + b7)
                by (bit_vector)
                requires
                    0xc0 <= b0,
            ;
        }
    }
}

pub proof fn lemma_u16_roundtrip(x: u16)
    ensures
        be16(u16_be(x)[0], u16_be(x)[1]) == x,
{
    let b0 = (x >> 8u16) as u8;
    let b1 = x as u8;
    assert(((b0 as u16) << 8u16) | (b1 as u16) == x) by (bit_vector)
        requires
            b0 == (x >> 8u16) as u8,
            b1 == x as u8,
    ;
}

pub proof fn lemma_u32_roundtrip(x: u32)
    ensures
        be32(u32_be(x)) == x,
{
    let b0 = (x >> 24u32) as u8;
    let b1 = (x >> 16u32) as u8;
    let b2 = (x >> 8u32) as u8;
    let b3 = x as u8;
    assert(((b0 as u32) << 24u32) | ((b1 as u32) << 16u32) | ((b2 as u32) << 8u32) | (b3 as u32)
        == x) by (bit_vector)
        requires
            b0 == (x >> 24u32) as u8,
            b1 == (x >> 16u32) as u8,
            b2 == (x >> 8u32) as u8,
            b3 == x as u8,
    ;
}

proof fn lemma_varint_2(v: u64)
    requires
        64 <= v <= 16383,
    ensures
        varint_parse_size(varint_bytes(v)[0]) == 2,
        (be16(varint_bytes(v)[0], varint_bytes(v)[1]) & 0x3fffu16) as u64 == v,
{
    let x = (v as u16) | 0x4000u16;
    let b0 = (x >> 8u16) as u8;
    let b1 = x as u8;
    assert(b0 >> 6u8 == 1u8 && ((((b0 as u16) << 8u16) | (b1 as u16)) & 0x3fffu16) as u64 == v)
        by (bit_vector)
        requires
            64 <= v <= 16383,
            x == (v as u16) | 0x4000u16,
            b0 == (x >> 8u16) as u8,
            b1 == x as u8,
    ;
}

proof fn lemma_varint_4(v: u64)
    requires
        16384 <= v <= 1_073_741_823,
    ensures
        varint_parse_size(varint_bytes(v)[0]) == 4,
        (be32(varint_bytes(v)) & 0x3fff_ffffu32) as u64 == v,
{
    let x = (v as u32) | 0x8000_0000u32;
    let b0 = (x >> 24u32) as u8;
    let b1 = (x >> 16u32) as u8;
    let b2 = (x >> 8u32) as u8;
    let b3 = x as u8;
    assert(b0 >> 6u8 == 2u8 && ((((b0 as u32) << 24u32) | ((b1 as u32) << 16u32) | ((
    b2 as u32) << 8u32) | (b3 as u32)) & 0x3fff_ffffu32) as u64 == v) by (bit_vector)
        requires
            16384 <= v <= 1_073_741_823,
            x == (v as u32) | 0x8000_0000u32,
            b0 == (x >> 24u32) as u8,
            b1 == (x >> 16u32) as u8,
            b2 == (x >> 8u32) as u8,
            b3 == x as u8,
    ;
}

proof fn lemma_varint_8(v: u64)
    requires
        1_073_741_824 <= v <= MAX_VARINT,
    ensures
        varint_parse_size(varint_bytes(v)[0]) == 8,
        be64(varint_bytes(v)) & 0x3fff_ffff_ffff_ffffu64 == v,
{
    let x = v | 0xc000_0000_0000_0000u64;
    let b0 = (x >> 56u64) as u8;
    let b1 = (x >> 48u64) as u8;
    let b2 = (x >> 40u64) as u8;
    let b3 = (x >> 32u64) as u8;
    let b4 = (x >> 24u64) as u8;
    let b5 = (x >> 16u64) as u8;
    let b6 = (x >> 8u64) as u8;
    let b7 = x as u8;
    assert(b0 >> 6u8 == 3u8 && (((b0 as u64) << 56u64) | ((b1 as u64) << 48u64) | ((
    b2 as u64) << 40u64) | ((b3 as u64) << 32u64) | ((b4 as u64) << 24u64) | ((
    b5 as u64) << 16u64) | ((b6 as u64) << 8u64) | (b7 as u64)) & 0x3fff_ffff_ffff_ffffu64
        == v) by (bit_vector)
        requires
            1_073_741_824 <= v <= 4_611_686_018_427_387_903u64,
            x == v | 0xc000_0000_0000_0000u64,
            b0 == (x >> 56u64) as u8,
            b1 == (x >> 48u64) as u8,
            b2 == (x >> 40u64) as u8,
            b3 == (x >> 32u64) as u8,
            b4 == (x >> 24u64) as u8,
            b5 == (x >> 16u64) as u8,
            b6 == (x >> 8u64) as u8,
            b7 == x as u8,
    ;
}

/// Reading back the encoding of a variable-length integer, followed by any
/// bytes, gives the integer and the size of its encoding.
pub proof fn lemma_varint_roundtrip(v: u64, rest: Seq<u8>)
    requires
        v <= MAX_VARINT,
    ensures
        varint_bytes(v).len() == varint_size(v),
        parse_varint(varint_bytes(v) + rest) == Some((v, varint_size(v))),
{
    let s = varint_bytes(v) + rest;
    if v <= 63 {
        assert((v as u8) >> 6u8 == 0u8 && (v as u8) as u64 == v) by (bit_vector)
            requires
                v <= 63,
        ;
        assert(s[0] == v as u8);
    } else if v <= 16383 {
        lemma_varint_2(v);
        assert(s[0] == varint_bytes(v)[0] && s[1] == varint_bytes(v)[1]);
    } else if v <= 1_073_741_823 {
        lemma_varint_4(v);
        assert(be32(s) == be32(varint_bytes(v)));
    } else {
        lemma_varint_8(v);
        assert(be64(s) == be64(varint_bytes(v)));
    }
}

/// Returns how many bytes it takes to encode `v` as a variable-length
/// integer.
pub fn varint_len(v: u64) -> (n: usize)
    requires
        v <= MAX_VARINT,
    ensures
        n as nat == varint_size(v),
{
    if v <= 63 {
        1
    } else if v <= 16383 {
        2
    } else if v <= 1_073_741_823 {
        4
    } else {
        8
    }
}

/// Reads the big-endian 16-bit integer at `off`.
pub fn get_u16(buf: &[u8], off: usize) -> (x: u16)
    requires
        off + 2 <= buf@.len(),
    ensures
        x == be16(buf@[off as int], buf@[off + 1]),
{
    ((buf[off] as u16) << 8u16) | (buf[off + 1] as u16)
}

/// Reads the big-endian 32-bit integer at `off`.
pub fn get_u32(buf: &[u8], off: usize) -> (x: u32)
    requires
        off + 4 <= buf@.len(),
    ensures
        x == be32(buf@.subrange(off as int, buf@.len() as int)),
{
    ((buf[off] as u32) << 24u32) | ((buf[off + 1] as u32) << 16u32) | ((buf[off + 2] as u32)
        << 8u32) | (buf[off + 3] as u32)
}

/// Reads the big-endian 64-bit integer at `off`.
pub fn get_u64(buf: &[u8], off: usize) -> (x: u64)
    requires
        off + 8 <= buf@.len(),
    ensures
        x == be64(buf@.subrange(off as int, buf@.len() as int)),
{
    ((buf[off] as u64) << 56u64) | ((buf[off + 1] as u64) << 48u64) | ((buf[off + 2] as u64)
        << 40u64) | ((buf[off + 3] as u64) << 32u64) | ((buf[off + 4] as u64) << 24u64) | ((
    buf[off + 5] as u64) << 16u64) | ((buf[off + 6] as u64) << 8u64) | (buf[off + 7] as u64)
}

/// Reads the variable-length integer that starts at `off`, within the bytes
/// before `end`. Returns its value and size, or `BufferTooShort` when the
/// bytes before `end` do not hold it whole.
pub fn get_varint(buf: &[u8], off: usize, end: usize) -> (res: Result<(u64, usize), Error>)
    requires
        off <= end <= buf@.len(),
    ensures
        match parse_varint(buf@.subrange(off as int, end as int)) {
            Some((v, n)) => res == Ok::<(u64, usize), Error>((v, n as usize)),
            None => res == Err::<(u64, usize), Error>(Error::BufferTooShort),
        },
{
    let ghost s = buf@.subrange(off as int, end as int);
    if off == end {
        return Err(Error::BufferTooShort);
    }
    let first = buf[off];
    let n: usize = if first >> 6u8 == 0 {
        1
    } else if first >> 6u8 == 1 {
        2
    } else if first >> 6u8 == 2 {
        4
    } else {
        8
    };
    assert(n as nat == varint_parse_size(s[0]));
    if n > end - off {
        return Err(Error::BufferTooShort);
    }
    if n == 1 {
        Ok((first as u64, 1))
    } else if n == 2 {
        let x = get_u16(buf, off);
        Ok(((x & 0x3fffu16) as u64, 2))
    } else if n == 4 {
        let x = get_u32(buf, off);
        assert(be32(buf@.subrange(off as int, buf@.len() as int)) == be32(s));
        Ok(((x & 0x3fff_ffffu32) as u64, 4))
    } else {
        let x = get_u64(buf, off);
        assert(be64(buf@.subrange(off as int, buf@.len() as int)) == be64(s));
        Ok((x & 0x3fff_ffff_ffff_ffffu64, 8))
    }
}

/// Appends the big-endian bytes of `x`.
pub fn put_u16(out: &mut Vec<u8>, x: u16)
    ensures
        final(out)@ == old(out)@ + u16_be(x),
{
    out.push((x >> 8u16) as u8);
    out.push(x as u8);
}

/// Appends the big-endian bytes of `x`.
pub fn put_u32(out: &mut Vec<u8>, x: u32)
    ensures
        final(out)@ == old(out)@ + u32_be(x),
{
    out.push((x >> 24u32) as u8);
    out.push((x >> 16u32) as u8);
    out.push((x >> 8u32) as u8);
    out.push(x as u8);
}

/// Appends the big-endian bytes of `x`.
pub fn put_u64(out: &mut Vec<u8>, x: u64)
    ensures
        final(out)@ == old(out)@ + u64_be(x),
{
    out.push((x >> 56u64) as u8);
    out.push((x >> 48u64) as u8);
    out.push((x >> 40u64) as u8);
    out.push((x >> 32u64) as u8);
    out.push((x >> 24u64) as u8);
    out.push((x >> 16u64) as u8);
    out.push((x >> 8u64) as u8);
    out.push(x as u8);
}

/// Appends `v` encoded as a variable-length integer.
pub fn put_varint(out: &mut Vec<u8>, v: u64)
    requires
        v <= MAX_VARINT,
    ensures
        final(out)@ == old(out)@ + varint_bytes(v),
{
    let n = varint_len(v);
    if n == 1 {
        out.push(v as u8);
    } else if n == 2 {
        put_u16(out, (v as u16) | 0x4000u16);
    } else if n == 4 {
        put_u32(out, (v as u32) | 0x8000_0000u32);
    } else {
        put_u64(out, v | 0xc000_0000_0000_0000u64);
    }
}

/// Appends the bytes of `b`.
pub fn put_bytes(out: &mut Vec<u8>, b: &[u8])
    ensures
        final(out)@ == old(out)@ + b@,
{
    let mut i: usize = 0;
    while i < b.len()
        invariant
            i <= b@.len(),
            out@ == old(out)@ + b@.subrange(0, i as int),
        decreases b@.len() - i,
    {
        out.push(b[i]);
        i += 1;
        assert(out@ =~= old(out)@ + b@.subrange(0, i as int));
    }
    assert(b@.subrange(0, b@.len() as int) =~= b@);
}


/// Writes `bytes` at the start of `out` and returns how many bytes were
/// written, or `BufferTooShort`, leaving `out` as it was, when they do not
/// fit.
pub fn write_prefix(out: &mut [u8], bytes: &[u8]) -> (res: Result<usize, Error>)
    ensures
        match res {
            Ok(n) => n == bytes@.len() && n <= old(out)@.len() && final(out)@ == bytes@ + old(
                out,
            )@.skip(n as int),
            Err(e) => e == Error::BufferTooShort && old(out)@.len() < bytes@.len() && final(out)@
                == old(out)@,
        },
{
    let n = bytes.len();
    if n > out.len() {
        return Err(Error::BufferTooShort);
    }
    let mut j: usize = 0;
    while j < n
        invariant
            j <= n,
            n == bytes@.len(),
            n <= out@.len(),
            out@.len() == old(out)@.len(),
            forall|k: int| 0 <= k < j ==> out@[k] == bytes@[k],
            forall|k: int| j <= k < out@.len() ==> out@[k] == old(out)@[k],
        decreases n - j,
    {
        out[j] = bytes[j];
        j += 1;
    }
    assert(out@ =~= bytes@ + old(out)@.skip(n as int));
    Ok(n)
}

} // verus!
