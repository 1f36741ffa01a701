//! Fixed-width integer fields on the wire.
//!
//! The bulk-transport wrappers use little-endian fields, while the
//! controller's own 16-byte command payloads and fixed-layout replies use
//! big-endian fields. Both directions are implemented here as verified
//! functions over byte buffers, with round-trip lemmas.

use vstd::prelude::*;

verus! {

pub open spec fn spec_u16_to_be_bytes(x: u16) -> Seq<u8> {
    seq![((x >> 8) & 0xff) as u8, (x & 0xff) as u8]
}

pub open spec fn spec_u16_from_be_bytes(s: Seq<u8>) -> u16
    recommends
        s.len() == 2,
{
    (((s[0] as u16) << 8) | (s[1] as u16)) as u16
}

pub open spec fn spec_u32_to_be_bytes(x: u32) -> Seq<u8> {
    seq![
        ((x >> 24) & 0xff) as u8,
        ((x >> 16) & 0xff) as u8,
        ((x >> 8) & 0xff) as u8,
        (x & 0xff) as u8,
    ]
}

pub open spec fn spec_u32_from_be_bytes(s: Seq<u8>) -> u32
    recommends
        s.len() == 4,
{
    (((s[0] as u32) << 24) | ((s[1] as u32) << 16) | ((s[2] as u32) << 8) | (s[3] as u32)) as u32
}

pub open spec fn spec_u32_to_le_bytes(x: u32) -> Seq<u8> {
    seq![
        (x & 0xff) as u8,
        ((x >> 8) & 0xff) as u8,
        ((x >> 16) & 0xff) as u8,
        ((x >> 24) & 0xff) as u8,
    ]
}

pub open spec fn spec_u32_from_le_bytes(s: Seq<u8>) -> u32
    recommends
        s.len() == 4,
{
    (((s[3] as u32) << 24) | ((s[2] as u32) << 16) | ((s[1] as u32) << 8) | (s[0] as u32)) as u32
}

pub open spec fn spec_u64_to_le_bytes(x: u64) -> Seq<u8> {
    seq![
        (x & 0xff) as u8,
        ((x >> 8) & 0xff) as u8,
        ((x >> 16) & 0xff) as u8,
        ((x >> 24) & 0xff) as u8,
        ((x >> 32) & 0xff) as u8,
        ((x >> 40) & 0xff) as u8,
        ((x >> 48) & 0xff) as u8,
        ((x >> 56) & 0xff) as u8,
    ]
}

pub open spec fn spec_u64_from_le_bytes(s: Seq<u8>) -> u64
    recommends
        s.len() == 8,
{
    (((s[7] as u64) << 56) | ((s[6] as u64) << 48) | ((s[5] as u64) << 40) | ((s[4] as u64) << 32)
        | ((s[3] as u64) << 24) | ((s[2] as u64) << 16) | ((s[1] as u64) << 8) | (s[0] as u64))
        as u64
}

/// A 64-bit value survives the trip through its eight little-endian bytes,
/// and eight bytes survive the trip through the value they denote.
pub proof fn lemma_u64_le_round_trip()
    ensures
        forall|x: u64| #[trigger] spec_u64_from_le_bytes(spec_u64_to_le_bytes(x)) == x,
        forall|s: Seq<u8>|
            s.len() == 8 ==> #[trigger] spec_u64_to_le_bytes(spec_u64_from_le_bytes(s)) == s,
{
    assert forall|x: u64| #[trigger] spec_u64_from_le_bytes(spec_u64_to_le_bytes(x)) == x by {
        assert((((((x >> 56) & 0xff) as u8) as u64) << 56 | ((((x >> 48) & 0xff) as u8) as u64)
            << 48 | ((((x >> 40) & 0xff) as u8) as u64) << 40 | ((((x >> 32) & 0xff) as u8) as u64)
            << 32 | ((((x >> 24) & 0xff) as u8) as u64) << 24 | ((((x >> 16) & 0xff) as u8) as u64)
            << 16 | ((((x >> 8) & 0xff) as u8) as u64) << 8 | (((x & 0xff) as u8) as u64)) as u64
            == x) by (bit_vector);
    }
    assert forall|s: Seq<u8>| s.len() == 8 implies #[trigger] spec_u64_to_le_bytes(
        spec_u64_from_le_bytes(s),
    ) == s by {
        let b0 = s[0];
        let b1 = s[1];
        let b2 = s[2];
        let b3 = s[3];
        let b4 = s[4];
        let b5 = s[5];
        let b6 = s[6];
        let b7 = s[7];
        let x = spec_u64_from_le_bytes(s);
        assert(x == (((b7 as u64) << 56) | ((b6 as u64) << 48) | ((b5 as u64) << 40) | ((b4 as u64)
            << 32) | ((b3 as u64) << 24) | ((b2 as u64) << 16) | ((b1 as u64) << 8) | (b0 as u64))
            as u64);
        assert({
            let y = (((b7 as u64) << 56) | ((b6 as u64) << 48) | ((b5 as u64) << 40) | ((b4 as u64)
                << 32) | ((b3 as u64) << 24) | ((b2 as u64) << 16) | ((b1 as u64) << 8) | (b0
                as u64)) as u64;
            (y & 0xff) as u8 == b0 && ((y >> 8) & 0xff) as u8 == b1 && ((y >> 16) & 0xff) as u8
                == b2 && ((y >> 24) & 0xff) as u8 == b3 && ((y >> 32) & 0xff) as u8 == b4 && ((y
                >> 40) & 0xff) as u8 == b5 && ((y >> 48) & 0xff) as u8 == b6 && ((y >> 56) & 0xff)
                as u8 == b7
        }) by (bit_vector);
        assert(spec_u64_to_le_bytes(x) =~= s);
    }
}

/// Append the eight little-endian bytes of `x` to `buf`.
pub fn push_u64_le(buf: &mut Vec<u8>, x: u64)
    ensures
        final(buf)@ == old(buf)@ + spec_u64_to_le_bytes(x),
{
    buf.push((x & 0xff) as u8);
    buf.push(((x >> 8) & 0xff) as u8);
    buf.push(((x >> 16) & 0xff) as u8);
    buf.push(((x >> 24) & 0xff) as u8);
    buf.push(((x >> 32) & 0xff) as u8);
    buf.push(((x >> 40) & 0xff) as u8);
    buf.push(((x >> 48) & 0xff) as u8);
    buf.push(((x >> 56) & 0xff) as u8);
    proof {
        assert(buf@ =~= old(buf)@ + spec_u64_to_le_bytes(x));
    }
}

/// Read the little-endian 64-bit field at byte offset `off`.
pub fn read_u64_le(buf: &[u8], off: usize) -> (x: u64)
    requires
        off + 8 <= buf@.len(),
    ensures
        x == spec_u64_from_le_bytes(buf@.subrange(off as int, off + 8)),
{
    let b0 = buf[off];
    let b1 = buf[off + 1];
    let b2 = buf[off + 2];
    let b3 = buf[off + 3];
    let b4 = buf[off + 4];
    let b5 = buf[off + 5];
    let b6 = buf[off + 6];
    let b7 = buf[off + 7];
    proof {
        let s = buf@.subrange(off as int, off as int + 8);
        assert(s[0] == b0 && s[1] == b1 && s[2] == b2 && s[3] == b3 && s[4] == b4 && s[5] == b5
            && s[6] == b6 && s[7] == b7);
    }
    ((b7 as u64) << 56) | ((b6 as u64) << 48) | ((b5 as u64) << 40) | ((b4 as u64) << 32) | ((b3
        as u64) << 24) | ((b2 as u64) << 16) | ((b1 as u64) << 8) | (b0 as u64)
}

/// A 16-bit value survives the trip through its two big-endian bytes, and
/// two bytes survive the trip through the value they denote.
pub proof fn lemma_u16_be_round_trip()
    ensures
        forall|x: u16| #[trigger] spec_u16_from_be_bytes(spec_u16_to_be_bytes(x)) == x,
        forall|s: Seq<u8>|
            s.len() == 2 ==> #[trigger] spec_u16_to_be_bytes(spec_u16_from_be_bytes(s)) == s,
{
    assert forall|x: u16| #[trigger] spec_u16_from_be_bytes(spec_u16_to_be_bytes(x)) == x by {
        assert(((((((x >> 8) & 0xff) as u8) as u16) << 8) | (((x & 0xff) as u8) as u16)) as u16
            == x) by (bit_vector);
    }
    assert forall|s: Seq<u8>| s.len() == 2 implies #[trigger] spec_u16_to_be_bytes(
        spec_u16_from_be_bytes(s),
    ) == s by {
        let b0 = s[0];
        let b1 = s[1];
        let x = spec_u16_from_be_bytes(s);
        assert(x == (((b0 as u16) << 8) | (b1 as u16)) as u16);
        assert({
            let y = (((b0 as u16) << 8) | (b1 as u16)) as u16;
            ((y >> 8) & 0xff) as u8 == b0 && (y & 0xff) as u8 == b1
        }) by (bit_vector);
        assert(spec_u16_to_be_bytes(x) =~= s);
    }
}

/// A 32-bit value survives the trip through its four big-endian bytes, and
/// four bytes survive the trip through the value they denote.
pub proof fn lemma_u32_be_round_trip()
    ensures
        forall|x: u32| #[trigger] spec_u32_from_be_bytes(spec_u32_to_be_bytes(x)) == x,
        forall|s: Seq<u8>|
            s.len() == 4 ==> #[trigger] spec_u32_to_be_bytes(spec_u32_from_be_bytes(s)) == s,
{
    assert forall|x: u32| #[trigger] spec_u32_from_be_bytes(spec_u32_to_be_bytes(x)) == x by {
        assert((((((x >> 24) & 0xff) as u8) as u32) << 24 | ((((x >> 16) & 0xff) as u8) as u32)
            << 16 | ((((x >> 8) & 0xff) as u8) as u32) << 8 | (((x & 0xff) as u8) as u32)) as u32
            == x) by (bit_vector);
    }
    assert forall|s: Seq<u8>| s.len() == 4 implies #[trigger] spec_u32_to_be_bytes(
        spec_u32_from_be_bytes(s),
    ) == s by {
        let b0 = s[0];
        let b1 = s[1];
        let b2 = s[2];
        let b3 = s[3];
        let x = spec_u32_from_be_bytes(s);
        assert(x == (((b0 as u32) << 24) | ((b1 as u32) << 16) | ((b2 as u32) << 8) | (b3 as u32))
            as u32);
        assert({
            let y = (((b0 as u32) << 24) | ((b1 as u32) << 16) | ((b2 as u32) << 8) | (b3 as u32))
                as u32;
            ((y >> 24) & 0xff) as u8 == b0 && ((y >> 16) & 0xff) as u8 == b1 && ((y >> 8) & 0xff)
                as u8 == b2 && (y & 0xff) as u8 == b3
        }) by (bit_vector);
        assert(spec_u32_to_be_bytes(x) =~= s);
    }
}

/// A 32-bit value survives the trip through its four little-endian bytes,
/// and four bytes survive the trip through the value they denote.
pub proof fn lemma_u32_le_round_trip()
    ensures
        forall|x: u32| #[trigger] spec_u32_from_le_bytes(spec_u32_to_le_bytes(x)) == x,
        forall|s: Seq<u8>|
            s.len() == 4 ==> #[trigger] spec_u32_to_le_bytes(spec_u32_from_le_bytes(s)) == s,
{
    assert forall|x: u32| #[trigger] spec_u32_from_le_bytes(spec_u32_to_le_bytes(x)) == x by {
        assert((((((x >> 24) & 0xff) as u8) as u32) << 24 | ((((x >> 16) & 0xff) as u8) as u32)
            << 16 | ((((x >> 8) & 0xff) as u8) as u32) << 8 | (((x & 0xff) as u8) as u32)) as u32
            == x) by (bit_vector);
    }
    assert forall|s: Seq<u8>| s.len() == 4 implies #[trigger] spec_u32_to_le_bytes(
        spec_u32_from_le_bytes(s),
    ) == s by {
        let b0 = s[0];
        let b1 = s[1];
        let b2 = s[2];
        let b3 = s[3];
        let x = spec_u32_from_le_bytes(s);
        assert(x == (((b3 as u32) << 24) | ((b2 as u32) << 16) | ((b1 as u32) << 8) | (b0 as u32))
            as u32);
        assert({
            let y = (((b3 as u32) << 24) | ((b2 as u32) << 16) | ((b1 as u32) << 8) | (b0 as u32))
                as u32;
            ((y >> 24) & 0xff) as u8 == b3 && ((y >> 16) & 0xff) as u8 == b2 && ((y >> 8) & 0xff)
                as u8 == b1 && (y & 0xff) as u8 == b0
        }) by (bit_vector);
        assert(spec_u32_to_le_bytes(x) =~= s);
    }
}

/// Append the two big-endian bytes of `x` to `buf`.
pub fn push_u16_be(buf: &mut Vec<u8>, x: u16)
    ensures
        final(buf)@ == old(buf)@ + spec_u16_to_be_bytes(x),
{
    buf.push(((x >> 8) & 0xff) as u8);
    buf.push((x & 0xff) as u8);
    proof {
        assert(buf@ =~= old(buf)@ + spec_u16_to_be_bytes(x));
    }
}

/// Append the four big-endian bytes of `x` to `buf`.
pub fn push_u32_be(buf: &mut Vec<u8>, x: u32)
    ensures
        final(buf)@ == old(buf)@ + spec_u32_to_be_bytes(x),
{
    buf.push(((x >> 24) & 0xff) as u8);
    buf.push(((x >> 16) & 0xff) as u8);
    buf.push(((x >> 8) & 0xff) as u8);
    buf.push((x & 0xff) as u8);
    proof {
        assert(buf@ =~= old(buf)@ + spec_u32_to_be_bytes(x));
    }
}

/// Append the four little-endian bytes of `x` to `buf`.
pub fn push_u32_le(buf: &mut Vec<u8>, x: u32)
    ensures
        final(buf)@ == old(buf)@ + spec_u32_to_le_bytes(x),
{
    buf.push((x & 0xff) as u8);
    buf.push(((x >> 8) & 0xff) as u8);
    buf.push(((x >> 16) & 0xff) as u8);
    buf.push(((x >> 24) & 0xff) as u8);
    proof {
        assert(buf@ =~= old(buf)@ + spec_u32_to_le_bytes(x));
    }
}

/// The two big-endian bytes of `x`, as an array.
pub fn u16_be_array(x: u16) -> (r: [u8; 2])
    ensures
        r@ == spec_u16_to_be_bytes(x),
{
    let r: [u8; 2] = [((x >> 8) & 0xff) as u8, (x & 0xff) as u8];
    proof {
        assert(r@ =~= spec_u16_to_be_bytes(x));
    }
    r
}

/// The four big-endian bytes of `x`, as an array.
pub fn u32_be_array(x: u32) -> (r: [u8; 4])
    ensures
        r@ == spec_u32_to_be_bytes(x),
{
    let r: [u8; 4] = [
        ((x >> 24) & 0xff) as u8,
        ((x >> 16) & 0xff) as u8,
        ((x >> 8) & 0xff) as u8,
        (x & 0xff) as u8,
    ];
    proof {
        assert(r@ =~= spec_u32_to_be_bytes(x));
    }
    r
}

/// Append every byte of `data` to `buf`.
pub fn push_bytes(buf: &mut Vec<u8>, data: &[u8])
    ensures
        final(buf)@ == old(buf)@ + data@,
{
    let mut i: usize = 0;
    while i < data.len()
        invariant
            i <= data@.len(),
            buf@ == old(buf)@ + data@.subrange(0, i as int),
        decreases data@.len() - i,
    {
        buf.push(data[i]);
        i = i + 1;
        proof {
            assert(buf@ =~= old(buf)@ + data@.subrange(0, i as int));
        }
    }
    proof {
        assert(old(buf)@ + data@.subrange(0, data@.len() as int) =~= old(buf)@ + data@);
    }
}

/// Read the big-endian 16-bit field at byte offset `off`.
pub fn read_u16_be(buf: &[u8], off: usize) -> (x: u16)
    requires
        off + 2 <= buf@.len(),
    ensures
        x == spec_u16_from_be_bytes(buf@.subrange(off as int, off + 2)),
{
    let b0 = buf[off];
    let b1 = buf[off + 1];
    proof {
        let s = buf@.subrange(off as int, off as int + 2);
        assert(s[0] == b0 && s[1] == b1);
    }
    ((b0 as u16) << 8) | (b1 as u16)
}

/// Read the big-endian 32-bit field at byte offset `off`.
pub fn read_u32_be(buf: &[u8], off: usize) -> (x: u32)
    requires
        off + 4 <= buf@.len(),
    ensures
        x == spec_u32_from_be_bytes(buf@.subrange(off as int, off + 4)),
{
    let b0 = buf[off];
    let b1 = buf[off + 1];
    let b2 = buf[off + 2];
    let b3 = buf[off + 3];
    proof {
        let s = buf@.subrange(off as int, off as int + 4);
        assert(s[0] == b0 && s[1] == b1 && s[2] == b2 && s[3] == b3);
    }
    ((b0 as u32) << 24) | ((b1 as u32) << 16) | ((b2 as u32) << 8) | (b3 as u32)
}

/// Read the little-endian 32-bit field at byte offset `off`.
pub fn read_u32_le(buf: &[u8], off: usize) -> (x: u32)
    requires
        off + 4 <= buf@.len(),
    ensures
        x == spec_u32_from_le_bytes(buf@.subrange(off as int, off + 4)),
{
    let b0 = buf[off];
    let b1 = buf[off + 1];
    let b2 = buf[off + 2];
    let b3 = buf[off + 3];
    proof {
        let s = buf@.subrange(off as int, off as int + 4);
        assert(s[0] == b0 && s[1] == b1 && s[2] == b2 && s[3] == b3);
    }
    ((b3 as u32) << 24) | ((b2 as u32) << 16) | ((b1 as u32) << 8) | (b0 as u32)
}

} // verus!
