//! Byte-level decoding primitives: big-endian integers and section readers.
//!
//! Every multi-byte field of the wire format is big-endian; widths are wire
//! constants and all reading is done by explicit byte-offset arithmetic.

use vstd::prelude::*;

verus! {

/// The unsigned value of the four big-endian bytes starting at `pos`.
pub open spec fn spec_be_u32(bytes: Seq<u8>, pos: int) -> int
    recommends
        0 <= pos,
        pos + 4 <= bytes.len(),
{
    bytes[pos] * 0x1000000 + bytes[pos + 1] * 0x10000 + bytes[pos + 2] * 0x100 + bytes[pos + 3]
}

/// The signed 32-bit value of the four big-endian bytes starting at `pos`:
/// the unsigned value, reinterpreted in two's complement.
pub open spec fn spec_be_i32(bytes: Seq<u8>, pos: int) -> i32
    recommends
        0 <= pos,
        pos + 4 <= bytes.len(),
{
    if spec_be_u32(bytes, pos) >= 0x8000_0000 {
        (spec_be_u32(bytes, pos) - 0x1_0000_0000) as i32
    } else {
        spec_be_u32(bytes, pos) as i32
    }
}

/// Reads the big-endian signed 32-bit integer at `pos`.
pub fn read_be_i32(bytes: &[u8], pos: usize) -> (r: i32)
    requires
        pos + 4 <= bytes@.len(),
    ensures
        r == spec_be_i32(bytes@, pos as int),
{
    let b0 = bytes[pos] as u32;
    let b1 = bytes[pos + 1] as u32;
    let b2 = bytes[pos + 2] as u32;
    let b3 = bytes[pos + 3] as u32;
    let unsigned: u32 = b0 * 0x1000000 + b1 * 0x10000 + b2 * 0x100 + b3;
    if unsigned >= 0x8000_0000 {
        let low: u32 = unsigned - 0x8000_0000;
        (low as i32) - 0x7FFF_FFFF - 1
    } else {
        unsigned as i32
    }
}

/// Copies `bytes[start .. start + count]` into a fresh vector.
pub fn read_byte_section(bytes: &[u8], start: usize, count: usize) -> (r: Vec<u8>)
    requires
        start + count <= bytes@.len(),
    ensures
        r@ == bytes@.subrange(start as int, start + count),
{
    let len = bytes.len();
    let mut out: Vec<u8> = Vec::new();
    let mut j: usize = 0;
    while j < count
        invariant
            start + count <= len,
            len == bytes@.len(),
            j <= count,
            out@.len() == j,
            forall|k: int| 0 <= k < j ==> out@[k] == bytes@[start + k],
        decreases count - j,
    {
        out.push(bytes[start + j]);
        j += 1;
    }
    proof {
        assert(out@ =~= bytes@.subrange(start as int, start + count));
    }
    out
}

/// Decodes `count` big-endian signed 32-bit integers starting at `start`.
pub fn read_i32_section(bytes: &[u8], start: usize, count: usize) -> (r: Vec<i32>)
    requires
        start + count * 4 <= bytes@.len(),
    ensures
        r@.len() == count,
        forall|k: int| 0 <= k < count ==> r@[k] == spec_be_i32(bytes@, start + 4 * k),
{
    let len = bytes.len();
    let mut out: Vec<i32> = Vec::new();
    let mut j: usize = 0;
    while j < count
        invariant
            start + count * 4 <= len,
            len == bytes@.len(),
            j <= count,
            out@.len() == j,
            forall|k: int| 0 <= k < j ==> out@[k] == spec_be_i32(bytes@, start + 4 * k),
        decreases count - j,
    {
        let v = read_be_i32(bytes, start + 4 * j);
        out.push(v);
        j += 1;
    }
    out
}

/// Decodes `count` pairs of big-endian signed 32-bit integers, eight bytes
/// per pair, starting at `start`.
pub fn read_pair_section(bytes: &[u8], start: usize, count: usize) -> (r: Vec<(i32, i32)>)
    requires
        start + count * 8 <= bytes@.len(),
    ensures
        r@.len() == count,
        forall|k: int| 0 <= k < count ==> r@[k] == (
            spec_be_i32(bytes@, start + 8 * k),
            spec_be_i32(bytes@, start + 8 * k + 4),
        ),
{
    let len = bytes.len();
    let mut out: Vec<(i32, i32)> = Vec::new();
    let mut j: usize = 0;
    while j < count
        invariant
            start + count * 8 <= len,
            len == bytes@.len(),
            j <= count,
            out@.len() == j,
            forall|k: int| 0 <= k < j ==> out@[k] == (
                spec_be_i32(bytes@, start + 8 * k),
                spec_be_i32(bytes@, start + 8 * k + 4),
            ),
        decreases count - j,
    {
        let first = read_be_i32(bytes, start + 8 * j);
        let second = read_be_i32(bytes, start + 8 * j + 4);
        out.push((first, second));
        j += 1;
    }
    out
}

/// Decodes `count` indicator bytes starting at `start`: byte value `1` is
/// `true`, any other value is `false`.
pub fn read_bool_section(bytes: &[u8], start: usize, count: usize) -> (r: Vec<bool>)
    requires
        start + count <= bytes@.len(),
    ensures
        r@.len() == count,
        forall|k: int| 0 <= k < count ==> r@[k] == (bytes@[start + k] == 1),
{
    let len = bytes.len();
    let mut out: Vec<bool> = Vec::new();
    let mut j: usize = 0;
    while j < count
        invariant
            start + count <= len,
            len == bytes@.len(),
            j <= count,
            out@.len() == j,
            forall|k: int| 0 <= k < j ==> out@[k] == (bytes@[start + k] == 1),
        decreases count - j,
    {
        out.push(bytes[start + j] == 1);
        j += 1;
    }
    out
}

} // verus!
