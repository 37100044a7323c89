//! The little-endian wire encoding of packet bodies: fixed-width integers,
//! NUL-terminated strings and packed GUIDs, with their readers.
use vstd::prelude::*;

verus! {

/// A packet on its way to a client: the opcode and the body bytes.
#[derive(Clone, Debug)]
pub struct OutboundWorldPacket {
    pub opcode: u16,
    pub body: Vec<u8>,
}

pub open spec fn le_u16(v: u16) -> Seq<u8> {
    seq![(v % 256) as u8, (v / 256) as u8]
}

pub open spec fn le_u32(v: u32) -> Seq<u8> {
    seq![(v % 256) as u8, ((v / 256) % 256) as u8, ((v / 65536) % 256) as u8, (v / 16777216) as u8]
}

pub open spec fn le_i32(v: i32) -> Seq<u8> {
    le_u32(v as u32)
}

pub open spec fn le_u64(v: u64) -> Seq<u8> {
    le_u32((v % 0x1_0000_0000) as u32) + le_u32((v / 0x1_0000_0000) as u32)
}

pub fn push_u8(body: &mut Vec<u8>, v: u8)
    ensures
        final(body)@ == old(body)@.push(v),
{
    body.push(v);
}

pub fn push_u16(body: &mut Vec<u8>, v: u16)
    ensures
        final(body)@ == old(body)@ + le_u16(v),
{
    body.push((v % 256) as u8);
    body.push((v / 256) as u8);
    assert(body@ =~= old(body)@ + le_u16(v));
}

pub fn push_u32(body: &mut Vec<u8>, v: u32)
    ensures
        final(body)@ == old(body)@ + le_u32(v),
{
    body.push((v % 256) as u8);
    body.push(((v / 256) % 256) as u8);
    body.push(((v / 65536) % 256) as u8);
    body.push((v / 16777216) as u8);
    assert(body@ =~= old(body)@ + le_u32(v));
}

pub fn push_i32(body: &mut Vec<u8>, v: i32)
    ensures
        final(body)@ == old(body)@ + le_i32(v),
{
    push_u32(body, v as u32);
}

pub fn push_u64(body: &mut Vec<u8>, v: u64)
    ensures
        final(body)@ == old(body)@ + le_u64(v),
{
    push_u32(body, (v % 0x1_0000_0000) as u32);
    push_u32(body, (v / 0x1_0000_0000) as u32);
    assert(body@ =~= old(body)@ + le_u64(v));
}

/// `text` followed by a NUL byte.
pub open spec fn c_string(text: Seq<u8>) -> Seq<u8> {
    text.push(0u8)
}

pub fn push_c_string(body: &mut Vec<u8>, text: &[u8])
    ensures
        final(body)@ == old(body)@ + c_string(text@),
{
    let ghost start = body@;
    let mut i: usize = 0;
    while i < text.len()
        invariant
            i <= text.len(),
            body@ == start + text@.take(i as int),
        decreases text.len() - i,
    {
        body.push(text[i]);
        assert(body@ =~= start + text@.take(i + 1));
        i += 1;
    }
    body.push(0);
    assert(body@ =~= start + c_string(text@));
}

// ---------------------------------------------------------------------------
// Reading

/// A body ended before a value it must hold.
#[derive(Clone, Copy, Debug, PartialEq, Eq, Structural)]
pub enum WireError {
    UnexpectedEnd,
    MissingTerminator,
}

pub open spec fn decode_u16(b: Seq<u8>, at: int) -> u16 {
    (b[at] + b[at + 1] * 256) as u16
}

pub open spec fn decode_u32(b: Seq<u8>, at: int) -> u32 {
    (b[at] + b[at + 1] * 256 + b[at + 2] * 65536 + b[at + 3] * 16777216) as u32
}

pub open spec fn decode_u64(b: Seq<u8>, at: int) -> u64 {
    (decode_u32(b, at) + decode_u32(b, at + 4) * 0x1_0000_0000) as u64
}

pub fn read_u8(body: &[u8], cursor: &mut usize) -> (value: Result<u8, WireError>)
    ensures
        match value {
            Ok(v) => *old(cursor) + 1 <= body@.len() && v == body@[*old(cursor) as int] && *final(cursor) == *old(cursor) + 1,
            Err(e) => *old(cursor) + 1 > body@.len() && e == WireError::UnexpectedEnd && *final(cursor) == *old(cursor),
        },
{
    if *cursor >= body.len() {
        return Err(WireError::UnexpectedEnd);
    }
    let v = body[*cursor];
    *cursor = *cursor + 1;
    Ok(v)
}

pub fn read_u16(body: &[u8], cursor: &mut usize) -> (value: Result<u16, WireError>)
    ensures
        match value {
            Ok(v) => *old(cursor) + 2 <= body@.len() && v == decode_u16(body@, *old(cursor) as int)
                && *final(cursor) == *old(cursor) + 2,
            Err(e) => *old(cursor) + 2 > body@.len() && e == WireError::UnexpectedEnd && *final(cursor) == *old(cursor),
        },
{
    if body.len() < 2 || *cursor > body.len() - 2 {
        return Err(WireError::UnexpectedEnd);
    }
    let at = *cursor;
    let v: u16 = body[at] as u16 + body[at + 1] as u16 * 256;
    *cursor = at + 2;
    Ok(v)
}

pub fn read_u32(body: &[u8], cursor: &mut usize) -> (value: Result<u32, WireError>)
    ensures
        match value {
            Ok(v) => *old(cursor) + 4 <= body@.len() && v == decode_u32(body@, *old(cursor) as int)
                && *final(cursor) == *old(cursor) + 4,
            Err(e) => *old(cursor) + 4 > body@.len() && e == WireError::UnexpectedEnd && *final(cursor) == *old(cursor),
        },
{
    if body.len() < 4 || *cursor > body.len() - 4 {
        return Err(WireError::UnexpectedEnd);
    }
    let at = *cursor;
    let v: u32 = body[at] as u32 + body[at + 1] as u32 * 256 + body[at + 2] as u32 * 65536
        + body[at + 3] as u32 * 16777216;
    *cursor = at + 4;
    Ok(v)
}

pub fn read_u64(body: &[u8], cursor: &mut usize) -> (value: Result<u64, WireError>)
    ensures
        match value {
            Ok(v) => *old(cursor) + 8 <= body@.len() && v == decode_u64(body@, *old(cursor) as int)
                && *final(cursor) == *old(cursor) + 8,
            Err(e) => *old(cursor) + 8 > body@.len() && e == WireError::UnexpectedEnd && *final(cursor) == *old(cursor),
        },
{
    if body.len() < 8 || *cursor > body.len() - 8 {
        return Err(WireError::UnexpectedEnd);
    }
    let start = *cursor;
    let low = read_u32(body, cursor);
    let high = read_u32(body, cursor);
    match (low, high) {
        (Ok(l), Ok(h)) => Ok(l as u64 + h as u64 * 0x1_0000_0000),
        _ => {
            *cursor = start;
            Err(WireError::UnexpectedEnd)
        },
    }
}

/// The index of the first NUL at or after `from`.
pub open spec fn first_nul(b: Seq<u8>, from: int) -> Option<int>
    decreases b.len() - from,
{
    if from >= b.len() || from < 0 {
        None
    } else if b[from] == 0 {
        Some(from)
    } else {
        first_nul(b, from + 1)
    }
}

/// Reads the bytes up to the next NUL and moves past the NUL.
pub fn read_c_string(body: &[u8], cursor: &mut usize) -> (text: Result<Vec<u8>, WireError>)
    ensures
        match text {
            Ok(t) => first_nul(body@, *old(cursor) as int) matches Some(end)
                && t@ == body@.subrange(*old(cursor) as int, end) && *final(cursor) == end + 1,
            Err(e) => first_nul(body@, *old(cursor) as int) is None && e == WireError::MissingTerminator
                && *final(cursor) == *old(cursor),
        },
{
    let start = *cursor;
    let mut i = start;
    let mut text: Vec<u8> = Vec::new();
    if start >= body.len() {
        return Err(WireError::MissingTerminator);
    }
    while i < body.len() && body[i] != 0
        invariant
            start <= i <= body.len(),
            start < body.len(),
            first_nul(body@, start as int) == first_nul(body@, i as int),
            text@ == body@.subrange(start as int, i as int),
        decreases body.len() - i,
    {
        text.push(body[i]);
        assert(text@ =~= body@.subrange(start as int, i + 1));
        i += 1;
    }
    if i >= body.len() {
        return Err(WireError::MissingTerminator);
    }
    *cursor = i + 1;
    Ok(text)
}

// ---------------------------------------------------------------------------
// Packed GUIDs

/// The mask bit for byte `n` of a GUID.
pub open spec fn byte_bit(n: int) -> int {
    if n == 0 { 1 } else if n == 1 { 2 } else if n == 2 { 4 } else if n == 3 { 8 } else if n == 4 { 16 } else if n == 5 {
        32
    } else if n == 6 { 64 } else { 128 }
}

/// The index bound of mask bits below byte `n`.
pub open spec fn bits_below(n: int) -> int {
    if n <= 0 { 1 } else { 2 * byte_bit(n - 1) }
}

/// The mask bits of the non-zero bytes among the first `n` bytes of `bytes`.
pub open spec fn packed_mask(bytes: Seq<u8>, n: int) -> int
    decreases n,
{
    if n <= 0 {
        0
    } else {
        packed_mask(bytes, n - 1) + if bytes[n - 1] != 0 { byte_bit(n - 1) } else { 0 }
    }
}

/// The non-zero bytes among the first `n` bytes of `bytes`, in order.
pub open spec fn packed_bytes(bytes: Seq<u8>, n: int) -> Seq<u8>
    decreases n,
{
    if n <= 0 {
        Seq::empty()
    } else {
        packed_bytes(bytes, n - 1) + if bytes[n - 1] != 0 { seq![bytes[n - 1]] } else { Seq::empty() }
    }
}

/// A packed GUID: a mask of the non-zero bytes, then those bytes.
pub open spec fn packed_guid(raw: u64) -> Seq<u8> {
    seq![packed_mask(le_u64(raw), 8) as u8] + packed_bytes(le_u64(raw), 8)
}

pub fn push_packed_guid(body: &mut Vec<u8>, raw: u64)
    ensures
        final(body)@ == old(body)@ + packed_guid(raw),
{
    let mut bytes: Vec<u8> = Vec::new();
    push_u64(&mut bytes, raw);
    assert(bytes@ =~= le_u64(raw));
    let mut mask: u16 = 0;
    let mut packed: Vec<u8> = Vec::new();
    let mut i: usize = 0;
    let mut bit: u16 = 1;
    while i < 8
        invariant
            i <= 8,
            bytes@ == le_u64(raw),
            bit as int == bits_below(i as int),
            mask as int == packed_mask(bytes@, i as int),
            0 <= packed_mask(bytes@, i as int) < bits_below(i as int),
            packed@ == packed_bytes(bytes@, i as int),
        decreases 8 - i,
    {
        if bytes[i] != 0 {
            mask = mask + bit;
            packed.push(bytes[i]);
        }
        assert(packed@ =~= packed_bytes(bytes@, i + 1));
        bit = bit * 2;
        i += 1;
    }
    let mask = mask as u8;
    let ghost start = body@;
    body.push(mask);
    let mut k: usize = 0;
    while k < packed.len()
        invariant
            k <= packed.len(),
            body@ == start.push(mask) + packed@.take(k as int),
        decreases packed.len() - k,
    {
        body.push(packed[k]);
        assert(body@ =~= start.push(mask) + packed@.take(k + 1));
        k += 1;
    }
    assert(body@ =~= start + packed_guid(raw));
}


/// Whether mask bit `i` is set.
pub open spec fn bit_set(mask: u8, i: int) -> bool {
    (mask as int / byte_bit(i)) % 2 == 1
}

/// The number of set mask bits below bit `n`.
pub open spec fn set_bits_below(mask: u8, n: int) -> int
    decreases n,
{
    if n <= 0 {
        0
    } else {
        set_bits_below(mask, n - 1) + if bit_set(mask, n - 1) { 1int } else { 0int }
    }
}

/// The place value of GUID byte `i`.
pub open spec fn byte_weight(i: int) -> int {
    if i <= 0 { 1 } else if i == 1 { 0x100 } else if i == 2 { 0x1_0000 } else if i == 3 { 0x100_0000 } else if i == 4 {
        0x1_0000_0000
    } else if i == 5 { 0x100_0000_0000 } else if i == 6 { 0x1_0000_0000_0000 } else if i == 7 { 0x100_0000_0000_0000 } else {
        0x1_0000_0000_0000_0000
    }
}

/// The GUID value of a packed GUID's first `n` bytes: the bytes after the
/// mask go, in order, to the positions whose mask bit is set.
pub open spec fn unpacked_value(b: Seq<u8>, start: int, mask: u8, n: int) -> int
    decreases n,
{
    if n <= 0 {
        0
    } else {
        unpacked_value(b, start, mask, n - 1) + if bit_set(mask, n - 1) {
            b[start + set_bits_below(mask, n - 1)] * byte_weight(n - 1)
        } else {
            0
        }
    }
}

/// Whether a whole packed GUID starts at `at`: its mask byte and one byte
/// per set bit.
pub open spec fn packed_guid_fits(b: Seq<u8>, at: int) -> bool {
    0 <= at < b.len() && at + 1 + set_bits_below(b[at], 8) <= b.len()
}

/// The index just past the packed GUID that starts at `at`.
pub open spec fn packed_guid_end(b: Seq<u8>, at: int) -> int {
    at + 1 + set_bits_below(b[at], 8)
}

/// The GUID value of the packed GUID that starts at `at`.
pub open spec fn packed_guid_value(b: Seq<u8>, at: int) -> int {
    unpacked_value(b, at + 1, b[at], 8)
}

/// Reads a packed GUID: the mask byte, then one byte per set bit.
pub fn read_packed_guid(body: &[u8], cursor: &mut usize) -> (guid: Result<u64, WireError>)
    ensures
        match guid {
            Ok(v) => packed_guid_fits(body@, *old(cursor) as int) && v as int == packed_guid_value(body@, *old(cursor) as int)
                && *final(cursor) == packed_guid_end(body@, *old(cursor) as int),
            Err(e) => e == WireError::UnexpectedEnd && !packed_guid_fits(body@, *old(cursor) as int)
                && *final(cursor) == *old(cursor),
        },
{
    let start = *cursor;
    if start >= body.len() {
        return Err(WireError::UnexpectedEnd);
    }
    let mask = body[start];
    let mut at = start + 1;
    let mut value: u64 = 0;
    let mut bit: u16 = 1;
    let mut weight: u64 = 1;
    let mut i: usize = 0;
    while i < 8
        invariant
            i <= 8,
            start < body@.len(),
            *cursor == start,
            start == *old(cursor),
            mask == body@[start as int],
            bit as int == bits_below(i as int),
            weight as int == byte_weight(i as int) || (i == 8),
            i < 8 ==> weight as int == byte_weight(i as int),
            at as int == start + 1 + set_bits_below(mask, i as int),
            at <= body@.len(),
            value as int == unpacked_value(body@, start + 1, mask, i as int),
            0 <= unpacked_value(body@, start + 1, mask, i as int) < byte_weight(i as int),
        decreases 8 - i,
    {
        if (mask as u16 / bit) % 2 == 1 {
            if at >= body.len() {
                proof {
                    assert(bits_below(i as int) == byte_bit(i as int));
                    assert(set_bits_below(mask, i + 1) == set_bits_below(mask, i as int) + 1);
                    lemma_set_bits_monotone(mask, i + 1, 8);
                }
                return Err(WireError::UnexpectedEnd);
            }
            let b = body[at];
            proof {
                assert((b as int) * (weight as int) <= 255 * (weight as int)) by (nonlinear_arith)
                    requires b <= 255, weight >= 1;
            }
            value = value + b as u64 * weight;
            at = at + 1;
        }
        bit = bit * 2;
        if i < 7 {
            weight = weight * 256;
        }
        i += 1;
    }
    *cursor = at;
    Ok(value)
}

proof fn lemma_set_bits_monotone(mask: u8, a: int, b: int)
    requires
        a <= b,
    ensures
        set_bits_below(mask, a) <= set_bits_below(mask, b),
    decreases b - a,
{
    if a < b {
        lemma_set_bits_monotone(mask, a, b - 1);
    }
}

} // verus!
