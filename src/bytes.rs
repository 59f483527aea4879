//! Little- and big-endian integer fields of a byte buffer, read at checked
//! offsets, and their encodings for writing.
use vstd::prelude::*;
use vstd::utf8::*;

verus! {

/// The unsigned 16-bit little-endian value stored at `i`.
pub open spec fn u16_le(s: Seq<u8>, i: int) -> int {
    s[i] as int + 256 * s[i + 1] as int
}

/// The unsigned 16-bit big-endian value stored at `i`.
pub open spec fn u16_be(s: Seq<u8>, i: int) -> int {
    256 * s[i] as int + s[i + 1] as int
}

/// The unsigned 32-bit little-endian value stored at `i`.
pub open spec fn u32_le(s: Seq<u8>, i: int) -> int {
    s[i] as int + 256 * s[i + 1] as int + 65536 * s[i + 2] as int + 16777216 * s[i + 3] as int
}

/// The four little-endian bytes of `x`.
#[verifier::opaque]
pub open spec fn le32(x: u32) -> Seq<u8> {
    seq![
        (x % 256) as u8,
        ((x / 256) % 256) as u8,
        ((x / 65536) % 256) as u8,
        (x / 16777216) as u8,
    ]
}

/// The two little-endian bytes of `x`.
#[verifier::opaque]
pub open spec fn le16(x: u16) -> Seq<u8> {
    seq![(x % 256) as u8, (x / 256) as u8]
}

pub broadcast proof fn lemma_le32_len(x: u32)
    ensures
        #[trigger] le32(x).len() == 4,
{
    reveal(le32);
}

pub broadcast proof fn lemma_le16_len(x: u16)
    ensures
        #[trigger] le16(x).len() == 2,
{
    reveal(le16);
}

/// The four little-endian bytes of a signed value, in two's complement.
pub open spec fn le32i(x: i32) -> Seq<u8> {
    le32(x as u32)
}

/// `end` is the index of the first zero byte at or after `pos`.
pub open spec fn nul_at(s: Seq<u8>, pos: int, end: int) -> bool {
    &&& 0 <= pos <= end < s.len()
    &&& s[end] == 0
    &&& forall|k: int| pos <= k < end ==> s[k] != 0
}

/// Relies on std's String::from_utf8: it accepts exactly the valid UTF-8
/// sequences and then holds the characters they encode.
#[verifier::external_body]
pub(crate) fn string_from_utf8(b: Vec<u8>) -> (r: Option<String>)
    ensures
        r is Some <==> valid_utf8(b@),
        r is Some ==> r.unwrap()@ == decode_utf8(b@),
{
    String::from_utf8(b).ok()
}

pub fn read_u8(s: &[u8], pos: &mut usize) -> (r: Option<u8>)
    ensures
        r is Some <==> *old(pos) + 1 <= s@.len(),
        r is Some ==> r.unwrap() == s@[*old(pos) as int] && *final(pos) == *old(pos) + 1,
        r is None ==> *final(pos) == *old(pos),
{
    if *pos < s.len() {
        let b = s[*pos];
        *pos = *pos + 1;
        Some(b)
    } else {
        None
    }
}

pub fn read_u16_le(s: &[u8], pos: &mut usize) -> (r: Option<u16>)
    ensures
        r is Some <==> *old(pos) + 2 <= s@.len(),
        r is Some ==> r.unwrap() == u16_le(s@, *old(pos) as int) && *final(pos) == *old(pos) + 2,
        r is None ==> *final(pos) == *old(pos),
{
    if *pos <= s.len() && s.len() - *pos >= 2 {
        let p = *pos;
        let v = s[p] as u16 + 256 * (s[p + 1] as u16);
        *pos = p + 2;
        Some(v)
    } else {
        None
    }
}

pub fn read_u16_be(s: &[u8], pos: &mut usize) -> (r: Option<u16>)
    ensures
        r is Some <==> *old(pos) + 2 <= s@.len(),
        r is Some ==> r.unwrap() == u16_be(s@, *old(pos) as int) && *final(pos) == *old(pos) + 2,
        r is None ==> *final(pos) == *old(pos),
{
    if *pos <= s.len() && s.len() - *pos >= 2 {
        let p = *pos;
        let v = 256 * (s[p] as u16) + s[p + 1] as u16;
        *pos = p + 2;
        Some(v)
    } else {
        None
    }
}

pub fn read_u32_le(s: &[u8], pos: &mut usize) -> (r: Option<u32>)
    ensures
        r is Some <==> *old(pos) + 4 <= s@.len(),
        r is Some ==> r.unwrap() == u32_le(s@, *old(pos) as int) && *final(pos) == *old(pos) + 4,
        r is None ==> *final(pos) == *old(pos),
{
    if *pos <= s.len() && s.len() - *pos >= 4 {
        let p = *pos;
        let v = s[p] as u32 + 256 * (s[p + 1] as u32) + 65536 * (s[p + 2] as u32) + 16777216 * (
        s[p + 3] as u32);
        *pos = p + 4;
        Some(v)
    } else {
        None
    }
}

/// The zero-terminated UTF-8 text that starts at `pos`, with the index of
/// its terminator; `None` where no zero byte follows or the bytes before it
/// are not UTF-8.
pub open spec fn text_at(s: Seq<u8>, pos: int) -> Option<(Seq<char>, int)> {
    if exists|end: int| nul_at(s, pos, end) {
        let end = choose|end: int| nul_at(s, pos, end);
        if valid_utf8(s.subrange(pos, end)) {
            Some((decode_utf8(s.subrange(pos, end)), end))
        } else {
            None
        }
    } else {
        None
    }
}

/// Reads the zero-terminated UTF-8 text that starts at `pos`; `pos` moves
/// past the terminator.
pub fn read_string_to_null(s: &[u8], pos: &mut usize) -> (r: Option<String>)
    ensures
        r is Some <==> text_at(s@, *old(pos) as int) is Some,
        r is Some ==> r.unwrap()@ == text_at(s@, *old(pos) as int).unwrap().0
            && *final(pos) == text_at(s@, *old(pos) as int).unwrap().1 + 1,
{
    let start = *pos;
    if start >= s.len() {
        return None;
    }
    let mut buf: Vec<u8> = Vec::new();
    let mut i: usize = start;
    while i < s.len() && s[i] != 0
        invariant
            start <= i <= s@.len(),
            buf@ == s@.subrange(start as int, i as int),
            forall|k: int| start <= k < i ==> s@[k] != 0,
        decreases s@.len() - i,
    {
        buf.push(s[i]);
        i = i + 1;
        assert(buf@ =~= s@.subrange(start as int, i as int));
    }
    assert(buf@ =~= s@.subrange(start as int, i as int));
    if i >= s.len() {
        assert forall|end: int| !nul_at(s@, start as int, end) by {
            if nul_at(s@, start as int, end) {
                assert(s@[end] != 0);
            }
        }
        return None;
    }
    assert(nul_at(s@, start as int, i as int));
    assert forall|end: int| nul_at(s@, start as int, end) implies end == i by {
        if end < i {
            assert(s@[end] != 0);
        } else if end > i {
            assert(s@[i as int] != 0);
        }
    }
    let r = string_from_utf8(buf);
    if r.is_some() {
        *pos = i + 1;
    }
    r
}

} // verus!

verus! {

pub fn read_u8_at(s: &[u8], off: u64) -> (r: Option<u8>)
    ensures
        r is Some <==> off + 1 <= s@.len(),
        r is Some ==> r.unwrap() == s@[off as int],
{
    if off < s.len() as u64 {
        Some(s[off as usize])
    } else {
        None
    }
}

pub fn read_u16_at(s: &[u8], off: u64) -> (r: Option<u16>)
    ensures
        r is Some <==> off + 2 <= s@.len(),
        r is Some ==> r.unwrap() == u16_le(s@, off as int),
{
    if off <= s.len() as u64 {
        let mut p = off as usize;
        read_u16_le(s, &mut p)
    } else {
        None
    }
}

pub fn read_u32_at(s: &[u8], off: u64) -> (r: Option<u32>)
    ensures
        r is Some <==> off + 4 <= s@.len(),
        r is Some ==> r.unwrap() == u32_le(s@, off as int),
{
    if off <= s.len() as u64 {
        let mut p = off as usize;
        read_u32_le(s, &mut p)
    } else {
        None
    }
}

} // verus!
