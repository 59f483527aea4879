//! Appending little-endian fields and length-prefixed text to an output
//! buffer, with the byte sequences each append produces.
use vstd::prelude::*;
use vstd::utf8::*;
use vstd::string::*;
use crate::bytes::{le16, le32, le32i, lemma_le32_len, lemma_le16_len};

verus! {

broadcast use {lemma_le32_len, lemma_le16_len};

/// The bytes of `s` under a generic per-item encoding, in order.
pub open spec fn enc_all<T>(s: Seq<T>, f: spec_fn(T) -> Seq<u8>) -> Seq<u8>
    decreases s.len(),
{
    if s.len() == 0 {
        Seq::empty()
    } else {
        enc_all(s.drop_last(), f) + f(s.last())
    }
}

/// One more item appended to an encoded prefix.
pub proof fn lemma_enc_all_step<T>(s: Seq<T>, i: int, f: spec_fn(T) -> Seq<u8>)
    requires
        0 <= i < s.len(),
    ensures
        enc_all(s.take(i + 1), f) == enc_all(s.take(i), f) + f(s[i]),
{
    assert(s.take(i + 1).drop_last() =~= s.take(i));
}

/// A length-prefixed UTF-8 text: its byte count, then its bytes.
pub open spec fn enc_text(s: Seq<char>) -> Seq<u8> {
    le32(encode_utf8(s).len() as u32) + encode_utf8(s)
}

pub fn put_u8(out: &mut Vec<u8>, x: u8)
    ensures
        final(out)@ == old(out)@.push(x),
{
    out.push(x);
}

pub fn put_u16(out: &mut Vec<u8>, x: u16)
    ensures
        final(out)@ == old(out)@ + le16(x),
{
    reveal(le16);
    out.push((x % 256) as u8);
    out.push((x / 256) as u8);
    assert(final(out)@ =~= old(out)@ + le16(x));
}

pub fn put_u32(out: &mut Vec<u8>, x: u32)
    ensures
        final(out)@ == old(out)@ + le32(x),
{
    reveal(le32);
    out.push((x % 256) as u8);
    out.push(((x / 256) % 256) as u8);
    out.push(((x / 65536) % 256) as u8);
    out.push((x / 16777216) as u8);
    assert(final(out)@ =~= old(out)@ + le32(x));
}

pub fn put_i32(out: &mut Vec<u8>, x: i32)
    ensures
        final(out)@ == old(out)@ + le32i(x),
{
    put_u32(out, x as u32);
}

/// Appends `content` as a byte count and its UTF-8 bytes.
pub fn write_string(out: &mut Vec<u8>, content: &String)
    ensures
        final(out)@ == old(out)@ + enc_text(content@),
{
    let b = content.as_str().as_bytes();
    put_u32(out, b.len() as u32);
    let ghost mid = out@;
    let mut i: usize = 0;
    while i < b.len()
        invariant
            b@ == encode_utf8(content@),
            i <= b@.len(),
            out@ == mid + b@.take(i as int),
        decreases b@.len() - i,
    {
        out.push(b[i]);
        i = i + 1;
        assert(out@ =~= mid + b@.take(i as int));
    }
    assert(b@.take(b@.len() as int) =~= b@);
    assert(final(out)@ =~= old(out)@ + enc_text(content@));
}

} // verus!
