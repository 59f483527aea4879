//! The container's byte-oriented decompression codec: literals and
//! overlapping back-references, selected by a refilled control word.
use vstd::prelude::*;
use crate::bytes::{u16_be, read_u8, read_u16_be};

verus! {

/// Why a compressed stream could not be expanded.
#[derive(Debug, Clone, Copy, PartialEq, Eq, Structural)]
pub enum CodecError {
    /// The stream ends inside a control byte, literal or back-reference.
    Truncated,
    /// A back-reference with offset zero, which names no earlier byte.
    ZeroOffset,
    /// The expanded data does not have the announced length.
    LengthMismatch,
}

/// The byte that a back-reference `offset` bytes behind the end of `out`
/// copies; a zero byte where that position lies before the start.
pub open spec fn back_byte(out: Seq<u8>, offset: int) -> u8 {
    if out.len() < offset {
        0
    } else {
        out[out.len() - offset]
    }
}

/// `out` after `n` single-byte copies from `offset` bytes back, each copy
/// able to read bytes that earlier copies of the same run appended.
pub open spec fn copy_back(out: Seq<u8>, offset: int, n: nat) -> Seq<u8>
    decreases n,
{
    if n == 0 {
        out
    } else {
        let o = copy_back(out, offset, (n - 1) as nat);
        o.push(back_byte(o, offset))
    }
}

/// The control word after `pos`'s token selection: refilled from the next
/// input byte, with the sentinel bits set, once the previous byte's eight
/// bits are used up.
pub open spec fn refill(data: Seq<u8>, pos: int, ctrl: u16) -> (u16, int) {
    if ctrl & 0x100 == 0 {
        ((data[pos] as u16) | 0xFF00, pos + 1)
    } else {
        (ctrl, pos)
    }
}

/// What the decoder produces from input position `pos` on, with control
/// word `ctrl`, having produced `out` so far.
pub open spec fn expand(data: Seq<u8>, pos: int, ctrl: u16, out: Seq<u8>) -> Result<
    Seq<u8>,
    CodecError,
>
    decreases data.len() - pos,
    when 0 <= pos
{
    if pos >= data.len() {
        Ok(out)
    } else {
        let (c, p) = refill(data, pos, ctrl);
        if c & 1 != 0 {
            if p >= data.len() {
                Err(CodecError::Truncated)
            } else {
                expand(data, p + 1, c >> 1, out.push(data[p]))
            }
        } else if p + 2 > data.len() {
            Err(CodecError::Truncated)
        } else {
            let flag = u16_be(data, p);
            if flag == 0 {
                Ok(out)
            } else if flag / 16 == 0 {
                Err(CodecError::ZeroOffset)
            } else {
                expand(data, p + 2, c >> 1, copy_back(out, flag / 16, (flag % 16 + 3) as nat))
            }
        }
    }
}

/// What `uncompresse` returns for `data` and the announced length.
pub open spec fn uncompressed(data: Seq<u8>, raw_size: int) -> Result<Seq<u8>, CodecError> {
    match expand(data, 0, 0, Seq::empty()) {
        Ok(out) => if out.len() == raw_size {
            Ok(out)
        } else {
            Err(CodecError::LengthMismatch)
        },
        Err(e) => Err(e),
    }
}

/// Expands a compressed stream; the result must have exactly `raw_size`
/// bytes.
pub fn uncompresse(data: &Vec<u8>, raw_size: u32) -> (r: Result<Vec<u8>, CodecError>)
    ensures
        r is Ok ==> r.unwrap()@.len() == raw_size,
        match uncompressed(data@, raw_size as int) {
            Ok(out) => r is Ok && r.unwrap()@ == out,
            Err(e) => r == Err::<Vec<u8>, CodecError>(e),
        },
{
    let s = data.as_slice();
    let mut pos: usize = 0;
    let mut control_code: u16 = 0;
    let mut output: Vec<u8> = Vec::new();
    let ghost whole = expand(data@, 0, 0, Seq::empty());
    while pos < s.len()
        invariant_except_break
            whole == expand(data@, pos as int, control_code, output@),
        invariant
            s@ == data@,
            pos <= s@.len(),
            whole == expand(data@, 0, 0, Seq::empty()),
        ensures
            whole == Ok::<Seq<u8>, CodecError>(output@),
        decreases s@.len() - pos,
    {
        let ghost pos0 = pos as int;
        let ghost ctrl0 = control_code;
        if control_code & 0x100 == 0 {
            let b = read_u8(s, &mut pos);
            assert(b is Some);
            control_code = (b.unwrap() as u16) | 0xFF00;
        }
        assert((control_code, pos as int) == refill(data@, pos0, ctrl0));
        if control_code & 1 != 0 {
            match read_u8(s, &mut pos) {
                Some(b) => output.push(b),
                None => return Err(CodecError::Truncated),
            }
        } else {
            let flag = match read_u16_be(s, &mut pos) {
                Some(f) => f,
                None => return Err(CodecError::Truncated),
            };
            if flag == 0 {
                break;
            }
            assert(flag >> 4u16 == flag / 16 && flag & 0xF == flag % 16) by (bit_vector);
            let offset = flag >> 4;
            if offset == 0 {
                return Err(CodecError::ZeroOffset);
            }
            let len = (flag & 0xF) + 3;
            let ghost out0 = output@;
            let mut k: u16 = 0;
            while k < len
                invariant
                    k <= len,
                    offset > 0,
                    output@ == copy_back(out0, offset as int, k as nat),
                decreases len - k,
            {
                let n = output.len();
                let b = if n < offset as usize {
                    0
                } else {
                    output[n - offset as usize]
                };
                output.push(b);
                k = k + 1;
            }
        }
        control_code = control_code >> 1;
    }
    if output.len() == raw_size as usize {
        Ok(output)
    } else {
        Err(CodecError::LengthMismatch)
    }
}

} // verus!

verus! {

/// The all-literal encoding of `r`: each run of up to eight bytes behind a
/// control byte whose bits all select literals.
pub open spec fn literal_stream(r: Seq<u8>) -> Seq<u8>
    decreases r.len(),
{
    if r.len() == 0 {
        Seq::empty()
    } else if r.len() <= 8 {
        seq![0xFFu8] + r
    } else {
        seq![0xFFu8] + r.take(8) + literal_stream(r.skip(8))
    }
}

proof fn lemma_literal_stream_head(r: Seq<u8>)
    requires
        r.len() > 0,
    ensures
        literal_stream(r)[0] == 0xFF,
        r.len() <= 8 ==> literal_stream(r).len() == 1 + r.len(),
        r.len() > 8 ==> literal_stream(r).len() == 9 + literal_stream(r.skip(8)).len(),
        forall|k: int| 0 <= k < r.len() && k < 8 ==> #[trigger] literal_stream(r)[1 + k] == r[k],
        r.len() > 8 ==> forall|k: int|
            0 <= k < literal_stream(r.skip(8)).len() ==> #[trigger] literal_stream(r)[9 + k]
                == literal_stream(r.skip(8))[k],
{
    let l = literal_stream(r);
    if r.len() <= 8 {
        assert(l == seq![0xFFu8] + r);
    } else {
        assert(l == seq![0xFFu8] + r.take(8) + literal_stream(r.skip(8)));
    }
}

/// Literals `j..m` of a run whose control word, after `j` shifts, is
/// `0xFFFF >> j`.
proof fn lemma_literal_run(data: Seq<u8>, pos: int, j: u16, m: u16, out: Seq<u8>)
    requires
        0 <= pos,
        j <= m <= 8,
        pos + (m - j) <= data.len(),
    ensures
        expand(data, pos, 0xFFFFu16 >> j, out) == (if pos + (m - j) >= data.len() {
            Ok(out + data.subrange(pos, pos + (m - j)))
        } else {
            expand(data, pos + (m - j), 0xFFFFu16 >> m, out + data.subrange(pos, pos + (m - j)))
        }),
    decreases m - j,
{
    if j == m {
        assert(out + data.subrange(pos, pos) =~= out);
        if pos >= data.len() {
        }
    } else {
        let c: u16 = 0xFFFFu16 >> j;
        assert(c & 0x100 != 0 && c & 1 != 0 && c >> 1u16 == 0xFFFFu16 >> ((j + 1) as u16)) by (bit_vector)
            requires
                c == 0xFFFFu16 >> j,
                j < 8,
        ;
        assert(refill(data, pos, c) == (c, pos));
        lemma_literal_run(data, pos + 1, (j + 1) as u16, m, out.push(data[pos]));
        assert(out.push(data[pos]) + data.subrange(pos + 1, pos + (m - j)) =~= out + data.subrange(
            pos,
            pos + (m - j),
        ));
    }
}

/// Expanding an all-literal stream from a point where the control word is
/// used up appends exactly its bytes.
proof fn lemma_literal_stream(data: Seq<u8>, pos: int, r: Seq<u8>, ctrl: u16, out: Seq<u8>)
    requires
        0 <= pos <= data.len(),
        data.subrange(pos, data.len() as int) == literal_stream(r),
        ctrl & 0x100 == 0,
    ensures
        expand(data, pos, ctrl, out) == Ok::<Seq<u8>, CodecError>(out + r),
    decreases r.len(),
{
    if r.len() == 0 {
        assert(out + r =~= out);
    } else {
        let m: u16 = if r.len() <= 8 {
            r.len() as u16
        } else {
            8
        };
        lemma_literal_stream_head(r);
        assert(data[pos] == 0xFF) by {
            assert(data.subrange(pos, data.len() as int)[0] == literal_stream(r)[0]);
        }
        assert((0xFFu8 as u16) | 0xFF00u16 == 0xFFFFu16 >> 0u16) by (bit_vector);
        assert(refill(data, pos, ctrl) == (0xFFFFu16 >> 0u16, pos + 1));
        assert(data.subrange(pos + 1, pos + 1 + m) =~= r.take(m as int)) by {
            assert forall|k: int| 0 <= k < m implies data[pos + 1 + k] == r[k] by {
                assert(data.subrange(pos, data.len() as int)[1 + k] == literal_stream(r)[1 + k]);
            }
        }
        lemma_literal_run(data, pos + 1, 0, m, out);
        let c: u16 = 0xFFFFu16 >> 0u16;
        assert(c & 0x100 != 0 && c & 1 != 0) by (bit_vector)
            requires
                c == 0xFFFFu16 >> 0u16,
        ;
        assert(refill(data, pos + 1, c) == (c, pos + 1));
        assert(expand(data, pos, ctrl, out) == expand(data, pos + 1, c, out));
        if r.len() <= 8 {
            assert(data.len() == pos + 1 + r.len()) by {
                assert(data.subrange(pos, data.len() as int).len() == literal_stream(r).len());
            }
            assert(r.take(m as int) =~= r);
        } else {
            let rest = r.skip(8);
            assert(data.subrange(pos + 9, data.len() as int) =~= literal_stream(rest)) by {
                assert(data.subrange(pos, data.len() as int).len() == literal_stream(r).len());
                assert forall|k: int| 0 <= k < literal_stream(rest).len() implies data[pos + 9 + k]
                    == literal_stream(rest)[k] by {
                    assert(data.subrange(pos, data.len() as int)[9 + k] == literal_stream(r)[9 + k]);
                }
            }
            assert((0xFFFFu16 >> 8u16) & 0x100 == 0) by (bit_vector);
            lemma_literal_stream(data, pos + 9, rest, 0xFFFFu16 >> 8u16, out + r.take(8));
            assert(out + r.take(8) + rest =~= out + r);
        }
    }
}

/// Expanding the all-literal encoding of `r` reproduces `r` exactly, and an
/// announced length other than `r`'s fails.
pub proof fn lemma_literal_round_trip(r: Seq<u8>, raw_size: int)
    ensures
        raw_size == r.len() ==> uncompressed(literal_stream(r), raw_size) == Ok::<Seq<u8>, CodecError>(r),
        raw_size != r.len() ==> uncompressed(literal_stream(r), raw_size) == Err::<Seq<u8>, CodecError>(
            CodecError::LengthMismatch,
        ),
{
    let data = literal_stream(r);
    assert(data.subrange(0, data.len() as int) =~= data);
    assert(0u16 & 0x100 == 0) by (bit_vector);
    lemma_literal_stream(data, 0, r, 0, Seq::empty());
    assert(Seq::<u8>::empty() + r =~= r);
}

} // verus!

verus! {

/// Whatever encoder produced a stream, if the stream decodes to `r` then
/// announcing `r`'s length reproduces `r` exactly, and announcing any other
/// length fails.
pub proof fn lemma_round_trip(data: Seq<u8>, r: Seq<u8>, raw_size: int)
    requires
        expand(data, 0, 0, Seq::empty()) == Ok::<Seq<u8>, CodecError>(r),
    ensures
        raw_size == r.len() ==> uncompressed(data, raw_size) == Ok::<Seq<u8>, CodecError>(r),
        raw_size != r.len() ==> uncompressed(data, raw_size) == Err::<Seq<u8>, CodecError>(
            CodecError::LengthMismatch,
        ),
{
}

} // verus!
