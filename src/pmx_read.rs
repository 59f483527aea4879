//! Decoding of PMX documents: every field width the header may declare,
//! UTF-8 or UTF-16 text, all five weight records, indexed bone tails,
//! inherited transforms, axes and IK chains.
use vstd::prelude::*;
use vstd::utf8::*;
use crate::bytes::{u16_le, u32_le};
use crate::model::f3_at;
use crate::pmx::{Float2, Float3, Float4, Int4, Vertex, VertexWeight, Mat, Bone, BoneTailPos, BlendMode, Toon, Ik, IkJoint, Joint, Rigidbody, RigidbodyShape, RigidbodyMode, DisplayFrame, DisplayFrameIndex, MorphInfo, Pmx, KNOWN_BONE_FLAGS, INDEXED_TAIL_BONE, INHERIT_ROTATION, INHERIT_TRANSLATION, FIXED_AXIS, LOCAL_AXIS, EXTERNAL_PARENT, IK};

verus! {

/// Why a document could not be decoded.
#[derive(Debug, Clone, Copy, PartialEq, Eq, Structural)]
pub enum PmxError {
    /// A field lies past the end of the document.
    Truncated,
    /// The document does not start with the PMX magic.
    BadMagic,
    /// Extra UV channels are declared; they are not supported.
    AppendixUv,
    /// A text is not valid in its declared encoding.
    BadText,
    /// An index width other than 1, 2 or 4.
    BadIndexSize,
    /// An unknown tag, flag or enumeration value.
    UnsupportedVariant,
    /// More bones than an IK chain's signed bone field can number.
    TooManyBones,
}

/// The field widths and text encoding that a document's header declares.
#[derive(Debug, Clone, Copy, PartialEq, Eq, Structural)]
pub struct Layout {
    pub utf8: bool,
    pub vertex_index_size: u8,
    pub texture_index_size: u8,
    pub material_index_size: u8,
    pub bone_index_size: u8,
    pub morph_index_size: u8,
    pub rigidbody_index_size: u8,
}

pub open spec fn is_high_surrogate(u: u16) -> bool {
    0xD800 <= u <= 0xDBFF
}

pub open spec fn is_low_surrogate(u: u16) -> bool {
    0xDC00 <= u <= 0xDFFF
}

/// Well-formed UTF-16: every high surrogate is followed by a low one, and
/// every low surrogate follows a high one.
pub open spec fn valid_utf16(units: Seq<u16>) -> bool {
    &&& forall|k: int|
        0 <= k < units.len() && is_high_surrogate(#[trigger] units[k]) ==> k + 1 < units.len()
            && is_low_surrogate(units[k + 1])
    &&& forall|k: int|
        0 <= k < units.len() && is_low_surrogate(#[trigger] units[k]) ==> k > 0 && is_high_surrogate(
            units[k - 1],
        )
}

/// The characters that well-formed UTF-16 units encode: a high surrogate
/// with the low one after it gives one character above U+FFFF, any other
/// unit the character of its own value.
pub open spec fn utf16_text(units: Seq<u16>) -> Seq<char>
    decreases units.len(),
{
    if units.len() == 0 {
        Seq::empty()
    } else if units.len() >= 2 && is_high_surrogate(units[0]) && is_low_surrogate(units[1]) {
        seq![(0x10000 + (units[0] - 0xD800) * 1024 + (units[1] - 0xDC00)) as char] + utf16_text(
            units.skip(2),
        )
    } else {
        seq![units[0] as char] + utf16_text(units.skip(1))
    }
}

/// Relies on std's String::from_utf16: it fails exactly on ill-formed
/// UTF-16, and otherwise decodes the units into their characters.
#[verifier::external_body]
fn string_from_utf16(units: &[u16]) -> (r: Option<String>)
    ensures
        r is Some <==> valid_utf16(units@),
        r is Some ==> r.unwrap()@ == utf16_text(units@),
{
    String::from_utf16(units).ok()
}

/// The little-endian 16-bit units of `b`.
pub open spec fn units_of(b: Seq<u8>) -> Seq<u16> {
    Seq::new(b.len() / 2, |k: int| u16_le(b, 2 * k) as u16)
}

/// A signed index of `size` bytes at `p`.
pub open spec fn index_at(s: Seq<u8>, p: int, size: u8) -> i32 {
    if size == 1 {
        s[p] as i8 as i32
    } else if size == 2 {
        u16_le(s, p) as u16 as i16 as i32
    } else {
        u32_le(s, p) as u32 as i32
    }
}

pub open spec fn f2_at(s: Seq<u8>, p: int) -> Float2 {
    Float2 { x: u32_le(s, p) as u32, y: u32_le(s, p + 4) as u32 }
}

pub open spec fn f4_at(s: Seq<u8>, p: int) -> Float4 {
    Float4 {
        x: u32_le(s, p) as u32,
        y: u32_le(s, p + 4) as u32,
        z: u32_le(s, p + 8) as u32,
        w: u32_le(s, p + 12) as u32,
    }
}

pub open spec fn i4_at(s: Seq<u8>, p: int, size: u8) -> Int4 {
    Int4 {
        x: index_at(s, p, size),
        y: index_at(s, p + size, size),
        z: index_at(s, p + 2 * size, size),
        w: index_at(s, p + 3 * size, size),
    }
}

pub open spec fn u32_at(s: Seq<u8>, p: int) -> u32 {
    u32_le(s, p) as u32
}

/// A length-prefixed text at `p`: its byte count, then its bytes.
pub open spec fn text_end(s: Seq<u8>, p: int) -> int {
    p + 4 + u32_le(s, p)
}

/// An index width that the format allows.
pub open spec fn size_ok(size: u8) -> bool {
    size == 1 || size == 2 || size == 4
}

/// The text at `p` lies within `s` and is valid in its encoding.
pub open spec fn text_ok(s: Seq<u8>, p: int, utf8: bool) -> bool {
    let b = s.subrange(p + 4, text_end(s, p));
    &&& p + 4 <= s.len()
    &&& text_end(s, p) <= s.len()
    &&& if utf8 {
        valid_utf8(b)
    } else {
        b.len() % 2 == 0 && valid_utf16(units_of(b))
    }
}

pub open spec fn text_end_fn(s: Seq<u8>) -> spec_fn(int) -> int {
    |p: int| text_end(s, p)
}

pub open spec fn text_chars(s: Seq<u8>, p: int, utf8: bool) -> Seq<char> {
    let b = s.subrange(p + 4, text_end(s, p));
    if utf8 {
        decode_utf8(b)
    } else {
        utf16_text(units_of(b))
    }
}

fn rd_u8(s: &[u8], pos: &mut usize) -> (r: Result<u8, PmxError>)
    ensures
        r is Ok <==> *old(pos) + 1 <= s@.len(),
        r is Ok ==> *old(pos) < s@.len() && r.unwrap() == s@[*old(pos) as int] && *final(pos) == *old(
            pos,
        ) + 1,
{
    match crate::bytes::read_u8(s, pos) {
        Some(v) => Ok(v),
        None => Err(PmxError::Truncated),
    }
}

fn rd_u16(s: &[u8], pos: &mut usize) -> (r: Result<u16, PmxError>)
    ensures
        r is Ok <==> *old(pos) + 2 <= s@.len(),
        r is Ok ==> r.unwrap() == u16_le(s@, *old(pos) as int) && *final(pos) == *old(pos) + 2,
{
    match crate::bytes::read_u16_le(s, pos) {
        Some(v) => Ok(v),
        None => Err(PmxError::Truncated),
    }
}

fn rd_u32(s: &[u8], pos: &mut usize) -> (r: Result<u32, PmxError>)
    ensures
        r is Ok <==> *old(pos) + 4 <= s@.len(),
        r is Ok ==> r.unwrap() == u32_at(s@, *old(pos) as int) && *final(pos) == *old(pos) + 4,
{
    match crate::bytes::read_u32_le(s, pos) {
        Some(v) => Ok(v),
        None => Err(PmxError::Truncated),
    }
}

pub fn read_vec2f(s: &[u8], pos: &mut usize) -> (r: Result<Float2, PmxError>)
    ensures
        r is Ok <==> *old(pos) + 8 <= s@.len(),
        r is Ok ==> r.unwrap() == f2_at(s@, *old(pos) as int) && *final(pos) == *old(pos) + 8,
{
    let x = rd_u32(s, pos)?;
    let y = rd_u32(s, pos)?;
    Ok(Float2 { x, y })
}

pub fn read_vec3f(s: &[u8], pos: &mut usize) -> (r: Result<Float3, PmxError>)
    ensures
        r is Ok <==> *old(pos) + 12 <= s@.len(),
        r is Ok ==> r.unwrap() == f3_at(s@, *old(pos) as int) && *final(pos) == *old(pos) + 12,
{
    let x = rd_u32(s, pos)?;
    let y = rd_u32(s, pos)?;
    let z = rd_u32(s, pos)?;
    Ok(Float3 { x, y, z })
}

pub fn read_vec4f(s: &[u8], pos: &mut usize) -> (r: Result<Float4, PmxError>)
    ensures
        r is Ok <==> *old(pos) + 16 <= s@.len(),
        r is Ok ==> r.unwrap() == f4_at(s@, *old(pos) as int) && *final(pos) == *old(pos) + 16,
{
    let x = rd_u32(s, pos)?;
    let y = rd_u32(s, pos)?;
    let z = rd_u32(s, pos)?;
    let w = rd_u32(s, pos)?;
    Ok(Float4 { x, y, z, w })
}

/// Reads a signed index of `size` bytes.
fn read_int(s: &[u8], pos: &mut usize, size: u8) -> (r: Result<i32, PmxError>)
    ensures
        r is Ok <==> size_ok(size) && *old(pos) + size <= s@.len(),
        r is Ok ==> (size == 1 || size == 2 || size == 4) && r.unwrap() == index_at(
            s@,
            *old(pos) as int,
            size,
        ) && *final(pos) == *old(pos) + size,
        (size != 1 && size != 2 && size != 4) ==> r == Err::<i32, PmxError>(PmxError::BadIndexSize),
{
    if size == 1 {
        let b = rd_u8(s, pos)?;
        Ok(b as i8 as i32)
    } else if size == 2 {
        let b = rd_u16(s, pos)?;
        Ok(b as i16 as i32)
    } else if size == 4 {
        let b = rd_u32(s, pos)?;
        Ok(b as i32)
    } else {
        Err(PmxError::BadIndexSize)
    }
}

fn rd_i4(s: &[u8], pos: &mut usize, size: u8) -> (r: Result<Int4, PmxError>)
    ensures
        r is Ok <==> size_ok(size) && *old(pos) + 4 * size <= s@.len(),
        r is Ok ==> (size == 1 || size == 2 || size == 4) && r.unwrap() == i4_at(
            s@,
            *old(pos) as int,
            size,
        ) && *final(pos) == *old(pos) + 4 * size,
{
    let x = read_int(s, pos, size)?;
    let y = read_int(s, pos, size)?;
    let z = read_int(s, pos, size)?;
    let w = read_int(s, pos, size)?;
    Ok(Int4 { x, y, z, w })
}

/// Reads a length-prefixed text in the declared encoding.
fn read_string(s: &[u8], pos: &mut usize, utf8: bool) -> (r: Result<String, PmxError>)
    ensures
        r is Ok <==> text_ok(s@, *old(pos) as int, utf8),
        r is Ok ==> r.unwrap()@ == text_chars(s@, *old(pos) as int, utf8) && *final(pos) == text_end(
            s@,
            *old(pos) as int,
        ) && text_end(s@, *old(pos) as int) <= s@.len(),
{
    let start = *pos;
    let len = rd_u32(s, pos)? as usize;
    let p = *pos;
    if p > s.len() || len > s.len() - p {
        return Err(PmxError::Truncated);
    }
    let ghost b = s@.subrange(p as int, p + len);
    if utf8 {
        let mut content: Vec<u8> = Vec::new();
        let mut k: usize = 0;
        while k < len
            invariant
                p + len <= s@.len(),
                s@.len() == s.len(),
                k <= len,
                content@ == s@.subrange(p as int, p + k),
            decreases len - k,
        {
            content.push(s[p + k]);
            k = k + 1;
            assert(content@ =~= s@.subrange(p as int, p + k));
        }
        match crate::bytes::string_from_utf8(content) {
            Some(t) => {
                *pos = p + len;
                Ok(t)
            },
            None => Err(PmxError::BadText),
        }
    } else {
        if len % 2 != 0 {
            return Err(PmxError::BadText);
        }
        let mut units: Vec<u16> = Vec::new();
        let mut k: usize = 0;
        while k < len / 2
            invariant
                p + len <= s@.len(),
                s@.len() == s.len(),
                b == s@.subrange(p as int, p + len),
                k <= len / 2,
                units@ == units_of(b).take(k as int),
            decreases len / 2 - k,
        {
            let u = s[p + 2 * k] as u16 + 256 * (s[p + 2 * k + 1] as u16);
            units.push(u);
            k = k + 1;
            assert(units@ =~= units_of(b).take(k as int));
        }
        assert(units@ =~= units_of(b));
        match string_from_utf16(units.as_slice()) {
            Some(t) => {
                *pos = p + len;
                Ok(t)
            },
            None => Err(PmxError::BadText),
        }
    }
}

} // verus!

verus! {

/// Where item `k` of a list starts, the first at `p0`, each next one where
/// the one before ends.
pub open spec fn starts(p0: int, k: nat, end: spec_fn(int) -> int) -> int
    decreases k,
{
    if k == 0 {
        p0
    } else {
        end(starts(p0, (k - 1) as nat, end))
    }
}

/// Bytes of a weight record after its tag.
pub open spec fn weight_size(tag: u8, bsz: int) -> int {
    if tag == 0 {
        bsz
    } else if tag == 1 {
        2 * bsz + 4
    } else if tag == 3 {
        2 * bsz + 40
    } else {
        4 * bsz + 16
    }
}

pub open spec fn weight_at(s: Seq<u8>, q: int, tag: u8, bsz: u8) -> VertexWeight {
    if tag == 0 {
        VertexWeight::One(index_at(s, q, bsz))
    } else if tag == 1 {
        VertexWeight::Two(index_at(s, q, bsz), index_at(s, q + bsz, bsz), u32_at(s, q + 2 * bsz))
    } else if tag == 2 {
        VertexWeight::Four(i4_at(s, q, bsz), f4_at(s, q + 4 * bsz))
    } else if tag == 3 {
        VertexWeight::Sphere(
            index_at(s, q, bsz),
            index_at(s, q + bsz, bsz),
            u32_at(s, q + 2 * bsz),
            f3_at(s, q + 2 * bsz + 4),
            f3_at(s, q + 2 * bsz + 16),
            f3_at(s, q + 2 * bsz + 28),
        )
    } else {
        VertexWeight::Quat(i4_at(s, q, bsz), f4_at(s, q + 4 * bsz))
    }
}

/// The vertex stored at `p`: position, normal, texture coordinates, a
/// tagged weight record and the edge scale.
#[verifier::opaque]
pub open spec fn vertex_at(s: Seq<u8>, p: int, bsz: u8) -> Vertex {
    Vertex {
        pos: f3_at(s, p),
        nrm: f3_at(s, p + 12),
        uv: f2_at(s, p + 24),
        weight: weight_at(s, p + 33, s[p + 32], bsz),
        edge_scale: u32_at(s, p + 33 + weight_size(s[p + 32], bsz as int)),
    }
}

#[verifier::opaque]
pub open spec fn vertex_end(s: Seq<u8>, bsz: u8) -> spec_fn(int) -> int {
    |p: int| p + 37 + weight_size(s[p + 32], bsz as int)
}

fn read_weight(s: &[u8], pos: &mut usize, bsz: u8) -> (r: Result<VertexWeight, PmxError>)
    ensures
        r is Ok <==> weight_ok(s@, *old(pos) as int, bsz),
        r is Ok ==> *old(pos) < s@.len() && s@[*old(pos) as int] <= 4 && r.unwrap() == weight_at(
            s@,
            *old(pos) + 1,
            s@[*old(pos) as int],
            bsz,
        ) && *final(pos) == *old(pos) + 1 + weight_size(s@[*old(pos) as int], bsz as int),
{
    let tag = rd_u8(s, pos)?;
    if tag == 0 {
        let a = read_int(s, pos, bsz)?;
        Ok(VertexWeight::One(a))
    } else if tag == 1 {
        let a = read_int(s, pos, bsz)?;
        let b = read_int(s, pos, bsz)?;
        let w = rd_u32(s, pos)?;
        Ok(VertexWeight::Two(a, b, w))
    } else if tag == 2 {
        let i = rd_i4(s, pos, bsz)?;
        let w = read_vec4f(s, pos)?;
        Ok(VertexWeight::Four(i, w))
    } else if tag == 3 {
        let a = read_int(s, pos, bsz)?;
        let b = read_int(s, pos, bsz)?;
        let w = rd_u32(s, pos)?;
        let c = read_vec3f(s, pos)?;
        let r0 = read_vec3f(s, pos)?;
        let r1 = read_vec3f(s, pos)?;
        Ok(VertexWeight::Sphere(a, b, w, c, r0, r1))
    } else if tag == 4 {
        let i = rd_i4(s, pos, bsz)?;
        let w = read_vec4f(s, pos)?;
        Ok(VertexWeight::Quat(i, w))
    } else {
        Err(PmxError::UnsupportedVariant)
    }
}

fn read_vertex(s: &[u8], pos: &mut usize, bsz: u8) -> (r: Result<Vertex, PmxError>)
    ensures
        r is Ok <==> (vertex_ok(s@, bsz))(*old(pos) as int),
        r is Ok ==> r.unwrap() == vertex_at(s@, *old(pos) as int, bsz) && *final(pos) == (vertex_end(
            s@,
            bsz,
        ))(*old(pos) as int),
{
    let p0 = *pos;
    proof {
        reveal(vertex_at);
        reveal(vertex_end);
        reveal(vertex_ok);
    }
    let p = read_vec3f(s, pos)?;
    let n = read_vec3f(s, pos)?;
    let uv = read_vec2f(s, pos)?;
    let weight = read_weight(s, pos, bsz)?;
    let edge_scale = rd_u32(s, pos)?;
    Ok(Vertex { pos: p, nrm: n, uv, weight, edge_scale })
}

/// The weight record at `q` has a known tag and lies within `s`.
pub open spec fn weight_ok(s: Seq<u8>, q: int, bsz: u8) -> bool {
    &&& q + 1 <= s.len()
    &&& s[q] <= 4
    &&& size_ok(bsz)
    &&& q + 1 + weight_size(s[q], bsz as int) <= s.len()
}

/// The vertex at `p` lies within `s` and has a known weight record.
#[verifier::opaque]
pub open spec fn vertex_ok(s: Seq<u8>, bsz: u8) -> spec_fn(int) -> bool {
    |p: int| p + 33 <= s.len() && weight_ok(s, p + 32, bsz) && (vertex_end(s, bsz))(p) <= s.len()
}

/// The counted list at `p`: its count lies within `s`, and so does each item.
pub open spec fn list_ok(s: Seq<u8>, p: int, ok: spec_fn(int) -> bool, end: spec_fn(int) -> int) -> bool {
    &&& p + 4 <= s.len()
    &&& forall|k: int| 0 <= k < count_at(s, p) ==> ok(#[trigger] starts(p + 4, k as nat, end))
}

/// The face section at `p` lies within `s`, with a known index width if it
/// has any triangle.
pub open spec fn faces_ok(s: Seq<u8>, p: int, vsz: u8) -> bool {
    let n = count_at(s, p) / 3;
    &&& p + 4 <= s.len()
    &&& (n > 0 ==> size_ok(vsz))
    &&& p + 4 + 3 * n * vsz <= s.len()
}

pub open spec fn text_ok_fn(s: Seq<u8>, utf8: bool) -> spec_fn(int) -> bool {
    |p: int| text_ok(s, p, utf8)
}

/// A stored count at `p`.
pub open spec fn count_at(s: Seq<u8>, p: int) -> int {
    u32_le(s, p)
}

impl Pmx {
    fn read_verts(s: &[u8], pos: &mut usize, bsz: u8) -> (r: Result<Vec<Vertex>, PmxError>)
        ensures
            r is Ok <==> list_ok(s@, *old(pos) as int, vertex_ok(s@, bsz), vertex_end(s@, bsz)),
            r is Ok ==> {
                let n = count_at(s@, *old(pos) as int);
                let end = vertex_end(s@, bsz);
                &&& r.unwrap()@.len() == n
                &&& forall|k: int|
                    0 <= k < n ==> #[trigger] r.unwrap()@[k] == vertex_at(
                        s@,
                        starts(*old(pos) + 4, k as nat, end),
                        bsz,
                    )
                &&& *final(pos) == starts(*old(pos) + 4, n as nat, end)
            },
    {
        let ghost p0 = *pos as int;
        let len = rd_u32(s, pos)?;
        let ghost end = vertex_end(s@, bsz);
        let mut vct: Vec<Vertex> = Vec::new();
        let mut i: u32 = 0;
        while i < len
            invariant
                p0 == *old(pos) as int,
                len == count_at(s@, p0),
                p0 + 4 <= s@.len(),
                end == vertex_end(s@, bsz),
                forall|k: int| 0 <= k < i ==> (vertex_ok(s@, bsz))(#[trigger] starts(p0 + 4, k as nat, end)),
                i <= len,
                vct@.len() == i,
                *pos == starts(p0 + 4, i as nat, end),
                forall|k: int| 0 <= k < i ==> #[trigger] vct@[k] == vertex_at(s@, starts(p0 + 4, k as nat, end), bsz),
            decreases len - i,
        {
            let ghost ki: int = i as int;
            let v = match read_vertex(s, pos, bsz) {
                Ok(v) => v,
                Err(e) => {
                    assert(!(vertex_ok(s@, bsz))(starts(p0 + 4, ki as nat, end)));
                    return Err(e);
                },
            };
            vct.push(v);
            i = i + 1;
        }
        Ok(vct)
    }

    fn read_faces(s: &[u8], pos: &mut usize, vsz: u8) -> (r: Result<Vec<[u32; 3]>, PmxError>)
        ensures
            r is Ok <==> faces_ok(s@, *old(pos) as int, vsz),
            r is Ok ==> {
                let n = count_at(s@, *old(pos) as int) / 3;
                &&& r.unwrap()@.len() == n
                &&& forall|k: int, c: int|
                    0 <= k < n && 0 <= c < 3 ==> (#[trigger] r.unwrap()@[k]@[c]) == index_at(
                        s@,
                        *old(pos) + 4 + (3 * k + c) * vsz,
                        vsz,
                    ) as u32
                &&& *final(pos) == *old(pos) + 4 + 3 * n * vsz
            },
    {
        let ghost p0 = *pos as int;
        let len = rd_u32(s, pos)? / 3;
        let mut vct: Vec<[u32; 3]> = Vec::new();
        let mut i: u32 = 0;
        assert(p0 + 4 + 3 * (i as int) * (vsz as int) == p0 + 4) by (nonlinear_arith)
            requires
                i == 0,
        ;
        while i < len
            invariant
                p0 == *old(pos) as int,
                p0 + 4 <= s@.len(),
                *pos <= s@.len(),
                i > 0 ==> size_ok(vsz),
                len == count_at(s@, p0) / 3,
                i <= len,
                vct@.len() == i,
                *pos == p0 + 4 + 3 * i * vsz,
                forall|k: int, c: int|
                    0 <= k < i && 0 <= c < 3 ==> (#[trigger] vct@[k]@[c]) == index_at(
                        s@,
                        p0 + 4 + (3 * k + c) * vsz,
                        vsz,
                    ) as u32,
            decreases len - i,
        {
            proof {
                assert(p0 + 4 + 3 * i * vsz + 3 * vsz <= p0 + 4 + 3 * len * vsz) by (nonlinear_arith)
                    requires
                        i < len,
                        vsz >= 0,
                ;
            }
            let a = read_int(s, pos, vsz)?;
            let b = read_int(s, pos, vsz)?;
            let c = read_int(s, pos, vsz)?;
            let f: [u32; 3] = [a as u32, b as u32, c as u32];
            assert(f@[0] == index_at(s@, p0 + 4 + (3 * i + 0) * vsz, vsz) as u32);
            assert(f@[1] == index_at(s@, p0 + 4 + (3 * i + 1) * vsz, vsz) as u32) by (nonlinear_arith)
                requires
                    f@[1] == index_at(s@, p0 + 4 + 3 * i * vsz + vsz, vsz) as u32,
            ;
            assert(f@[2] == index_at(s@, p0 + 4 + (3 * i + 2) * vsz, vsz) as u32) by (nonlinear_arith)
                requires
                    f@[2] == index_at(s@, p0 + 4 + 3 * i * vsz + vsz + vsz, vsz) as u32,
            ;
            vct.push(f);
            i = i + 1;
            assert(*pos == p0 + 4 + 3 * i * vsz) by (nonlinear_arith)
                requires
                    *pos == p0 + 4 + 3 * (i - 1) * vsz + vsz + vsz + vsz,
            ;
        }
        Ok(vct)
    }

    fn read_texs(s: &[u8], pos: &mut usize, utf8: bool) -> (r: Result<Vec<String>, PmxError>)
        ensures
            r is Ok <==> list_ok(s@, *old(pos) as int, text_ok_fn(s@, utf8), text_end_fn(s@)),
            r is Ok ==> {
                let n = count_at(s@, *old(pos) as int);
                let end = text_end_fn(s@);
                &&& r.unwrap()@.len() == n
                &&& forall|k: int|
                    0 <= k < n ==> (#[trigger] r.unwrap()@[k])@ == text_chars(
                        s@,
                        starts(*old(pos) + 4, k as nat, end),
                        utf8,
                    )
                &&& *final(pos) == starts(*old(pos) + 4, n as nat, end)
            },
    {
        let ghost p0 = *pos as int;
        let len = rd_u32(s, pos)?;
        let ghost end = text_end_fn(s@);
        let mut vct: Vec<String> = Vec::new();
        let mut i: u32 = 0;
        while i < len
            invariant
                p0 == *old(pos) as int,
                p0 + 4 <= s@.len(),
                len == count_at(s@, p0),
                end == text_end_fn(s@),
                forall|k: int| 0 <= k < i ==> (text_ok_fn(s@, utf8))(#[trigger] starts(p0 + 4, k as nat, end)),
                i <= len,
                vct@.len() == i,
                *pos == starts(p0 + 4, i as nat, end),
                forall|k: int|
                    0 <= k < i ==> (#[trigger] vct@[k])@ == text_chars(s@, starts(p0 + 4, k as nat, end), utf8),
            decreases len - i,
        {
            let ghost ki: int = i as int;
            let t = match read_string(s, pos, utf8) {
                Ok(t) => t,
                Err(e) => {
                    assert(!(text_ok_fn(s@, utf8))(starts(p0 + 4, ki as nat, end)));
                    return Err(e);
                },
            };
            vct.push(t);
            i = i + 1;
        }
        Ok(vct)
    }
}

} // verus!

verus! {

pub open spec fn blend_of(b: u8) -> BlendMode {
    if b == 0 {
        BlendMode::Disable
    } else if b == 1 {
        BlendMode::Mul
    } else if b == 2 {
        BlendMode::Add
    } else {
        BlendMode::Other
    }
}

/// Where a material's fixed-size colour block starts: after its two names.
pub open spec fn mat_colors_at(s: Seq<u8>, p: int) -> int {
    text_end(s, text_end(s, p))
}

/// Where a material's blend-mode byte lies.
pub open spec fn mat_blend_at(s: Seq<u8>, p: int, tsz: u8) -> int {
    mat_colors_at(s, p) + 65 + 2 * tsz
}

/// Where a material's comment starts: after the toon reference.
pub open spec fn mat_comment_at(s: Seq<u8>, p: int, tsz: u8) -> int {
    let b = mat_blend_at(s, p, tsz);
    if s[b + 1] == 0 {
        b + 2 + tsz
    } else {
        b + 3
    }
}

#[verifier::opaque]
pub open spec fn mat_end(s: Seq<u8>, tsz: u8) -> spec_fn(int) -> int {
    |p: int| text_end(s, mat_comment_at(s, p, tsz)) + 4
}

/// The material at `p` lies within `s`, with valid texts, a known index
/// width and a known blend mode.
#[verifier::opaque]
pub open spec fn mat_ok(s: Seq<u8>, l: Layout) -> spec_fn(int) -> bool {
    |p: int|
        {
            let b = mat_blend_at(s, p, l.texture_index_size);
            &&& text_ok(s, p, l.utf8)
            &&& text_ok(s, text_end(s, p), l.utf8)
            &&& size_ok(l.texture_index_size)
            &&& b + 2 <= s.len()
            &&& s[b] <= 3
            &&& text_ok(s, mat_comment_at(s, p, l.texture_index_size), l.utf8)
            &&& (mat_end(s, l.texture_index_size))(p) <= s.len()
        }
}

/// `m` is the material stored at `p`.
#[verifier::opaque]
pub open spec fn mat_at(m: Mat, s: Seq<u8>, p: int, l: Layout) -> bool {
    let c = mat_colors_at(s, p);
    let tsz = l.texture_index_size;
    let b = mat_blend_at(s, p, tsz);
    &&& m.name@ == text_chars(s, p, l.utf8)
    &&& m.name_en@ == text_chars(s, text_end(s, p), l.utf8)
    &&& m.diffuse == f4_at(s, c)
    &&& m.specular == f3_at(s, c + 16)
    &&& m.specular_strength == u32_at(s, c + 28)
    &&& m.ambient == f3_at(s, c + 32)
    &&& m.draw_flag == s[c + 44]
    &&& m.edge_color == f4_at(s, c + 45)
    &&& m.edge_scale == u32_at(s, c + 61)
    &&& m.tex_index == index_at(s, c + 65, tsz)
    &&& m.env_index == index_at(s, c + 65 + tsz, tsz)
    &&& s[b] <= 3 && m.env_blend_mode == blend_of(s[b])
    &&& m.toon == (if s[b + 1] == 0 {
        Toon::Tex(index_at(s, b + 2, tsz))
    } else {
        Toon::Inner(s[b + 2])
    })
    &&& m.comment@ == text_chars(s, mat_comment_at(s, p, tsz), l.utf8)
    &&& m.associated_face_count == u32_at(s, text_end(s, mat_comment_at(s, p, tsz))) / 3
}

fn read_mat(s: &[u8], pos: &mut usize, l: Layout) -> (r: Result<Mat, PmxError>)
    ensures
        r is Ok <==> (mat_ok(s@, l))(*old(pos) as int),
        r is Ok ==> mat_at(r.unwrap(), s@, *old(pos) as int, l) && *final(pos) == (mat_end(
            s@,
            l.texture_index_size,
        ))(*old(pos) as int),
{
    proof {
        reveal(mat_ok);
        reveal(mat_at);
        reveal(mat_end);
    }
    let tsz = l.texture_index_size;
    let name = read_string(s, pos, l.utf8)?;
    let name_en = read_string(s, pos, l.utf8)?;
    let diffuse = read_vec4f(s, pos)?;
    let specular = read_vec3f(s, pos)?;
    let specular_strength = rd_u32(s, pos)?;
    let ambient = read_vec3f(s, pos)?;
    let draw_flag = rd_u8(s, pos)?;
    let edge_color = read_vec4f(s, pos)?;
    let edge_scale = rd_u32(s, pos)?;
    let tex_index = read_int(s, pos, tsz)?;
    let env_index = read_int(s, pos, tsz)?;
    let mode = rd_u8(s, pos)?;
    let env_blend_mode = if mode == 0 {
        BlendMode::Disable
    } else if mode == 1 {
        BlendMode::Mul
    } else if mode == 2 {
        BlendMode::Add
    } else if mode == 3 {
        BlendMode::Other
    } else {
        return Err(PmxError::UnsupportedVariant);
    };
    let toon_ref = rd_u8(s, pos)?;
    let toon = if toon_ref == 0 {
        Toon::Tex(read_int(s, pos, tsz)?)
    } else {
        Toon::Inner(rd_u8(s, pos)?)
    };
    let comment = read_string(s, pos, l.utf8)?;
    let associated_face_count = rd_u32(s, pos)? / 3;
    Ok(
        Mat {
            name,
            name_en,
            diffuse,
            specular,
            specular_strength,
            ambient,
            draw_flag,
            edge_color,
            edge_scale,
            tex_index,
            env_index,
            env_blend_mode,
            toon,
            comment,
            associated_face_count,
        },
    )
}

impl Pmx {
    fn read_mats(s: &[u8], pos: &mut usize, l: Layout) -> (r: Result<Vec<Mat>, PmxError>)
        ensures
            r is Ok <==> list_ok(s@, *old(pos) as int, mat_ok(s@, l), mat_end(s@, l.texture_index_size)),
            r is Ok ==> {
                let n = count_at(s@, *old(pos) as int);
                let end = mat_end(s@, l.texture_index_size);
                &&& r.unwrap()@.len() == n
                &&& forall|k: int|
                    0 <= k < n ==> mat_at(#[trigger] r.unwrap()@[k], s@, starts(*old(pos) + 4, k as nat, end), l)
                &&& *final(pos) == starts(*old(pos) + 4, n as nat, end)
            },
    {
        let ghost p0 = *pos as int;
        let len = rd_u32(s, pos)?;
        let ghost end = mat_end(s@, l.texture_index_size);
        let mut vct: Vec<Mat> = Vec::new();
        let mut i: u32 = 0;
        while i < len
            invariant
                p0 == *old(pos) as int,
                len == count_at(s@, p0),
                p0 + 4 <= s@.len(),
                end == mat_end(s@, l.texture_index_size),
                forall|k: int| 0 <= k < i ==> (mat_ok(s@, l))(#[trigger] starts(p0 + 4, k as nat, end)),
                i <= len,
                vct@.len() == i,
                *pos == starts(p0 + 4, i as nat, end),
                forall|k: int| 0 <= k < i ==> mat_at(#[trigger] vct@[k], s@, starts(p0 + 4, k as nat, end), l),
            decreases len - i,
        {
            let ghost ki: int = i as int;
            let m = match read_mat(s, pos, l) {
                Ok(m) => m,
                Err(e) => {
                    assert(!(mat_ok(s@, l))(starts(p0 + 4, ki as nat, end)));
                    return Err(e);
                },
            };
            vct.push(m);
            i = i + 1;
        }
        Ok(vct)
    }
}

} // verus!

verus! {

pub open spec fn parent_from(x: i32) -> Option<usize> {
    if x >= 0 {
        Some(x as usize)
    } else {
        None
    }
}

/// Where a bone's position lies: after its two names.
pub open spec fn bone_pos_at(s: Seq<u8>, p: int) -> int {
    text_end(s, text_end(s, p))
}

/// Where a bone's flags lie.
pub open spec fn bone_flags_pos(s: Seq<u8>, p: int, bsz: u8) -> int {
    bone_pos_at(s, p) + 16 + bsz
}

pub open spec fn bone_flags_at(s: Seq<u8>, p: int, bsz: u8) -> u16 {
    u16_le(s, bone_flags_pos(s, p, bsz)) as u16
}

/// Where each optional part of a bone record starts, given its flags `f`:
/// tail, inherited transform, fixed axis, local axes, external parent, IK.
pub open spec fn tail_pos(s: Seq<u8>, p: int, bsz: u8) -> int {
    bone_flags_pos(s, p, bsz) + 2
}

pub open spec fn inherit_pos(s: Seq<u8>, p: int, bsz: u8) -> int {
    tail_pos(s, p, bsz) + if bone_flags_at(s, p, bsz) & INDEXED_TAIL_BONE != 0 {
        bsz as int
    } else {
        12int
    }
}

pub open spec fn has_inherit(f: u16) -> bool {
    f & INHERIT_ROTATION != 0 || f & INHERIT_TRANSLATION != 0
}

pub open spec fn fixed_pos(s: Seq<u8>, p: int, bsz: u8) -> int {
    inherit_pos(s, p, bsz) + if has_inherit(bone_flags_at(s, p, bsz)) {
        bsz + 4int
    } else {
        0int
    }
}

pub open spec fn local_pos(s: Seq<u8>, p: int, bsz: u8) -> int {
    fixed_pos(s, p, bsz) + if bone_flags_at(s, p, bsz) & FIXED_AXIS != 0 {
        12int
    } else {
        0int
    }
}

pub open spec fn external_pos(s: Seq<u8>, p: int, bsz: u8) -> int {
    local_pos(s, p, bsz) + if bone_flags_at(s, p, bsz) & LOCAL_AXIS != 0 {
        24int
    } else {
        0int
    }
}

pub open spec fn ik_pos(s: Seq<u8>, p: int, bsz: u8) -> int {
    external_pos(s, p, bsz) + if bone_flags_at(s, p, bsz) & EXTERNAL_PARENT != 0 {
        bsz as int
    } else {
        0int
    }
}

/// An IK link: a bone index and an optional pair of angle limits.
pub open spec fn link_end(s: Seq<u8>, bsz: u8) -> spec_fn(int) -> int {
    |p: int| p + bsz + 1 + if s[p + bsz] == 1 {
        24int
    } else {
        0int
    }
}

pub open spec fn link_at(s: Seq<u8>, p: int, bsz: u8) -> IkJoint {
    IkJoint {
        bone: index_at(s, p, bsz),
        limit: if s[p + bsz] == 1 {
            Some((f3_at(s, p + bsz + 1), f3_at(s, p + bsz + 13)))
        } else {
            None
        },
    }
}

/// The number of links of an IK chain; a negative count has none.
pub open spec fn link_count(s: Seq<u8>, q: int, bsz: u8) -> nat {
    let c = u32_le(s, q + bsz + 8) as u32 as i32;
    if c > 0 {
        c as nat
    } else {
        0
    }
}

/// An IK link lies within `s`.
pub open spec fn link_ok(s: Seq<u8>, bsz: u8) -> spec_fn(int) -> bool {
    |p: int| p + bsz + 1 <= s.len() && (link_end(s, bsz))(p) <= s.len()
}

/// The IK chain at `q` lies within `s`, with a known index width.
pub open spec fn ik_ok(s: Seq<u8>, q: int, bsz: u8) -> bool {
    &&& size_ok(bsz)
    &&& q + bsz + 12 <= s.len()
    &&& forall|k: int|
        0 <= k < link_count(s, q, bsz) ==> (link_ok(s, bsz))(#[trigger] starts(
            q + bsz + 12,
            k as nat,
            link_end(s, bsz),
        ))
}

/// The bone at `p` lies within `s`, with valid texts, a known index width,
/// known flags, and a well-formed IK chain where it has one.
#[verifier::opaque]
pub open spec fn bone_ok(s: Seq<u8>, l: Layout) -> spec_fn(int) -> bool {
    |p: int|
        {
            let bsz = l.bone_index_size;
            let f = bone_flags_at(s, p, bsz);
            &&& text_ok(s, p, l.utf8)
            &&& text_ok(s, text_end(s, p), l.utf8)
            &&& size_ok(bsz)
            &&& bone_flags_pos(s, p, bsz) + 2 <= s.len()
            &&& f & !KNOWN_BONE_FLAGS == 0
            &&& (f & IK != 0 ==> ik_ok(s, ik_pos(s, p, bsz), bsz))
            &&& (bone_end(s, bsz))(p) <= s.len()
        }
}

/// `ik` is the chain stored at `q` for bone `i`.
pub open spec fn ik_at(ik: Ik, s: Seq<u8>, q: int, bsz: u8, i: int) -> bool {
    &&& ik.bone == i
    &&& ik.effector == index_at(s, q, bsz)
    &&& ik.loop_count == u32_at(s, q + bsz) as i32
    &&& ik.limit_angle == u32_at(s, q + bsz + 4)
    &&& ik.ik_joints@.len() == link_count(s, q, bsz)
    &&& forall|k: int|
        0 <= k < link_count(s, q, bsz) ==> #[trigger] ik.ik_joints@[k] == link_at(
            s,
            starts(q + bsz + 12, k as nat, link_end(s, bsz)),
            bsz,
        )
}

#[verifier::opaque]
pub open spec fn bone_end(s: Seq<u8>, bsz: u8) -> spec_fn(int) -> int {
    |p: int|
        {
            let q = ik_pos(s, p, bsz);
            if bone_flags_at(s, p, bsz) & IK != 0 {
                starts(q + bsz + 12, link_count(s, q, bsz), link_end(s, bsz))
            } else {
                q
            }
        }
}

/// `b` is the bone stored at `p`.
#[verifier::opaque]
pub open spec fn bone_at(b: Bone, s: Seq<u8>, p: int, l: Layout) -> bool {
    let bsz = l.bone_index_size;
    let f = bone_flags_at(s, p, bsz);
    let c = bone_pos_at(s, p);
    &&& b.name@ == text_chars(s, p, l.utf8)
    &&& b.name_en@ == text_chars(s, text_end(s, p), l.utf8)
    &&& b.pos == f3_at(s, c)
    &&& b.parent_index == parent_from(index_at(s, c + 12, bsz))
    &&& b.layer == u32_at(s, c + 12 + bsz) as i32
    &&& f & !KNOWN_BONE_FLAGS == 0
    &&& b.bone_flags == f
    &&& b.bone_tail_pos == (if f & INDEXED_TAIL_BONE != 0 {
        BoneTailPos::Bone(index_at(s, tail_pos(s, p, bsz), bsz))
    } else {
        BoneTailPos::Pos(f3_at(s, tail_pos(s, p, bsz)))
    })
    &&& b.inherit == (if has_inherit(f) {
        Some((index_at(s, inherit_pos(s, p, bsz), bsz), u32_at(s, inherit_pos(s, p, bsz) + bsz)))
    } else {
        None
    })
    &&& b.fixed_axis == (if f & FIXED_AXIS != 0 {
        Some(f3_at(s, fixed_pos(s, p, bsz)))
    } else {
        None
    })
    &&& b.local_axis == (if f & LOCAL_AXIS != 0 {
        Some((f3_at(s, local_pos(s, p, bsz)), f3_at(s, local_pos(s, p, bsz) + 12)))
    } else {
        None
    })
    &&& b.external_parent == (if f & EXTERNAL_PARENT != 0 {
        Some(index_at(s, external_pos(s, p, bsz), bsz))
    } else {
        None
    })
}

fn read_link(s: &[u8], pos: &mut usize, bsz: u8) -> (r: Result<IkJoint, PmxError>)
    requires
        size_ok(bsz),
    ensures
        r is Ok <==> (link_ok(s@, bsz))(*old(pos) as int),
        r is Ok ==> r.unwrap() == link_at(s@, *old(pos) as int, bsz) && *final(pos) == (link_end(
            s@,
            bsz,
        ))(*old(pos) as int),
{
    let bone = read_int(s, pos, bsz)?;
    let has_limit = rd_u8(s, pos)?;
    let limit = if has_limit == 1 {
        let lo = read_vec3f(s, pos)?;
        let hi = read_vec3f(s, pos)?;
        Some((lo, hi))
    } else {
        None
    };
    Ok(IkJoint { bone, limit })
}

fn read_ik(s: &[u8], pos: &mut usize, bsz: u8, i: u32) -> (r: Result<Ik, PmxError>)
    requires
        i <= i32::MAX,
    ensures
        r is Ok <==> ik_ok(s@, *old(pos) as int, bsz),
        r is Ok ==> *final(pos) <= s@.len(),
        r is Ok ==> ik_at(r.unwrap(), s@, *old(pos) as int, bsz, i as int) && *final(pos) == starts(
            *old(pos) + bsz + 12,
            link_count(s@, *old(pos) as int, bsz),
            link_end(s@, bsz),
        ),
{
    let ghost q = *pos as int;
    let effector = read_int(s, pos, bsz)?;
    assert(size_ok(bsz));
    let loop_count = rd_u32(s, pos)? as i32;
    let limit_angle = rd_u32(s, pos)?;
    let count = rd_u32(s, pos)? as i32;
    let ghost n = link_count(s@, q, bsz);
    let ghost end = link_end(s@, bsz);
    let mut ik_joints: Vec<IkJoint> = Vec::new();
    let mut k: i32 = 0;
    while k < count
        invariant
            q == *old(pos) as int,
            count == u32_le(s@, q + bsz + 8) as u32 as i32,
            size_ok(bsz),
            q + bsz + 12 <= s@.len(),
            n == link_count(s@, q, bsz),
            forall|j: int| 0 <= j < k ==> (link_ok(s@, bsz))(#[trigger] starts(q + bsz + 12, j as nat, end)),
            *pos <= s@.len(),
            end == link_end(s@, bsz),
            0 <= k,
            count <= 0 ==> k == 0,
            count > 0 ==> k <= count,
            ik_joints@.len() == k,
            *pos == starts(q + bsz + 12, k as nat, end),
            forall|j: int|
                0 <= j < k ==> #[trigger] ik_joints@[j] == link_at(s@, starts(q + bsz + 12, j as nat, end), bsz),
        decreases count - k,
    {
        let ghost kk: int = k as int;
        let ghost at = starts(q + bsz + 12, kk as nat, end);
        let step = read_link(s, pos, bsz);
        let joint = match step {
            Ok(j) => j,
            Err(e) => {
                assert(!(link_ok(s@, bsz))(at));
                return Err(e);
            },
        };
        ik_joints.push(joint);
        k = k + 1;
    }
    assert(k as nat == n);
    Ok(Ik { bone: i as i32, effector, loop_count, limit_angle, ik_joints })
}

/// The fixed head of a bone record: names, position, parent, layer, flags.
pub open spec fn bone_head_ok(s: Seq<u8>, p: int, l: Layout) -> bool {
    let bsz = l.bone_index_size;
    &&& text_ok(s, p, l.utf8)
    &&& text_ok(s, text_end(s, p), l.utf8)
    &&& size_ok(bsz)
    &&& bone_flags_pos(s, p, bsz) + 2 <= s.len()
    &&& bone_flags_at(s, p, bsz) & !KNOWN_BONE_FLAGS == 0
}

fn read_bone_head(s: &[u8], pos: &mut usize, l: Layout) -> (r: Result<
    (String, String, Float3, Option<usize>, i32, u16),
    PmxError,
>)
    ensures
        r is Ok <==> bone_head_ok(s@, *old(pos) as int, l),
        r is Ok ==> {
            let (name, name_en, bpos, parent, layer, f) = r.unwrap();
            let p = *old(pos) as int;
            let bsz = l.bone_index_size;
            let c = bone_pos_at(s@, p);
            &&& name@ == text_chars(s@, p, l.utf8)
            &&& name_en@ == text_chars(s@, text_end(s@, p), l.utf8)
            &&& bpos == f3_at(s@, c)
            &&& parent == parent_from(index_at(s@, c + 12, bsz))
            &&& layer == u32_at(s@, c + 12 + bsz) as i32
            &&& f == bone_flags_at(s@, p, bsz)
            &&& *final(pos) == tail_pos(s@, p, bsz)
        },
{
    let bsz = l.bone_index_size;
    let name = read_string(s, pos, l.utf8)?;
    let name_en = read_string(s, pos, l.utf8)?;
    let bpos = read_vec3f(s, pos)?;
    let parent = read_int(s, pos, bsz)?;
    let parent_index = if parent >= 0 {
        Some(parent as usize)
    } else {
        None
    };
    let layer = rd_u32(s, pos)? as i32;
    let bone_flags = rd_u16(s, pos)?;
    if bone_flags & !KNOWN_BONE_FLAGS != 0 {
        return Err(PmxError::UnsupportedVariant);
    }
    Ok((name, name_en, bpos, parent_index, layer, bone_flags))
}

fn read_bone_parts(s: &[u8], pos: &mut usize, bsz: u8, bone_flags: u16, Ghost(p): Ghost<int>) -> (r: Result<
    (BoneTailPos, Option<(i32, u32)>, Option<Float3>, Option<(Float3, Float3)>, Option<i32>),
    PmxError,
>)
    requires
        size_ok(bsz),
        *old(pos) == tail_pos(s@, p, bsz),
        bone_flags == bone_flags_at(s@, p, bsz),
    ensures
        r is Ok <==> ik_pos(s@, p, bsz) <= s@.len(),
        r is Ok ==> {
            let (tail, inherit, fixed, local, external) = r.unwrap();
            let f = bone_flags;
            &&& tail == (if f & INDEXED_TAIL_BONE != 0 {
                BoneTailPos::Bone(index_at(s@, tail_pos(s@, p, bsz), bsz))
            } else {
                BoneTailPos::Pos(f3_at(s@, tail_pos(s@, p, bsz)))
            })
            &&& inherit == (if has_inherit(f) {
                Some((index_at(s@, inherit_pos(s@, p, bsz), bsz), u32_at(s@, inherit_pos(s@, p, bsz) + bsz)))
            } else {
                None
            })
            &&& fixed == (if f & FIXED_AXIS != 0 {
                Some(f3_at(s@, fixed_pos(s@, p, bsz)))
            } else {
                None
            })
            &&& local == (if f & LOCAL_AXIS != 0 {
                Some((f3_at(s@, local_pos(s@, p, bsz)), f3_at(s@, local_pos(s@, p, bsz) + 12)))
            } else {
                None
            })
            &&& external == (if f & EXTERNAL_PARENT != 0 {
                Some(index_at(s@, external_pos(s@, p, bsz), bsz))
            } else {
                None
            })
            &&& *final(pos) == ik_pos(s@, p, bsz)
        },
{
    let bone_tail_pos = if bone_flags & INDEXED_TAIL_BONE != 0 {
        BoneTailPos::Bone(read_int(s, pos, bsz)?)
    } else {
        BoneTailPos::Pos(read_vec3f(s, pos)?)
    };
    let inherit = if bone_flags & INHERIT_ROTATION != 0 || bone_flags & INHERIT_TRANSLATION != 0 {
        let pi = read_int(s, pos, bsz)?;
        let affect = rd_u32(s, pos)?;
        Some((pi, affect))
    } else {
        None
    };
    let fixed_axis = if bone_flags & FIXED_AXIS != 0 {
        Some(read_vec3f(s, pos)?)
    } else {
        None
    };
    let local_axis = if bone_flags & LOCAL_AXIS != 0 {
        let x = read_vec3f(s, pos)?;
        let z = read_vec3f(s, pos)?;
        Some((x, z))
    } else {
        None
    };
    let external_parent = if bone_flags & EXTERNAL_PARENT != 0 {
        Some(read_int(s, pos, bsz)?)
    } else {
        None
    };
    Ok((bone_tail_pos, inherit, fixed_axis, local_axis, external_parent))
}

fn read_bone(s: &[u8], pos: &mut usize, l: Layout, i: u32) -> (r: Result<(Bone, Option<Ik>), PmxError>)
    requires
        i <= i32::MAX,
    ensures
        r is Ok <==> (bone_ok(s@, l))(*old(pos) as int),
        r is Ok ==> {
            let (b, ik) = r.unwrap();
            let p = *old(pos) as int;
            let bsz = l.bone_index_size;
            &&& bone_at(b, s@, p, l)
            &&& (ik is Some <==> bone_flags_at(s@, p, bsz) & IK != 0)
            &&& ik is Some ==> ik_at(ik.unwrap(), s@, ik_pos(s@, p, bsz), bsz, i as int)
            &&& *final(pos) == (bone_end(s@, bsz))(p)
        },
{
    let ghost p = *pos as int;
    proof {
        reveal(bone_ok);
        reveal(bone_at);
        reveal(bone_end);
    }
    let bsz = l.bone_index_size;
    let (name, name_en, bpos, parent_index, layer, bone_flags) = read_bone_head(s, pos, l)?;
    let (bone_tail_pos, inherit, fixed_axis, local_axis, external_parent) = read_bone_parts(
        s,
        pos,
        bsz,
        bone_flags,
        Ghost(p),
    )?;
    let ik = if bone_flags & IK != 0 {
        Some(read_ik(s, pos, bsz, i)?)
    } else {
        None
    };
    Ok(
        (
            Bone {
                name,
                name_en,
                pos: bpos,
                parent_index,
                layer,
                bone_flags,
                bone_tail_pos,
                inherit,
                fixed_axis,
                local_axis,
                external_parent,
            },
            ik,
        ),
    )
}

} // verus!

verus! {

/// `bones` and `iks` are the bone section stored at `p`: every bone, and
/// one chain for each bone with the IK flag, in bone order.
pub open spec fn bones_read(s: Seq<u8>, p: int, l: Layout, bones: Seq<Bone>, iks: Seq<Ik>) -> bool {
    let n = count_at(s, p);
    let bsz = l.bone_index_size;
    let end = bone_end(s, bsz);
    &&& bones.len() == n
    &&& forall|k: int| 0 <= k < n ==> bone_at(#[trigger] bones[k], s, starts(p + 4, k as nat, end), l)
    &&& forall|t: int|
        0 <= t < iks.len() ==> {
            let b = (#[trigger] iks[t]).bone as int;
            &&& 0 <= b < n
            &&& bone_flags_at(s, starts(p + 4, b as nat, end), bsz) & IK != 0
            &&& ik_at(iks[t], s, ik_pos(s, starts(p + 4, b as nat, end), bsz), bsz, b)
        }
    &&& forall|t: int, u: int| 0 <= t < u < iks.len() ==> (#[trigger] iks[t]).bone < (#[trigger] iks[u]).bone
    &&& forall|k: int|
        0 <= k < n && bone_flags_at(s, #[trigger] starts(p + 4, k as nat, end), bsz) & IK != 0 ==> exists|
            t: int,
        | 0 <= t < iks.len() && (#[trigger] iks[t]).bone == k
}

/// The bone section at `p` lies within `s` and every bone in it is
/// well-formed; bone numbers fit the signed field of an IK chain.
pub open spec fn bones_ok(s: Seq<u8>, p: int, l: Layout) -> bool {
    &&& list_ok(s, p, bone_ok(s, l), bone_end(s, l.bone_index_size))
    &&& count_at(s, p) <= i32::MAX
}

pub open spec fn bones_end(s: Seq<u8>, p: int, bsz: u8) -> int {
    starts(p + 4, count_at(s, p) as nat, bone_end(s, bsz))
}

impl Pmx {
    fn read_bones(s: &[u8], pos: &mut usize, l: Layout) -> (r: Result<(Vec<Bone>, Vec<Ik>), PmxError>)
        ensures
            r is Ok <==> bones_ok(s@, *old(pos) as int, l),
            r is Ok ==> bones_read(s@, *old(pos) as int, l, r.unwrap().0@, r.unwrap().1@) && *final(pos)
                == bones_end(s@, *old(pos) as int, l.bone_index_size),
    {
        let ghost p0 = *pos as int;
        let bsz = l.bone_index_size;
        let len = rd_u32(s, pos)?;
        if len > i32::MAX as u32 {
            return Err(PmxError::TooManyBones);
        }
        let ghost end = bone_end(s@, bsz);
        let mut vct: Vec<Bone> = Vec::new();
        let mut iks: Vec<Ik> = Vec::new();
        let mut i: u32 = 0;
        while i < len
            invariant
                p0 == *old(pos) as int,
                len == count_at(s@, p0),
                p0 + 4 <= s@.len(),
                forall|k: int| 0 <= k < i ==> (bone_ok(s@, l))(#[trigger] starts(p0 + 4, k as nat, end)),
                len <= i32::MAX,
                bsz == l.bone_index_size,
                end == bone_end(s@, bsz),
                i <= len,
                vct@.len() == i,
                *pos == starts(p0 + 4, i as nat, end),
                forall|k: int| 0 <= k < i ==> bone_at(#[trigger] vct@[k], s@, starts(p0 + 4, k as nat, end), l),
                forall|t: int|
                    0 <= t < iks@.len() ==> {
                        let b = (#[trigger] iks@[t]).bone as int;
                        &&& 0 <= b < i
                        &&& bone_flags_at(s@, starts(p0 + 4, b as nat, end), bsz) & IK != 0
                        &&& ik_at(iks@[t], s@, ik_pos(s@, starts(p0 + 4, b as nat, end), bsz), bsz, b)
                    },
                forall|t: int, u: int|
                    0 <= t < u < iks@.len() ==> (#[trigger] iks@[t]).bone < (#[trigger] iks@[u]).bone,
                forall|k: int|
                    0 <= k < i && bone_flags_at(s@, #[trigger] starts(p0 + 4, k as nat, end), bsz) & IK != 0 ==> exists|
                        t: int,
                    | 0 <= t < iks@.len() && (#[trigger] iks@[t]).bone == k,
            decreases len - i,
        {
            let ghost before = iks@;
            let ghost ki: int = i as int;
            let (b, ik) = match read_bone(s, pos, l, i) {
                Ok(x) => x,
                Err(e) => {
                    assert(!(bone_ok(s@, l))(starts(p0 + 4, ki as nat, end)));
                    return Err(e);
                },
            };
            vct.push(b);
            match ik {
                Some(ik) => {
                    iks.push(ik);
                    assert(iks@[iks@.len() - 1].bone == i);
                },
                None => {},
            }
            assert forall|k: int|
                0 <= k < i + 1 && bone_flags_at(s@, #[trigger] starts(p0 + 4, k as nat, end), bsz) & IK != 0 implies exists|
                    t: int,
                | 0 <= t < iks@.len() && (#[trigger] iks@[t]).bone == k by {
                if k < i {
                    let t = choose|t: int| 0 <= t < before.len() && (#[trigger] before[t]).bone == k;
                    assert(iks@[t] == before[t]);
                } else {
                    assert(iks@[iks@.len() - 1].bone == k);
                }
            }
            i = i + 1;
        }
        Ok((vct, iks))
    }
}

} // verus!

verus! {

/// Where a morph's panel byte lies: after its two names.
pub open spec fn morph_head(s: Seq<u8>, p: int) -> int {
    text_end(s, text_end(s, p))
}

/// Bytes of one item of a morph of category `c`.
pub open spec fn morph_item_size(c: i8, l: Layout) -> int {
    if c == 0 || c == 9 {
        l.morph_index_size + 4
    } else if c == 1 {
        l.vertex_index_size + 12
    } else if c == 2 {
        l.bone_index_size + 28
    } else if c == 3 {
        l.vertex_index_size + 16
    } else if c == 8 {
        l.material_index_size + 113
    } else if c == 10 {
        l.rigidbody_index_size + 25
    } else {
        0
    }
}

/// A morph's item count; a negative count has none.
pub open spec fn morph_count(s: Seq<u8>, p: int) -> nat {
    let c = u32_le(s, morph_head(s, p) + 2) as u32 as i32;
    if c > 0 {
        c as nat
    } else {
        0
    }
}

pub open spec fn morph_end(s: Seq<u8>, l: Layout) -> spec_fn(int) -> int {
    |p: int| morph_head(s, p) + 6 + morph_count(s, p) * morph_item_size(s[morph_head(s, p) + 1] as i8, l)
}

/// The index width that items of a morph of category `c` use.
pub open spec fn morph_index_width(c: i8, l: Layout) -> u8 {
    if c == 0 || c == 9 {
        l.morph_index_size
    } else if c == 1 || c == 3 {
        l.vertex_index_size
    } else if c == 2 {
        l.bone_index_size
    } else if c == 8 {
        l.material_index_size
    } else {
        l.rigidbody_index_size
    }
}

/// Where item `k` of fixed-size items from `q` starts.
pub open spec fn nth(q: int, k: int, size: int) -> int {
    q + k * size
}

/// The morph item at `x` lies within `s`, with a known index width and, for
/// material items, a known blend mode.
pub open spec fn morph_item_ok(s: Seq<u8>, x: int, c: i8, l: Layout) -> bool {
    if 0 <= c <= 10 && !(4 <= c <= 7) {
        &&& size_ok(morph_index_width(c, l))
        &&& x + morph_item_size(c, l) <= s.len()
        &&& (c == 8 ==> s[x + l.material_index_size] <= 1)
    } else {
        true
    }
}

/// The morph at `p` lies within `s`, with valid texts, a known category and
/// well-formed items.
pub open spec fn morph_ok(s: Seq<u8>, l: Layout) -> spec_fn(int) -> bool {
    |p: int|
        {
            let h = morph_head(s, p);
            let c = s[h + 1] as i8;
            &&& text_ok(s, p, l.utf8)
            &&& text_ok(s, text_end(s, p), l.utf8)
            &&& h + 6 <= s.len()
            &&& !(4 <= c <= 7)
            &&& forall|k: int|
                0 <= k < morph_count(s, p) ==> morph_item_ok(
                    s,
                    #[trigger] nth(h + 6, k, morph_item_size(c, l)),
                    c,
                    l,
                )
            &&& (morph_end(s, l))(p) <= s.len()
        }
}

/// `m` is the morph stored at `p`; its items are checked and skipped.
pub open spec fn morph_at(m: MorphInfo, s: Seq<u8>, p: int, l: Layout) -> bool {
    let h = morph_head(s, p);
    &&& m.name@ == text_chars(s, p, l.utf8)
    &&& m.name_en@ == text_chars(s, text_end(s, p), l.utf8)
    &&& m.panel == s[h] as i8
    &&& m.category == s[h + 1] as i8
    &&& !(4 <= m.category <= 7)
}

/// Reads and checks one morph item of category `c`.
fn skip_morph_item(s: &[u8], pos: &mut usize, c: i8, l: Layout) -> (r: Result<(), PmxError>)
    requires
        !(4 <= c <= 7),
        0 <= c <= 10,
    ensures
        r is Ok <==> morph_item_ok(s@, *old(pos) as int, c, l),
        r is Ok ==> *final(pos) == *old(pos) + morph_item_size(c, l),
{
    if c == 0 || c == 9 {
        read_int(s, pos, l.morph_index_size)?;
        rd_u32(s, pos)?;
    } else if c == 1 {
        read_int(s, pos, l.vertex_index_size)?;
        read_vec3f(s, pos)?;
    } else if c == 2 {
        read_int(s, pos, l.bone_index_size)?;
        read_vec3f(s, pos)?;
        read_vec4f(s, pos)?;
    } else if c == 3 {
        read_int(s, pos, l.vertex_index_size)?;
        read_vec4f(s, pos)?;
    } else if c == 8 {
        read_int(s, pos, l.material_index_size)?;
        let mode = rd_u8(s, pos)?;
        if mode > 1 {
            return Err(PmxError::UnsupportedVariant);
        }
        read_vec4f(s, pos)?;
        read_vec3f(s, pos)?;
        rd_u32(s, pos)?;
        read_vec3f(s, pos)?;
        read_vec4f(s, pos)?;
        rd_u32(s, pos)?;
        read_vec4f(s, pos)?;
        read_vec4f(s, pos)?;
        read_vec4f(s, pos)?;
    } else {
        read_int(s, pos, l.rigidbody_index_size)?;
        rd_u8(s, pos)?;
        read_vec3f(s, pos)?;
        read_vec3f(s, pos)?;
    }
    Ok(())
}

fn read_morph(s: &[u8], pos: &mut usize, l: Layout) -> (r: Result<MorphInfo, PmxError>)
    ensures
        r is Ok <==> (morph_ok(s@, l))(*old(pos) as int),
        r is Ok ==> morph_at(r.unwrap(), s@, *old(pos) as int, l) && *final(pos) == (morph_end(s@, l))(
            *old(pos) as int,
        ),
{
    let ghost p = *pos as int;
    let name = read_string(s, pos, l.utf8)?;
    let name_en = read_string(s, pos, l.utf8)?;
    let panel = rd_u8(s, pos)? as i8;
    let category = rd_u8(s, pos)? as i8;
    let count = rd_u32(s, pos)? as i32;
    if 4 <= category && category <= 7 {
        return Err(PmxError::UnsupportedVariant);
    }
    let ghost q = *pos as int;
    let ghost size = morph_item_size(category, l);
    if 0 <= category && category <= 10 {
        let mut k: i32 = 0;
        while k < count
            invariant
                0 <= category <= 10,
                !(4 <= category <= 7),
                size == morph_item_size(category, l),
                p == *old(pos) as int,
                q == morph_head(s@, p) + 6,
                category == s@[morph_head(s@, p) + 1] as i8,
                count == u32_le(s@, morph_head(s@, p) + 2) as u32 as i32,
                *pos <= s@.len(),
                forall|j: int| 0 <= j < k ==> morph_item_ok(s@, #[trigger] nth(q, j, size), category, l),
                0 <= k,
                count <= 0 ==> k == 0,
                count > 0 ==> k <= count,
                *pos == q + k * size,
            decreases count - k,
        {
            let ghost kk: int = k as int;
            assert(*pos == nth(q, kk, size));
            match skip_morph_item(s, pos, category, l) {
                Ok(()) => {},
                Err(e) => {
                    assert(!morph_item_ok(s@, nth(q, kk, size), category, l));
                    return Err(e);
                },
            }
            k = k + 1;
            assert(*pos == q + k * size) by (nonlinear_arith)
                requires
                    *pos == q + (k - 1) * size + size,
            ;
        }
        proof {
            assert(k as nat == morph_count(s@, p));
        }
    } else {
        assert(morph_item_size(category, l) == 0);
        assert(*pos == q + morph_count(s@, p) * 0) by (nonlinear_arith)
            requires
                *pos == q,
        ;
    }
    Ok(MorphInfo { name, name_en, panel, category })
}

/// Where a rigid body's fixed part starts: after its two names.
pub open spec fn named_head(s: Seq<u8>, p: int) -> int {
    text_end(s, text_end(s, p))
}

pub open spec fn shape_of(b: u8) -> RigidbodyShape {
    if b == 0 {
        RigidbodyShape::Shpere
    } else if b == 1 {
        RigidbodyShape::Box
    } else {
        RigidbodyShape::Capsule
    }
}

pub open spec fn mode_of(b: u8) -> RigidbodyMode {
    if b == 0 {
        RigidbodyMode::Kinematics
    } else if b == 1 {
        RigidbodyMode::Dynamics
    } else {
        RigidbodyMode::DynamicsPassRotation
    }
}

pub open spec fn rigidbody_end(s: Seq<u8>, bsz: u8) -> spec_fn(int) -> int {
    |p: int| named_head(s, p) + bsz + 61
}

/// The rigid body at `p` lies within `s`, with valid texts, a known index
/// width, shape and mode.
pub open spec fn rigidbody_ok(s: Seq<u8>, l: Layout) -> spec_fn(int) -> bool {
    |p: int|
        {
            let c = named_head(s, p) + l.bone_index_size;
            &&& text_ok(s, p, l.utf8)
            &&& text_ok(s, text_end(s, p), l.utf8)
            &&& size_ok(l.bone_index_size)
            &&& (rigidbody_end(s, l.bone_index_size))(p) <= s.len()
            &&& s[c + 3] <= 2
            &&& s[c + 60] <= 2
        }
}

/// `r` is the rigid body stored at `p`.
pub open spec fn rigidbody_at(r: Rigidbody, s: Seq<u8>, p: int, l: Layout) -> bool {
    let bsz = l.bone_index_size;
    let c = named_head(s, p) + bsz;
    &&& r.name@ == text_chars(s, p, l.utf8)
    &&& r.name_en@ == text_chars(s, text_end(s, p), l.utf8)
    &&& r.bone == index_at(s, named_head(s, p), bsz)
    &&& r.group == s[c]
    &&& r.collision_group == u16_le(s, c + 1) as u16
    &&& s[c + 3] <= 2 && r.shape == shape_of(s[c + 3])
    &&& r.size == f3_at(s, c + 4)
    &&& r.pos == f3_at(s, c + 16)
    &&& r.rot == f3_at(s, c + 28)
    &&& r.mass == u32_at(s, c + 40)
    &&& r.linear_damping == u32_at(s, c + 44)
    &&& r.angular_damping == u32_at(s, c + 48)
    &&& r.restitution == u32_at(s, c + 52)
    &&& r.friction == u32_at(s, c + 56)
    &&& s[c + 60] <= 2 && r.mode == mode_of(s[c + 60])
}

fn read_rigidbody(s: &[u8], pos: &mut usize, l: Layout) -> (r: Result<Rigidbody, PmxError>)
    ensures
        r is Ok <==> (rigidbody_ok(s@, l))(*old(pos) as int),
        r is Ok ==> rigidbody_at(r.unwrap(), s@, *old(pos) as int, l) && *final(pos) == (rigidbody_end(
            s@,
            l.bone_index_size,
        ))(*old(pos) as int),
{
    let name = read_string(s, pos, l.utf8)?;
    let name_en = read_string(s, pos, l.utf8)?;
    let bone = read_int(s, pos, l.bone_index_size)?;
    let group = rd_u8(s, pos)?;
    let collision_group = rd_u16(s, pos)?;
    let shape = match rd_u8(s, pos)? {
        0 => RigidbodyShape::Shpere,
        1 => RigidbodyShape::Box,
        2 => RigidbodyShape::Capsule,
        _ => return Err(PmxError::UnsupportedVariant),
    };
    let size = read_vec3f(s, pos)?;
    let p = read_vec3f(s, pos)?;
    let rot = read_vec3f(s, pos)?;
    let mass = rd_u32(s, pos)?;
    let linear_damping = rd_u32(s, pos)?;
    let angular_damping = rd_u32(s, pos)?;
    let restitution = rd_u32(s, pos)?;
    let friction = rd_u32(s, pos)?;
    let mode = match rd_u8(s, pos)? {
        0 => RigidbodyMode::Kinematics,
        1 => RigidbodyMode::Dynamics,
        2 => RigidbodyMode::DynamicsPassRotation,
        _ => return Err(PmxError::UnsupportedVariant),
    };
    Ok(
        Rigidbody {
            name,
            name_en,
            bone,
            group,
            collision_group,
            shape,
            size,
            pos: p,
            rot,
            mass,
            linear_damping,
            angular_damping,
            restitution,
            friction,
            mode,
        },
    )
}

pub open spec fn joint_end(s: Seq<u8>, rsz: u8) -> spec_fn(int) -> int {
    |p: int| named_head(s, p) + 1 + 2 * rsz + 96
}

/// The joint at `p` lies within `s`, with valid texts, the spring kind and a
/// known index width.
pub open spec fn joint_ok(s: Seq<u8>, l: Layout) -> spec_fn(int) -> bool {
    |p: int|
        {
            &&& text_ok(s, p, l.utf8)
            &&& text_ok(s, text_end(s, p), l.utf8)
            &&& named_head(s, p) + 1 <= s.len()
            &&& s[named_head(s, p)] == 0
            &&& size_ok(l.rigidbody_index_size)
            &&& (joint_end(s, l.rigidbody_index_size))(p) <= s.len()
        }
}

/// `j` is the joint stored at `p`; only the spring kind is accepted.
pub open spec fn joint_at(j: Joint, s: Seq<u8>, p: int, l: Layout) -> bool {
    let rsz = l.rigidbody_index_size;
    let h = named_head(s, p);
    let c = h + 1 + 2 * rsz;
    &&& j.name@ == text_chars(s, p, l.utf8)
    &&& j.name_en@ == text_chars(s, text_end(s, p), l.utf8)
    &&& j.category == 0 && s[h] == 0
    &&& j.rigidbody_a == index_at(s, h + 1, rsz)
    &&& j.rigidbody_b == index_at(s, h + 1 + rsz, rsz)
    &&& j.pos == f3_at(s, c)
    &&& j.rot == f3_at(s, c + 12)
    &&& j.pos_min == f3_at(s, c + 24)
    &&& j.pos_max == f3_at(s, c + 36)
    &&& j.rot_min == f3_at(s, c + 48)
    &&& j.rot_max == f3_at(s, c + 60)
    &&& j.pos_spring == f3_at(s, c + 72)
    &&& j.rot_spring == f3_at(s, c + 84)
}

fn read_joint(s: &[u8], pos: &mut usize, l: Layout) -> (r: Result<Joint, PmxError>)
    ensures
        r is Ok <==> (joint_ok(s@, l))(*old(pos) as int),
        r is Ok ==> joint_at(r.unwrap(), s@, *old(pos) as int, l) && *final(pos) == (joint_end(
            s@,
            l.rigidbody_index_size,
        ))(*old(pos) as int),
{
    let name = read_string(s, pos, l.utf8)?;
    let name_en = read_string(s, pos, l.utf8)?;
    let category = rd_u8(s, pos)?;
    if category != 0 {
        return Err(PmxError::UnsupportedVariant);
    }
    let rigidbody_a = read_int(s, pos, l.rigidbody_index_size)?;
    let rigidbody_b = read_int(s, pos, l.rigidbody_index_size)?;
    let p = read_vec3f(s, pos)?;
    let rot = read_vec3f(s, pos)?;
    let pos_min = read_vec3f(s, pos)?;
    let pos_max = read_vec3f(s, pos)?;
    let rot_min = read_vec3f(s, pos)?;
    let rot_max = read_vec3f(s, pos)?;
    let pos_spring = read_vec3f(s, pos)?;
    let rot_spring = read_vec3f(s, pos)?;
    Ok(
        Joint {
            name,
            name_en,
            category,
            rigidbody_a,
            rigidbody_b,
            pos: p,
            rot,
            pos_min,
            pos_max,
            rot_min,
            rot_max,
            pos_spring,
            rot_spring,
        },
    )
}

/// Where a display frame's items start: after its names, its deletable
/// flag and its item count.
pub open spec fn frame_items_at(s: Seq<u8>, p: int) -> int {
    named_head(s, p) + 5
}

pub open spec fn frame_count(s: Seq<u8>, p: int) -> nat {
    let c = u32_le(s, named_head(s, p) + 1) as u32 as i32;
    if c > 0 {
        c as nat
    } else {
        0
    }
}

/// A frame item: a kind byte, then a morph index (kind 1) or a bone index.
pub open spec fn item_end(s: Seq<u8>, l: Layout) -> spec_fn(int) -> int {
    |p: int| p + 1 + if s[p] == 1 {
        l.morph_index_size as int
    } else {
        l.bone_index_size as int
    }
}

pub open spec fn item_at(s: Seq<u8>, p: int, l: Layout) -> DisplayFrameIndex {
    if s[p] == 1 {
        DisplayFrameIndex::Morph(index_at(s, p + 1, l.morph_index_size) as u32)
    } else {
        DisplayFrameIndex::Bone(index_at(s, p + 1, l.bone_index_size) as u32)
    }
}

pub open spec fn frame_end(s: Seq<u8>, l: Layout) -> spec_fn(int) -> int {
    |p: int| starts(frame_items_at(s, p), frame_count(s, p), item_end(s, l))
}

/// The frame item at `p` lies within `s`, with a known index width.
pub open spec fn item_ok(s: Seq<u8>, l: Layout) -> spec_fn(int) -> bool {
    |p: int|
        p + 1 <= s.len() && size_ok(
            if s[p] == 1 {
                l.morph_index_size
            } else {
                l.bone_index_size
            },
        ) && (item_end(s, l))(p) <= s.len()
}

/// The display frame at `p` lies within `s`, with valid texts and items.
pub open spec fn frame_ok(s: Seq<u8>, l: Layout) -> spec_fn(int) -> bool {
    |p: int|
        {
            &&& text_ok(s, p, l.utf8)
            &&& text_ok(s, text_end(s, p), l.utf8)
            &&& frame_items_at(s, p) <= s.len()
            &&& forall|k: int|
                0 <= k < frame_count(s, p) ==> (item_ok(s, l))(#[trigger] starts(
                    frame_items_at(s, p),
                    k as nat,
                    item_end(s, l),
                ))
        }
}

/// `f` is the display frame stored at `p`.
pub open spec fn frame_at(f: DisplayFrame, s: Seq<u8>, p: int, l: Layout) -> bool {
    &&& f.name@ == text_chars(s, p, l.utf8)
    &&& f.name_en@ == text_chars(s, text_end(s, p), l.utf8)
    &&& f.deletable == (s[named_head(s, p)] as i8 == 1)
    &&& f.morph_items@.len() == frame_count(s, p)
    &&& forall|k: int|
        0 <= k < frame_count(s, p) ==> #[trigger] f.morph_items@[k] == item_at(
            s,
            starts(frame_items_at(s, p), k as nat, item_end(s, l)),
            l,
        )
}

fn read_frame_item(s: &[u8], pos: &mut usize, l: Layout) -> (r: Result<DisplayFrameIndex, PmxError>)
    ensures
        r is Ok <==> (item_ok(s@, l))(*old(pos) as int),
        r is Ok ==> r.unwrap() == item_at(s@, *old(pos) as int, l) && *final(pos) == (item_end(s@, l))(
            *old(pos) as int,
        ),
{
    let is_morph = rd_u8(s, pos)? == 1;
    if is_morph {
        Ok(DisplayFrameIndex::Morph(read_int(s, pos, l.morph_index_size)? as u32))
    } else {
        Ok(DisplayFrameIndex::Bone(read_int(s, pos, l.bone_index_size)? as u32))
    }
}

fn read_frame(s: &[u8], pos: &mut usize, l: Layout) -> (r: Result<DisplayFrame, PmxError>)
    ensures
        r is Ok <==> (frame_ok(s@, l))(*old(pos) as int),
        r is Ok ==> frame_at(r.unwrap(), s@, *old(pos) as int, l) && *final(pos) == (frame_end(s@, l))(
            *old(pos) as int,
        ),
{
    let ghost p = *pos as int;
    let name = read_string(s, pos, l.utf8)?;
    let name_en = read_string(s, pos, l.utf8)?;
    let deletable = rd_u8(s, pos)? as i8 == 1;
    let count = rd_u32(s, pos)? as i32;
    let ghost q = *pos as int;
    let ghost end = item_end(s@, l);
    let mut morph_items: Vec<DisplayFrameIndex> = Vec::new();
    let mut k: i32 = 0;
    while k < count
        invariant
            q == frame_items_at(s@, p),
            p == *old(pos) as int,
            q <= s@.len(),
            forall|j: int| 0 <= j < k ==> (item_ok(s@, l))(#[trigger] starts(q, j as nat, end)),
            count == u32_le(s@, named_head(s@, p) + 1) as u32 as i32,
            end == item_end(s@, l),
            0 <= k,
            count <= 0 ==> k == 0,
            count > 0 ==> k <= count,
            morph_items@.len() == k,
            *pos == starts(q, k as nat, end),
            forall|j: int| 0 <= j < k ==> #[trigger] morph_items@[j] == item_at(s@, starts(q, j as nat, end), l),
        decreases count - k,
    {
        let ghost kk: int = k as int;
        let item = match read_frame_item(s, pos, l) {
            Ok(item) => item,
            Err(e) => {
                assert(!(item_ok(s@, l))(starts(q, kk as nat, end)));
                return Err(e);
            },
        };
        morph_items.push(item);
        k = k + 1;
    }
    assert(k as nat == frame_count(s@, p));
    Ok(DisplayFrame { name, name_en, deletable, morph_items })
}

} // verus!

verus! {

/// Where a counted list that starts at `p` ends.
pub open spec fn list_end(s: Seq<u8>, p: int, end: spec_fn(int) -> int) -> int {
    starts(p + 4, count_at(s, p) as nat, end)
}

/// Where item `k` of the counted list at `p` starts.
pub open spec fn item_start(p: int, k: int, end: spec_fn(int) -> int) -> int {
    starts(p + 4, k as nat, end)
}

impl Pmx {
    fn read_morphs(s: &[u8], pos: &mut usize, l: Layout) -> (r: Result<Vec<MorphInfo>, PmxError>)
        ensures
            r is Ok <==> list_ok(s@, *old(pos) as int, morph_ok(s@, l), morph_end(s@, l)),
            r is Ok ==> {
                let end = morph_end(s@, l);
                &&& r.unwrap()@.len() == count_at(s@, *old(pos) as int)
                &&& forall|k: int|
                    0 <= k < r.unwrap()@.len() ==> morph_at(
                        #[trigger] r.unwrap()@[k],
                        s@,
                        item_start(*old(pos) as int, k, end),
                        l,
                    )
                &&& *final(pos) == list_end(s@, *old(pos) as int, end)
            },
    {
        let ghost p0 = *pos as int;
        let len = rd_u32(s, pos)?;
        let ghost end = morph_end(s@, l);
        let mut vct: Vec<MorphInfo> = Vec::new();
        let mut i: u32 = 0;
        while i < len
            invariant
                p0 == *old(pos) as int,
                len == count_at(s@, p0),
                p0 + 4 <= s@.len(),
                forall|k: int| 0 <= k < i ==> (morph_ok(s@, l))(#[trigger] starts(p0 + 4, k as nat, end)),
                end == morph_end(s@, l),
                i <= len,
                vct@.len() == i,
                *pos == starts(p0 + 4, i as nat, end),
                forall|k: int| 0 <= k < i ==> morph_at(#[trigger] vct@[k], s@, item_start(p0, k, end), l),
            decreases len - i,
        {
            let ghost ki: int = i as int;
            let m = match read_morph(s, pos, l) {
                Ok(x) => x,
                Err(e) => {
                    assert(!(morph_ok(s@, l))(starts(p0 + 4, ki as nat, end)));
                    return Err(e);
                },
            };
            vct.push(m);
            i = i + 1;
        }
        Ok(vct)
    }

    fn read_display_frames(s: &[u8], pos: &mut usize, l: Layout) -> (r: Result<Vec<DisplayFrame>, PmxError>)
        ensures
            r is Ok <==> list_ok(s@, *old(pos) as int, frame_ok(s@, l), frame_end(s@, l)),
            r is Ok ==> {
                let end = frame_end(s@, l);
                &&& r.unwrap()@.len() == count_at(s@, *old(pos) as int)
                &&& forall|k: int|
                    0 <= k < r.unwrap()@.len() ==> frame_at(
                        #[trigger] r.unwrap()@[k],
                        s@,
                        item_start(*old(pos) as int, k, end),
                        l,
                    )
                &&& *final(pos) == list_end(s@, *old(pos) as int, end)
            },
    {
        let ghost p0 = *pos as int;
        let len = rd_u32(s, pos)?;
        let ghost end = frame_end(s@, l);
        let mut vct: Vec<DisplayFrame> = Vec::new();
        let mut i: u32 = 0;
        while i < len
            invariant
                p0 == *old(pos) as int,
                len == count_at(s@, p0),
                p0 + 4 <= s@.len(),
                forall|k: int| 0 <= k < i ==> (frame_ok(s@, l))(#[trigger] starts(p0 + 4, k as nat, end)),
                end == frame_end(s@, l),
                i <= len,
                vct@.len() == i,
                *pos == starts(p0 + 4, i as nat, end),
                forall|k: int| 0 <= k < i ==> frame_at(#[trigger] vct@[k], s@, item_start(p0, k, end), l),
            decreases len - i,
        {
            let ghost ki: int = i as int;
            let f = match read_frame(s, pos, l) {
                Ok(x) => x,
                Err(e) => {
                    assert(!(frame_ok(s@, l))(starts(p0 + 4, ki as nat, end)));
                    return Err(e);
                },
            };
            vct.push(f);
            i = i + 1;
        }
        Ok(vct)
    }

    fn read_rigidbodys(s: &[u8], pos: &mut usize, l: Layout) -> (r: Result<Vec<Rigidbody>, PmxError>)
        ensures
            r is Ok <==> list_ok(s@, *old(pos) as int, rigidbody_ok(s@, l), rigidbody_end(s@, l.bone_index_size)),
            r is Ok ==> {
                let end = rigidbody_end(s@, l.bone_index_size);
                &&& r.unwrap()@.len() == count_at(s@, *old(pos) as int)
                &&& forall|k: int|
                    0 <= k < r.unwrap()@.len() ==> rigidbody_at(
                        #[trigger] r.unwrap()@[k],
                        s@,
                        item_start(*old(pos) as int, k, end),
                        l,
                    )
                &&& *final(pos) == list_end(s@, *old(pos) as int, end)
            },
    {
        let ghost p0 = *pos as int;
        let len = rd_u32(s, pos)?;
        let ghost end = rigidbody_end(s@, l.bone_index_size);
        let mut vct: Vec<Rigidbody> = Vec::new();
        let mut i: u32 = 0;
        while i < len
            invariant
                p0 == *old(pos) as int,
                len == count_at(s@, p0),
                p0 + 4 <= s@.len(),
                forall|k: int| 0 <= k < i ==> (rigidbody_ok(s@, l))(#[trigger] starts(p0 + 4, k as nat, end)),
                end == rigidbody_end(s@, l.bone_index_size),
                i <= len,
                vct@.len() == i,
                *pos == starts(p0 + 4, i as nat, end),
                forall|k: int| 0 <= k < i ==> rigidbody_at(#[trigger] vct@[k], s@, item_start(p0, k, end), l),
            decreases len - i,
        {
            let ghost ki: int = i as int;
            let r = match read_rigidbody(s, pos, l) {
                Ok(x) => x,
                Err(e) => {
                    assert(!(rigidbody_ok(s@, l))(starts(p0 + 4, ki as nat, end)));
                    return Err(e);
                },
            };
            vct.push(r);
            i = i + 1;
        }
        Ok(vct)
    }

    fn read_joints(s: &[u8], pos: &mut usize, l: Layout) -> (r: Result<Vec<Joint>, PmxError>)
        ensures
            r is Ok <==> list_ok(s@, *old(pos) as int, joint_ok(s@, l), joint_end(s@, l.rigidbody_index_size)),
            r is Ok ==> {
                let end = joint_end(s@, l.rigidbody_index_size);
                &&& r.unwrap()@.len() == count_at(s@, *old(pos) as int)
                &&& forall|k: int|
                    0 <= k < r.unwrap()@.len() ==> joint_at(
                        #[trigger] r.unwrap()@[k],
                        s@,
                        item_start(*old(pos) as int, k, end),
                        l,
                    )
                &&& *final(pos) == list_end(s@, *old(pos) as int, end)
            },
    {
        let ghost p0 = *pos as int;
        let len = rd_u32(s, pos)?;
        let ghost end = joint_end(s@, l.rigidbody_index_size);
        let mut vct: Vec<Joint> = Vec::new();
        let mut i: u32 = 0;
        while i < len
            invariant
                p0 == *old(pos) as int,
                len == count_at(s@, p0),
                p0 + 4 <= s@.len(),
                forall|k: int| 0 <= k < i ==> (joint_ok(s@, l))(#[trigger] starts(p0 + 4, k as nat, end)),
                end == joint_end(s@, l.rigidbody_index_size),
                i <= len,
                vct@.len() == i,
                *pos == starts(p0 + 4, i as nat, end),
                forall|k: int| 0 <= k < i ==> joint_at(#[trigger] vct@[k], s@, item_start(p0, k, end), l),
            decreases len - i,
        {
            let ghost ki: int = i as int;
            let j = match read_joint(s, pos, l) {
                Ok(x) => x,
                Err(e) => {
                    assert(!(joint_ok(s@, l))(starts(p0 + 4, ki as nat, end)));
                    return Err(e);
                },
            };
            vct.push(j);
            i = i + 1;
        }
        Ok(vct)
    }
}

} // verus!

verus! {

/// The field widths and text encoding that the header declares.
pub open spec fn layout_of(s: Seq<u8>) -> Layout {
    Layout {
        utf8: s[9] == 1,
        vertex_index_size: s[11],
        texture_index_size: s[12],
        material_index_size: s[13],
        bone_index_size: s[14],
        morph_index_size: s[15],
        rigidbody_index_size: s[16],
    }
}

/// Where each section of the document starts.
pub open spec fn verts_at(s: Seq<u8>) -> int {
    text_end(s, text_end(s, text_end(s, text_end(s, 17))))
}

pub open spec fn faces_at(s: Seq<u8>) -> int {
    list_end(s, verts_at(s), vertex_end(s, layout_of(s).bone_index_size))
}

pub open spec fn texs_at(s: Seq<u8>) -> int {
    faces_at(s) + 4 + 3 * (count_at(s, faces_at(s)) / 3) * layout_of(s).vertex_index_size
}

pub open spec fn mats_at(s: Seq<u8>) -> int {
    list_end(s, texs_at(s), text_end_fn(s))
}

pub open spec fn bones_at(s: Seq<u8>) -> int {
    list_end(s, mats_at(s), mat_end(s, layout_of(s).texture_index_size))
}

pub open spec fn morphs_at(s: Seq<u8>) -> int {
    bones_end(s, bones_at(s), layout_of(s).bone_index_size)
}

pub open spec fn frames_at(s: Seq<u8>) -> int {
    list_end(s, morphs_at(s), morph_end(s, layout_of(s)))
}

pub open spec fn rigidbodys_at(s: Seq<u8>) -> int {
    list_end(s, frames_at(s), frame_end(s, layout_of(s)))
}

pub open spec fn joints_at(s: Seq<u8>) -> int {
    list_end(s, rigidbodys_at(s), rigidbody_end(s, layout_of(s).bone_index_size))
}

/// `s` holds a well-formed document: the magic, no extra UV channels, and
/// every section within `s` and well-formed in the declared layout.
pub open spec fn pmx_ok(s: Seq<u8>) -> bool {
    let l = layout_of(s);
    &&& s.len() >= 17 && s[0] == 0x50 && s[1] == 0x4D && s[2] == 0x58 && s[10] == 0
    &&& text_ok(s, 17, l.utf8)
    &&& text_ok(s, text_end(s, 17), l.utf8)
    &&& text_ok(s, text_end(s, text_end(s, 17)), l.utf8)
    &&& text_ok(s, text_end(s, text_end(s, text_end(s, 17))), l.utf8)
    &&& list_ok(s, verts_at(s), vertex_ok(s, l.bone_index_size), vertex_end(s, l.bone_index_size))
    &&& faces_ok(s, faces_at(s), l.vertex_index_size)
    &&& list_ok(s, texs_at(s), text_ok_fn(s, l.utf8), text_end_fn(s))
    &&& list_ok(s, mats_at(s), mat_ok(s, l), mat_end(s, l.texture_index_size))
    &&& bones_ok(s, bones_at(s), l)
    &&& list_ok(s, morphs_at(s), morph_ok(s, l), morph_end(s, l))
    &&& list_ok(s, frames_at(s), frame_ok(s, l), frame_end(s, l))
    &&& list_ok(s, rigidbodys_at(s), rigidbody_ok(s, l), rigidbody_end(s, l.bone_index_size))
    &&& list_ok(s, joints_at(s), joint_ok(s, l), joint_end(s, l.rigidbody_index_size))
}

/// `p` is the document that `s` holds.
pub open spec fn decoded(s: Seq<u8>, p: Pmx) -> bool {
    let l = layout_of(s);
    let (bsz, vsz) = (l.bone_index_size, l.vertex_index_size);
    &&& s.len() >= 17 && s[0] == 0x50 && s[1] == 0x4D && s[2] == 0x58 && s[10] == 0
    &&& p.name@ == text_chars(s, 17, l.utf8)
    &&& p.name_en@ == text_chars(s, text_end(s, 17), l.utf8)
    &&& p.comment@ == text_chars(s, text_end(s, text_end(s, 17)), l.utf8)
    &&& p.comment_en@ == text_chars(s, text_end(s, text_end(s, text_end(s, 17))), l.utf8)
    &&& p.verts@.len() == count_at(s, verts_at(s))
    &&& forall|k: int|
        0 <= k < p.verts@.len() ==> #[trigger] p.verts@[k] == vertex_at(
            s,
            item_start(verts_at(s), k, vertex_end(s, bsz)),
            bsz,
        )
    &&& p.faces@.len() == count_at(s, faces_at(s)) / 3
    &&& forall|k: int, c: int|
        0 <= k < p.faces@.len() && 0 <= c < 3 ==> (#[trigger] p.faces@[k]@[c]) == index_at(
            s,
            faces_at(s) + 4 + (3 * k + c) * vsz,
            vsz,
        ) as u32
    &&& p.texs@.len() == count_at(s, texs_at(s))
    &&& forall|k: int|
        0 <= k < p.texs@.len() ==> (#[trigger] p.texs@[k])@ == text_chars(
            s,
            item_start(texs_at(s), k, text_end_fn(s)),
            l.utf8,
        )
    &&& p.mats@.len() == count_at(s, mats_at(s))
    &&& forall|k: int|
        0 <= k < p.mats@.len() ==> mat_at(
            #[trigger] p.mats@[k],
            s,
            item_start(mats_at(s), k, mat_end(s, l.texture_index_size)),
            l,
        )
    &&& bones_read(s, bones_at(s), l, p.bones@, p.iks@)
    &&& p.morphs@.len() == count_at(s, morphs_at(s))
    &&& forall|k: int|
        0 <= k < p.morphs@.len() ==> morph_at(
            #[trigger] p.morphs@[k],
            s,
            item_start(morphs_at(s), k, morph_end(s, l)),
            l,
        )
    &&& p.rigidbodys@.len() == count_at(s, rigidbodys_at(s))
    &&& forall|k: int|
        0 <= k < p.rigidbodys@.len() ==> rigidbody_at(
            #[trigger] p.rigidbodys@[k],
            s,
            item_start(rigidbodys_at(s), k, rigidbody_end(s, bsz)),
            l,
        )
    &&& p.joints@.len() == count_at(s, joints_at(s))
    &&& forall|k: int|
        0 <= k < p.joints@.len() ==> joint_at(
            #[trigger] p.joints@[k],
            s,
            item_start(joints_at(s), k, joint_end(s, l.rigidbody_index_size)),
            l,
        )
}

impl Pmx {
    /// Decodes a document.
    pub fn read(content: Vec<u8>) -> (r: Result<Pmx, PmxError>)
        ensures
            r is Ok <==> pmx_ok(content@),
            r is Ok ==> decoded(content@, r.unwrap()),
    {
        let s = content.as_slice();
        let mut p: usize = 0;
        let pos = &mut p;
        let m0 = rd_u8(s, pos)?;
        let m1 = rd_u8(s, pos)?;
        let m2 = rd_u8(s, pos)?;
        rd_u8(s, pos)?;
        if m0 != 0x50 || m1 != 0x4D || m2 != 0x58 {
            return Err(PmxError::BadMagic);
        }
        rd_u32(s, pos)?;
        rd_u8(s, pos)?;
        let utf8 = rd_u8(s, pos)? == 1;
        let appendix_uv = rd_u8(s, pos)?;
        if appendix_uv != 0 {
            return Err(PmxError::AppendixUv);
        }
        let vertex_index_size = rd_u8(s, pos)?;
        let texture_index_size = rd_u8(s, pos)?;
        let material_index_size = rd_u8(s, pos)?;
        let bone_index_size = rd_u8(s, pos)?;
        let morph_index_size = rd_u8(s, pos)?;
        let rigidbody_index_size = rd_u8(s, pos)?;
        let l = Layout {
            utf8,
            vertex_index_size,
            texture_index_size,
            material_index_size,
            bone_index_size,
            morph_index_size,
            rigidbody_index_size,
        };
        assert(l == layout_of(s@));
        let name = read_string(s, pos, utf8)?;
        let name_en = read_string(s, pos, utf8)?;
        let comment = read_string(s, pos, utf8)?;
        let comment_en = read_string(s, pos, utf8)?;
        let verts = Pmx::read_verts(s, pos, bone_index_size)?;
        let faces = Pmx::read_faces(s, pos, vertex_index_size)?;
        let texs = Pmx::read_texs(s, pos, utf8)?;
        let mats = Pmx::read_mats(s, pos, l)?;
        let (bones, iks) = Pmx::read_bones(s, pos, l)?;
        let morphs = Pmx::read_morphs(s, pos, l)?;
        Pmx::read_display_frames(s, pos, l)?;
        let rigidbodys = Pmx::read_rigidbodys(s, pos, l)?;
        let joints = Pmx::read_joints(s, pos, l)?;
        Ok(
            Pmx {
                name,
                name_en,
                comment,
                comment_en,
                verts,
                faces,
                texs,
                mats,
                bones,
                iks,
                morphs,
                rigidbodys,
                joints,
            },
        )
    }
}

} // verus!
