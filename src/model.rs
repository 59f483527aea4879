//! The proprietary model: skeleton, sections of skinned geometry with
//! section-local bone numbering, the grouping of sections into batches that
//! share one remap table, and the tables themselves.
use vstd::prelude::*;
use crate::bytes::{u16_le, u32_le, read_u8_at, read_u16_at, read_u32_at};
use crate::pmx::Float3;

verus! {

/// Why a model blob could not be read.
#[derive(Debug, Clone, Copy, PartialEq, Eq, Structural)]
pub enum ModelError {
    /// A field or record lies past the end of the blob.
    Truncated,
    /// The bone-name table and the skeleton differ in length.
    BoneCountMismatch,
    /// A parent index names no bone.
    BadParent,
    /// A section's vertex stride is neither of the two known ones.
    UnsupportedStride,
    /// A section has no vertices.
    EmptySection,
    /// The first section does not open a batch.
    NoActiveBatch,
    /// The number of batches differs from the header's.
    BatchCountMismatch,
    /// A batch's local indices do not run densely from zero.
    SparseBatch,
    /// A local bone index has no entry in its batch's remap table.
    RemapOutOfRange,
    /// A triangle's index does not fit once sections are concatenated.
    IndexOverflow,
    /// The per-vertex values supplied do not match the vertex count.
    VertexValuesMismatch,
}

/// A vertex as stored: position, four local bone indices, the last three of
/// the four weights, normal, tangent frame, and texture coordinates as
/// half-precision bit patterns.
#[derive(Debug, Clone, Copy)]
pub struct KtVertex {
    pub pos: Float3,
    pub bone_index: [u8; 4],
    pub bone_weight: Float3,
    pub norm: Float3,
    pub tang: Float3,
    pub bitang: Float3,
    pub uv: [u16; 2],
}

/// One section's vertices and triangles.
#[derive(Debug, Clone)]
pub struct KtSubMesh {
    pub verts: Vec<KtVertex>,
    pub face: Vec<[u32; 3]>,
}

/// A parsed model, with bone indices still local to each section.
#[derive(Debug, Clone)]
pub struct KTModel {
    pub bone_names: Vec<String>,
    pub bone_pos: Vec<Float3>,
    pub bone_parent: Vec<Option<usize>>,
    pub meshs: Vec<KtSubMesh>,
    /// The batch of each section.
    pub batch_of_mesh: Vec<usize>,
    /// For each batch, the global bone index of each local index.
    pub remap_tables: Vec<Vec<u16>>,
}

/// The distinct local bone indices that a section references, as one flag
/// for each of the 256 possible indices.
#[derive(Debug, Clone)]
pub struct LocalSet {
    pub flags: Vec<bool>,
}

impl View for LocalSet {
    type V = Seq<bool>;

    open spec fn view(&self) -> Seq<bool> {
        self.flags@
    }
}

/// The indices of `f` are exactly `0..n` for some `n ≥ 1`.
pub open spec fn dense(f: Seq<bool>) -> bool {
    exists|n: int| 1 <= n <= 256 && #[trigger] dense_as(f, n)
}

pub open spec fn dense_as(f: Seq<bool>, n: int) -> bool {
    forall|x: int| 0 <= x < 256 ==> (f[x] <==> x < n)
}

/// The number of indices of a dense set.
pub open spec fn dense_size(f: Seq<bool>) -> int {
    choose|n: int| 1 <= n <= 256 && dense_as(f, n)
}

pub open spec fn union(a: Seq<bool>, b: Seq<bool>) -> Seq<bool> {
    Seq::new(256, |x: int| a[x] || b[x])
}

/// The batches after a section with index set `obs` has been seen: a dense
/// set opens a new batch; any other joins the running one.
pub open spec fn step_batches(b: Seq<Seq<bool>>, obs: Seq<bool>) -> Option<Seq<Seq<bool>>> {
    if dense(obs) {
        Some(b.push(obs))
    } else if b.len() == 0 {
        None
    } else {
        Some(b.update(b.len() - 1, union(b.last(), obs)))
    }
}

pub open spec fn sets_view(v: Seq<LocalSet>) -> Seq<Seq<bool>> {
    v.map_values(|x: LocalSet| x@)
}

impl LocalSet {
    pub open spec fn wf(&self) -> bool {
        self@.len() == 256
    }

    pub fn new() -> (r: Self)
        ensures
            r.wf(),
            forall|x: int| 0 <= x < 256 ==> !r@[x],
    {
        let mut flags: Vec<bool> = Vec::new();
        let mut i: usize = 0;
        while i < 256
            invariant
                i <= 256,
                flags@.len() == i,
                forall|x: int| 0 <= x < i ==> !flags@[x],
            decreases 256 - i,
        {
            flags.push(false);
            i = i + 1;
        }
        LocalSet { flags }
    }

    pub fn insert(&mut self, x: u8)
        requires
            old(self).wf(),
        ensures
            final(self).wf(),
            final(self)@ == old(self)@.update(x as int, true),
    {
        self.flags.set(x as usize, true);
    }

    pub fn contains(&self, x: u8) -> (r: bool)
        requires
            self.wf(),
        ensures
            r == self@[x as int],
    {
        self.flags[x as usize]
    }

    /// Whether the indices run densely from zero: the largest one plus one
    /// is their number.
    pub fn is_dense(&self) -> (r: bool)
        requires
            self.wf(),
        ensures
            r == dense(self@),
    {
        let mut top: usize = 256;
        let mut i: usize = 0;
        while i < 256
            invariant
                self.wf(),
                i <= 256,
                top == 256 || (top < i && self@[top as int]),
                forall|x: int| top < x < i ==> !self@[x],
                top == 256 ==> forall|x: int| 0 <= x < i ==> !self@[x],
            decreases 256 - i,
        {
            if self.flags[i] {
                top = i;
            }
            i = i + 1;
        }
        if top == 256 {
            assert forall|n: int| 1 <= n <= 256 implies !dense_as(self@, n) by {
                assert(!self@[0]);
            }
            return false;
        }
        let mut j: usize = 0;
        while j < top
            invariant
                self.wf(),
                j <= top < 256,
                self@[top as int],
                forall|x: int| top < x < 256 ==> !self@[x],
                forall|x: int| 0 <= x < j ==> self@[x],
            decreases top - j,
        {
            if !self.flags[j] {
                assert forall|n: int| 1 <= n <= 256 implies !dense_as(self@, n) by {
                    if n > j {
                        assert(!self@[j as int]);
                    } else {
                        assert(self@[top as int]);
                    }
                }
                return false;
            }
            j = j + 1;
        }
        assert(dense_as(self@, top + 1));
        true
    }

    /// The number of indices of a dense set.
    pub fn size(&self) -> (r: usize)
        requires
            self.wf(),
            dense(self@),
        ensures
            r == dense_size(self@),
            1 <= r <= 256,
    {
        let ghost n = dense_size(self@);
        let mut i: usize = 0;
        while i < 256 && self.flags[i]
            invariant
                self.wf(),
                i <= 256,
                1 <= n <= 256,
                dense_as(self@, n),
                i <= n,
            decreases 256 - i,
        {
            i = i + 1;
        }
        proof {
            if i < n {
                assert(self@[i as int]);
            }
        }
        i
    }

    pub fn duplicate(&self) -> (r: LocalSet)
        ensures
            r@ == self@,
    {
        let mut flags: Vec<bool> = Vec::new();
        let mut i: usize = 0;
        while i < self.flags.len()
            invariant
                i <= self@.len(),
                flags@ == self@.take(i as int),
            decreases self@.len() - i,
        {
            flags.push(self.flags[i]);
            i = i + 1;
            assert(flags@ =~= self@.take(i as int));
        }
        assert(flags@ =~= self@);
        LocalSet { flags }
    }

    pub fn union_of(&self, other: &LocalSet) -> (r: LocalSet)
        requires
            self.wf(),
            other.wf(),
        ensures
            r.wf(),
            r@ == union(self@, other@),
    {
        let mut flags: Vec<bool> = Vec::new();
        let mut i: usize = 0;
        while i < 256
            invariant
                self.wf(),
                other.wf(),
                i <= 256,
                flags@ == union(self@, other@).take(i as int),
            decreases 256 - i,
        {
            flags.push(self.flags[i] || other.flags[i]);
            i = i + 1;
            assert(flags@ =~= union(self@, other@).take(i as int));
        }
        assert(flags@ =~= union(self@, other@));
        LocalSet { flags }
    }
}

/// The batches formed so far, each with the union of its sections' index
/// sets; the last one is the running batch.
#[derive(Debug, Clone)]
pub struct Batches {
    pub sets: Vec<LocalSet>,
}

impl Batches {
    pub open spec fn wf(&self) -> bool {
        forall|t: int| 0 <= t < self.sets@.len() ==> (#[trigger] self.sets@[t]).wf()
    }

    pub fn new() -> (r: Self)
        ensures
            r.wf(),
            r.sets@.len() == 0,
    {
        Batches { sets: Vec::new() }
    }

    /// Assigns the next section, with index set `observed`, to a batch and
    /// returns the batch's number: a dense set opens a new batch, any other
    /// joins the running one.
    pub fn assign(&mut self, observed: &LocalSet) -> (r: Result<usize, ModelError>)
        requires
            old(self).wf(),
            observed.wf(),
        ensures
            final(self).wf(),
            match step_batches(sets_view(old(self).sets@), observed@) {
                Some(b) => sets_view(final(self).sets@) == b && r == Ok::<usize, ModelError>(
                    (b.len() - 1) as usize,
                ),
                None => r == Err::<usize, ModelError>(ModelError::NoActiveBatch)
                    && final(self).sets@ == old(self).sets@,
            },
    {
        let ghost before = sets_view(self.sets@);
        if observed.is_dense() {
            self.sets.push(observed.duplicate());
            assert(sets_view(self.sets@) =~= before.push(observed@));
            return Ok(self.sets.len() - 1);
        }
        if self.sets.len() == 0 {
            return Err(ModelError::NoActiveBatch);
        }
        let last = self.sets.len() - 1;
        let merged = self.sets[last].union_of(observed);
        self.sets.set(last, merged);
        assert(sets_view(self.sets@) =~= before.update(last as int, union(before.last(), observed@)));
        Ok(last)
    }
}

} // verus!

verus! {

/// Three little-endian single-precision bit patterns at `off`.
pub open spec fn f3_at(s: Seq<u8>, off: int) -> Float3 {
    Float3 { x: u32_le(s, off) as u32, y: u32_le(s, off + 4) as u32, z: u32_le(s, off + 8) as u32 }
}

pub open spec fn zero3() -> Float3 {
    Float3 { x: 0, y: 0, z: 0 }
}

// Header fields.
pub open spec fn bone_count(s: Seq<u8>) -> int {
    u32_le(s, 0x18)
}

pub open spec fn bone_ptr(s: Seq<u8>) -> int {
    u32_le(s, 0x1C)
}

pub open spec fn batch_count(s: Seq<u8>) -> int {
    u32_le(s, 0x20)
}

pub open spec fn table_ptr(s: Seq<u8>) -> int {
    u32_le(s, 0x24)
}

pub open spec fn section_count(s: Seq<u8>) -> int {
    u32_le(s, 0x28)
}

pub open spec fn section_ptr(s: Seq<u8>) -> int {
    u32_le(s, 0x34)
}

/// Bone records: 176 bytes each; rest position at 64, parent at 172.
pub open spec fn bone_base(s: Seq<u8>, i: int) -> int {
    bone_ptr(s) + 176 * i
}

pub open spec fn parent_raw(s: Seq<u8>, i: int) -> int {
    u32_le(s, bone_base(s, i) + 172)
}

/// The parent of bone `i`: none for -1.
pub open spec fn parent_of(s: Seq<u8>, i: int) -> Option<usize> {
    if parent_raw(s, i) == 0xFFFF_FFFF {
        None
    } else {
        Some(parent_raw(s, i) as usize)
    }
}

pub open spec fn bone_ok(s: Seq<u8>, i: int) -> bool {
    &&& bone_base(s, i) + 176 <= s.len()
    &&& (parent_raw(s, i) == 0xFFFF_FFFF || parent_raw(s, i) < bone_count(s))
}

/// Section records: 64 bytes each.
pub open spec fn sec_base(s: Seq<u8>, i: int) -> int {
    section_ptr(s) + 64 * i
}

pub open spec fn stride(s: Seq<u8>, i: int) -> int {
    s[sec_base(s, i) + 9] as int
}

pub open spec fn vert_count(s: Seq<u8>, i: int) -> int {
    u32_le(s, sec_base(s, i) + 4)
}

pub open spec fn vert_base(s: Seq<u8>, i: int, j: int) -> int {
    sec_base(s, i) + u32_le(s, sec_base(s, i)) + j * stride(s, i)
}

/// Triangles: the stored count is the number of indices.
pub open spec fn face_count(s: Seq<u8>, i: int) -> int {
    u32_le(s, sec_base(s, i) + 36) / 3
}

/// Triangle offsets count from 32 bytes into the section record.
pub open spec fn face_base(s: Seq<u8>, i: int, j: int) -> int {
    sec_base(s, i) + 32 + u32_le(s, sec_base(s, i) + 32) + 6 * j
}

/// `v` is the vertex stored at `b` with stride `st`: position, four local
/// indices, three weights, normal, tangent and bitangent for the long
/// stride only, and two half-precision texture coordinates.
pub open spec fn is_vertex_at(v: KtVertex, s: Seq<u8>, b: int, st: int) -> bool {
    let uv = if st == 68 { b + 64 } else { b + 40 };
    &&& v.pos == f3_at(s, b)
    &&& v.bone_index@ == seq![s[b + 12], s[b + 13], s[b + 14], s[b + 15]]
    &&& v.bone_weight == f3_at(s, b + 16)
    &&& v.norm == f3_at(s, b + 28)
    &&& v.tang == (if st == 68 { f3_at(s, b + 40) } else { zero3() })
    &&& v.bitang == (if st == 68 { f3_at(s, b + 52) } else { zero3() })
    &&& v.uv@ == seq![u16_le(s, uv) as u16, u16_le(s, uv + 2) as u16]
}

pub open spec fn is_face_at(f: [u32; 3], s: Seq<u8>, b: int) -> bool {
    f@ == seq![u16_le(s, b) as u32, u16_le(s, b + 2) as u32, u16_le(s, b + 4) as u32]
}

/// Local index `x` is referenced by the vertex at `b`: its first slot always,
/// the other three only when not zero.
pub open spec fn references(s: Seq<u8>, b: int, x: int) -> bool {
    s[b + 12] == x || (x != 0 && (s[b + 13] == x || s[b + 14] == x || s[b + 15] == x))
}

/// The local indices that section `i` references.
pub open spec fn section_set(s: Seq<u8>, i: int) -> Seq<bool> {
    Seq::new(
        256,
        |x: int| exists|j: int| 0 <= j < vert_count(s, i) && references(s, vert_base(s, i, j), x),
    )
}

pub open spec fn section_ok(s: Seq<u8>, i: int) -> bool {
    &&& sec_base(s, i) + 40 <= s.len()
    &&& (stride(s, i) == 44 || stride(s, i) == 68)
    &&& vert_count(s, i) >= 1
    &&& forall|j: int| 0 <= j < vert_count(s, i) ==> #[trigger] vert_base(s, i, j) + stride(s, i) <= s.len()
    &&& forall|j: int| 0 <= j < face_count(s, i) ==> #[trigger] face_base(s, i, j) + 6 <= s.len()
}

/// The batches formed by the first `k` sections.
pub open spec fn batches_upto(s: Seq<u8>, k: nat) -> Option<Seq<Seq<bool>>>
    decreases k,
{
    if k == 0 {
        Some(Seq::empty())
    } else {
        match batches_upto(s, (k - 1) as nat) {
            Some(b) => step_batches(b, section_set(s, k - 1)),
            None => None,
        }
    }
}

} // verus!

verus! {

fn read_f3(s: &[u8], off: u64) -> (r: Option<Float3>)
    requires
        off < 0x200_0000_0000,
    ensures
        r is Some <==> off + 12 <= s@.len(),
        r is Some ==> r.unwrap() == f3_at(s@, off as int),
{
    let x = match read_u32_at(s, off) {
        Some(v) => v,
        None => return None,
    };
    let y = match read_u32_at(s, off + 4) {
        Some(v) => v,
        None => return None,
    };
    let z = match read_u32_at(s, off + 8) {
        Some(v) => v,
        None => return None,
    };
    Some(Float3 { x, y, z })
}

/// Reads the vertex at `b`, `st` bytes long.
fn read_vertex(s: &[u8], b: u64, st: u8) -> (r: Option<KtVertex>)
    requires
        st == 44 || st == 68,
        b < 0x100_0000_0000,
    ensures
        r is Some <==> b + st <= s@.len(),
        r is Some ==> is_vertex_at(r.unwrap(), s@, b as int, st as int),
{
    if b + (st as u64) > s.len() as u64 {
        return None;
    }
    let pos = match read_f3(s, b) {
        Some(v) => v,
        None => return None,
    };
    let b0 = match read_u8_at(s, b + 12) {
        Some(v) => v,
        None => return None,
    };
    let b1 = match read_u8_at(s, b + 13) {
        Some(v) => v,
        None => return None,
    };
    let b2 = match read_u8_at(s, b + 14) {
        Some(v) => v,
        None => return None,
    };
    let b3 = match read_u8_at(s, b + 15) {
        Some(v) => v,
        None => return None,
    };
    let bone_weight = match read_f3(s, b + 16) {
        Some(v) => v,
        None => return None,
    };
    let norm = match read_f3(s, b + 28) {
        Some(v) => v,
        None => return None,
    };
    let zero = Float3 { x: 0, y: 0, z: 0 };
    let (tang, bitang, uv_off) = if st == 68 {
        let t = match read_f3(s, b + 40) {
            Some(v) => v,
            None => return None,
        };
        let bt = match read_f3(s, b + 52) {
            Some(v) => v,
            None => return None,
        };
        (t, bt, b + 64)
    } else {
        (zero, zero, b + 40)
    };
    let u = match read_u16_at(s, uv_off) {
        Some(v) => v,
        None => return None,
    };
    let v = match read_u16_at(s, uv_off + 2) {
        Some(v) => v,
        None => return None,
    };
    let bone_index: [u8; 4] = [b0, b1, b2, b3];
    let uv: [u16; 2] = [u, v];
    let r = KtVertex { pos, bone_index, bone_weight, norm, tang, bitang, uv };
    assert(r.bone_index@ =~= seq![s@[b + 12], s@[b + 13], s@[b + 14], s@[b + 15]]);
    assert(r.uv@ =~= seq![u16_le(s@, uv_off as int) as u16, u16_le(s@, uv_off + 2) as u16]);
    Some(r)
}

fn read_face(s: &[u8], b: u64) -> (r: Option<[u32; 3]>)
    requires
        b < 0x100_0000_0000,
    ensures
        r is Some <==> b + 6 <= s@.len(),
        r is Some ==> is_face_at(r.unwrap(), s@, b as int),
{
    let x = match read_u16_at(s, b) {
        Some(v) => v,
        None => return None,
    };
    let y = match read_u16_at(s, b + 2) {
        Some(v) => v,
        None => return None,
    };
    let z = match read_u16_at(s, b + 4) {
        Some(v) => v,
        None => return None,
    };
    let f: [u32; 3] = [x as u32, y as u32, z as u32];
    assert(f@ =~= seq![u16_le(s@, b as int) as u32, u16_le(s@, b + 2) as u32, u16_le(s@, b + 4) as u32]);
    Some(f)
}

/// Section `i` has been read as `m`, with index set `set`.
pub open spec fn section_read(s: Seq<u8>, i: int, m: KtSubMesh) -> bool {
    &&& m.verts@.len() == vert_count(s, i)
    &&& forall|j: int|
        0 <= j < vert_count(s, i) ==> is_vertex_at(
            #[trigger] m.verts@[j],
            s,
            vert_base(s, i, j),
            stride(s, i),
        )
    &&& m.face@.len() == face_count(s, i)
    &&& forall|j: int| 0 <= j < face_count(s, i) ==> is_face_at(#[trigger] m.face@[j], s, face_base(s, i, j))
}

/// Reads section `i`: its vertices, its triangles, and the local indices
/// that its vertices reference.
fn read_section(s: &[u8], i: u32) -> (r: Result<(KtSubMesh, LocalSet), ModelError>)
    requires
        s@.len() >= 0x38,
    ensures
        r is Ok <==> section_ok(s@, i as int),
        r is Ok ==> section_read(s@, i as int, r.unwrap().0) && r.unwrap().1.wf() && r.unwrap().1@
            == section_set(s@, i as int),
{
    let sp = read_u32_at(s, 0x34).unwrap();
    let sb: u64 = sp as u64 + 64 * (i as u64);
    let vert_offset = match read_u32_at(s, sb) {
        Some(v) => v,
        None => return Err(ModelError::Truncated),
    };
    let vc = match read_u32_at(s, sb + 4) {
        Some(v) => v,
        None => return Err(ModelError::Truncated),
    };
    let st = match read_u8_at(s, sb + 9) {
        Some(v) => v,
        None => return Err(ModelError::Truncated),
    };
    let face_offset = match read_u32_at(s, sb + 32) {
        Some(v) => v,
        None => return Err(ModelError::Truncated),
    };
    let fc = match read_u32_at(s, sb + 36) {
        Some(v) => v / 3,
        None => return Err(ModelError::Truncated),
    };
    if st != 68 && st != 44 {
        return Err(ModelError::UnsupportedStride);
    }
    if vc == 0 {
        return Err(ModelError::EmptySection);
    }
    let ghost ss = s@;
    let mut set = LocalSet::new();
    let mut verts: Vec<KtVertex> = Vec::new();
    let mut j: u32 = 0;
    while j < vc
        invariant
            ss == s@,
            sb == sec_base(ss, i as int),
            vert_offset == u32_le(ss, sb as int),
            st == stride(ss, i as int),
            st == 44 || st == 68,
            vc == vert_count(ss, i as int),
            sp < 0x1_0000_0000,
            sb < 0x1_0000_0000 + 64 * 0x1_0000_0000,
            j <= vc,
            set.wf(),
            verts@.len() == j,
            forall|k: int| 0 <= k < j ==> vert_base(ss, i as int, k) + st <= ss.len(),
            forall|k: int|
                0 <= k < j ==> is_vertex_at(#[trigger] verts@[k], ss, vert_base(ss, i as int, k), st as int),
            forall|x: int|
                0 <= x < 256 ==> (set@[x] <==> exists|k: int|
                    0 <= k < j && references(ss, vert_base(ss, i as int, k), x)),
        decreases vc - j,
    {
        let vb: u64 = sb + vert_offset as u64 + (j as u64) * (st as u64);
        assert(vb == vert_base(ss, i as int, j as int));
        let v = match read_vertex(s, vb, st) {
            Some(v) => v,
            None => return Err(ModelError::Truncated),
        };
        let ghost before = set@;
        set.insert(v.bone_index[0]);
        if v.bone_index[1] != 0 {
            set.insert(v.bone_index[1]);
        }
        if v.bone_index[2] != 0 {
            set.insert(v.bone_index[2]);
        }
        if v.bone_index[3] != 0 {
            set.insert(v.bone_index[3]);
        }
        assert forall|x: int| 0 <= x < 256 implies (set@[x] <==> (before[x] || references(ss, vb as int, x))) by {
            assert(v.bone_index@[0] == ss[vb + 12]);
            assert(v.bone_index@[1] == ss[vb + 13]);
            assert(v.bone_index@[2] == ss[vb + 14]);
            assert(v.bone_index@[3] == ss[vb + 15]);
        }
        assert forall|x: int| 0 <= x < 256 implies (set@[x] <==> exists|k: int|
            0 <= k < j + 1 && references(ss, vert_base(ss, i as int, k), x)) by {
            if set@[x] && !before[x] {
                assert(references(ss, vert_base(ss, i as int, j as int), x));
            }
            if exists|k: int| 0 <= k < j + 1 && references(ss, vert_base(ss, i as int, k), x) {
                let k = choose|k: int| 0 <= k < j + 1 && references(ss, vert_base(ss, i as int, k), x);
                if k < j {
                    assert(before[x]);
                }
            }
        }
        verts.push(v);
        j = j + 1;
    }
    let mut face: Vec<[u32; 3]> = Vec::new();
    let mut j: u32 = 0;
    while j < fc
        invariant
            ss == s@,
            sb == sec_base(ss, i as int),
            face_offset == u32_le(ss, sb + 32),
            fc == face_count(ss, i as int),
            sb < 0x1_0000_0000 + 64 * 0x1_0000_0000,
            j <= fc,
            face@.len() == j,
            forall|k: int| 0 <= k < j ==> face_base(ss, i as int, k) + 6 <= ss.len(),
            forall|k: int| 0 <= k < j ==> is_face_at(#[trigger] face@[k], ss, face_base(ss, i as int, k)),
        decreases fc - j,
    {
        let fb: u64 = sb + 32 + face_offset as u64 + 6 * (j as u64);
        assert(fb == face_base(ss, i as int, j as int));
        let f = match read_face(s, fb) {
            Some(f) => f,
            None => return Err(ModelError::Truncated),
        };
        face.push(f);
        j = j + 1;
    }
    assert(set@ =~= section_set(ss, i as int));
    Ok((KtSubMesh { verts, face }, set))
}

} // verus!

verus! {

/// The batches that all sections form.
pub open spec fn all_batches(s: Seq<u8>) -> Seq<Seq<bool>> {
    batches_upto(s, section_count(s) as nat).unwrap()
}

/// Every field of the blob is where the header says and holds what the
/// format allows.
pub open spec fn model_ok(s: Seq<u8>, n_names: int) -> bool {
    &&& s.len() >= 0x38
    &&& forall|i: int| 0 <= i < bone_count(s) ==> #[trigger] bone_ok(s, i)
    &&& bone_count(s) == n_names
    &&& forall|i: int| 0 <= i < section_count(s) ==> #[trigger] section_ok(s, i)
    &&& batches_upto(s, section_count(s) as nat) is Some
    &&& all_batches(s).len() == batch_count(s)
    &&& tables_ok(s, all_batches(s), table_ptr(s))
}

/// `m` is what the blob `s` holds, with `names` as its bone names.
pub open spec fn parsed_as(s: Seq<u8>, names: Seq<String>, m: KTModel) -> bool {
    &&& m.bone_names@ == names
    &&& m.bone_pos@.len() == bone_count(s)
    &&& forall|i: int| 0 <= i < bone_count(s) ==> #[trigger] m.bone_pos@[i] == f3_at(s, bone_base(s, i) + 64)
    &&& m.bone_parent@.len() == bone_count(s)
    &&& forall|i: int| 0 <= i < bone_count(s) ==> #[trigger] m.bone_parent@[i] == parent_of(s, i)
    &&& m.meshs@.len() == section_count(s)
    &&& forall|i: int| 0 <= i < section_count(s) ==> section_read(s, i, #[trigger] m.meshs@[i])
    &&& m.batch_of_mesh@.len() == section_count(s)
    &&& forall|i: int|
        0 <= i < section_count(s) ==> #[trigger] m.batch_of_mesh@[i] == batches_upto(s, (i + 1) as nat).unwrap().len() - 1
    &&& tables_read(s, all_batches(s), table_ptr(s), m.remap_tables@)
}

proof fn lemma_batches_stay_failed(s: Seq<u8>, k: nat, m: nat)
    requires
        k <= m,
        batches_upto(s, k) is None,
    ensures
        batches_upto(s, m) is None,
    decreases m - k,
{
    if k < m {
        lemma_batches_stay_failed(s, k, (m - 1) as nat);
    }
}

/// Reads the rest positions and parents of `count` bones.
fn read_bones(s: &[u8], count: u32) -> (r: Result<(Vec<Float3>, Vec<Option<usize>>), ModelError>)
    requires
        s@.len() >= 0x38,
        count == bone_count(s@),
    ensures
        r is Ok <==> forall|i: int| 0 <= i < count ==> #[trigger] bone_ok(s@, i),
        r is Ok ==> {
            let (pos, par) = r.unwrap();
            &&& pos@.len() == count && par@.len() == count
            &&& forall|i: int| 0 <= i < count ==> #[trigger] pos@[i] == f3_at(s@, bone_base(s@, i) + 64)
            &&& forall|i: int| 0 <= i < count ==> #[trigger] par@[i] == parent_of(s@, i)
        },
{
    let bp = read_u32_at(s, 0x1C).unwrap();
    let mut pos: Vec<Float3> = Vec::new();
    let mut par: Vec<Option<usize>> = Vec::new();
    let mut i: u32 = 0;
    while i < count
        invariant
            count == bone_count(s@),
            bp == bone_ptr(s@),
            i <= count,
            pos@.len() == i && par@.len() == i,
            forall|k: int| 0 <= k < i ==> #[trigger] bone_ok(s@, k),
            forall|k: int| 0 <= k < i ==> #[trigger] pos@[k] == f3_at(s@, bone_base(s@, k) + 64),
            forall|k: int| 0 <= k < i ==> #[trigger] par@[k] == parent_of(s@, k),
        decreases count - i,
    {
        let base: u64 = bp as u64 + 176 * (i as u64);
        assert(base == bone_base(s@, i as int));
        let p = match read_f3(s, base + 64) {
            Some(p) => p,
            None => {
                assert(!bone_ok(s@, i as int));
                return Err(ModelError::Truncated);
            },
        };
        let raw = match read_u32_at(s, base + 172) {
            Some(p) => p,
            None => {
                assert(!bone_ok(s@, i as int));
                return Err(ModelError::Truncated);
            },
        };
        let parent = if raw == 0xFFFF_FFFF {
            None
        } else if raw < count {
            Some(raw as usize)
        } else {
            assert(!bone_ok(s@, i as int));
            return Err(ModelError::BadParent);
        };
        pos.push(p);
        par.push(parent);
        i = i + 1;
    }
    Ok((pos, par))
}

/// Reads each batch's remap table: one 16-bit global index per local index,
/// the tables one after another from `ptr`.
fn read_tables(s: &[u8], batches: &Batches, ptr: u32) -> (r: Result<Vec<Vec<u16>>, ModelError>)
    requires
        batches.wf(),
        batches.sets@.len() <= 0x1_0000_0000,
    ensures
        r is Ok <==> tables_ok(s@, sets_view(batches.sets@), ptr as int),
        r is Ok ==> tables_read(s@, sets_view(batches.sets@), ptr as int, r.unwrap()@),
{
    let ghost b = sets_view(batches.sets@);
    let mut tables: Vec<Vec<u16>> = Vec::new();
    let mut off: u64 = ptr as u64;
    let mut t: usize = 0;
    while t < batches.sets.len()
        invariant
            batches.wf(),
            b == sets_view(batches.sets@),
            batches.sets@.len() <= 0x1_0000_0000,
            t <= b.len(),
            off == starts_from(s@, b, ptr as int, t as nat),
            off <= 0x1_0000_0000 + 512 * t,
            tables@.len() == t,
            forall|u: int| 0 <= u < t ==> dense(#[trigger] b[u]),
            forall|u: int|
                0 <= u < t ==> #[trigger] starts_from(s@, b, ptr as int, u as nat) + 2 * dense_size(b[u]) <= s@.len(),
            forall|u: int| 0 <= u < t ==> (#[trigger] tables@[u])@.len() == dense_size(b[u]),
            forall|u: int, e: int|
                0 <= u < t && 0 <= e < dense_size(b[u]) ==> (#[trigger] tables@[u]@[e]) == u16_le(
                    s@,
                    starts_from(s@, b, ptr as int, u as nat) + 2 * e,
                ) as u16,
        decreases b.len() - t,
    {
        let set = &batches.sets[t];
        assert(set@ == b[t as int]);
        if !set.is_dense() {
            assert(!tables_ok(s@, b, ptr as int));
            return Err(ModelError::SparseBatch);
        }
        let n = set.size();
        let mut sub: Vec<u16> = Vec::new();
        let mut e: usize = 0;
        while e < n
            invariant
                e <= n,
                n <= 256,
                b == sets_view(batches.sets@),
                t < b.len(),
                b.len() <= 0x1_0000_0000,
                off == starts_from(s@, b, ptr as int, t as nat),
                n == dense_size(b[t as int]),
                off <= 0x1_0000_0000 + 512 * t,
                sub@.len() == e,
                e > 0 ==> off + 2 * e <= s@.len(),
                forall|k: int| 0 <= k < e ==> #[trigger] sub@[k] == u16_le(s@, off + 2 * k) as u16,
            decreases n - e,
        {
            let w = match read_u16_at(s, off + 2 * (e as u64)) {
                Some(w) => w,
                None => {
                    let ghost ti: int = t as int;
                    assert(starts_from(s@, b, ptr as int, ti as nat) + 2 * dense_size(b[ti])
                        > s@.len());
                    assert(!tables_ok(s@, b, ptr as int));
                    return Err(ModelError::Truncated);
                },
            };
            sub.push(w);
            e = e + 1;
        }
        tables.push(sub);
        off = off + 2 * (n as u64);
        t = t + 1;
    }
    assert(tables_read(s@, b, ptr as int, tables@));
    Ok(tables)
}

/// Every batch is dense and its table lies within the blob.
pub open spec fn tables_ok(s: Seq<u8>, b: Seq<Seq<bool>>, ptr: int) -> bool {
    &&& forall|t: int| 0 <= t < b.len() ==> dense(#[trigger] b[t])
    &&& forall|t: int|
        0 <= t < b.len() ==> #[trigger] starts_from(s, b, ptr, t as nat) + 2 * dense_size(b[t]) <= s.len()
}

/// `tables` holds each batch's table as stored.
pub open spec fn tables_read(s: Seq<u8>, b: Seq<Seq<bool>>, ptr: int, tables: Seq<Vec<u16>>) -> bool {
    &&& tables.len() == b.len()
    &&& forall|t: int| 0 <= t < b.len() ==> (#[trigger] tables[t])@.len() == dense_size(b[t])
    &&& forall|t: int, e: int|
        0 <= t < b.len() && 0 <= e < dense_size(b[t]) ==> (#[trigger] tables[t]@[e]) == u16_le(
            s,
            starts_from(s, b, ptr, t as nat) + 2 * e,
        ) as u16
}

/// Where batch `t`'s table starts when the first starts at `ptr`.
pub open spec fn starts_from(s: Seq<u8>, b: Seq<Seq<bool>>, ptr: int, t: nat) -> int
    decreases t,
{
    if t == 0 {
        ptr
    } else {
        starts_from(s, b, ptr, (t - 1) as nat) + 2 * dense_size(b[t - 1])
    }
}

} // verus!

verus! {

/// Reads a model blob, with `bone_names` as its skeleton's names.
pub fn parse_model(content: &Vec<u8>, bone_names: Vec<String>) -> (r: Result<KTModel, ModelError>)
    ensures
        r is Ok <==> model_ok(content@, bone_names@.len() as int),
        r is Ok ==> parsed_as(content@, bone_names@, r.unwrap()),
{
    let s = content.as_slice();
    if s.len() < 0x38 {
        return Err(ModelError::Truncated);
    }
    let n_bones = read_u32_at(s, 0x18).unwrap();
    let n_batches = read_u32_at(s, 0x20).unwrap();
    let tables_at = read_u32_at(s, 0x24).unwrap();
    let n_sections = read_u32_at(s, 0x28).unwrap();
    let (bone_pos, bone_parent) = match read_bones(s, n_bones) {
        Ok(b) => b,
        Err(e) => return Err(e),
    };
    if n_bones as usize != bone_names.len() {
        return Err(ModelError::BoneCountMismatch);
    }
    let mut batches = Batches::new();
    let mut meshs: Vec<KtSubMesh> = Vec::new();
    let mut batch_of_mesh: Vec<usize> = Vec::new();
    let mut i: u32 = 0;
    while i < n_sections
        invariant
            s@ == content@,
            s@.len() >= 0x38,
            n_sections == section_count(s@),
            i <= n_sections,
            forall|k: int| 0 <= k < i ==> #[trigger] section_ok(s@, k),
            batches.wf(),
            batches_upto(s@, i as nat) == Some(sets_view(batches.sets@)),
            batches.sets@.len() <= i,
            meshs@.len() == i,
            forall|k: int| 0 <= k < i ==> section_read(s@, k, #[trigger] meshs@[k]),
            batch_of_mesh@.len() == i,
            forall|k: int|
                0 <= k < i ==> #[trigger] batch_of_mesh@[k] == batches_upto(s@, (k + 1) as nat).unwrap().len() - 1,
        decreases n_sections - i,
    {
        let (mesh, set) = match read_section(s, i) {
            Ok(m) => m,
            Err(e) => return Err(e),
        };
        let id = match batches.assign(&set) {
            Ok(id) => id,
            Err(e) => {
                proof {
                    lemma_batches_stay_failed(s@, (i + 1) as nat, n_sections as nat);
                }
                return Err(e);
            },
        };
        meshs.push(mesh);
        batch_of_mesh.push(id);
        i = i + 1;
    }
    if batches.sets.len() != n_batches as usize {
        return Err(ModelError::BatchCountMismatch);
    }
    let remap_tables = match read_tables(s, &batches, tables_at) {
        Ok(t) => t,
        Err(e) => return Err(e),
    };
    Ok(KTModel { bone_names, bone_pos, bone_parent, meshs, batch_of_mesh, remap_tables })
}

} // verus!

verus! {

proof fn lemma_batches_formed(s: Seq<u8>, k: nat, m: nat)
    requires
        k <= m,
        batches_upto(s, m) is Some,
    ensures
        batches_upto(s, k) is Some,
{
    if batches_upto(s, k) is None {
        lemma_batches_stay_failed(s, k, m);
    }
}

/// In a well-formed model, a section whose local indices are dense opens a
/// new batch, numbered after those the sections before it formed and seeded
/// with its own index set; any other section joins the running batch, whose
/// set grows by its indices and whose number it takes.
pub proof fn lemma_section_batch(s: Seq<u8>, n_names: int, names: Seq<String>, m: KTModel, i: int)
    requires
        model_ok(s, n_names),
        parsed_as(s, names, m),
        0 <= i < section_count(s),
    ensures
        batches_upto(s, i as nat) is Some,
        ({
            let before = batches_upto(s, i as nat).unwrap();
            let after = batches_upto(s, (i + 1) as nat).unwrap();
            let set = section_set(s, i);
            &&& dense(set) ==> after == before.push(set) && m.batch_of_mesh@[i] == before.len()
            &&& !dense(set) ==> before.len() > 0 && after == before.update(
                before.len() - 1,
                union(before.last(), set),
            ) && m.batch_of_mesh@[i] == before.len() - 1
        }),
{
    lemma_batches_formed(s, i as nat, section_count(s) as nat);
    lemma_batches_formed(s, (i + 1) as nat, section_count(s) as nat);
    assert(m.batch_of_mesh@[i] == batches_upto(s, (i + 1) as nat).unwrap().len() - 1);
}

} // verus!
