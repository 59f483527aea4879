//! Assembly of the interchange document from a parsed model: local bone
//! indices resolved through each section's batch table, sections
//! concatenated, one placeholder material per section.
use vstd::prelude::*;
use vstd::utf8::{encode_utf8, encode_utf8_decode_utf8, encode_utf8_valid_utf8, is_ascii_chars, is_ascii_chars_encode_utf8};
use crate::bytes::string_from_utf8;
use crate::model::{KTModel, KtSubMesh, KtVertex, ModelError, parsed_as, all_batches, table_ptr, starts_from};
use crate::bytes::u16_le;
use crate::pmx::{Bone, Float2, Float4, Int4, Mat, Pmx, Vertex, VertexWeight, ONE, placeholder_look, plain_bone};

verus! {

/// What only floating-point arithmetic gives for a vertex: the first weight,
/// one minus the other three, and the texture coordinates widened to single
/// precision.
#[derive(Debug, Clone, Copy, PartialEq, Eq, Structural)]
pub struct DerivedVertex {
    pub first_weight: u32,
    pub uv: Float2,
}

/// The decimal digits of `n`.
pub open spec fn decimal(n: nat) -> Seq<char>
    decreases n,
{
    if n < 10 {
        seq![(n + 48) as char]
    } else {
        decimal(n / 10).push((n % 10 + 48) as char)
    }
}

/// Every digit of `decimal(n)` is an ASCII character.
proof fn lemma_decimal_ascii(n: nat)
    ensures
        is_ascii_chars(decimal(n)),
        decimal(n).len() >= 1,
    decreases n,
{
    if n >= 10 {
        lemma_decimal_ascii(n / 10);
        assert(is_ascii_chars(decimal(n))) by {
            assert forall|i: int| 0 <= i < decimal(n).len() implies '\0' <= #[trigger] decimal(n)[i]
                <= '\u{7f}' by {
                if i < decimal(n / 10).len() {
                    assert(decimal(n)[i] == decimal(n / 10)[i]);
                }
            }
        }
    }
}

/// Appends the decimal digits of `n`, as ASCII bytes.
fn push_decimal(n: usize, out: &mut Vec<u8>)
    ensures
        final(out)@ == old(out)@ + encode_utf8(decimal(n as nat)),
    decreases n,
{
    proof {
        lemma_decimal_ascii(n as nat);
        is_ascii_chars_encode_utf8(decimal(n as nat));
    }
    if n >= 10 {
        push_decimal(n / 10, out);
        proof {
            lemma_decimal_ascii((n / 10) as nat);
            is_ascii_chars_encode_utf8(decimal((n / 10) as nat));
        }
    }
    let d: u8 = (n % 10) as u8 + 48;
    out.push(d);
    assert(final(out)@ =~= old(out)@ + encode_utf8(decimal(n as nat)));
}

/// The decimal digits of `n`, without sign or padding.
fn decimal_string(n: usize) -> (r: String)
    ensures
        r@ == decimal(n as nat),
{
    let mut digits: Vec<u8> = Vec::new();
    push_decimal(n, &mut digits);
    proof {
        assert(digits@ =~= encode_utf8(decimal(n as nat)));
        encode_utf8_valid_utf8(decimal(n as nat));
        encode_utf8_decode_utf8(decimal(n as nat));
    }
    string_from_utf8(digits).unwrap()
}

/// Where section `i`'s vertices start once sections are concatenated.
pub open spec fn vert_start(ms: Seq<KtSubMesh>, i: nat) -> int
    decreases i,
{
    if i == 0 {
        0
    } else {
        vert_start(ms, (i - 1) as nat) + ms[i - 1].verts@.len()
    }
}

/// Where section `i`'s triangles start once sections are concatenated.
pub open spec fn face_start(ms: Seq<KtSubMesh>, i: nat) -> int
    decreases i,
{
    if i == 0 {
        0
    } else {
        face_start(ms, (i - 1) as nat) + ms[i - 1].face@.len()
    }
}

/// The global bone of local index `l` under `table`.
pub open spec fn global_bone(table: Seq<u16>, l: u8) -> i32 {
    table[l as int] as i32
}

/// The output vertex: position and normal kept, the four local indices
/// resolved through `table`, the stored weights behind the derived first one.
pub open spec fn vertex_out(v: KtVertex, table: Seq<u16>, d: DerivedVertex) -> Vertex {
    Vertex {
        pos: v.pos,
        nrm: v.norm,
        uv: d.uv,
        weight: VertexWeight::Four(
            Int4 {
                x: global_bone(table, v.bone_index@[0]),
                y: global_bone(table, v.bone_index@[1]),
                z: global_bone(table, v.bone_index@[2]),
                w: global_bone(table, v.bone_index@[3]),
            },
            Float4 { x: d.first_weight, y: v.bone_weight.x, z: v.bone_weight.y, w: v.bone_weight.z },
        ),
        edge_scale: ONE,
    }
}

/// Section `i`'s batch has a table, and it covers every local index used.
pub open spec fn remap_ok(m: KTModel, i: int) -> bool {
    &&& m.batch_of_mesh@[i] < m.remap_tables@.len()
    &&& forall|j: int, k: int|
        0 <= j < m.meshs@[i].verts@.len() && 0 <= k < 4 ==> (#[trigger] m.meshs@[i].verts@[j].bone_index@[k])
            < m.remap_tables@[m.batch_of_mesh@[i] as int]@.len()
}

/// Section `i`'s triangle indices still fit in 32 bits once offset.
pub open spec fn faces_fit(m: KTModel, i: int) -> bool {
    forall|j: int, c: int|
        0 <= j < m.meshs@[i].face@.len() && 0 <= c < 3 ==> (#[trigger] m.meshs@[i].face@[j]@[c]) + vert_start(
            m.meshs@,
            i as nat,
        ) <= u32::MAX
}

/// The model can be assembled with `n` derived vertex values.
pub open spec fn assemble_ok(m: KTModel, n: int) -> bool {
    &&& m.bone_pos@.len() == m.bone_names@.len()
    &&& m.bone_parent@.len() == m.bone_names@.len()
    &&& m.batch_of_mesh@.len() == m.meshs@.len()
    &&& n == vert_start(m.meshs@, m.meshs@.len())
    &&& forall|i: int| 0 <= i < m.meshs@.len() ==> #[trigger] remap_ok(m, i)
    &&& forall|i: int| 0 <= i < m.meshs@.len() ==> #[trigger] faces_fit(m, i)
}

/// `p` is the document assembled from `m`, `derived` and `path`.
pub open spec fn assembled(m: KTModel, derived: Seq<DerivedVertex>, path: Seq<char>, p: Pmx) -> bool {
    let ms = m.meshs@;
    &&& p.name@ == seq!['k', 't', 'm', 'd', 'l'] && p.name_en@ == seq!['k', 't', 'm', 'd', 'l']
    &&& p.comment@ == path && p.comment_en@ == path
    &&& p.verts@.len() == vert_start(ms, ms.len())
    &&& forall|i: int, j: int|
        #![trigger ms[i].verts@[j]]
        0 <= i < ms.len() && 0 <= j < ms[i].verts@.len() ==> p.verts@[vert_start(ms, i as nat) + j]
            == vertex_out(
            ms[i].verts@[j],
            m.remap_tables@[m.batch_of_mesh@[i] as int]@,
            derived[vert_start(ms, i as nat) + j],
        )
    &&& p.faces@.len() == face_start(ms, ms.len())
    &&& forall|i: int, j: int, c: int|
        #![trigger ms[i].face@[j]@[c]]
        0 <= i < ms.len() && 0 <= j < ms[i].face@.len() && 0 <= c < 3 ==> p.faces@[face_start(
            ms,
            i as nat,
        ) + j]@[c] == ms[i].face@[j]@[c] + vert_start(ms, i as nat)
    &&& p.mats@.len() == ms.len()
    &&& forall|i: int|
        0 <= i < ms.len() ==> {
            let mat = #[trigger] p.mats@[i];
            &&& mat.name@ == decimal(i as nat)
            &&& mat.associated_face_count == ms[i].face@.len() as u32
            &&& placeholder_look(mat)
        }
    &&& p.bones@.len() == m.bone_names@.len()
    &&& forall|i: int|
        0 <= i < m.bone_names@.len() ==> {
            let b = #[trigger] p.bones@[i];
            &&& b.name == m.bone_names@[i] && b.name_en == m.bone_names@[i]
            &&& b.pos == m.bone_pos@[i] && b.parent_index == m.bone_parent@[i]
            &&& plain_bone(b)
        }
    &&& p.texs@.len() == 0 && p.iks@.len() == 0 && p.morphs@.len() == 0
    &&& p.rigidbodys@.len() == 0 && p.joints@.len() == 0
}

} // verus!

verus! {

proof fn lemma_vert_start_mono(ms: Seq<KtSubMesh>, a: nat, b: nat)
    requires
        a <= b <= ms.len(),
    ensures
        vert_start(ms, a) <= vert_start(ms, b),
    decreases b - a,
{
    if a < b {
        lemma_vert_start_mono(ms, a, (b - 1) as nat);
    }
}

proof fn lemma_face_start_mono(ms: Seq<KtSubMesh>, a: nat, b: nat)
    requires
        a <= b <= ms.len(),
    ensures
        face_start(ms, a) <= face_start(ms, b),
    decreases b - a,
{
    if a < b {
        lemma_face_start_mono(ms, a, (b - 1) as nat);
    }
}

/// Assembles the document: every section's vertices with their bone
/// indices resolved through the section's batch table and their derived
/// values from `derived` (in concatenated order), triangles offset past the
/// sections before, one placeholder material per section named by its
/// number, and one bone per name.
pub fn ktmodel_to_pmx(model: &KTModel, derived: &Vec<DerivedVertex>, save_path: &str) -> (r: Result<
    Pmx,
    ModelError,
>)
    ensures
        r is Ok <==> assemble_ok(*model, derived@.len() as int),
        r is Ok ==> assembled(*model, derived@, save_path@, r.unwrap()),
{
    let ghost ms = model.meshs@;
    if model.bone_pos.len() != model.bone_names.len() || model.bone_parent.len()
        != model.bone_names.len() || model.batch_of_mesh.len() != model.meshs.len() {
        return Err(ModelError::BoneCountMismatch);
    }
    let mut verts: Vec<Vertex> = Vec::new();
    let mut faces: Vec<[u32; 3]> = Vec::new();
    let mut mats: Vec<Mat> = Vec::new();
    let mut i: usize = 0;
    while i < model.meshs.len()
        invariant
            ms == model.meshs@,
            model.batch_of_mesh@.len() == ms.len(),
            i <= ms.len(),
            verts@.len() == vert_start(ms, i as nat),
            verts@.len() <= derived@.len(),
            faces@.len() == face_start(ms, i as nat),
            mats@.len() == i,
            forall|k: int| 0 <= k < i ==> #[trigger] remap_ok(*model, k),
            forall|k: int| 0 <= k < i ==> #[trigger] faces_fit(*model, k),
            forall|k: int, j: int|
                #![trigger ms[k].verts@[j]]
                0 <= k < i && 0 <= j < ms[k].verts@.len() ==> verts@[vert_start(ms, k as nat) + j]
                    == vertex_out(
                    ms[k].verts@[j],
                    model.remap_tables@[model.batch_of_mesh@[k] as int]@,
                    derived@[vert_start(ms, k as nat) + j],
                ),
            forall|k: int, j: int, c: int|
                #![trigger ms[k].face@[j]@[c]]
                0 <= k < i && 0 <= j < ms[k].face@.len() && 0 <= c < 3 ==> faces@[face_start(
                    ms,
                    k as nat,
                ) + j]@[c] == ms[k].face@[j]@[c] + vert_start(ms, k as nat),
            forall|k: int|
                0 <= k < i ==> {
                    let mat = #[trigger] mats@[k];
                    &&& mat.name@ == decimal(k as nat)
                    &&& mat.associated_face_count == ms[k].face@.len() as u32
                    &&& placeholder_look(mat)
                },
        decreases ms.len() - i,
    {
        let m = &model.meshs[i];
        let batch = model.batch_of_mesh[i];
        if batch >= model.remap_tables.len() {
            assert(!remap_ok(*model, i as int));
            return Err(ModelError::RemapOutOfRange);
        }
        let table = &model.remap_tables[batch];
        let vs = verts.len();
        let ghost vs_i = vert_start(ms, i as nat);
        let mut j: usize = 0;
        while j < m.verts.len()
            invariant
                ms == model.meshs@,
                i < ms.len(),
                *m == ms[i as int],
                batch == model.batch_of_mesh@[i as int],
                *table == model.remap_tables@[batch as int],
                batch < model.remap_tables@.len(),
                vs == vs_i,
                vs_i == vert_start(ms, i as nat),
                j <= m.verts@.len(),
                verts@.len() == vs + j,
                verts@.len() <= derived@.len(),
                forall|jj: int, c: int|
                    0 <= jj < j && 0 <= c < 4 ==> (#[trigger] m.verts@[jj].bone_index@[c]) < table@.len(),
                forall|k: int, jj: int|
                    #![trigger ms[k].verts@[jj]]
                    0 <= k < i && 0 <= jj < ms[k].verts@.len() ==> verts@[vert_start(ms, k as nat) + jj]
                        == vertex_out(
                        ms[k].verts@[jj],
                        model.remap_tables@[model.batch_of_mesh@[k] as int]@,
                        derived@[vert_start(ms, k as nat) + jj],
                    ),
                forall|jj: int|
                    0 <= jj < j ==> verts@[vs + jj] == vertex_out(
                        #[trigger] m.verts@[jj],
                        table@,
                        derived@[vs + jj],
                    ),
            decreases m.verts@.len() - j,
        {
            let v = m.verts[j];
            let mut g: [i32; 4] = [0, 0, 0, 0];
            let mut c: usize = 0;
            while c < 4
                invariant
                    c <= 4,
                    ms == model.meshs@,
                    i < ms.len(),
                    *m == ms[i as int],
                    j < m.verts@.len(),
                    v == m.verts@[j as int],
                    batch == model.batch_of_mesh@[i as int],
                    *table == model.remap_tables@[batch as int],
                    forall|cc: int| 0 <= cc < c ==> (v.bone_index@[cc] as int) < table@.len(),
                    forall|cc: int| 0 <= cc < c ==> g@[cc] == global_bone(table@, v.bone_index@[cc]),
                decreases 4 - c,
            {
                let l = v.bone_index[c] as usize;
                if l >= table.len() {
                    assert(!remap_ok(*model, i as int)) by {
                        assert(m.verts@[j as int].bone_index@[c as int] >= table@.len());
                    }
                    return Err(ModelError::RemapOutOfRange);
                }
                g[c] = table[l] as i32;
                c = c + 1;
            }
            let k = verts.len();
            if k >= derived.len() {
                proof {
                    lemma_vert_start_mono(ms, (i + 1) as nat, ms.len());
                }
                return Err(ModelError::VertexValuesMismatch);
            }
            let d = derived[k];
            let out = Vertex {
                pos: v.pos,
                nrm: v.norm,
                uv: d.uv,
                weight: VertexWeight::Four(
                    Int4 { x: g[0], y: g[1], z: g[2], w: g[3] },
                    Float4 { x: d.first_weight, y: v.bone_weight.x, z: v.bone_weight.y, w: v.bone_weight.z },
                ),
                edge_scale: ONE,
            };
            let ghost before = verts@;
            verts.push(out);
            proof {
                assert forall|k2: int, jj: int|
                    #![trigger ms[k2].verts@[jj]]
                    0 <= k2 < i && 0 <= jj < ms[k2].verts@.len() implies verts@[vert_start(ms, k2 as nat) + jj]
                        == vertex_out(
                        ms[k2].verts@[jj],
                        model.remap_tables@[model.batch_of_mesh@[k2] as int]@,
                        derived@[vert_start(ms, k2 as nat) + jj],
                    ) by {
                    lemma_vert_start_mono(ms, (k2 + 1) as nat, i as nat);
                    lemma_vert_start_mono(ms, 0, k2 as nat);
                    assert(vert_start(ms, (k2 + 1) as nat) == vert_start(ms, k2 as nat) + ms[k2].verts@.len());
                    assert(verts@[vert_start(ms, k2 as nat) + jj] == before[vert_start(ms, k2 as nat) + jj]);
                }
            }
            j = j + 1;
        }
        let fs = faces.len();
        let mut j: usize = 0;
        while j < m.face.len()
            invariant
                ms == model.meshs@,
                i < ms.len(),
                *m == ms[i as int],
                vs == vert_start(ms, i as nat),
                fs == face_start(ms, i as nat),
                j <= m.face@.len(),
                faces@.len() == fs + j,
                forall|jj: int, c: int|
                    0 <= jj < j && 0 <= c < 3 ==> (#[trigger] m.face@[jj]@[c]) + vs <= u32::MAX,
                forall|k: int, jj: int, c: int|
                    #![trigger ms[k].face@[jj]@[c]]
                    0 <= k < i && 0 <= jj < ms[k].face@.len() && 0 <= c < 3 ==> faces@[face_start(
                        ms,
                        k as nat,
                    ) + jj]@[c] == ms[k].face@[jj]@[c] + vert_start(ms, k as nat),
                forall|jj: int, c: int|
                    0 <= jj < j && 0 <= c < 3 ==> faces@[fs + jj]@[c] == (#[trigger] m.face@[jj]@[c]) + vs,
            decreases m.face@.len() - j,
        {
            let f = m.face[j];
            let mut g: [u32; 3] = [0, 0, 0];
            let mut c: usize = 0;
            while c < 3
                invariant
                    c <= 3,
                    ms == model.meshs@,
                    i < ms.len(),
                    *m == ms[i as int],
                    j < m.face@.len(),
                    f == m.face@[j as int],
                    vs == vert_start(ms, i as nat),
                    forall|cc: int| 0 <= cc < c ==> f@[cc] + vs <= u32::MAX,
                    forall|cc: int| 0 <= cc < c ==> g@[cc] == f@[cc] + vs,
                decreases 3 - c,
            {
                if vs as u64 > u32::MAX as u64 || f[c] as u64 > u32::MAX as u64 - vs as u64 {
                    assert(!faces_fit(*model, i as int)) by {
                        assert(m.face@[j as int]@[c as int] + vs > u32::MAX);
                    }
                    return Err(ModelError::IndexOverflow);
                }
                g[c] = f[c] + vs as u32;
                c = c + 1;
            }
            let ghost before = faces@;
            faces.push(g);
            proof {
                assert forall|k2: int, jj: int, c: int|
                    #![trigger ms[k2].face@[jj]@[c]]
                    0 <= k2 < i && 0 <= jj < ms[k2].face@.len() && 0 <= c < 3 implies faces@[face_start(
                        ms,
                        k2 as nat,
                    ) + jj]@[c] == ms[k2].face@[jj]@[c] + vert_start(ms, k2 as nat) by {
                    lemma_face_start_mono(ms, (k2 + 1) as nat, i as nat);
                    lemma_face_start_mono(ms, 0, k2 as nat);
                    assert(face_start(ms, (k2 + 1) as nat) == face_start(ms, k2 as nat) + ms[k2].face@.len());
                    assert(faces@[face_start(ms, k2 as nat) + jj] == before[face_start(ms, k2 as nat) + jj]);
                }
            }
            j = j + 1;
        }
        let mut mat = Mat::default();
        mat.name = decimal_string(i);
        mat.associated_face_count = #[verifier::truncate] (m.face.len() as u32);
        mats.push(mat);
        i = i + 1;
    }
    if verts.len() != derived.len() {
        return Err(ModelError::VertexValuesMismatch);
    }
    let mut bones: Vec<Bone> = Vec::new();
    let mut i: usize = 0;
    while i < model.bone_names.len()
        invariant
            model.bone_pos@.len() == model.bone_names@.len(),
            model.bone_parent@.len() == model.bone_names@.len(),
            i <= model.bone_names@.len(),
            bones@.len() == i,
            forall|k: int|
                0 <= k < i ==> {
                    let b = #[trigger] bones@[k];
                    &&& b.name == model.bone_names@[k] && b.name_en == model.bone_names@[k]
                    &&& b.pos == model.bone_pos@[k] && b.parent_index == model.bone_parent@[k]
                    &&& plain_bone(b)
                },
        decreases model.bone_names@.len() - i,
    {
        let mut b = Bone::default();
        b.name = model.bone_names[i].clone();
        b.name_en = model.bone_names[i].clone();
        b.pos = model.bone_pos[i];
        b.parent_index = model.bone_parent[i];
        bones.push(b);
        i = i + 1;
    }
    proof {
        reveal_strlit("ktmdl");
    }
    let name = "ktmdl".to_owned();
    assert(name@ =~= seq!['k', 't', 'm', 'd', 'l']);
    Ok(Pmx {
        name: name.clone(),
        name_en: name,
        comment: save_path.to_owned(),
        comment_en: save_path.to_owned(),
        verts,
        faces,
        texs: Vec::new(),
        mats,
        bones,
        iks: Vec::new(),
        morphs: Vec::new(),
        rigidbodys: Vec::new(),
        joints: Vec::new(),
    })
}

} // verus!

verus! {

/// The global bone that the stored remap table of batch `t` gives for local
/// index `l`.
pub open spec fn stored_global(s: Seq<u8>, t: int, l: u8) -> i32 {
    u16_le(s, starts_from(s, all_batches(s), table_ptr(s), t as nat) + 2 * l) as u16 as i32
}

/// Across parsing and assembly: each bone slot of vertex `j` of section `i`
/// holds the global bone that the blob's remap table for the section's batch
/// stores at the slot's local index.
pub proof fn lemma_vertex_bones_from_blob(
    s: Seq<u8>,
    names: Seq<String>,
    m: KTModel,
    derived: Seq<DerivedVertex>,
    path: Seq<char>,
    p: Pmx,
    i: int,
    j: int,
)
    requires
        parsed_as(s, names, m),
        assemble_ok(m, derived.len() as int),
        assembled(m, derived, path, p),
        0 <= i < m.meshs@.len(),
        0 <= j < m.meshs@[i].verts@.len(),
    ensures
        ({
            let v = m.meshs@[i].verts@[j];
            let t = m.batch_of_mesh@[i] as int;
            p.verts@[vert_start(m.meshs@, i as nat) + j].weight is Four && p.verts@[vert_start(
                m.meshs@,
                i as nat,
            ) + j].weight->Four_0 == Int4 {
                x: stored_global(s, t, v.bone_index@[0]),
                y: stored_global(s, t, v.bone_index@[1]),
                z: stored_global(s, t, v.bone_index@[2]),
                w: stored_global(s, t, v.bone_index@[3]),
            }
        }),
{
    let ms = m.meshs@;
    let v = ms[i].verts@[j];
    let t = m.batch_of_mesh@[i] as int;
    assert(remap_ok(m, i));
    let table = m.remap_tables@[t]@;
    assert forall|k: int| 0 <= k < 4 implies global_bone(table, #[trigger] v.bone_index@[k])
        == stored_global(s, t, v.bone_index@[k]) by {
        assert(ms[i].verts@[j].bone_index@[k] < table.len());
        assert(m.remap_tables@[t]@[v.bone_index@[k] as int] == u16_le(
            s,
            starts_from(s, all_batches(s), table_ptr(s), t as nat) + 2 * v.bone_index@[k],
        ) as u16);
    }
    assert(p.verts@[vert_start(ms, i as nat) + j] == vertex_out(
        v,
        table,
        derived[vert_start(ms, i as nat) + j],
    ));
}

} // verus!
