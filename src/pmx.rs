//! The PMX interchange document: its data model, the encoder, and the
//! compatibility passes that need no floating-point arithmetic.
//!
//! Every single-precision value is held as its IEEE 754 bit pattern, so that
//! each value is carried through reading, writing and sign changes exactly.
use vstd::prelude::*;
use crate::bytes::{le16, le32, le32i, lemma_le32_len, lemma_le16_len};
use crate::wire::{enc_all, enc_text, lemma_enc_all_step, put_u8, put_u16, put_u32, put_i32, write_string};

verus! {

broadcast use {lemma_le32_len, lemma_le16_len};

/// Two single-precision values, as bit patterns.
#[derive(Debug, Clone, Copy, PartialEq, Eq, Structural)]
pub struct Float2 {
    pub x: u32,
    pub y: u32,
}

/// Three single-precision values, as bit patterns.
#[derive(Debug, Clone, Copy, PartialEq, Eq, Structural)]
pub struct Float3 {
    pub x: u32,
    pub y: u32,
    pub z: u32,
}

/// Four single-precision values, as bit patterns.
#[derive(Debug, Clone, Copy, PartialEq, Eq, Structural)]
pub struct Float4 {
    pub x: u32,
    pub y: u32,
    pub z: u32,
    pub w: u32,
}

/// Four signed integers (bone indices).
#[derive(Debug, Clone, Copy, PartialEq, Eq, Structural)]
pub struct Int4 {
    pub x: i32,
    pub y: i32,
    pub z: i32,
    pub w: i32,
}

/// Bit pattern of 1.0.
pub const ONE: u32 = 0x3F80_0000;

/// Bit pattern of 2.0, the document version.
pub const VERSION_TWO: u32 = 0x4000_0000;

/// The sign bit of a single-precision value.
pub const SIGN_BIT: u32 = 0x8000_0000;

/// Draw flag: back faces are drawn.
pub const NO_CULL: u8 = 0x01;

/// Bone flags.
pub const INDEXED_TAIL_BONE: u16 = 0x0001;
pub const ROTATABLE: u16 = 0x0002;
pub const TRANSLATABLE: u16 = 0x0004;
pub const VISIBLE: u16 = 0x0008;
pub const ENABLED: u16 = 0x0010;
pub const IK: u16 = 0x0020;
pub const INHERIT_ROTATION: u16 = 0x0100;
pub const INHERIT_TRANSLATION: u16 = 0x0200;
pub const FIXED_AXIS: u16 = 0x0400;
pub const LOCAL_AXIS: u16 = 0x0800;
pub const PHYSICS_AFTER_DEFORM: u16 = 0x1000;
pub const EXTERNAL_PARENT: u16 = 0x2000;

/// Every bone flag that has a meaning.
pub const KNOWN_BONE_FLAGS: u16 = 0x3F3F;

#[derive(Debug, Clone, Copy, PartialEq, Eq, Structural)]
pub enum VertexWeight {
    One(i32),
    Two(i32, i32, u32),
    Four(Int4, Float4),
    Sphere(i32, i32, u32, Float3, Float3, Float3),
    Quat(Int4, Float4),
}

#[derive(Debug, Clone, Copy, PartialEq, Eq, Structural)]
pub struct Vertex {
    pub pos: Float3,
    pub nrm: Float3,
    pub uv: Float2,
    pub weight: VertexWeight,
    pub edge_scale: u32,
}

#[derive(Debug, Clone, Copy, PartialEq, Eq, Structural)]
pub enum Toon {
    Tex(i32),
    Inner(u8),
}

#[derive(Debug, Clone, Copy, PartialEq, Eq, Structural)]
pub enum BlendMode {
    Disable,
    Mul,
    Add,
    Other,
}

#[derive(Debug, Clone)]
pub struct Mat {
    pub name: String,
    pub name_en: String,
    pub diffuse: Float4,
    pub specular: Float3,
    pub specular_strength: u32,
    pub ambient: Float3,
    pub draw_flag: u8,
    pub edge_color: Float4,
    pub edge_scale: u32,
    pub tex_index: i32,
    pub env_index: i32,
    pub env_blend_mode: BlendMode,
    pub toon: Toon,
    pub comment: String,
    pub associated_face_count: u32,
}

#[derive(Debug, Clone, Copy, PartialEq, Eq, Structural)]
pub enum BoneTailPos {
    Bone(i32),
    Pos(Float3),
}

#[derive(Debug, Clone)]
pub struct Bone {
    pub name: String,
    pub name_en: String,
    pub pos: Float3,
    pub parent_index: Option<usize>,
    pub layer: i32,
    pub bone_flags: u16,
    pub bone_tail_pos: BoneTailPos,
    pub inherit: Option<(i32, u32)>,
    pub fixed_axis: Option<Float3>,
    pub local_axis: Option<(Float3, Float3)>,
    pub external_parent: Option<i32>,
}

#[derive(Debug, Clone)]
pub struct Ik {
    pub bone: i32,
    pub effector: i32,
    pub loop_count: i32,
    pub limit_angle: u32,
    pub ik_joints: Vec<IkJoint>,
}

#[derive(Debug, Clone, Copy)]
pub struct IkJoint {
    pub bone: i32,
    pub limit: Option<(Float3, Float3)>,
}

#[derive(Debug, Clone)]
pub struct Joint {
    pub name: String,
    pub name_en: String,
    pub category: u8,
    pub rigidbody_a: i32,
    pub rigidbody_b: i32,
    pub pos: Float3,
    pub rot: Float3,
    pub pos_min: Float3,
    pub pos_max: Float3,
    pub rot_min: Float3,
    pub rot_max: Float3,
    pub pos_spring: Float3,
    pub rot_spring: Float3,
}

#[derive(Debug, Clone, Copy, PartialEq, Eq, Structural)]
pub enum RigidbodyShape {
    Shpere,
    Box,
    Capsule,
}

#[derive(Debug, Clone, Copy, PartialEq, Eq, Structural)]
pub enum RigidbodyMode {
    Kinematics,
    Dynamics,
    DynamicsPassRotation,
}

#[derive(Debug, Clone)]
pub struct Rigidbody {
    pub name: String,
    pub name_en: String,
    pub bone: i32,
    pub group: u8,
    pub collision_group: u16,
    pub shape: RigidbodyShape,
    pub size: Float3,
    pub pos: Float3,
    pub rot: Float3,
    pub mass: u32,
    pub linear_damping: u32,
    pub angular_damping: u32,
    pub restitution: u32,
    pub friction: u32,
    pub mode: RigidbodyMode,
}

#[derive(Debug, Clone, Copy, PartialEq, Eq, Structural)]
pub enum DisplayFrameIndex {
    Bone(u32),
    Morph(u32),
}

#[derive(Debug, Clone)]
pub struct DisplayFrame {
    pub name: String,
    pub name_en: String,
    pub deletable: bool,
    pub morph_items: Vec<DisplayFrameIndex>,
}

#[derive(Debug, Clone)]
pub struct MorphInfo {
    pub name: String,
    pub name_en: String,
    pub panel: i8,
    pub category: i8,
}

#[derive(Debug, Clone)]
pub enum Morph {
    Group(Vec<MorphGroupItem>),
    Flip(Vec<MorphFlipItem>),
    Vertex(Vec<MorphVertexItem>),
    Bone(Vec<MorphBoneItem>),
    Uv(Vec<MorphUvItem>),
    Rigidbody(Vec<MorphRigidbodyItem>),
    Mat(Vec<MorphMatItem>),
}

#[derive(Debug, Clone, Copy, PartialEq, Eq, Structural)]
pub struct MorphGroupItem {
    pub index: u32,
    pub affect: u32,
}

#[derive(Debug, Clone, Copy, PartialEq, Eq, Structural)]
pub struct MorphFlipItem {
    pub index: u32,
    pub affect: u32,
}

#[derive(Debug, Clone, Copy, PartialEq, Eq, Structural)]
pub struct MorphVertexItem {
    pub index: u32,
    pub trans: Float3,
}

#[derive(Debug, Clone, Copy, PartialEq, Eq, Structural)]
pub struct MorphBoneItem {
    pub index: u32,
    pub trans: Float3,
    pub rot: Float4,
}

#[derive(Debug, Clone, Copy, PartialEq, Eq, Structural)]
pub struct MorphUvItem {
    pub index: u32,
    pub trans: Float4,
}

#[derive(Debug, Clone, Copy, PartialEq, Eq, Structural)]
pub struct MorphRigidbodyItem {
    pub index: u32,
    pub local: bool,
    pub trans_speed: Float3,
    pub rot_torque: Float3,
}

#[derive(Debug, Clone, Copy, PartialEq, Eq, Structural)]
pub struct MorphMatItem {
    pub index: u32,
    pub blend_mode: BlendMode,
    pub diffuse: Float4,
    pub specular: Float3,
    pub specularity: u32,
    pub ambient: Float3,
    pub edge_color: Float4,
    pub edge_size: u32,
    pub texture_tint: Float4,
    pub environment_tint: Float4,
    pub toon_tint: Float4,
}

#[derive(Debug, Clone)]
pub struct Pmx {
    pub name: String,
    pub name_en: String,
    pub comment: String,
    pub comment_en: String,
    pub verts: Vec<Vertex>,
    pub faces: Vec<[u32; 3]>,
    pub texs: Vec<String>,
    pub mats: Vec<Mat>,
    pub bones: Vec<Bone>,
    pub iks: Vec<Ik>,
    pub morphs: Vec<MorphInfo>,
    pub rigidbodys: Vec<Rigidbody>,
    pub joints: Vec<Joint>,
}

} // verus!

verus! {

pub open spec fn enc_f2(v: Float2) -> Seq<u8> {
    le32(v.x) + le32(v.y)
}

pub open spec fn enc_f3(v: Float3) -> Seq<u8> {
    le32(v.x) + le32(v.y) + le32(v.z)
}

pub open spec fn enc_f4(v: Float4) -> Seq<u8> {
    le32(v.x) + le32(v.y) + le32(v.z) + le32(v.w)
}

pub open spec fn enc_i4(v: Int4) -> Seq<u8> {
    le32i(v.x) + le32i(v.y) + le32i(v.z) + le32i(v.w)
}

/// A weight record: its variant tag, then its fields, with 4-byte bone
/// indices.
pub open spec fn enc_weight(w: VertexWeight) -> Seq<u8> {
    match w {
        VertexWeight::One(a) => seq![0u8] + le32i(a),
        VertexWeight::Two(a, b, t) => seq![1u8] + le32i(a) + le32i(b) + le32(t),
        VertexWeight::Four(i, v) => seq![2u8] + enc_i4(i) + enc_f4(v),
        VertexWeight::Sphere(a, b, t, c, r0, r1) => seq![3u8] + le32i(a) + le32i(b) + le32(t)
            + enc_f3(c) + enc_f3(r0) + enc_f3(r1),
        VertexWeight::Quat(i, v) => seq![4u8] + enc_i4(i) + enc_f4(v),
    }
}

pub open spec fn enc_vertex(v: Vertex) -> Seq<u8> {
    enc_f3(v.pos) + enc_f3(v.nrm) + enc_f2(v.uv) + enc_weight(v.weight) + le32(v.edge_scale)
}

pub open spec fn enc_face(f: [u32; 3]) -> Seq<u8> {
    le32(f@[0]) + le32(f@[1]) + le32(f@[2])
}

pub open spec fn vertex_enc() -> spec_fn(Vertex) -> Seq<u8> {
    |v: Vertex| enc_vertex(v)
}

pub open spec fn face_enc() -> spec_fn([u32; 3]) -> Seq<u8> {
    |f: [u32; 3]| enc_face(f)
}

pub open spec fn mat_enc() -> spec_fn(Mat) -> Seq<u8> {
    |m: Mat| enc_mat(m)
}

pub open spec fn bone_enc() -> spec_fn(Bone) -> Seq<u8> {
    |b: Bone| enc_bone(b)
}

/// The vertex section: count, then each vertex.
pub open spec fn enc_verts(verts: Seq<Vertex>) -> Seq<u8> {
    le32(verts.len() as u32) + enc_all(verts, vertex_enc())
}

/// The face section: the number of indices, then each triangle.
pub open spec fn enc_faces(faces: Seq<[u32; 3]>) -> Seq<u8> {
    le32((3 * faces.len()) as u32) + enc_all(faces, face_enc())
}

pub open spec fn blend_code(b: BlendMode) -> u8 {
    match b {
        BlendMode::Disable => 0,
        BlendMode::Mul => 1,
        BlendMode::Add => 2,
        BlendMode::Other => 3,
    }
}

pub open spec fn enc_toon(t: Toon) -> Seq<u8> {
    match t {
        Toon::Tex(i) => seq![0u8] + le32i(i),
        Toon::Inner(i) => seq![1u8, i],
    }
}

pub open spec fn enc_mat(m: Mat) -> Seq<u8> {
    enc_text(m.name@) + enc_text(m.name_en@) + enc_mat_colors(m) + enc_mat_refs(m)
}

/// Colours, specular strength, draw flags and edge of a material.
pub open spec fn enc_mat_colors(m: Mat) -> Seq<u8> {
    enc_f4(m.diffuse) + enc_f3(m.specular) + le32(m.specular_strength) + enc_f3(m.ambient) + seq![
        m.draw_flag,
    ] + enc_f4(m.edge_color) + le32(m.edge_scale)
}

/// Texture references, blend mode, toon, comment and index count of a
/// material.
pub open spec fn enc_mat_refs(m: Mat) -> Seq<u8> {
    le32i(m.tex_index) + le32i(m.env_index) + seq![blend_code(m.env_blend_mode)] + enc_toon(m.toon)
        + enc_text(m.comment@) + le32((m.associated_face_count * 3) as u32)
}

/// The placeholder material: named "Mat", white, culling off, standard
/// blending, no textures, default toon; only its triangle count varies.
pub open spec fn is_default_mat(m: Mat) -> bool {
    &&& m.name@ == seq!['M', 'a', 't']
    &&& placeholder_look(m)
}

/// Every field of the placeholder material but its name and triangle count.
pub open spec fn placeholder_look(m: Mat) -> bool {
    &&& m.name_en@ == seq!['M', 'a', 't']
    &&& m.diffuse == Float4 { x: ONE, y: ONE, z: ONE, w: ONE }
    &&& m.specular == Float3 { x: 0, y: 0, z: 0 }
    &&& m.specular_strength == 0x40A0_0000
    &&& m.ambient == Float3 { x: ONE, y: ONE, z: ONE }
    &&& m.draw_flag == NO_CULL
    &&& m.edge_color == Float4 { x: 0, y: 0, z: 0, w: ONE }
    &&& m.edge_scale == ONE
    &&& m.tex_index == -1i32
    &&& m.env_index == -1i32
    &&& m.env_blend_mode == BlendMode::Mul
    &&& m.toon == Toon::Tex(-1i32)
    &&& m.comment@ == Seq::<char>::empty()
}

/// The default bone: "センター" / "center" at the origin, a root, with no
/// flags and an explicit zero tail.
pub open spec fn is_default_bone(b: Bone) -> bool {
    &&& b.name@ == seq!['\u{30BB}', '\u{30F3}', '\u{30BF}', '\u{30FC}']
    &&& b.name_en@ == seq!['c', 'e', 'n', 't', 'e', 'r']
    &&& b.pos == Float3 { x: 0, y: 0, z: 0 }
    &&& b.parent_index is None
    &&& plain_bone(b)
}

/// A bone with no layer, no flags, an explicit zero tail, and no inherited
/// transform, axes or external parent.
pub open spec fn plain_bone(b: Bone) -> bool {
    &&& b.layer == 0
    &&& b.bone_flags == 0
    &&& b.bone_tail_pos == BoneTailPos::Pos(Float3 { x: 0, y: 0, z: 0 })
    &&& b.inherit is None
    &&& b.fixed_axis is None
    &&& b.local_axis is None
    &&& b.external_parent is None
}

/// The parent field: the index, or -1 for a root.
pub open spec fn parent_code(p: Option<usize>) -> i32 {
    match p {
        Some(i) => i as i32,
        None => -1i32,
    }
}

/// The flags written for a bone: its indexed-tail flag, and the rotatable,
/// translatable, visible and enabled flags always.
pub open spec fn written_bone_flags(f: u16) -> u16 {
    (f & INDEXED_TAIL_BONE) | ROTATABLE | TRANSLATABLE | VISIBLE | ENABLED
}

pub open spec fn enc_tail(t: BoneTailPos) -> Seq<u8> {
    match t {
        BoneTailPos::Bone(i) => le32i(i),
        BoneTailPos::Pos(p) => enc_f3(p),
    }
}

pub open spec fn enc_bone(b: Bone) -> Seq<u8> {
    enc_text(b.name@) + enc_text(b.name_en@) + enc_f3(b.pos) + le32i(parent_code(b.parent_index))
        + le32i(b.layer) + le16(written_bone_flags(b.bone_flags)) + enc_tail(b.bone_tail_pos)
}

/// The material section: nothing for a model without faces; else the
/// materials, or one placeholder that covers every face.
pub open spec fn enc_mats(mats: Seq<Mat>, n_faces: nat) -> Seq<u8> {
    if n_faces == 0 {
        le32(0)
    } else if mats.len() == 0 {
        le32(1) + enc_default_mat(n_faces as u32)
    } else {
        le32(mats.len() as u32) + enc_all(mats, mat_enc())
    }
}

/// The placeholder material covering `faces` triangles.
pub open spec fn enc_default_mat(faces: u32) -> Seq<u8> {
    enc_text(seq!['M', 'a', 't']) + enc_text(seq!['M', 'a', 't']) + (enc_f4(
        Float4 { x: ONE, y: ONE, z: ONE, w: ONE },
    ) + enc_f3(Float3 { x: 0, y: 0, z: 0 }) + le32(0x40A0_0000) + enc_f3(
        Float3 { x: ONE, y: ONE, z: ONE },
    ) + seq![NO_CULL] + enc_f4(Float4 { x: 0, y: 0, z: 0, w: ONE }) + le32(ONE)) + (le32i(-1i32)
        + le32i(-1i32) + seq![1u8] + enc_toon(Toon::Tex(-1i32)) + enc_text(Seq::empty()) + le32(
        (faces * 3) as u32,
    ))
}

/// The bone section: the bones, or the default bone alone.
pub open spec fn enc_bones(bones: Seq<Bone>) -> Seq<u8> {
    if bones.len() == 0 {
        le32(1) + enc_default_bone()
    } else {
        le32(bones.len() as u32) + enc_all(bones, bone_enc())
    }
}

pub open spec fn enc_default_bone() -> Seq<u8> {
    enc_text(seq!['\u{30BB}', '\u{30F3}', '\u{30BF}', '\u{30FC}']) + enc_text(
        seq!['c', 'e', 'n', 't', 'e', 'r'],
    ) + enc_f3(Float3 { x: 0, y: 0, z: 0 }) + le32i(-1i32) + le32i(0i32) + le16(
        ROTATABLE | TRANSLATABLE | VISIBLE | ENABLED,
    ) + enc_f3(Float3 { x: 0, y: 0, z: 0 })
}

/// The two display frames: "Root" holding bone 0, and an empty "表情" / "Exp".
pub open spec fn enc_display_frames() -> Seq<u8> {
    le32(2) + enc_text(seq!['R', 'o', 'o', 't']) + enc_text(seq!['R', 'o', 'o', 't']) + seq![1u8]
        + le32i(1i32) + seq![0u8] + le32(0) + enc_text(seq!['\u{8868}', '\u{60C5}']) + enc_text(
        seq!['E', 'x', 'p'],
    ) + seq![1u8] + le32i(0i32)
}

/// The header: magic, version 2.0, and the field widths: UTF-8 text, no
/// extra UV channels, 4-byte indices of every kind.
pub open spec fn enc_header() -> Seq<u8> {
    seq![0x50u8, 0x4Du8, 0x58u8, 0x20u8] + le32(VERSION_TWO) + seq![
        8u8,
        1u8,
        0u8,
        4u8,
        4u8,
        4u8,
        4u8,
        4u8,
        4u8,
    ]
}

/// The document that `write` produces.
pub open spec fn pmx_bytes(p: Pmx) -> Seq<u8> {
    enc_header() + enc_text(p.name@) + enc_text(p.name_en@) + enc_text(p.comment@) + enc_text(
        p.comment_en@,
    ) + enc_verts(p.verts@) + enc_faces(p.faces@) + le32(0) + enc_mats(p.mats@, p.faces@.len())
        + enc_bones(p.bones@) + le32(0) + enc_display_frames() + le32(0) + le32(0)
}

} // verus!

verus! {


impl Default for Mat {
    fn default() -> (r: Self)
        ensures
            is_default_mat(r),
            r.associated_face_count == 0,
    {
        proof {
            reveal_strlit("Mat");
            reveal_strlit("");
        }
        let r = Mat {
            name: "Mat".to_owned(),
            name_en: "Mat".to_owned(),
            diffuse: Float4 { x: ONE, y: ONE, z: ONE, w: ONE },
            specular: Float3 { x: 0, y: 0, z: 0 },
            specular_strength: 0x40A0_0000,
            ambient: Float3 { x: ONE, y: ONE, z: ONE },
            draw_flag: NO_CULL,
            edge_color: Float4 { x: 0, y: 0, z: 0, w: ONE },
            edge_scale: ONE,
            tex_index: -1,
            env_index: -1,
            env_blend_mode: BlendMode::Mul,
            toon: Toon::Tex(-1),
            comment: String::new(),
            associated_face_count: 0,
        };
        assert(r.name@ =~= seq!['M', 'a', 't']);
        assert(r.name_en@ =~= seq!['M', 'a', 't']);
        r
    }
}

impl Default for Bone {
    fn default() -> (r: Self)
        ensures
            is_default_bone(r),
    {
        proof {
            reveal_strlit("センター");
            reveal_strlit("center");
        }
        let r = Bone {
            name: "センター".to_owned(),
            name_en: "center".to_owned(),
            pos: Float3 { x: 0, y: 0, z: 0 },
            parent_index: None,
            layer: 0,
            bone_flags: 0,
            bone_tail_pos: BoneTailPos::Pos(Float3 { x: 0, y: 0, z: 0 }),
            inherit: None,
            fixed_axis: None,
            local_axis: None,
            external_parent: None,
        };
        assert(r.name@ =~= seq!['\u{30BB}', '\u{30F3}', '\u{30BF}', '\u{30FC}']);
        assert(r.name_en@ =~= seq!['c', 'e', 'n', 't', 'e', 'r']);
        r
    }
}

fn write_vec2f(out: &mut Vec<u8>, v: Float2)
    ensures
        final(out)@ == old(out)@ + enc_f2(v),
{
    put_u32(out, v.x);
    put_u32(out, v.y);
    assert(final(out)@ =~= old(out)@ + enc_f2(v));
}

fn write_vec3f(out: &mut Vec<u8>, v: Float3)
    ensures
        final(out)@ == old(out)@ + enc_f3(v),
{
    put_u32(out, v.x);
    put_u32(out, v.y);
    put_u32(out, v.z);
    assert(final(out)@ =~= old(out)@ + enc_f3(v));
}

fn write_vec4f(out: &mut Vec<u8>, v: Float4)
    ensures
        final(out)@ == old(out)@ + enc_f4(v),
{
    put_u32(out, v.x);
    put_u32(out, v.y);
    put_u32(out, v.z);
    put_u32(out, v.w);
    assert(final(out)@ =~= old(out)@ + enc_f4(v));
}

fn write_vec4i(out: &mut Vec<u8>, v: Int4)
    ensures
        final(out)@ == old(out)@ + enc_i4(v),
{
    put_i32(out, v.x);
    put_i32(out, v.y);
    put_i32(out, v.z);
    put_i32(out, v.w);
    assert(final(out)@ =~= old(out)@ + enc_i4(v));
}

fn write_weight(out: &mut Vec<u8>, w: VertexWeight)
    ensures
        final(out)@ == old(out)@ + enc_weight(w),
{
    match w {
        VertexWeight::One(a) => {
            put_u8(out, 0);
            put_i32(out, a);
        },
        VertexWeight::Two(a, b, t) => {
            put_u8(out, 1);
            put_i32(out, a);
            put_i32(out, b);
            put_u32(out, t);
        },
        VertexWeight::Four(i, v) => {
            put_u8(out, 2);
            write_vec4i(out, i);
            write_vec4f(out, v);
        },
        VertexWeight::Sphere(a, b, t, c, r0, r1) => {
            put_u8(out, 3);
            put_i32(out, a);
            put_i32(out, b);
            put_u32(out, t);
            write_vec3f(out, c);
            write_vec3f(out, r0);
            write_vec3f(out, r1);
        },
        VertexWeight::Quat(i, v) => {
            put_u8(out, 4);
            write_vec4i(out, i);
            write_vec4f(out, v);
        },
    }
    assert(final(out)@ =~= old(out)@ + enc_weight(w));
}

fn write_vertex(out: &mut Vec<u8>, v: &Vertex)
    ensures
        final(out)@ == old(out)@ + enc_vertex(*v),
{
    write_vec3f(out, v.pos);
    write_vec3f(out, v.nrm);
    write_vec2f(out, v.uv);
    write_weight(out, v.weight);
    put_u32(out, v.edge_scale);
    assert(final(out)@ =~= old(out)@ + enc_vertex(*v));
}

fn write_mat_colors(out: &mut Vec<u8>, m: &Mat)
    ensures
        final(out)@ == old(out)@ + enc_mat_colors(*m),
{
    write_vec4f(out, m.diffuse);
    write_vec3f(out, m.specular);
    put_u32(out, m.specular_strength);
    write_vec3f(out, m.ambient);
    put_u8(out, m.draw_flag);
    write_vec4f(out, m.edge_color);
    put_u32(out, m.edge_scale);
    assert(final(out)@ =~= old(out)@ + enc_mat_colors(*m));
}

fn write_mat_refs(out: &mut Vec<u8>, m: &Mat)
    ensures
        final(out)@ == old(out)@ + enc_mat_refs(*m),
{
    put_i32(out, m.tex_index);
    put_i32(out, m.env_index);
    let env_blend_mode: u8 = match m.env_blend_mode {
        BlendMode::Disable => 0,
        BlendMode::Mul => 1,
        BlendMode::Add => 2,
        BlendMode::Other => 3,
    };
    put_u8(out, env_blend_mode);
    match m.toon {
        Toon::Tex(i) => {
            put_u8(out, 0);
            put_i32(out, i);
        },
        Toon::Inner(i) => {
            put_u8(out, 1);
            put_u8(out, i);
        },
    }
    write_string(out, &m.comment);
    put_u32(out, ((m.associated_face_count as u64) * 3) as u32);
    assert(final(out)@ =~= old(out)@ + enc_mat_refs(*m));
}

fn write_mat(out: &mut Vec<u8>, m: &Mat)
    ensures
        final(out)@ == old(out)@ + enc_mat(*m),
{
    write_string(out, &m.name);
    write_string(out, &m.name_en);
    write_mat_colors(out, m);
    write_mat_refs(out, m);
    assert(final(out)@ =~= old(out)@ + enc_mat(*m));
}

fn write_bone(out: &mut Vec<u8>, b: &Bone)
    ensures
        final(out)@ == old(out)@ + enc_bone(*b),
{
    write_string(out, &b.name);
    write_string(out, &b.name_en);
    write_vec3f(out, b.pos);
    match b.parent_index {
        Some(p) => put_i32(out, p as i32),
        None => put_i32(out, -1),
    }
    put_i32(out, b.layer);
    let flags = (b.bone_flags & INDEXED_TAIL_BONE) | ROTATABLE | TRANSLATABLE | VISIBLE | ENABLED;
    put_u16(out, flags);
    match b.bone_tail_pos {
        BoneTailPos::Bone(bi) => put_i32(out, bi),
        BoneTailPos::Pos(pos) => write_vec3f(out, pos),
    }
    assert(final(out)@ =~= old(out)@ + enc_bone(*b));
}

impl Pmx {
    /// The document's bytes.
    pub fn write(&self) -> (r: Vec<u8>)
        ensures
            r@ == pmx_bytes(*self),
    {
        let mut out: Vec<u8> = Vec::new();
        put_u8(&mut out, 0x50);
        put_u8(&mut out, 0x4D);
        put_u8(&mut out, 0x58);
        put_u8(&mut out, 0x20);
        put_u32(&mut out, VERSION_TWO);
        put_u8(&mut out, 8);
        put_u8(&mut out, 1);
        put_u8(&mut out, 0);
        put_u8(&mut out, 4);
        put_u8(&mut out, 4);
        put_u8(&mut out, 4);
        put_u8(&mut out, 4);
        put_u8(&mut out, 4);
        put_u8(&mut out, 4);
        assert(out@ =~= enc_header());
        write_string(&mut out, &self.name);
        write_string(&mut out, &self.name_en);
        write_string(&mut out, &self.comment);
        write_string(&mut out, &self.comment_en);
        self.write_verts(&mut out);
        self.write_faces(&mut out);
        put_u32(&mut out, 0);
        self.write_mats(&mut out);
        self.write_bones(&mut out);
        put_u32(&mut out, 0);
        Self::write_display_frames(&mut out);
        put_u32(&mut out, 0);
        put_u32(&mut out, 0);
        assert(out@ =~= pmx_bytes(*self));
        out
    }

    fn write_verts(&self, out: &mut Vec<u8>)
        ensures
            final(out)@ == old(out)@ + enc_verts(self.verts@),
    {
        put_u32(out, #[verifier::truncate] (self.verts.len() as u32));
        let ghost mid = out@;
        let mut i: usize = 0;
        while i < self.verts.len()
            invariant
                i <= self.verts@.len(),
                out@ == mid + enc_all(self.verts@.take(i as int), vertex_enc()),
            decreases self.verts@.len() - i,
        {
            write_vertex(out, &self.verts[i]);
            proof {
                lemma_enc_all_step(self.verts@, i as int, vertex_enc());
            }
            i = i + 1;
            assert(out@ =~= mid + enc_all(self.verts@.take(i as int), vertex_enc()));
        }
        assert(self.verts@.take(i as int) =~= self.verts@);
        assert(final(out)@ =~= old(out)@ + enc_verts(self.verts@));
    }

    fn write_faces(&self, out: &mut Vec<u8>)
        ensures
            final(out)@ == old(out)@ + enc_faces(self.faces@),
    {
        put_u32(out, #[verifier::truncate] ((3 * (self.faces.len() as u128)) as u32));
        let ghost mid = out@;
        let mut i: usize = 0;
        while i < self.faces.len()
            invariant
                i <= self.faces@.len(),
                out@ == mid + enc_all(self.faces@.take(i as int), face_enc()),
            decreases self.faces@.len() - i,
        {
            let f = self.faces[i];
            put_u32(out, f[0]);
            put_u32(out, f[1]);
            put_u32(out, f[2]);
            proof {
                lemma_enc_all_step(self.faces@, i as int, face_enc());
            }
            i = i + 1;
            assert(out@ =~= mid + enc_all(self.faces@.take(i as int), face_enc()));
        }
        assert(self.faces@.take(i as int) =~= self.faces@);
        assert(final(out)@ =~= old(out)@ + enc_faces(self.faces@));
    }

    fn write_mats(&self, out: &mut Vec<u8>)
        ensures
            final(out)@ == old(out)@ + enc_mats(self.mats@, self.faces@.len()),
    {
        if self.faces.len() == 0 {
            put_u32(out, 0);
            return;
        }
        if self.mats.len() == 0 {
            let mut m = Mat::default();
            m.associated_face_count = #[verifier::truncate] (self.faces.len() as u32);
            put_u32(out, 1);
            write_mat(out, &m);
            assert(final(out)@ =~= old(out)@ + enc_mats(self.mats@, self.faces@.len()));
            return;
        }
        put_u32(out, #[verifier::truncate] (self.mats.len() as u32));
        let ghost mid = out@;
        let mut i: usize = 0;
        while i < self.mats.len()
            invariant
                i <= self.mats@.len(),
                out@ == mid + enc_all(self.mats@.take(i as int), mat_enc()),
            decreases self.mats@.len() - i,
        {
            write_mat(out, &self.mats[i]);
            proof {
                lemma_enc_all_step(self.mats@, i as int, mat_enc());
            }
            i = i + 1;
            assert(out@ =~= mid + enc_all(self.mats@.take(i as int), mat_enc()));
        }
        assert(self.mats@.take(i as int) =~= self.mats@);
        assert(final(out)@ =~= old(out)@ + enc_mats(self.mats@, self.faces@.len()));
    }

    fn write_bones(&self, out: &mut Vec<u8>)
        ensures
            final(out)@ == old(out)@ + enc_bones(self.bones@),
    {
        if self.bones.len() == 0 {
            let b = Bone::default();
            assert((0u16 & 0x0001u16) | 0x0002u16 | 0x0004u16 | 0x0008u16 | 0x0010u16 == 0x0002u16
                | 0x0004u16 | 0x0008u16 | 0x0010u16) by (bit_vector);
            put_u32(out, 1);
            write_bone(out, &b);
            assert(final(out)@ =~= old(out)@ + enc_bones(self.bones@));
            return;
        }
        put_u32(out, #[verifier::truncate] (self.bones.len() as u32));
        let ghost mid = out@;
        let mut i: usize = 0;
        while i < self.bones.len()
            invariant
                i <= self.bones@.len(),
                out@ == mid + enc_all(self.bones@.take(i as int), bone_enc()),
            decreases self.bones@.len() - i,
        {
            write_bone(out, &self.bones[i]);
            proof {
                lemma_enc_all_step(self.bones@, i as int, bone_enc());
            }
            i = i + 1;
            assert(out@ =~= mid + enc_all(self.bones@.take(i as int), bone_enc()));
        }
        assert(self.bones@.take(i as int) =~= self.bones@);
        assert(final(out)@ =~= old(out)@ + enc_bones(self.bones@));
    }

    fn write_display_frames(out: &mut Vec<u8>)
        ensures
            final(out)@ == old(out)@ + enc_display_frames(),
    {
        proof {
            reveal_strlit("Root");
            reveal_strlit("表情");
            reveal_strlit("Exp");
        }
        let root = "Root".to_owned();
        let expression = "表情".to_owned();
        let expression_en = "Exp".to_owned();
        assert(root@ =~= seq!['R', 'o', 'o', 't']);
        assert(expression@ =~= seq!['\u{8868}', '\u{60C5}']);
        assert(expression_en@ =~= seq!['E', 'x', 'p']);
        put_u32(out, 2);
        write_string(out, &root);
        write_string(out, &root);
        put_u8(out, 1);
        put_i32(out, 1);
        put_u8(out, 0);
        put_u32(out, 0);
        write_string(out, &expression);
        write_string(out, &expression_en);
        put_u8(out, 1);
        put_i32(out, 0);
        assert(final(out)@ =~= old(out)@ + enc_display_frames());
    }
}

} // verus!

verus! {

/// The sign-negated value: the sign bit flipped.
pub open spec fn neg(x: u32) -> u32 {
    x ^ SIGN_BIT
}

pub open spec fn flip_z(v: Float3) -> Float3 {
    Float3 { x: v.x, y: v.y, z: neg(v.z) }
}

pub open spec fn flip_xy(v: Float3) -> Float3 {
    Float3 { x: neg(v.x), y: neg(v.y), z: v.z }
}

/// A vertex mirrored in Z: position and normal.
pub open spec fn mirror_vertex(v: Vertex) -> Vertex {
    Vertex { pos: flip_z(v.pos), nrm: flip_z(v.nrm), ..v }
}

/// A triangle with its second and third corner swapped.
pub open spec fn rewound(a: [u32; 3], b: [u32; 3]) -> bool {
    b@ == seq![a@[0], a@[2], a@[1]]
}

pub open spec fn mirror_tail(t: BoneTailPos) -> BoneTailPos {
    match t {
        BoneTailPos::Pos(p) => BoneTailPos::Pos(flip_z(p)),
        BoneTailPos::Bone(i) => BoneTailPos::Bone(i),
    }
}

pub open spec fn mirror_axis(a: Option<Float3>) -> Option<Float3> {
    match a {
        Some(v) => Some(flip_z(v)),
        None => None,
    }
}

pub open spec fn mirror_axes(a: Option<(Float3, Float3)>) -> Option<(Float3, Float3)> {
    match a {
        Some((x, z)) => Some((flip_z(x), flip_z(z))),
        None => None,
    }
}

/// `b` is bone `a` mirrored in Z: position, explicit tail, fixed and local
/// axes.
pub open spec fn mirrored_bone(a: Bone, b: Bone) -> bool {
    b == Bone {
        pos: flip_z(a.pos),
        bone_tail_pos: mirror_tail(a.bone_tail_pos),
        fixed_axis: mirror_axis(a.fixed_axis),
        local_axis: mirror_axes(a.local_axis),
        ..a
    }
}

/// `b` is rigid body `a` mirrored: Z of its position, X and Y of its
/// rotation.
pub open spec fn mirrored_rigidbody(a: Rigidbody, b: Rigidbody) -> bool {
    b == Rigidbody { pos: flip_z(a.pos), rot: flip_xy(a.rot), ..a }
}

/// `b` is joint `a` mirrored: Z of its position, X and Y of its rotation.
pub open spec fn mirrored_joint(a: Joint, b: Joint) -> bool {
    b == Joint { pos: flip_z(a.pos), rot: flip_xy(a.rot), ..a }
}

/// `b` is `a` after the handedness conversion.
pub open spec fn right_handed(a: Pmx, b: Pmx) -> bool {
    &&& b.verts@ == a.verts@.map_values(|v: Vertex| mirror_vertex(v))
    &&& b.faces@.len() == a.faces@.len()
    &&& forall|k: int| 0 <= k < a.faces@.len() ==> rewound(a.faces@[k], #[trigger] b.faces@[k])
    &&& b.bones@.len() == a.bones@.len()
    &&& forall|k: int| 0 <= k < a.bones@.len() ==> mirrored_bone(a.bones@[k], #[trigger] b.bones@[k])
    &&& b.rigidbodys@.len() == a.rigidbodys@.len()
    &&& forall|k: int|
        0 <= k < a.rigidbodys@.len() ==> mirrored_rigidbody(
            a.rigidbodys@[k],
            #[trigger] b.rigidbodys@[k],
        )
    &&& b.joints@.len() == a.joints@.len()
    &&& forall|k: int|
        0 <= k < a.joints@.len() ==> mirrored_joint(a.joints@[k], #[trigger] b.joints@[k])
    &&& b.name == a.name
    &&& b.name_en == a.name_en
    &&& b.comment == a.comment
    &&& b.comment_en == a.comment_en
    &&& b.texs == a.texs
    &&& b.mats == a.mats
    &&& b.iks == a.iks
    &&& b.morphs == a.morphs
}

fn neg_bits(x: u32) -> (r: u32)
    ensures
        r == neg(x),
{
    x ^ SIGN_BIT
}

fn flip_z_exec(v: Float3) -> (r: Float3)
    ensures
        r == flip_z(v),
{
    Float3 { x: v.x, y: v.y, z: neg_bits(v.z) }
}

fn flip_xy_exec(v: Float3) -> (r: Float3)
    ensures
        r == flip_xy(v),
{
    Float3 { x: neg_bits(v.x), y: neg_bits(v.y), z: v.z }
}

fn placeholder_rigidbody() -> Rigidbody {
    let zero = Float3 { x: 0, y: 0, z: 0 };
    Rigidbody {
        name: String::new(),
        name_en: String::new(),
        bone: 0,
        group: 0,
        collision_group: 0,
        shape: RigidbodyShape::Shpere,
        size: zero,
        pos: zero,
        rot: zero,
        mass: 0,
        linear_damping: 0,
        angular_damping: 0,
        restitution: 0,
        friction: 0,
        mode: RigidbodyMode::Kinematics,
    }
}

fn placeholder_joint() -> Joint {
    let zero = Float3 { x: 0, y: 0, z: 0 };
    Joint {
        name: String::new(),
        name_en: String::new(),
        category: 0,
        rigidbody_a: 0,
        rigidbody_b: 0,
        pos: zero,
        rot: zero,
        pos_min: zero,
        pos_max: zero,
        rot_min: zero,
        rot_max: zero,
        pos_spring: zero,
        rot_spring: zero,
    }
}

impl Pmx {
    /// Converts between left- and right-handed coordinates: negates Z of
    /// every position, normal and axis, X and Y of every rotation, and swaps
    /// the second and third corner of every triangle.
    pub fn right_hand(&mut self)
        ensures
            right_handed(*old(self), *final(self)),
    {
        let ghost start = *self;
        let mut i: usize = 0;
        while i < self.verts.len()
            invariant
                i <= self.verts@.len(),
                self.verts@.len() == start.verts@.len(),
                forall|k: int| 0 <= k < i ==> self.verts@[k] == mirror_vertex(start.verts@[k]),
                forall|k: int| i <= k < self.verts@.len() ==> self.verts@[k] == start.verts@[k],
                self.faces == start.faces,
                self.bones == start.bones,
                self.rigidbodys == start.rigidbodys,
                self.joints == start.joints,
                self.name == start.name,
                self.name_en == start.name_en,
                self.comment == start.comment,
                self.comment_en == start.comment_en,
                self.texs == start.texs,
                self.mats == start.mats,
                self.iks == start.iks,
                self.morphs == start.morphs,
            decreases self.verts@.len() - i,
        {
            let mut v = self.verts[i];
            v.pos = flip_z_exec(v.pos);
            v.nrm = flip_z_exec(v.nrm);
            self.verts.set(i, v);
            i = i + 1;
        }
        assert(self.verts@ =~= start.verts@.map_values(|v: Vertex| mirror_vertex(v)));
        let mut i: usize = 0;
        while i < self.faces.len()
            invariant
                i <= self.faces@.len(),
                self.faces@.len() == start.faces@.len(),
                forall|k: int| 0 <= k < i ==> rewound(start.faces@[k], #[trigger] self.faces@[k]),
                forall|k: int| i <= k < self.faces@.len() ==> self.faces@[k] == start.faces@[k],
                self.verts@ == start.verts@.map_values(|v: Vertex| mirror_vertex(v)),
                self.bones == start.bones,
                self.rigidbodys == start.rigidbodys,
                self.joints == start.joints,
                self.name == start.name,
                self.name_en == start.name_en,
                self.comment == start.comment,
                self.comment_en == start.comment_en,
                self.texs == start.texs,
                self.mats == start.mats,
                self.iks == start.iks,
                self.morphs == start.morphs,
            decreases self.faces@.len() - i,
        {
            let f = self.faces[i];
            let g: [u32; 3] = [f[0], f[2], f[1]];
            assert(g@ =~= seq![f@[0], f@[2], f@[1]]);
            self.faces.set(i, g);
            i = i + 1;
        }
        let mut i: usize = 0;
        while i < self.bones.len()
            invariant
                i <= self.bones@.len(),
                self.bones@.len() == start.bones@.len(),
                forall|k: int|
                    0 <= k < i ==> mirrored_bone(start.bones@[k], #[trigger] self.bones@[k]),
                forall|k: int| i <= k < self.bones@.len() ==> self.bones@[k] == start.bones@[k],
                self.verts@ == start.verts@.map_values(|v: Vertex| mirror_vertex(v)),
                self.faces@.len() == start.faces@.len(),
                forall|k: int|
                    0 <= k < start.faces@.len() ==> rewound(start.faces@[k], #[trigger] self.faces@[k]),
                self.rigidbodys == start.rigidbodys,
                self.joints == start.joints,
                self.name == start.name,
                self.name_en == start.name_en,
                self.comment == start.comment,
                self.comment_en == start.comment_en,
                self.texs == start.texs,
                self.mats == start.mats,
                self.iks == start.iks,
                self.morphs == start.morphs,
            decreases self.bones@.len() - i,
        {
            let mut b = Bone::default();
            self.bones.set_and_swap(i, &mut b);
            b.pos = flip_z_exec(b.pos);
            b.bone_tail_pos = match b.bone_tail_pos {
                BoneTailPos::Pos(p) => BoneTailPos::Pos(flip_z_exec(p)),
                BoneTailPos::Bone(j) => BoneTailPos::Bone(j),
            };
            b.fixed_axis = match b.fixed_axis {
                Some(a) => Some(flip_z_exec(a)),
                None => None,
            };
            b.local_axis = match b.local_axis {
                Some((x, z)) => Some((flip_z_exec(x), flip_z_exec(z))),
                None => None,
            };
            self.bones.set_and_swap(i, &mut b);
            i = i + 1;
        }
        let mut i: usize = 0;
        while i < self.rigidbodys.len()
            invariant
                i <= self.rigidbodys@.len(),
                self.rigidbodys@.len() == start.rigidbodys@.len(),
                forall|k: int|
                    0 <= k < i ==> mirrored_rigidbody(
                        start.rigidbodys@[k],
                        #[trigger] self.rigidbodys@[k],
                    ),
                forall|k: int|
                    i <= k < self.rigidbodys@.len() ==> self.rigidbodys@[k] == start.rigidbodys@[k],
                self.verts@ == start.verts@.map_values(|v: Vertex| mirror_vertex(v)),
                self.faces@.len() == start.faces@.len(),
                forall|k: int|
                    0 <= k < start.faces@.len() ==> rewound(start.faces@[k], #[trigger] self.faces@[k]),
                self.bones@.len() == start.bones@.len(),
                forall|k: int|
                    0 <= k < start.bones@.len() ==> mirrored_bone(start.bones@[k], #[trigger] self.bones@[k]),
                self.joints == start.joints,
                self.name == start.name,
                self.name_en == start.name_en,
                self.comment == start.comment,
                self.comment_en == start.comment_en,
                self.texs == start.texs,
                self.mats == start.mats,
                self.iks == start.iks,
                self.morphs == start.morphs,
            decreases self.rigidbodys@.len() - i,
        {
            let mut r = placeholder_rigidbody();
            self.rigidbodys.set_and_swap(i, &mut r);
            r.pos = flip_z_exec(r.pos);
            r.rot = flip_xy_exec(r.rot);
            self.rigidbodys.set_and_swap(i, &mut r);
            i = i + 1;
        }
        let mut i: usize = 0;
        while i < self.joints.len()
            invariant
                i <= self.joints@.len(),
                self.joints@.len() == start.joints@.len(),
                forall|k: int|
                    0 <= k < i ==> mirrored_joint(start.joints@[k], #[trigger] self.joints@[k]),
                forall|k: int| i <= k < self.joints@.len() ==> self.joints@[k] == start.joints@[k],
                self.verts@ == start.verts@.map_values(|v: Vertex| mirror_vertex(v)),
                self.faces@.len() == start.faces@.len(),
                forall|k: int|
                    0 <= k < start.faces@.len() ==> rewound(start.faces@[k], #[trigger] self.faces@[k]),
                self.bones@.len() == start.bones@.len(),
                forall|k: int|
                    0 <= k < start.bones@.len() ==> mirrored_bone(start.bones@[k], #[trigger] self.bones@[k]),
                self.rigidbodys@.len() == start.rigidbodys@.len(),
                forall|k: int|
                    0 <= k < start.rigidbodys@.len() ==> mirrored_rigidbody(
                        start.rigidbodys@[k],
                        #[trigger] self.rigidbodys@[k],
                    ),
                self.name == start.name,
                self.name_en == start.name_en,
                self.comment == start.comment,
                self.comment_en == start.comment_en,
                self.texs == start.texs,
                self.mats == start.mats,
                self.iks == start.iks,
                self.morphs == start.morphs,
            decreases self.joints@.len() - i,
        {
            let mut j = placeholder_joint();
            self.joints.set_and_swap(i, &mut j);
            j.pos = flip_z_exec(j.pos);
            j.rot = flip_xy_exec(j.rot);
            self.joints.set_and_swap(i, &mut j);
            i = i + 1;
        }
    }
}

} // verus!

verus! {

/// Applying the handedness conversion twice gives back every vertex, bone,
/// rigid body and joint, and every triangle's original winding.
pub proof fn lemma_right_hand_twice(a: Pmx, b: Pmx, c: Pmx)
    requires
        right_handed(a, b),
        right_handed(b, c),
    ensures
        c.verts@ == a.verts@,
        c.faces@.len() == a.faces@.len(),
        forall|k: int| 0 <= k < a.faces@.len() ==> (#[trigger] c.faces@[k])@ == a.faces@[k]@,
        c.bones@ == a.bones@,
        c.rigidbodys@ == a.rigidbodys@,
        c.joints@ == a.joints@,
{
    assert forall|x: u32| neg(neg(x)) == x by {
        assert((x ^ 0x8000_0000u32) ^ 0x8000_0000u32 == x) by (bit_vector);
    }
    assert(c.verts@ =~= a.verts@);
    assert forall|k: int| 0 <= k < a.faces@.len() implies (#[trigger] c.faces@[k])@ == a.faces@[k]@ by {
        assert(rewound(b.faces@[k], c.faces@[k]));
        assert(c.faces@[k]@ =~= a.faces@[k]@);
    }
    assert forall|k: int| 0 <= k < a.bones@.len() implies #[trigger] c.bones@[k] == a.bones@[k] by {
        assert(mirrored_bone(b.bones@[k], c.bones@[k]));
    }
    assert(c.bones@ =~= a.bones@);
    assert forall|k: int| 0 <= k < a.rigidbodys@.len() implies #[trigger] c.rigidbodys@[k]
        == a.rigidbodys@[k] by {
        assert(mirrored_rigidbody(b.rigidbodys@[k], c.rigidbodys@[k]));
    }
    assert(c.rigidbodys@ =~= a.rigidbodys@);
    assert forall|k: int| 0 <= k < a.joints@.len() implies #[trigger] c.joints@[k] == a.joints@[k] by {
        assert(mirrored_joint(b.joints@[k], c.joints@[k]));
    }
    assert(c.joints@ =~= a.joints@);
}

/// The joints of a chain in reverse order.
pub open spec fn reversed_joints(s: Seq<IkJoint>) -> Seq<IkJoint> {
    Seq::new(s.len(), |j: int| s[s.len() - 1 - j])
}

impl Pmx {
    /// Reverses the order of the joints in every IK chain.
    pub fn reverse_ik_joints(&mut self)
        ensures
            final(self).iks@.len() == old(self).iks@.len(),
            forall|k: int|
                0 <= k < old(self).iks@.len() ==> {
                    let (a, b) = (old(self).iks@[k], #[trigger] final(self).iks@[k]);
                    &&& b.ik_joints@ == reversed_joints(a.ik_joints@)
                    &&& b.bone == a.bone && b.effector == a.effector
                    &&& b.loop_count == a.loop_count && b.limit_angle == a.limit_angle
                },
            final(self).verts == old(self).verts,
            final(self).faces == old(self).faces,
            final(self).bones == old(self).bones,
            final(self).mats == old(self).mats,
            final(self).texs == old(self).texs,
            final(self).morphs == old(self).morphs,
            final(self).rigidbodys == old(self).rigidbodys,
            final(self).joints == old(self).joints,
            final(self).name == old(self).name,
            final(self).name_en == old(self).name_en,
            final(self).comment == old(self).comment,
            final(self).comment_en == old(self).comment_en,
    {
        let ghost start = *self;
        let mut i: usize = 0;
        while i < self.iks.len()
            invariant
                i <= self.iks@.len(),
                self.iks@.len() == start.iks@.len(),
                forall|k: int|
                    0 <= k < i ==> {
                        let (a, b) = (start.iks@[k], #[trigger] self.iks@[k]);
                        &&& b.ik_joints@ == reversed_joints(a.ik_joints@)
                        &&& b.bone == a.bone && b.effector == a.effector
                        &&& b.loop_count == a.loop_count && b.limit_angle == a.limit_angle
                    },
                forall|k: int| i <= k < self.iks@.len() ==> self.iks@[k] == start.iks@[k],
                self.verts == start.verts,
                self.faces == start.faces,
                self.bones == start.bones,
                self.mats == start.mats,
                self.texs == start.texs,
                self.morphs == start.morphs,
                self.rigidbodys == start.rigidbodys,
                self.joints == start.joints,
                self.name == start.name,
                self.name_en == start.name_en,
                self.comment == start.comment,
                self.comment_en == start.comment_en,
            decreases self.iks@.len() - i,
        {
            let mut ik = Ik { bone: 0, effector: 0, loop_count: 0, limit_angle: 0, ik_joints: Vec::new() };
            self.iks.set_and_swap(i, &mut ik);
            let n = ik.ik_joints.len();
            let mut rev: Vec<IkJoint> = Vec::new();
            let mut j: usize = 0;
            while j < n
                invariant
                    n == ik.ik_joints@.len(),
                    j <= n,
                    rev@ == reversed_joints(ik.ik_joints@).take(j as int),
                decreases n - j,
            {
                rev.push(ik.ik_joints[n - 1 - j]);
                j = j + 1;
                assert(rev@ =~= reversed_joints(ik.ik_joints@).take(j as int));
            }
            assert(rev@ =~= reversed_joints(ik.ik_joints@));
            ik.ik_joints = rev;
            self.iks.set_and_swap(i, &mut ik);
            i = i + 1;
        }
    }
}

} // verus!

verus! {

/// The value is +0.0 or -0.0.
pub open spec fn is_zero(w: u32) -> bool {
    w & 0x7FFF_FFFF == 0
}

/// A single full influence of bone `i`.
pub open spec fn single(i: i32) -> VertexWeight {
    VertexWeight::Four(Int4 { x: i, y: -1i32, z: -1i32, w: -1i32 }, Float4 { x: ONE, y: 0, z: 0, w: 0 })
}

/// The blend of two bones by weight `t` on the first, with `c` the bit
/// pattern of `1 - t`.
pub open spec fn pair(i0: i32, i1: i32, t: u32, c: u32) -> VertexWeight {
    if is_zero(t) {
        single(i1)
    } else if t == ONE {
        single(i0)
    } else {
        VertexWeight::Four(Int4 { x: i0, y: i1, z: -1i32, w: -1i32 }, Float4 { x: t, y: c, z: 0, w: 0 })
    }
}

/// The unused slot marker for a zero weight.
pub open spec fn slot(i: i32, w: u32) -> i32 {
    if is_zero(w) {
        -1i32
    } else {
        i
    }
}

/// The four-bone form of a weight record: unused slots get index -1 and
/// weight 0; `c` is the bit pattern of one minus a two-bone weight.
pub open spec fn linear_weight(w: VertexWeight, c: u32) -> VertexWeight {
    match w {
        VertexWeight::One(i) => single(i),
        VertexWeight::Two(i0, i1, t) => pair(i0, i1, t, c),
        VertexWeight::Sphere(i0, i1, t, _, _, _) => pair(i0, i1, t, c),
        VertexWeight::Quat(i, v) => VertexWeight::Four(i, v),
        VertexWeight::Four(i, v) => VertexWeight::Four(
            Int4 { x: slot(i.x, v.x), y: slot(i.y, v.y), z: slot(i.z, v.z), w: slot(i.w, v.w) },
            v,
        ),
    }
}

/// A vertex with its weight record in the four-bone form.
pub open spec fn linearized(v: Vertex, c: u32) -> Vertex {
    Vertex { weight: linear_weight(v.weight, c), ..v }
}

fn is_zero_bits(w: u32) -> (r: bool)
    ensures
        r == is_zero(w),
{
    w & 0x7FFF_FFFF == 0
}

fn slot_exec(i: i32, w: u32) -> (r: i32)
    ensures
        r == slot(i, w),
{
    if is_zero_bits(w) {
        -1
    } else {
        i
    }
}

fn pair_exec(i0: i32, i1: i32, t: u32, c: u32) -> (r: VertexWeight)
    ensures
        r == pair(i0, i1, t, c),
{
    if is_zero_bits(t) {
        VertexWeight::Four(Int4 { x: i1, y: -1, z: -1, w: -1 }, Float4 { x: ONE, y: 0, z: 0, w: 0 })
    } else if t == ONE {
        VertexWeight::Four(Int4 { x: i0, y: -1, z: -1, w: -1 }, Float4 { x: ONE, y: 0, z: 0, w: 0 })
    } else {
        VertexWeight::Four(Int4 { x: i0, y: i1, z: -1, w: -1 }, Float4 { x: t, y: c, z: 0, w: 0 })
    }
}

impl Pmx {
    /// Rewrites every vertex's weight record in the four-bone form, total
    /// influence kept. `complements[k]` is the bit pattern of one minus
    /// vertex `k`'s two-bone weight (only read for two-bone and spherical
    /// records). Returns false, changing nothing, when the lengths differ.
    pub fn linear_four_weight(&mut self, complements: &Vec<u32>) -> (r: bool)
        ensures
            r == (complements@.len() == old(self).verts@.len()),
            r ==> final(self).verts@ == Seq::new(
                old(self).verts@.len(),
                |k: int| linearized(old(self).verts@[k], complements@[k]),
            ),
            !r ==> final(self).verts == old(self).verts,
            final(self).faces == old(self).faces,
            final(self).bones == old(self).bones,
            final(self).mats == old(self).mats,
            final(self).texs == old(self).texs,
            final(self).iks == old(self).iks,
            final(self).morphs == old(self).morphs,
            final(self).rigidbodys == old(self).rigidbodys,
            final(self).joints == old(self).joints,
            final(self).name == old(self).name,
            final(self).name_en == old(self).name_en,
            final(self).comment == old(self).comment,
            final(self).comment_en == old(self).comment_en,
    {
        if complements.len() != self.verts.len() {
            return false;
        }
        let ghost start = *self;
        let mut i: usize = 0;
        while i < self.verts.len()
            invariant
                complements@.len() == start.verts@.len(),
                self.verts@.len() == start.verts@.len(),
                i <= self.verts@.len(),
                forall|k: int|
                    0 <= k < i ==> #[trigger] self.verts@[k] == linearized(start.verts@[k], complements@[k]),
                forall|k: int| i <= k < self.verts@.len() ==> #[trigger] self.verts@[k] == start.verts@[k],
                self.faces == start.faces,
                self.bones == start.bones,
                self.mats == start.mats,
                self.texs == start.texs,
                self.iks == start.iks,
                self.morphs == start.morphs,
                self.rigidbodys == start.rigidbodys,
                self.joints == start.joints,
                self.name == start.name,
                self.name_en == start.name_en,
                self.comment == start.comment,
                self.comment_en == start.comment_en,
            decreases self.verts@.len() - i,
        {
            let mut v = self.verts[i];
            let c = complements[i];
            v.weight = match v.weight {
                VertexWeight::One(b) => VertexWeight::Four(
                    Int4 { x: b, y: -1, z: -1, w: -1 },
                    Float4 { x: ONE, y: 0, z: 0, w: 0 },
                ),
                VertexWeight::Two(i0, i1, t) => pair_exec(i0, i1, t, c),
                VertexWeight::Sphere(i0, i1, t, _, _, _) => pair_exec(i0, i1, t, c),
                VertexWeight::Quat(b, w) => VertexWeight::Four(b, w),
                VertexWeight::Four(b, w) => VertexWeight::Four(
                    Int4 {
                        x: slot_exec(b.x, w.x),
                        y: slot_exec(b.y, w.y),
                        z: slot_exec(b.z, w.z),
                        w: slot_exec(b.w, w.w),
                    },
                    w,
                ),
            };
            self.verts.set(i, v);
            i = i + 1;
        }
        assert(self.verts@ =~= Seq::new(
            start.verts@.len(),
            |k: int| linearized(start.verts@[k], complements@[k]),
        ));
        true
    }
}

} // verus!
