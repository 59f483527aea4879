use ktmdl2pmx::convert::{ktmodel_to_pmx, DerivedVertex};
use ktmdl2pmx::model::{parse_model, Batches, LocalSet, ModelError};
use ktmdl2pmx::pmx::{
    Bone, BoneTailPos, Float2, Float3, Float4, Ik, IkJoint, Int4, Mat, Pmx, Vertex, VertexWeight,
};
use ktmdl2pmx::pmx_read::PmxError;

fn set_u32(v: &mut Vec<u8>, at: usize, x: u32) {
    v[at..at + 4].copy_from_slice(&x.to_le_bytes());
}

fn set_u16(v: &mut Vec<u8>, at: usize, x: u16) {
    v[at..at + 2].copy_from_slice(&x.to_le_bytes());
}

fn set_f3(v: &mut Vec<u8>, at: usize, x: f32, y: f32, z: f32) {
    set_u32(v, at, x.to_bits());
    set_u32(v, at + 4, y.to_bits());
    set_u32(v, at + 8, z.to_bits());
}

fn set_of(indices: &[u8]) -> LocalSet {
    let mut s = LocalSet::new();
    for i in indices {
        s.insert(*i);
    }
    s
}

#[test]
fn dense_section_opens_batch_and_sparse_one_joins_it() {
    let mut batches = Batches::new();
    assert_eq!(batches.assign(&set_of(&[0, 1, 2, 3])), Ok(0));
    assert_eq!(batches.assign(&set_of(&[0, 2])), Ok(0));
    assert_eq!(batches.sets.len(), 1);
    assert!(batches.sets[0].contains(3));
    assert!(!batches.sets[0].contains(4));
    assert_eq!(batches.assign(&set_of(&[0, 1])), Ok(1));
    assert_eq!(batches.sets.len(), 2);
}

#[test]
fn sparse_first_section_has_no_batch() {
    let mut batches = Batches::new();
    assert_eq!(batches.assign(&set_of(&[1, 2])), Err(ModelError::NoActiveBatch));
    assert_eq!(batches.sets.len(), 0);
}

#[test]
fn density_and_size_of_index_sets() {
    assert!(set_of(&[0]).is_dense());
    assert!(set_of(&[2, 0, 1]).is_dense());
    assert!(!set_of(&[0, 2]).is_dense());
    assert!(!set_of(&[1]).is_dense());
    assert!(!LocalSet::new().is_dense());
    assert_eq!(set_of(&[0, 1, 2, 3]).size(), 4);
}

/// A model of two bones (a root and its child) and one section of four
/// vertices and two triangles, every vertex on local bone 0, which the
/// batch table maps to bone 1.
fn synthetic_model() -> Vec<u8> {
    let mut v = vec![0u8; 0x29E];
    set_u32(&mut v, 0x18, 2);
    set_u32(&mut v, 0x1C, 0x40);
    set_u32(&mut v, 0x20, 1);
    set_u32(&mut v, 0x24, 0x29C);
    set_u32(&mut v, 0x28, 1);
    set_u32(&mut v, 0x34, 0x1A0);
    set_f3(&mut v, 0x40 + 64, 1.0, 2.0, 3.0);
    set_u32(&mut v, 0x40 + 172, 0xFFFF_FFFF);
    set_f3(&mut v, 0x40 + 176 + 64, 0.0, 1.0, 0.0);
    set_u32(&mut v, 0x40 + 176 + 172, 0);
    let sb = 0x1A0;
    set_u32(&mut v, sb, 0x40);
    set_u32(&mut v, sb + 4, 4);
    v[sb + 9] = 44;
    set_u32(&mut v, sb + 32, 0xD0);
    set_u32(&mut v, sb + 36, 6);
    for j in 0..4 {
        let b = 0x1E0 + 44 * j;
        set_f3(&mut v, b, j as f32, 0.5, 2.0);
        set_f3(&mut v, b + 28, 0.0, 0.0, 1.0);
        set_u16(&mut v, b + 40, 0x3C00);
        set_u16(&mut v, b + 42, 0x3800);
    }
    let faces: [u16; 6] = [0, 1, 2, 0, 2, 3];
    for (k, f) in faces.iter().enumerate() {
        set_u16(&mut v, 0x290 + 2 * k, *f);
    }
    set_u16(&mut v, 0x29C, 1);
    v
}

fn derived_for(n: usize) -> Vec<DerivedVertex> {
    let d = DerivedVertex { first_weight: 1.0f32.to_bits(), uv: Float2 { x: 1.0f32.to_bits(), y: 0.5f32.to_bits() } };
    vec![d; n]
}

#[test]
fn synthetic_model_decodes_to_scene() {
    let names = vec!["root".to_string(), "child".to_string()];
    let m = parse_model(&synthetic_model(), names).unwrap();
    assert_eq!(m.bone_parent, vec![None, Some(0)]);
    assert_eq!(m.bone_pos[0], Float3 { x: 1.0f32.to_bits(), y: 2.0f32.to_bits(), z: 3.0f32.to_bits() });
    assert_eq!(m.meshs.len(), 1);
    assert_eq!(m.meshs[0].verts.len(), 4);
    assert_eq!(m.meshs[0].face, vec![[0u32, 1, 2], [0, 2, 3]]);
    assert_eq!(m.meshs[0].verts[2].uv, [0x3C00u16, 0x3800]);
    assert_eq!(m.batch_of_mesh, vec![0usize]);
    assert_eq!(m.remap_tables, vec![vec![1u16]]);

    let p = ktmodel_to_pmx(&m, &derived_for(4), "chr/a.model").unwrap();
    assert_eq!(p.bones.len(), 2);
    assert_eq!(p.bones[0].name, "root".to_string());
    assert_eq!(p.bones[1].name_en, "child".to_string());
    assert_eq!(p.bones[0].parent_index, None);
    assert_eq!(p.bones[1].parent_index, Some(0));
    assert_eq!(p.verts.len(), 4);
    for v in &p.verts {
        assert_eq!(
            v.weight,
            VertexWeight::Four(
                Int4 { x: 1, y: 1, z: 1, w: 1 },
                Float4 { x: 1.0f32.to_bits(), y: 0, z: 0, w: 0 }
            )
        );
        assert_eq!(v.edge_scale, 1.0f32.to_bits());
    }
    assert_eq!(p.faces, vec![[0u32, 1, 2], [0, 2, 3]]);
    assert_eq!(p.mats.len(), 1);
    assert_eq!(p.mats[0].name, "0".to_string());
    assert_eq!(p.mats[0].associated_face_count, 2);
    assert_eq!(p.comment, "chr/a.model".to_string());
    assert_eq!(p.name, "ktmdl".to_string());
}

#[test]
fn synthetic_model_round_trips_through_document() {
    let names = vec!["root".to_string(), "child".to_string()];
    let m = parse_model(&synthetic_model(), names).unwrap();
    let mut p = ktmodel_to_pmx(&m, &derived_for(4), "a.model").unwrap();
    p.right_hand();
    let bytes = p.write();
    let q = Pmx::read(bytes).unwrap();
    assert_eq!(q.bones.len(), 2);
    assert_eq!(q.bones[0].name, "root".to_string());
    assert_eq!(q.bones[1].name, "child".to_string());
    assert_eq!(q.bones[0].parent_index, None);
    assert_eq!(q.bones[1].parent_index, Some(0));
    assert_eq!(q.bones[0].pos, Float3 { x: 1.0f32.to_bits(), y: 2.0f32.to_bits(), z: (-3.0f32).to_bits() });
    assert_eq!(q.bones[0].bone_flags, 0x1E);
    assert_eq!(q.faces, vec![[0u32, 2, 1], [0, 3, 2]]);
    assert_eq!(q.verts, p.verts);
    assert_eq!(f32::from_bits(q.verts[3].pos.z), -2.0);
    assert_eq!(q.mats.len(), 1);
    assert_eq!(q.mats[0].name, "0".to_string());
    assert_eq!(q.mats[0].associated_face_count, 2);
    assert_eq!(q.comment, "a.model".to_string());
}

#[test]
fn name_count_must_match_skeleton() {
    let names = vec!["a".to_string(), "b".to_string(), "c".to_string()];
    assert_eq!(parse_model(&synthetic_model(), names).err(), Some(ModelError::BoneCountMismatch));
}

#[test]
fn model_defects_are_reported() {
    let names = || vec!["root".to_string(), "child".to_string()];
    let mut bad_stride = synthetic_model();
    bad_stride[0x1A0 + 9] = 40;
    assert_eq!(parse_model(&bad_stride, names()).err(), Some(ModelError::UnsupportedStride));
    let mut bad_count = synthetic_model();
    set_u32(&mut bad_count, 0x20, 2);
    assert_eq!(parse_model(&bad_count, names()).err(), Some(ModelError::BatchCountMismatch));
    let mut sparse = synthetic_model();
    for j in 0..4 {
        sparse[0x1E0 + 44 * j + 12] = 1;
    }
    assert_eq!(parse_model(&sparse, names()).err(), Some(ModelError::NoActiveBatch));
    let mut bad_parent = synthetic_model();
    set_u32(&mut bad_parent, 0x40 + 176 + 172, 5);
    assert_eq!(parse_model(&bad_parent, names()).err(), Some(ModelError::BadParent));
    let mut wide = synthetic_model();
    wide[0x1E0 + 12] = 1;
    assert_eq!(parse_model(&wide, names()).err(), Some(ModelError::Truncated));
    let short = synthetic_model()[..0x29D].to_vec();
    assert_eq!(parse_model(&short, names()).err(), Some(ModelError::Truncated));
}

#[test]
fn derived_values_must_match_vertices() {
    let names = vec!["root".to_string(), "child".to_string()];
    let m = parse_model(&synthetic_model(), names).unwrap();
    assert_eq!(ktmodel_to_pmx(&m, &derived_for(3), "x").err(), Some(ModelError::VertexValuesMismatch));
    assert_eq!(ktmodel_to_pmx(&m, &derived_for(5), "x").err(), Some(ModelError::VertexValuesMismatch));
}

#[test]
fn stored_weights_follow_derived_complement() {
    let (w1, w2, w3) = (0.2f32, 0.3f32, 0.1f32);
    let first = 1.0f32 - w1 - w2 - w3;
    assert!((first - 0.4).abs() < 1e-6);
    let names = vec!["root".to_string(), "child".to_string()];
    let mut blob = synthetic_model();
    for j in 0..4 {
        set_f3(&mut blob, 0x1E0 + 44 * j + 16, w1, w2, w3);
    }
    let m = parse_model(&blob, names).unwrap();
    let d = DerivedVertex { first_weight: first.to_bits(), uv: Float2 { x: 0, y: 0 } };
    let p = ktmodel_to_pmx(&m, &vec![d; 4], "x").unwrap();
    match p.verts[0].weight {
        VertexWeight::Four(_, w) => {
            let v = [f32::from_bits(w.x), f32::from_bits(w.y), f32::from_bits(w.z), f32::from_bits(w.w)];
            assert_eq!(v, [first, 0.2, 0.3, 0.1]);
            assert!((v.iter().sum::<f32>() - 1.0).abs() < 1e-6);
        }
        _ => panic!("not a four-bone weight"),
    }
}

fn sample_pmx() -> Pmx {
    let f3 = |x: f32, y: f32, z: f32| Float3 { x: x.to_bits(), y: y.to_bits(), z: z.to_bits() };
    let mut bone = Bone::default();
    bone.name = "b".to_string();
    bone.fixed_axis = Some(f3(0.0, 0.0, 1.0));
    bone.local_axis = Some((f3(1.0, 0.0, 2.0), f3(0.0, 1.0, -3.0)));
    bone.bone_tail_pos = BoneTailPos::Pos(f3(0.0, 0.0, 4.0));
    Pmx {
        name: "n".to_string(),
        name_en: "n".to_string(),
        comment: String::new(),
        comment_en: String::new(),
        verts: vec![Vertex {
            pos: f3(1.0, 2.0, 3.0),
            nrm: f3(0.0, 0.0, -1.0),
            uv: Float2 { x: 0, y: 0 },
            weight: VertexWeight::One(0),
            edge_scale: 1.0f32.to_bits(),
        }],
        faces: vec![[0, 1, 2]],
        texs: Vec::new(),
        mats: Vec::new(),
        bones: vec![bone],
        iks: vec![Ik {
            bone: 0,
            effector: 0,
            loop_count: 1,
            limit_angle: 0,
            ik_joints: vec![IkJoint { bone: 1, limit: None }, IkJoint { bone: 2, limit: None }, IkJoint { bone: 3, limit: None }],
        }],
        morphs: Vec::new(),
        rigidbodys: Vec::new(),
        joints: Vec::new(),
    }
}

#[test]
fn handedness_twice_restores_scene() {
    let original = sample_pmx();
    let mut p = original.clone();
    p.right_hand();
    assert_eq!(f32::from_bits(p.verts[0].pos.z), -3.0);
    assert_eq!(f32::from_bits(p.verts[0].nrm.z), 1.0);
    assert_eq!(p.faces, vec![[0u32, 2, 1]]);
    assert_eq!(p.bones[0].fixed_axis.map(|a| f32::from_bits(a.z)), Some(-1.0));
    p.right_hand();
    assert_eq!(p.verts, original.verts);
    assert_eq!(p.faces, original.faces);
    assert_eq!(p.bones[0].fixed_axis, original.bones[0].fixed_axis);
    assert_eq!(p.bones[0].local_axis, original.bones[0].local_axis);
    assert_eq!(p.bones[0].bone_tail_pos, original.bones[0].bone_tail_pos);
}

#[test]
fn ik_joints_are_reversed() {
    let mut p = sample_pmx();
    p.reverse_ik_joints();
    let order: Vec<i32> = p.iks[0].ik_joints.iter().map(|j| j.bone).collect();
    assert_eq!(order, vec![3, 2, 1]);
}

#[test]
fn weights_are_linearised_to_four_bones() {
    let mut p = sample_pmx();
    let half = 0.5f32.to_bits();
    let w = |weight: VertexWeight| Vertex { weight, ..p.verts[0] };
    p.verts = vec![
        w(VertexWeight::One(7)),
        w(VertexWeight::Two(3, 4, half)),
        w(VertexWeight::Two(3, 4, 0)),
        w(VertexWeight::Two(3, 4, 1.0f32.to_bits())),
        w(VertexWeight::Four(Int4 { x: 1, y: 2, z: 3, w: 4 }, Float4 { x: half, y: half, z: 0x8000_0000, w: 0 })),
    ];
    assert!(!p.linear_four_weight(&vec![half; 2]));
    assert!(p.linear_four_weight(&vec![half; 5]));
    let one = 1.0f32.to_bits();
    let single = |i: i32| VertexWeight::Four(Int4 { x: i, y: -1, z: -1, w: -1 }, Float4 { x: one, y: 0, z: 0, w: 0 });
    assert_eq!(p.verts[0].weight, single(7));
    assert_eq!(
        p.verts[1].weight,
        VertexWeight::Four(Int4 { x: 3, y: 4, z: -1, w: -1 }, Float4 { x: half, y: half, z: 0, w: 0 })
    );
    assert_eq!(p.verts[2].weight, single(4));
    assert_eq!(p.verts[3].weight, single(3));
    assert_eq!(
        p.verts[4].weight,
        VertexWeight::Four(Int4 { x: 1, y: 2, z: -1, w: -1 }, Float4 { x: half, y: half, z: 0x8000_0000, w: 0 })
    );
}

#[test]
fn defaults_are_written_for_empty_sections() {
    let mut p = sample_pmx();
    p.bones = Vec::new();
    let q = Pmx::read(p.write()).unwrap();
    assert_eq!(q.bones.len(), 1);
    assert_eq!(q.bones[0].name, "センター".to_string());
    assert_eq!(q.bones[0].name_en, "center".to_string());
    assert_eq!(q.mats.len(), 1);
    assert_eq!(q.mats[0].name, "Mat".to_string());
    assert_eq!(q.mats[0].associated_face_count, 1);
    let d = Mat::default();
    assert_eq!(q.mats[0].diffuse, d.diffuse);
    assert_eq!(q.mats[0].tex_index, -1);
}

#[test]
fn document_header_is_checked() {
    let mut bytes = sample_pmx().write();
    assert_eq!(&bytes[0..4], b"PMX ");
    assert_eq!(f32::from_bits(u32::from_le_bytes([bytes[4], bytes[5], bytes[6], bytes[7]])), 2.0);
    bytes[1] = b'Q';
    assert_eq!(Pmx::read(bytes.clone()).err(), Some(PmxError::BadMagic));
    bytes[1] = b'M';
    bytes[10] = 1;
    assert_eq!(Pmx::read(bytes.clone()).err(), Some(PmxError::AppendixUv));
    bytes[10] = 0;
    bytes[14] = 3;
    assert_eq!(Pmx::read(bytes.clone()).err(), Some(PmxError::BadIndexSize));
    assert_eq!(Pmx::read(bytes[..30].to_vec()).err(), Some(PmxError::Truncated));
}

#[test]
fn utf16_text_and_narrow_indices_are_decoded() {
    // header with UTF-16 text, one-byte indices
    let mut b: Vec<u8> = b"PMX ".to_vec();
    b.extend_from_slice(&2.0f32.to_le_bytes());
    b.extend_from_slice(&[8, 0, 0, 1, 1, 1, 1, 1, 1]);
    let text = |b: &mut Vec<u8>, t: &str| {
        let units: Vec<u16> = t.encode_utf16().collect();
        b.extend_from_slice(&((2 * units.len()) as u32).to_le_bytes());
        for u in units {
            b.extend_from_slice(&u.to_le_bytes());
        }
    };
    text(&mut b, "名前");
    text(&mut b, "name");
    text(&mut b, "");
    text(&mut b, "");
    // one vertex with a two-bone weight
    b.extend_from_slice(&1u32.to_le_bytes());
    for x in [1.0f32, 2.0, 3.0, 0.0, 1.0, 0.0, 0.5, 0.5] {
        b.extend_from_slice(&x.to_le_bytes());
    }
    b.extend_from_slice(&[1, 0xFF, 2]);
    b.extend_from_slice(&0.25f32.to_le_bytes());
    b.extend_from_slice(&1.0f32.to_le_bytes());
    // no faces, textures, materials, bones, morphs, frames, bodies, joints
    for _ in 0..8 {
        b.extend_from_slice(&0u32.to_le_bytes());
    }
    let q = Pmx::read(b).unwrap();
    assert_eq!(q.name, "名前".to_string());
    assert_eq!(q.name_en, "name".to_string());
    assert_eq!(q.verts.len(), 1);
    assert_eq!(q.verts[0].weight, VertexWeight::Two(-1, 2, 0.25f32.to_bits()));
}

fn header(utf8: bool, isz: u8) -> Vec<u8> {
    let mut b: Vec<u8> = b"PMX ".to_vec();
    b.extend_from_slice(&2.0f32.to_le_bytes());
    b.extend_from_slice(&[8, if utf8 { 1 } else { 0 }, 0, isz, isz, isz, isz, isz, isz]);
    b
}

fn utf8_text(b: &mut Vec<u8>, t: &str) {
    b.extend_from_slice(&(t.len() as u32).to_le_bytes());
    b.extend_from_slice(t.as_bytes());
}

#[test]
fn bone_with_ik_chain_and_optional_parts_is_decoded() {
    let mut b = header(true, 2);
    for t in ["m", "m", "", ""] {
        utf8_text(&mut b, t);
    }
    for _ in 0..4 {
        b.extend_from_slice(&0u32.to_le_bytes()); // verts, faces, textures, materials
    }
    b.extend_from_slice(&1u32.to_le_bytes());
    utf8_text(&mut b, "ik");
    utf8_text(&mut b, "ik");
    for x in [1.0f32, 2.0, 3.0] {
        b.extend_from_slice(&x.to_le_bytes());
    }
    b.extend_from_slice(&(-1i16).to_le_bytes()); // parent
    b.extend_from_slice(&0i32.to_le_bytes()); // layer
    let flags: u16 = 0x0001 | 0x0002 | 0x0020 | 0x0100 | 0x0400;
    let at = b.len();
    b.extend_from_slice(&flags.to_le_bytes());
    b.extend_from_slice(&5i16.to_le_bytes()); // tail bone
    b.extend_from_slice(&3i16.to_le_bytes()); // inherit parent
    b.extend_from_slice(&0.5f32.to_le_bytes()); // inherit rate
    for x in [0.0f32, 1.0, 0.0] {
        b.extend_from_slice(&x.to_le_bytes()); // fixed axis
    }
    b.extend_from_slice(&7i16.to_le_bytes()); // effector
    b.extend_from_slice(&40i32.to_le_bytes()); // loops
    b.extend_from_slice(&1.5f32.to_le_bytes()); // limit angle
    b.extend_from_slice(&2i32.to_le_bytes()); // links
    b.extend_from_slice(&8i16.to_le_bytes());
    b.push(1);
    for x in [-1.0f32, 0.0, 0.0, 1.0, 0.0, 0.0] {
        b.extend_from_slice(&x.to_le_bytes());
    }
    b.extend_from_slice(&9i16.to_le_bytes());
    b.push(0);
    for _ in 0..4 {
        b.extend_from_slice(&0u32.to_le_bytes()); // morphs, frames, bodies, joints
    }
    let mut q = Pmx::read(b.clone()).unwrap();
    assert_eq!(q.bones.len(), 1);
    let bone = &q.bones[0];
    assert_eq!(bone.parent_index, None);
    assert_eq!(bone.bone_tail_pos, BoneTailPos::Bone(5));
    assert_eq!(bone.inherit, Some((3, 0.5f32.to_bits())));
    assert_eq!(bone.fixed_axis, Some(Float3 { x: 0, y: 1.0f32.to_bits(), z: 0 }));
    assert_eq!(bone.local_axis, None);
    assert_eq!(q.iks.len(), 1);
    assert_eq!(q.iks[0].bone, 0);
    assert_eq!(q.iks[0].effector, 7);
    assert_eq!(q.iks[0].loop_count, 40);
    assert_eq!(q.iks[0].limit_angle, 1.5f32.to_bits());
    assert_eq!(q.iks[0].ik_joints.len(), 2);
    assert_eq!(q.iks[0].ik_joints[0].bone, 8);
    assert!(q.iks[0].ik_joints[0].limit.is_some());
    assert_eq!(q.iks[0].ik_joints[1].bone, 9);
    assert!(q.iks[0].ik_joints[1].limit.is_none());
    q.reverse_ik_joints();
    assert_eq!(q.iks[0].ik_joints[0].bone, 9);
    // an unknown flag is refused
    assert_eq!(u16::from_le_bytes([b[at], b[at + 1]]), flags);
    b[at + 1] |= 0x80;
    assert_eq!(Pmx::read(b).err(), Some(PmxError::UnsupportedVariant));
}

#[test]
fn materials_morphs_frames_bodies_and_joints_are_decoded() {
    let mut b = header(true, 1);
    for t in ["m", "m", "", ""] {
        utf8_text(&mut b, t);
    }
    b.extend_from_slice(&0u32.to_le_bytes()); // verts
    b.extend_from_slice(&0u32.to_le_bytes()); // faces
    b.extend_from_slice(&1u32.to_le_bytes()); // one texture
    utf8_text(&mut b, "t.png");
    b.extend_from_slice(&1u32.to_le_bytes()); // one material
    utf8_text(&mut b, "skin");
    utf8_text(&mut b, "skin");
    for _ in 0..11 {
        b.extend_from_slice(&1.0f32.to_le_bytes()); // diffuse, specular, strength, ambient
    }
    b.push(0x11); // draw flags
    for _ in 0..5 {
        b.extend_from_slice(&0.0f32.to_le_bytes()); // edge colour, edge size
    }
    b.push(0); // texture
    b.push(0xFF); // no environment texture
    b.push(3); // blend mode
    b.push(1); // shared toon
    b.push(4);
    utf8_text(&mut b, "c");
    b.extend_from_slice(&9u32.to_le_bytes()); // nine indices
    b.extend_from_slice(&0u32.to_le_bytes()); // bones
    b.extend_from_slice(&1u32.to_le_bytes()); // one morph
    utf8_text(&mut b, "smile");
    utf8_text(&mut b, "smile");
    b.push(2); // panel
    b.push(1); // vertex morph
    b.extend_from_slice(&1i32.to_le_bytes());
    b.push(0);
    for _ in 0..3 {
        b.extend_from_slice(&0.1f32.to_le_bytes());
    }
    b.extend_from_slice(&1u32.to_le_bytes()); // one display frame
    utf8_text(&mut b, "Root");
    utf8_text(&mut b, "Root");
    b.push(1);
    b.extend_from_slice(&2i32.to_le_bytes());
    b.extend_from_slice(&[0, 0, 1, 0]);
    b.extend_from_slice(&1u32.to_le_bytes()); // one rigid body
    utf8_text(&mut b, "rb");
    utf8_text(&mut b, "rb");
    b.push(0); // bone
    b.push(1); // group
    b.extend_from_slice(&0xFFFFu16.to_le_bytes());
    b.push(2); // capsule
    for x in 0..9 {
        b.extend_from_slice(&(x as f32).to_le_bytes());
    }
    for _ in 0..5 {
        b.extend_from_slice(&0.5f32.to_le_bytes());
    }
    b.push(1); // dynamics
    b.extend_from_slice(&1u32.to_le_bytes()); // one joint
    utf8_text(&mut b, "j");
    utf8_text(&mut b, "j");
    b.push(0);
    b.push(0);
    b.push(0);
    for x in 0..24 {
        b.extend_from_slice(&(x as f32).to_le_bytes());
    }
    let q = Pmx::read(b.clone()).unwrap();
    assert_eq!(q.texs, vec!["t.png".to_string()]);
    assert_eq!(q.mats.len(), 1);
    assert_eq!(q.mats[0].draw_flag, 0x11);
    assert_eq!(q.mats[0].env_index, -1);
    assert_eq!(q.mats[0].env_blend_mode, ktmdl2pmx::pmx::BlendMode::Other);
    assert_eq!(q.mats[0].toon, ktmdl2pmx::pmx::Toon::Inner(4));
    assert_eq!(q.mats[0].associated_face_count, 3);
    assert_eq!(q.morphs.len(), 1);
    assert_eq!(q.morphs[0].name, "smile".to_string());
    assert_eq!(q.morphs[0].panel, 2);
    assert_eq!(q.morphs[0].category, 1);
    assert_eq!(q.rigidbodys.len(), 1);
    assert_eq!(q.rigidbodys[0].collision_group, 0xFFFF);
    assert_eq!(q.rigidbodys[0].shape, ktmdl2pmx::pmx::RigidbodyShape::Capsule);
    assert_eq!(q.rigidbodys[0].mode, ktmdl2pmx::pmx::RigidbodyMode::Dynamics);
    assert_eq!(q.rigidbodys[0].pos, Float3 { x: 3.0f32.to_bits(), y: 4.0f32.to_bits(), z: 5.0f32.to_bits() });
    assert_eq!(q.joints.len(), 1);
    assert_eq!(q.joints[0].rot_spring, Float3 { x: 21.0f32.to_bits(), y: 22.0f32.to_bits(), z: 23.0f32.to_bits() });
    // a morph of a reserved category is refused
    let mut bad = b.clone();
    let names_at = b.windows(5).rposition(|w| w == b"smile").unwrap();
    let morph_at = names_at + 5 + 1;
    assert_eq!(bad[morph_at], 1);
    bad[morph_at] = 5;
    assert_eq!(Pmx::read(bad).err(), Some(PmxError::UnsupportedVariant));
}

/// Two sections: the first references local bones {0,1,2,3}, the second
/// only {0,2}; one batch with table [10, 11, 12, 13].
fn two_section_model() -> Vec<u8> {
    let mut v = vec![0u8; 0x348];
    set_u32(&mut v, 0x18, 2);
    set_u32(&mut v, 0x1C, 0x40);
    set_u32(&mut v, 0x20, 1);
    set_u32(&mut v, 0x24, 0x340);
    set_u32(&mut v, 0x28, 2);
    set_u32(&mut v, 0x34, 0x1A0);
    set_u32(&mut v, 0x40 + 172, 0xFFFF_FFFF);
    set_u32(&mut v, 0x40 + 176 + 172, 0);
    for (sb, vo, locals) in [(0x1A0usize, 0x40u32, [[0u8, 1, 2, 3], [1, 0, 0, 0], [2, 3, 0, 0], [0, 0, 0, 0]]),
        (0x1E0usize, 0xB0u32, [[0u8, 2, 0, 0], [2, 0, 0, 0], [0, 0, 0, 0], [0, 0, 2, 0]])] {
        set_u32(&mut v, sb, vo);
        set_u32(&mut v, sb + 4, 4);
        v[sb + 9] = 44;
        for (j, l) in locals.iter().enumerate() {
            let b = sb + vo as usize + 44 * j;
            v[b + 12..b + 16].copy_from_slice(l);
        }
    }
    for (k, g) in [10u16, 11, 12, 13].iter().enumerate() {
        set_u16(&mut v, 0x340 + 2 * k, *g);
    }
    v
}

#[test]
fn sparse_section_joins_running_batch_in_model() {
    let names = vec!["root".to_string(), "child".to_string()];
    let m = parse_model(&two_section_model(), names).unwrap();
    assert_eq!(m.batch_of_mesh, vec![0usize, 0]);
    assert_eq!(m.remap_tables, vec![vec![10u16, 11, 12, 13]]);
    let p = ktmodel_to_pmx(&m, &derived_for(8), "x").unwrap();
    match p.verts[4].weight {
        VertexWeight::Four(i, _) => assert_eq!(i, Int4 { x: 10, y: 12, z: 10, w: 10 }),
        _ => panic!("not a four-bone weight"),
    }
    match p.verts[0].weight {
        VertexWeight::Four(i, _) => assert_eq!(i, Int4 { x: 10, y: 11, z: 12, w: 13 }),
        _ => panic!("not a four-bone weight"),
    }
    let mut short_table = two_section_model();
    set_u32(&mut short_table, 0x20, 2);
    assert_eq!(parse_model(&short_table, vec!["a".to_string(), "b".to_string()]).err(), Some(ModelError::BatchCountMismatch));
}
