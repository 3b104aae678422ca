use goldsrc_formats::Error;
use goldsrc_formats::mdl::read_mdl;

fn push_u32(v: &mut Vec<u8>, x: u32) {
    v.extend_from_slice(&x.to_le_bytes());
}

fn set_u32(v: &mut Vec<u8>, pos: usize, x: u32) {
    v[pos..pos + 4].copy_from_slice(&x.to_le_bytes());
}

fn push_name(v: &mut Vec<u8>, name: &[u8], cap: usize) {
    let mut field = vec![0u8; cap];
    field[..name.len()].copy_from_slice(name);
    v.extend_from_slice(&field);
}

/// The 236-byte primary header with every array empty, followed by the
/// secondary header it points at.
fn base_header() -> Vec<u8> {
    let mut v = Vec::new();
    v.extend_from_slice(b"IDST");
    push_u32(&mut v, 10); // version
    push_name(&mut v, b"test", 64);
    push_u32(&mut v, 0); // stored file length
    for _ in 0..3 {
        push_u32(&mut v, 0); // eye position
    }
    for _ in 0..12 {
        push_u32(&mut v, 0); // hull and clipping box
    }
    push_u32(&mut v, 0); // flags
    for _ in 0..6 {
        push_u32(&mut v, 0); // bones .. textures pointer pairs
        push_u32(&mut v, 0);
    }
    for _ in 0..4 {
        push_u32(&mut v, 0); // skin table fields
    }
    for _ in 0..2 {
        push_u32(&mut v, 0); // body parts, attachments pointer pairs
        push_u32(&mut v, 0);
    }
    push_u32(&mut v, 236); // secondary header offset
    v.extend_from_slice(&[0u8; 12]); // documented padding
    assert_eq!(v.len(), 236);
    for k in 1..=10u32 {
        push_u32(&mut v, k); // secondary header fields
    }
    v
}

#[test]
fn minimal_model_decodes_with_empty_arrays() {
    let v = base_header();
    let mdl = read_mdl(&v).unwrap();
    assert_eq!(mdl.version, 10);
    assert_eq!(mdl.name, "test");
    assert_eq!(mdl.bones.len(), 0);
    assert_eq!(mdl.sequences.len(), 0);
    assert_eq!(mdl.body_parts.len(), 0);
    assert_eq!(mdl.mdl2.num_pose_parameters, 1);
    assert_eq!(mdl.mdl2.hit_box_set_offset, 10);
}

#[test]
fn wrong_model_magic_is_rejected() {
    let mut v = base_header();
    v[0] = b'X';
    assert_eq!(read_mdl(&v).unwrap_err(), Error::MagicMismatch);
}

#[test]
fn wrong_model_version_is_rejected() {
    let mut v = base_header();
    set_u32(&mut v, 4, 11);
    assert_eq!(read_mdl(&v).unwrap_err(), Error::VersionMismatch);
}

#[test]
fn model_vertex_array_is_relative_to_its_own_record() {
    let mut v = base_header();
    // one body part at 276
    set_u32(&mut v, 204, 1);
    set_u32(&mut v, 208, 276);
    assert_eq!(v.len(), 276);
    push_name(&mut v, b"body", 64);
    push_u32(&mut v, 1); // model count
    push_u32(&mut v, 7); // base
    push_u32(&mut v, 352); // model records start
    assert_eq!(v.len(), 352);
    // one model record; its vertex pointer counts from 352, not from 0
    push_name(&mut v, b"part", 64);
    push_u32(&mut v, 3); // kind
    push_u32(&mut v, 2.5f32.to_bits()); // bounding radius
    push_u32(&mut v, 0); // mesh count
    push_u32(&mut v, 0); // mesh offset
    push_u32(&mut v, 2); // vertex count
    push_u32(&mut v, 11); // verts_info_offset
    push_u32(&mut v, 112); // vertex offset, relative: 352 + 112 = 464
    push_u32(&mut v, 0); // normal count
    push_u32(&mut v, 13); // norms_info_offset
    push_u32(&mut v, 0); // normal offset
    push_u32(&mut v, 0);
    push_u32(&mut v, 0);
    assert_eq!(v.len(), 464);
    for f in [1.0f32, 2.0, 3.0, 4.0, 5.0, 6.0] {
        push_u32(&mut v, f.to_bits());
    }
    let mdl = read_mdl(&v).unwrap();
    assert_eq!(mdl.body_parts.len(), 1);
    let bp = &mdl.body_parts[0];
    assert_eq!(bp.name, "body");
    assert_eq!(bp.base, 7);
    assert_eq!(bp.models.len(), 1);
    let m = &bp.models[0];
    assert_eq!(m.name, "part");
    assert_eq!(f32::from_bits(m.bounding_radius), 2.5);
    assert_eq!(m.verts.len(), 2);
    assert_eq!(f32::from_bits(m.verts[0].x), 1.0);
    assert_eq!(f32::from_bits(m.verts[1].z), 6.0);
    assert_eq!(m.normals.len(), 0);
    assert_eq!(m.verts_info_offset, 11);
}

fn with_one_sequence() -> Vec<u8> {
    let mut v = base_header();
    set_u32(&mut v, 164, 1); // sequence count
    set_u32(&mut v, 168, 276); // sequence records start
    assert_eq!(v.len(), 276);
    push_name(&mut v, b"walk", 32);
    push_u32(&mut v, 30.0f32.to_bits()); // fps
    push_u32(&mut v, 0); // flags
    push_u32(&mut v, 1); // activity
    push_u32(&mut v, 2); // activity weight
    push_u32(&mut v, 0); // event count
    push_u32(&mut v, 0); // event offset
    push_u32(&mut v, 5); // frames
    push_u32(&mut v, 0); // weight list offset
    push_u32(&mut v, 6); // ik lock offset
    push_u32(&mut v, 7); // motion type
    push_u32(&mut v, 8); // motion bone
    push_u32(&mut v, 1.0f32.to_bits()); // linear movement
    push_u32(&mut v, 0); // auto layer offset
    push_u32(&mut v, 0); // key value offset
    for _ in 0..6 {
        push_u32(&mut v, 0); // extents
    }
    push_u32(&mut v, 9); // blend count
    push_u32(&mut v, 10); // animation offset
    push_u32(&mut v, 11); // blend types
    push_u32(&mut v, 12);
    push_u32(&mut v, 0); // blend bounds
    push_u32(&mut v, 0);
    push_u32(&mut v, 0);
    push_u32(&mut v, 0);
    v.extend_from_slice(&[1, 2]); // group sizes
    v.push(3); // auto layer count
    v.push(4); // ik lock count
    v.push(5); // sequence group
    push_u32(&mut v, 13); // entry node
    push_u32(&mut v, 14); // exit node
    v.push(6); // node flags
    v.push(7); // cycle pose index
    v.push(8); // fade in
    v.push(9); // fade out
    push_u32(&mut v, 441); // animation description offset
    assert_eq!(v.len(), 441);
    v.extend_from_slice(b"IDST");
    push_name(&mut v, b"anim", 32);
    push_u32(&mut v, 24.0f32.to_bits()); // fps
    push_u32(&mut v, 0); // flags
    push_u32(&mut v, 5); // frames
    push_u32(&mut v, 0); // movements
    push_u32(&mut v, 0); // movement offset
    push_u32(&mut v, 0); // ik rules
    push_u32(&mut v, 0); // ik rules offset
    for _ in 0..8 {
        push_u32(&mut v, 0); // unused block
    }
    assert_eq!(v.len(), 537);
    v
}

#[test]
fn sequence_and_its_animation_description_decode() {
    let v = with_one_sequence();
    let mdl = read_mdl(&v).unwrap();
    assert_eq!(mdl.sequences.len(), 1);
    let s = &mdl.sequences[0];
    assert_eq!(s.label, "walk");
    assert_eq!(f32::from_bits(s.fps), 30.0);
    assert_eq!(s.frames, 5);
    assert_eq!(s.events.len(), 0);
    assert_eq!(s.group_size, (1, 2));
    assert_eq!(s.entry_node, 13);
    assert_eq!(s.exit_node, 14);
    assert_eq!(s.fade_out_time, 9);
    assert_eq!(s.anim_desc.label, "anim");
    assert_eq!(f32::from_bits(s.anim_desc.fps), 24.0);
    assert_eq!(s.anim_desc.frames, 5);
    assert_eq!(s.anim_desc.unused.len(), 8);
}

#[test]
fn animation_description_revalidates_the_magic() {
    let mut v = with_one_sequence();
    v[441] = b'X';
    assert_eq!(read_mdl(&v).unwrap_err(), Error::MagicMismatch);
}

#[test]
fn decoding_twice_yields_identical_models() {
    let v = with_one_sequence();
    let a = read_mdl(&v).unwrap();
    let b = read_mdl(&v).unwrap();
    assert_eq!(a, b);
}
