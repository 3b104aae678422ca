use goldsrc_formats::Error;
use goldsrc_formats::bsp::read_bsp;
use goldsrc_formats::bsp::PlaneType;
use goldsrc_formats::entities::EntityValue;
use goldsrc_formats::shared::Vec3;

fn push_u32(v: &mut Vec<u8>, x: u32) {
    v.extend_from_slice(&x.to_le_bytes());
}

fn set_u32(v: &mut Vec<u8>, pos: usize, x: u32) {
    v[pos..pos + 4].copy_from_slice(&x.to_le_bytes());
}

/// A header whose fifteen lump pointers are all zero-length, with the
/// textures pointer aimed at a zero count just past the header.
fn empty_header() -> Vec<u8> {
    let mut v = Vec::new();
    push_u32(&mut v, 30); // version
    for _ in 0..15 {
        push_u32(&mut v, 0);
        push_u32(&mut v, 0);
    }
    assert_eq!(v.len(), 124);
    push_u32(&mut v, 0); // texture count, and target for empty lumps
    // entities: offset 124, size 0
    set_u32(&mut v, 4, 124);
    // textures: offset 124 (count 0 lives there)
    set_u32(&mut v, 20, 124);
    v
}

#[test]
fn empty_level_decodes_to_empty_lumps() {
    let v = empty_header();
    let bsp = read_bsp(&v).unwrap();
    assert_eq!(bsp.version, 30);
    assert_eq!(bsp.entities.len(), 0);
    assert_eq!(bsp.planes.len(), 0);
    assert_eq!(bsp.textures.len(), 0);
    assert_eq!(bsp.vertices.len(), 0);
    assert_eq!(bsp.models.len(), 0);
}

#[test]
fn wrong_level_version_is_rejected() {
    let mut v = empty_header();
    set_u32(&mut v, 0, 29);
    assert_eq!(read_bsp(&v).unwrap_err(), Error::VersionMismatch);
}

#[test]
fn short_buffer_has_no_version() {
    assert_eq!(read_bsp(&[30, 0]).unwrap_err(), Error::UnexpectedEnd);
}

#[test]
fn one_plane_lump_decodes_exactly() {
    let mut v = empty_header();
    let plane_at = v.len() as u32;
    push_u32(&mut v, 1.0f32.to_bits());
    push_u32(&mut v, 0.0f32.to_bits());
    push_u32(&mut v, 0.0f32.to_bits());
    push_u32(&mut v, 1.5f32.to_bits());
    push_u32(&mut v, 2); // PlaneType::Z
    set_u32(&mut v, 12, plane_at);
    set_u32(&mut v, 16, 20); // byte length of one plane
    let bsp = read_bsp(&v).unwrap();
    assert_eq!(bsp.planes.len(), 1);
    let p = &bsp.planes[0];
    assert_eq!(f32::from_bits(p.normal.x), 1.0);
    assert_eq!(f32::from_bits(p.dist), 1.5);
    assert_eq!(p.kind, PlaneType::Z);
    assert_eq!(bsp.normals(), vec![Vec3::new(p.normal.x, p.normal.y, p.normal.z)]);
}

#[test]
fn undeclared_plane_kind_is_rejected() {
    let mut v = empty_header();
    let plane_at = v.len() as u32;
    for _ in 0..4 {
        push_u32(&mut v, 0);
    }
    push_u32(&mut v, 9); // no such plane type
    set_u32(&mut v, 12, plane_at);
    set_u32(&mut v, 16, 20);
    assert_eq!(read_bsp(&v).unwrap_err(), Error::InvalidValue);
}

#[test]
fn truncated_record_yields_unexpected_end() {
    let mut v = empty_header();
    let plane_at = v.len() as u32;
    push_u32(&mut v, 0); // only 4 of 20 plane bytes present
    set_u32(&mut v, 12, plane_at);
    set_u32(&mut v, 16, 20);
    assert_eq!(read_bsp(&v).unwrap_err(), Error::UnexpectedEnd);
}

#[test]
fn zero_count_lump_past_the_end_is_empty_not_an_error() {
    let mut v = empty_header();
    // the planes pointer aims far past the buffer, but its length is zero
    set_u32(&mut v, 12, 1_000_000);
    set_u32(&mut v, 16, 0);
    let bsp = read_bsp(&v).unwrap();
    assert_eq!(bsp.planes.len(), 0);
}

#[test]
fn entities_lump_is_parsed_with_nul_padding_dropped() {
    let mut v = empty_header();
    let text = "{\n\"classname\" \"worldspawn\"\n\"gravity\" \"800\"\n}\0\0\0";
    let at = v.len() as u32;
    v.extend_from_slice(text.as_bytes());
    set_u32(&mut v, 4, at);
    set_u32(&mut v, 8, text.len() as u32);
    let bsp = read_bsp(&v).unwrap();
    assert_eq!(bsp.entities.len(), 1);
    let props = &bsp.entities[0].props;
    assert_eq!(props[0].0, "classname");
    assert_eq!(props[0].1, EntityValue::String("worldspawn".to_string()));
    assert_eq!(props[1].1, EntityValue::Number("800".to_string()));
}

#[test]
fn invalid_entity_text_is_rejected() {
    let mut v = empty_header();
    let at = v.len() as u32;
    v.extend_from_slice(&[0xFF, 0xFE]);
    set_u32(&mut v, 4, at);
    set_u32(&mut v, 8, 2);
    assert_eq!(read_bsp(&v).unwrap_err(), Error::InvalidText);
}

#[test]
fn reference_only_texture_has_no_pixel_data() {
    let mut v = empty_header();
    // a textures lump: count 1, one table entry, one reference-only texture
    let toff = v.len() as u32;
    push_u32(&mut v, 1); // count
    push_u32(&mut v, 8); // table entry: texture at toff + 8
    let mut name = [0u8; 16];
    name[..4].copy_from_slice(b"SKY1");
    v.extend_from_slice(&name);
    push_u32(&mut v, 64); // width
    push_u32(&mut v, 64); // height
    for _ in 0..4 {
        push_u32(&mut v, 0); // all level offsets zero
    }
    set_u32(&mut v, 20, toff);
    let bsp = read_bsp(&v).unwrap();
    assert_eq!(bsp.textures.len(), 1);
    let t = &bsp.textures[0];
    assert_eq!(t.name, "SKY1");
    assert_eq!(t.width, 64);
    assert!(t.data.is_none());
    assert!(t.is_empty());
}

#[test]
fn decoding_twice_yields_identical_results() {
    let mut v = empty_header();
    let text = "{\n\"classname\" \"worldspawn\"\n}";
    let at = v.len() as u32;
    v.extend_from_slice(text.as_bytes());
    set_u32(&mut v, 4, at);
    set_u32(&mut v, 8, text.len() as u32);
    let a = read_bsp(&v).unwrap();
    let b = read_bsp(&v).unwrap();
    assert_eq!(a, b);
}
