use goldsrc_formats::Error;
use goldsrc_formats::wad::read_wad;
use goldsrc_formats::wad::Content;

fn push_u32(v: &mut Vec<u8>, x: u32) {
    v.extend_from_slice(&x.to_le_bytes());
}

fn push_u16(v: &mut Vec<u8>, x: u16) {
    v.extend_from_slice(&x.to_le_bytes());
}

fn push_name(v: &mut Vec<u8>, name: &[u8]) {
    let mut field = [0u8; 16];
    field[..name.len()].copy_from_slice(name);
    v.extend_from_slice(&field);
}

fn dir_entry(v: &mut Vec<u8>, offset: u32, size: u32, tag: u8, name: &[u8]) {
    push_u32(v, offset);
    push_u32(v, size);
    push_u32(v, 0); // documented padding
    v.push(tag);
    v.extend_from_slice(&[0, 0, 0]); // documented padding
    push_name(v, name);
}

/// A mip texture payload: 4x2 pixels, two colours, the conventional
/// pure-blue colour key first.
fn mip_payload() -> Vec<u8> {
    let mut t = Vec::new();
    push_name(&mut t, b"BLUE");
    push_u32(&mut t, 4); // width
    push_u32(&mut t, 2); // height
    push_u32(&mut t, 40); // level 0: 8 bytes
    push_u32(&mut t, 48); // level 1: 2 bytes
    push_u32(&mut t, 50); // level 2: 0 bytes
    push_u32(&mut t, 50); // level 3: 0 bytes
    t.extend_from_slice(&[0, 1, 0, 1, 0, 1, 0, 1]); // level 0
    t.extend_from_slice(&[0, 1]); // level 1
    // palette at 40 + (8 * 85) / 64 = 50
    assert_eq!(t.len(), 50);
    push_u16(&mut t, 2);
    t.extend_from_slice(&[0, 0, 255]); // pure blue: transparent
    t.extend_from_slice(&[200, 200, 200]); // opaque
    t
}

fn wad_with(entries: &[(&[u8], u8, Vec<u8>)]) -> Vec<u8> {
    let mut v = Vec::new();
    v.extend_from_slice(b"WAD3");
    push_u32(&mut v, entries.len() as u32);
    push_u32(&mut v, 12); // directory right after the header
    let mut payload_at = 12 + 32 * entries.len() as u32;
    for (name, tag, payload) in entries {
        dir_entry(&mut v, payload_at, payload.len() as u32, *tag, name);
        payload_at += payload.len() as u32;
    }
    for (_, _, payload) in entries {
        v.extend_from_slice(payload);
    }
    v
}

#[test]
fn unknown_tag_decodes_to_opaque_blob_of_exact_size() {
    let v = wad_with(&[(b"MYSTERY", 0x99, vec![7, 8, 9])]);
    let wad = read_wad(&v).unwrap();
    assert_eq!(wad.entiries.len(), 1);
    assert_eq!(wad.entiries[0].0, "MYSTERY");
    match &wad.entiries[0].1.content {
        Content::Other { bytes } => assert_eq!(bytes, &vec![7, 8, 9]),
        other => panic!("unknown tag decoded as {:?}", other),
    }
}

#[test]
fn mip_texture_levels_quarter_per_level() {
    let v = wad_with(&[(b"BLUE", 0x43, mip_payload())]);
    let wad = read_wad(&v).unwrap();
    match &wad.entiries[0].1.content {
        Content::MipTexture(m) => {
            assert_eq!(m.name, "BLUE");
            assert_eq!((m.width, m.height), (4, 2));
            let d = m.data.as_ref().unwrap();
            assert_eq!(d.indices.len(), 4);
            let px = (m.width * m.height) as usize;
            for i in 0..4 {
                assert_eq!(d.indices[i].len(), px >> (2 * i));
            }
            assert_eq!(d.palette.len(), 2);
            assert!(!m.is_empty());
        }
        other => panic!("mip tag decoded as {:?}", other),
    }
}

#[test]
fn pixel_expansion_applies_the_blue_colour_key() {
    let v = wad_with(&[(b"BLUE", 0x43, mip_payload())]);
    let wad = read_wad(&v).unwrap();
    match &wad.entiries[0].1.content {
        Content::MipTexture(m) => {
            let px = m.pixels(1).unwrap();
            // level 1 holds indices [0, 1]: pure blue then grey
            assert_eq!(px, vec![0, 0, 255, 0, 200, 200, 200, 255]);
            let px0 = m.pixels(0).unwrap();
            assert_eq!(px0.len(), 4 * 8);
            for q in 0..8 {
                let alpha = px0[4 * q + 3];
                assert_eq!(alpha, if q % 2 == 0 { 0 } else { 255 });
            }
        }
        other => panic!("mip tag decoded as {:?}", other),
    }
}

#[test]
fn picture_payload_decodes_exactly() {
    let mut pic = Vec::new();
    push_u32(&mut pic, 2);
    push_u32(&mut pic, 1);
    pic.extend_from_slice(&[1, 0]);
    push_u16(&mut pic, 2); // stored as i16
    pic.extend_from_slice(&[10, 20, 30]);
    pic.extend_from_slice(&[40, 50, 60]);
    let v = wad_with(&[(b"PIC", 0x42, pic)]);
    let wad = read_wad(&v).unwrap();
    match &wad.entiries[0].1.content {
        Content::Picture(p) => {
            assert_eq!((p.width, p.height), (2, 1));
            assert_eq!(p.data, vec![1, 0]);
            assert_eq!(p.palette.len(), 2);
            assert_eq!((p.palette[1].r, p.palette[1].g, p.palette[1].b), (40, 50, 60));
        }
        other => panic!("picture tag decoded as {:?}", other),
    }
}

#[test]
fn font_payload_decodes_exactly() {
    let mut f = Vec::new();
    push_u32(&mut f, 2); // width
    push_u32(&mut f, 1); // height
    push_u32(&mut f, 1); // row count
    push_u32(&mut f, 1); // row height
    for k in 0..256u32 {
        push_u16(&mut f, k as u16); // start offset
        push_u16(&mut f, 8); // char width
    }
    f.extend_from_slice(&[0, 0]); // index data
    push_u16(&mut f, 1);
    f.extend_from_slice(&[9, 9, 9]);
    let v = wad_with(&[(b"FONT", 0x45, f)]);
    let wad = read_wad(&v).unwrap();
    match &wad.entiries[0].1.content {
        Content::Font(f) => {
            assert_eq!((f.width, f.height), (2, 1));
            assert_eq!(f.font_info.len(), 256);
            assert_eq!(f.font_info[7].start_offset, 7);
            assert_eq!(f.font_info[7].char_width, 8);
            assert_eq!(f.data, vec![0, 0]);
            assert_eq!(f.palette.len(), 1);
        }
        other => panic!("font tag decoded as {:?}", other),
    }
}

#[test]
fn negative_palette_count_is_rejected() {
    let mut pic = Vec::new();
    push_u32(&mut pic, 1);
    push_u32(&mut pic, 1);
    pic.push(0);
    pic.extend_from_slice(&(-1i16).to_le_bytes());
    let v = wad_with(&[(b"PIC", 0x42, pic)]);
    assert_eq!(read_wad(&v).unwrap_err(), Error::InvalidValue);
}

#[test]
fn non_ascii_names_decode_as_utf8() {
    let v = wad_with(&[("é".as_bytes(), 0x99, vec![])]);
    let wad = read_wad(&v).unwrap();
    assert_eq!(wad.entiries[0].0, "\u{e9}");
    assert_eq!(wad.entiries[0].0.chars().count(), 1);
}

#[test]
fn wrong_archive_magic_is_rejected() {
    let mut v = wad_with(&[]);
    v[3] = b'2';
    assert_eq!(read_wad(&v).unwrap_err(), Error::MagicMismatch);
}

#[test]
fn blob_reaching_past_the_end_is_rejected() {
    let mut v = wad_with(&[(b"SHORT", 0x99, vec![1, 2, 3])]);
    // claim 16 bytes where only 3 exist
    let size_pos = 12 + 4;
    v[size_pos..size_pos + 4].copy_from_slice(&16u32.to_le_bytes());
    assert_eq!(read_wad(&v).unwrap_err(), Error::UnexpectedEnd);
}

#[test]
fn decoding_twice_yields_identical_archives() {
    let v = wad_with(&[
        (b"BLUE", 0x43, mip_payload()),
        (b"MYSTERY", 0x99, vec![1, 2, 3]),
    ]);
    let a = read_wad(&v).unwrap();
    let b = read_wad(&v).unwrap();
    assert_eq!(a, b);
}
