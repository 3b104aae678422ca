//! Record shapes shared by the three container formats: coordinate
//! triples, bounding boxes, palette colours, fixed-capacity NUL-padded
//! strings, and the indexed image payloads (flat pictures, mip textures
//! and bitmap fonts).

use vstd::prelude::*;
use vstd::utf8::decode_utf8;
use vstd::utf8::valid_utf8;

use crate::Error;
use crate::cursor::Cursor;
use crate::cursor::le16;
use crate::cursor::le32;
use crate::cursor::le_i16;
use crate::records::Record;
use crate::records::decode_records;
use crate::records::spec_records;

verus! {

/// The bytes with every NUL byte removed; NUL is padding in the formats'
/// fixed-capacity string fields, never a terminator mid-string.
pub open spec fn strip_nul(b: Seq<u8>) -> Seq<u8>
    decreases b.len(),
{
    if b.len() == 0 {
        seq![]
    } else {
        let pre = strip_nul(b.drop_last());
        if b.last() == 0 {
            pre
        } else {
            pre.push(b.last())
        }
    }
}

/// Relies on `alloc::string::String::from_utf8`: it returns `Ok` exactly
/// when the bytes are a valid UTF-8 encoding, and then decodes them to the
/// corresponding characters, as `vstd::utf8` models them.
#[verifier::external_body]
pub(crate) fn utf8_to_string(bytes: &[u8]) -> (r: Option<String>)
    ensures
        match r {
            Some(s) => valid_utf8(bytes@) && s@ == decode_utf8(bytes@),
            None => !valid_utf8(bytes@),
        },
{
    String::from_utf8(bytes.to_vec()).ok()
}

/// The text decoded from the `n`-byte fixed-capacity string field at `p`:
/// NUL padding is stripped and the remainder must be valid UTF-8.
pub open spec fn spec_fixed_string(b: Seq<u8>, p: int, n: int) -> Result<Seq<char>, Error> {
    if p + n > b.len() {
        Err(Error::UnexpectedEnd)
    } else {
        let raw = strip_nul(b.subrange(p, p + n));
        if valid_utf8(raw) {
            Ok(decode_utf8(raw))
        } else {
            Err(Error::InvalidText)
        }
    }
}

/// Decodes an `n`-byte fixed-capacity string field at the cursor's
/// position: reads `n` bytes, drops NUL padding, and interprets the rest
/// as UTF-8, failing with `InvalidText` when it is not.
pub fn parse_string(c: &mut Cursor, n: u64) -> (r: Result<String, Error>)
    ensures
        final(c).data@ == old(c).data@,
        match r {
            Ok(s) => spec_fixed_string(old(c).data@, old(c).pos as int, n as int) == Ok::<
                Seq<char>,
                Error,
            >(s@) && final(c).pos == old(c).pos + n,
            Err(e) => spec_fixed_string(old(c).data@, old(c).pos as int, n as int) == Err::<
                Seq<char>,
                Error,
            >(e),
        },
{
    let bytes = c.read_bytes(n)?;
    let ghost raw_bytes = bytes@;
    let mut kept: Vec<u8> = Vec::new();
    let mut k: usize = 0;
    proof {
        assert(strip_nul(raw_bytes.subrange(0, 0)) =~= seq![]);
        assert(kept@ =~= seq![]);
    }
    while k < bytes.len()
        invariant
            0 <= k <= bytes@.len(),
            bytes@ == raw_bytes,
            kept@ == strip_nul(raw_bytes.subrange(0, k as int)),
        decreases bytes@.len() - k,
    {
        let v: u8 = bytes[k];
        proof {
            assert(raw_bytes.subrange(0, k + 1).drop_last() =~= raw_bytes.subrange(0, k as int));
            assert(raw_bytes.subrange(0, k + 1).last() == raw_bytes[k as int]);
        }
        if v != 0 {
            kept.push(v);
        }
        k = k + 1;
    }
    proof {
        assert(raw_bytes.subrange(0, raw_bytes.len() as int) =~= raw_bytes);
    }
    match utf8_to_string(kept.as_slice()) {
        Some(s) => Ok(s),
        None => Err(Error::InvalidText),
    }
}

/// Strips NUL padding from a byte run.
pub(crate) fn strip_nul_exec(v: &[u8]) -> (r: Vec<u8>)
    ensures
        r@ == strip_nul(v@),
{
    let mut kept: Vec<u8> = Vec::new();
    let mut k: usize = 0;
    proof {
        assert(strip_nul(v@.subrange(0, 0)) =~= seq![]);
        assert(kept@ =~= seq![]);
    }
    while k < v.len()
        invariant
            0 <= k <= v@.len(),
            kept@ == strip_nul(v@.subrange(0, k as int)),
        decreases v@.len() - k,
    {
        let b: u8 = v[k];
        proof {
            assert(v@.subrange(0, k + 1).drop_last() =~= v@.subrange(0, k as int));
            assert(v@.subrange(0, k + 1).last() == v@[k as int]);
        }
        if b != 0 {
            kept.push(b);
        }
        k = k + 1;
    }
    proof {
        assert(v@.subrange(0, v@.len() as int) =~= v@);
    }
    kept
}

/// Decodes an `n`-byte fixed-capacity string field at absolute position
/// `start`, leaving the cursor position untouched.
pub fn parse_string_at(c: &mut Cursor, start: u128, n: u64) -> (r: Result<String, Error>)
    ensures
        final(c).data@ == old(c).data@,
        final(c).pos == old(c).pos,
        match r {
            Ok(s) => spec_fixed_string(old(c).data@, start as int, n as int) == Ok::<
                Seq<char>,
                Error,
            >(s@),
            Err(e) => spec_fixed_string(old(c).data@, start as int, n as int) == Err::<
                Seq<char>,
                Error,
            >(e),
        },
{
    let raw = c.read_block(start, n)?;
    let stripped = strip_nul_exec(raw.as_slice());
    match utf8_to_string(stripped.as_slice()) {
        Some(s) => Ok(s),
        None => Err(Error::InvalidText),
    }
}

/// A coordinate triple. The three components are IEEE-754 single-precision
/// bit patterns exactly as stored, little-endian.
#[derive(Clone, Copy, Debug, PartialEq, Eq, Structural)]
pub struct Vec3 {
    pub x: u32,
    pub y: u32,
    pub z: u32,
}

impl Vec3 {
    pub fn new(x: u32, y: u32, z: u32) -> (v: Vec3)
        ensures
            v == (Vec3 { x, y, z }),
    {
        Vec3 { x, y, z }
    }
}

impl DeepView for Vec3 {
    type V = Vec3;

    open spec fn deep_view(&self) -> Vec3 {
        *self
    }
}

/// The coordinate triple stored at `p`; always well-formed when the twelve
/// bytes are in bounds.
pub open spec fn spec_vec3_at(b: Seq<u8>, p: int) -> Vec3 {
    Vec3 { x: le32(b, p) as u32, y: le32(b, p + 4) as u32, z: le32(b, p + 8) as u32 }
}

impl Record for Vec3 {
    open spec fn spec_width() -> int {
        12
    }

    open spec fn spec_decode(b: Seq<u8>, p: int) -> Result<Vec3, Error> {
        if p + 12 <= b.len() {
            Ok(spec_vec3_at(b, p))
        } else {
            Err(Error::UnexpectedEnd)
        }
    }

    fn exec_width() -> u64 {
        12
    }

    fn decode(c: &mut Cursor) -> Result<Self, Error> {
        let x = c.read_u32()?;
        let y = c.read_u32()?;
        let z = c.read_u32()?;
        Ok(Vec3 { x, y, z })
    }
}

/// An axis-aligned bounding box of two coordinate triples.
#[derive(Clone, Copy, Debug, PartialEq, Eq, Structural)]
pub struct BoundBox {
    pub min: Vec3,
    pub max: Vec3,
}

impl DeepView for BoundBox {
    type V = BoundBox;

    open spec fn deep_view(&self) -> BoundBox {
        *self
    }
}

impl Record for BoundBox {
    open spec fn spec_width() -> int {
        24
    }

    open spec fn spec_decode(b: Seq<u8>, p: int) -> Result<BoundBox, Error> {
        if p + 24 <= b.len() {
            Ok(BoundBox { min: spec_vec3_at(b, p), max: spec_vec3_at(b, p + 12) })
        } else {
            Err(Error::UnexpectedEnd)
        }
    }

    fn exec_width() -> u64 {
        24
    }

    fn decode(c: &mut Cursor) -> Result<Self, Error> {
        let min = Vec3::decode(c)?;
        let max = Vec3::decode(c)?;
        Ok(BoundBox { min, max })
    }
}

/// One palette colour.
#[derive(Clone, Copy, Debug, PartialEq, Eq, Structural)]
pub struct Rgb {
    pub r: u8,
    pub g: u8,
    pub b: u8,
}

impl DeepView for Rgb {
    type V = Rgb;

    open spec fn deep_view(&self) -> Rgb {
        *self
    }
}

impl Record for Rgb {
    open spec fn spec_width() -> int {
        3
    }

    open spec fn spec_decode(b: Seq<u8>, p: int) -> Result<Rgb, Error> {
        if p + 3 <= b.len() {
            Ok(Rgb { r: b[p], g: b[p + 1], b: b[p + 2] })
        } else {
            Err(Error::UnexpectedEnd)
        }
    }

    fn exec_width() -> u64 {
        3
    }

    fn decode(c: &mut Cursor) -> Result<Self, Error> {
        let r = c.read_u8()?;
        let g = c.read_u8()?;
        let b = c.read_u8()?;
        Ok(Rgb { r, g, b })
    }
}

/// Placement of one character inside a bitmap font's index data.
#[derive(Clone, Copy, Debug, PartialEq, Eq, Structural)]
pub struct CharInfo {
    /// Offset of the character in the font's index data.
    pub start_offset: u16,
    pub char_width: u16,
}

impl DeepView for CharInfo {
    type V = CharInfo;

    open spec fn deep_view(&self) -> CharInfo {
        *self
    }
}

impl Record for CharInfo {
    open spec fn spec_width() -> int {
        4
    }

    open spec fn spec_decode(b: Seq<u8>, p: int) -> Result<CharInfo, Error> {
        if p + 4 <= b.len() {
            Ok(CharInfo { start_offset: le16(b, p) as u16, char_width: le16(b, p + 2) as u16 })
        } else {
            Err(Error::UnexpectedEnd)
        }
    }

    fn exec_width() -> u64 {
        4
    }

    fn decode(c: &mut Cursor) -> Result<Self, Error> {
        let start_offset = c.read_u16()?;
        let char_width = c.read_u16()?;
        Ok(CharInfo { start_offset, char_width })
    }
}

/// A single flat indexed picture: `width * height` palette indices
/// followed by its palette.
#[derive(Debug, Clone, PartialEq, Eq)]
pub struct Picture {
    pub width: u32,
    pub height: u32,
    /// One palette index per pixel, row-major.
    pub data: Vec<u8>,
    pub palette: Vec<Rgb>,
}

/// The mathematical image of a [`Picture`].
pub struct PictureView {
    pub width: u32,
    pub height: u32,
    pub data: Seq<u8>,
    pub palette: Seq<Rgb>,
}

impl DeepView for Picture {
    type V = PictureView;

    open spec fn deep_view(&self) -> PictureView {
        PictureView {
            width: self.width,
            height: self.height,
            data: self.data.deep_view(),
            palette: self.palette.deep_view(),
        }
    }
}

/// The `cnt` raw bytes stored at `start`, or `UnexpectedEnd` when the
/// buffer is too short for them.
pub open spec fn spec_block(b: Seq<u8>, start: int, cnt: int) -> Result<Seq<u8>, Error> {
    if start + cnt <= b.len() {
        Ok(b.subrange(start, start + cnt))
    } else {
        Err(Error::UnexpectedEnd)
    }
}

/// The picture stored at `p`: width, height, `width * height` index
/// bytes, a signed 16-bit palette count, and that many colours.
pub open spec fn spec_picture(b: Seq<u8>, p: int) -> Result<PictureView, Error> {
    if p + 8 > b.len() {
        Err(Error::UnexpectedEnd)
    } else {
        let w = le32(b, p);
        let h = le32(b, p + 4);
        let px = w * h;
        match spec_block(b, p + 8, px) {
            Err(e) => Err(e),
            Ok(data) => if p + 8 + px + 2 > b.len() {
                Err(Error::UnexpectedEnd)
            } else {
                let cu = le_i16(b, p + 8 + px);
                if cu < 0 {
                    Err(Error::InvalidValue)
                } else {
                    match spec_records::<Rgb>(b, p + 8 + px + 2, cu as nat) {
                        Err(e) => Err(e),
                        Ok(pal) => Ok(
                            PictureView {
                                width: w as u32,
                                height: h as u32,
                                data: data,
                                palette: pal,
                            },
                        ),
                    }
                }
            },
        }
    }
}

/// Decodes a [`Picture`] at the cursor's position.
pub fn decode_picture(c: &mut Cursor) -> (r: Result<Picture, Error>)
    ensures
        final(c).data@ == old(c).data@,
        match r {
            Ok(v) => spec_picture(old(c).data@, old(c).pos as int) == Ok::<PictureView, Error>(
                v.deep_view(),
            ),
            Err(e) => spec_picture(old(c).data@, old(c).pos as int) == Err::<PictureView, Error>(
                e,
            ),
        },
{
    let width = c.read_u32()?;
    let height = c.read_u32()?;
    proof {
        assert((width as u64) * (height as u64) <= 0xffff_ffffu64 * 0xffff_ffffu64)
            by (nonlinear_arith)
            requires
                width <= 0xffff_ffffu64,
                height <= 0xffff_ffffu64,
        ;
    }
    let px: u64 = (width as u64) * (height as u64);
    let data_start: u64 = c.pos;
    let data = c.read_block(data_start as u128, px)?;
    let cu = c.read_i16_at(data_start as u128 + px as u128)?;
    if cu < 0 {
        return Err(Error::InvalidValue);
    }
    let buf_len: usize = c.data.len();
    proof {
        assert(data_start as u128 + px as u128 + 2 <= buf_len as u128);
        assert(data_start as u128 + px as u128 + 2 <= u64::MAX as u128);
    }
    let pal_start: u64 = (data_start as u128 + px as u128 + 2) as u64;
    let palette = decode_records::<Rgb>(c, pal_start, cu as u64)?;
    let out = Picture { width, height, data, palette };
    proof {
        assert(out.data.deep_view() =~= out.data@);
    }
    Ok(out)
}

/// The pixel payload of a mip texture whose four level offsets are all
/// non-zero: four halving-resolution index buffers sharing one palette.
#[derive(Debug, Clone, PartialEq, Eq)]
pub struct MipData {
    /// Index bytes of mip levels 0 to 3; level `i` holds
    /// `(width * height) >> (2 * i)` entries.
    pub indices: Vec<Vec<u8>>,
    pub palette: Vec<Rgb>,
}

/// The mathematical image of a [`MipData`].
pub struct MipDataView {
    pub indices: Seq<Seq<u8>>,
    pub palette: Seq<Rgb>,
}

impl DeepView for MipData {
    type V = MipDataView;

    open spec fn deep_view(&self) -> MipDataView {
        MipDataView { indices: self.indices.deep_view(), palette: self.palette.deep_view() }
    }
}

/// A multi-resolution palette-indexed texture. When any of the four
/// stored level offsets is zero the texture is reference-only and
/// carries no pixel data, which `data: None` makes type-distinguishable
/// from zero-length pixel data.
#[derive(Debug, Clone, PartialEq, Eq)]
pub struct MipTexture {
    pub name: String,
    pub width: u32,
    pub height: u32,
    pub data: Option<MipData>,
}

/// The mathematical image of a [`MipTexture`].
pub struct MipTextureView {
    pub name: Seq<char>,
    pub width: u32,
    pub height: u32,
    pub data: Option<MipDataView>,
}

impl DeepView for MipTexture {
    type V = MipTextureView;

    open spec fn deep_view(&self) -> MipTextureView {
        MipTextureView {
            name: self.name@,
            width: self.width,
            height: self.height,
            data: match self.data {
                Some(d) => Some(d.deep_view()),
                None => None,
            },
        }
    }
}

/// The mip texture stored at `p`. The palette sits at the fixed,
/// computable offset `p + 40 + (width * height * 85) / 64`: the 40-byte
/// header followed by the four level blocks, whose sizes sum to
/// `85 / 64` of the level-0 size.
pub open spec fn spec_mip_texture(b: Seq<u8>, p: int) -> Result<MipTextureView, Error> {
    match spec_fixed_string(b, p, 16) {
        Err(e) => Err(e),
        Ok(name) => if p + 40 > b.len() {
            Err(Error::UnexpectedEnd)
        } else {
            let w = le32(b, p + 16);
            let h = le32(b, p + 20);
            let o0 = le32(b, p + 24);
            let o1 = le32(b, p + 28);
            let o2 = le32(b, p + 32);
            let o3 = le32(b, p + 36);
            if o0 == 0 || o1 == 0 || o2 == 0 || o3 == 0 {
                Ok(MipTextureView { name, width: w as u32, height: h as u32, data: None })
            } else {
                let px = w * h;
                match spec_block(b, p + o0, px) {
                    Err(e) => Err(e),
                    Ok(l0) => match spec_block(b, p + o1, px / 4) {
                        Err(e) => Err(e),
                        Ok(l1) => match spec_block(b, p + o2, px / 16) {
                            Err(e) => Err(e),
                            Ok(l2) => match spec_block(b, p + o3, px / 64) {
                                Err(e) => Err(e),
                                Ok(l3) => {
                                    let pp = p + 40 + (px * 85) / 64;
                                    if pp + 2 > b.len() {
                                        Err(Error::UnexpectedEnd)
                                    } else {
                                        let cu = le16(b, pp);
                                        match spec_records::<Rgb>(b, pp + 2, cu as nat) {
                                            Err(e) => Err(e),
                                            Ok(pal) => Ok(
                                                MipTextureView {
                                                    name,
                                                    width: w as u32,
                                                    height: h as u32,
                                                    data: Some(
                                                        MipDataView {
                                                            indices: seq![l0, l1, l2, l3],
                                                            palette: pal,
                                                        },
                                                    ),
                                                },
                                            ),
                                        }
                                    }
                                },
                            },
                        },
                    },
                }
            }
        },
    }
}

/// Decodes a [`MipTexture`] at the cursor's position. The four level
/// offsets are relative to the texture record's own start.
pub fn decode_mip_texture(c: &mut Cursor) -> (r: Result<MipTexture, Error>)
    ensures
        final(c).data@ == old(c).data@,
        match r {
            Ok(v) => spec_mip_texture(old(c).data@, old(c).pos as int) == Ok::<
                MipTextureView,
                Error,
            >(v.deep_view()),
            Err(e) => spec_mip_texture(old(c).data@, old(c).pos as int) == Err::<
                MipTextureView,
                Error,
            >(e),
        },
{
    let base: u64 = c.pos;
    let name = parse_string(c, 16)?;
    let width = c.read_u32()?;
    let height = c.read_u32()?;
    let o0 = c.read_u32()?;
    let o1 = c.read_u32()?;
    let o2 = c.read_u32()?;
    let o3 = c.read_u32()?;
    if o0 == 0 || o1 == 0 || o2 == 0 || o3 == 0 {
        return Ok(MipTexture { name, width, height, data: None });
    }
    proof {
        assert((width as u64) * (height as u64) <= 0xffff_ffffu64 * 0xffff_ffffu64)
            by (nonlinear_arith)
            requires
                width <= 0xffff_ffffu64,
                height <= 0xffff_ffffu64,
        ;
    }
    let px: u64 = (width as u64) * (height as u64);
    let base128: u128 = base as u128;
    let l0 = c.read_block(base128 + o0 as u128, px)?;
    let l1 = c.read_block(base128 + o1 as u128, px / 4)?;
    let l2 = c.read_block(base128 + o2 as u128, px / 16)?;
    let l3 = c.read_block(base128 + o3 as u128, px / 64)?;
    let pp: u128 = base128 + 40 + (px as u128) * 85 / 64;
    let cu = c.read_u16_at(pp)?;
    let buf_len: usize = c.data.len();
    proof {
        assert(pp + 2 <= buf_len as u128);
        assert(pp + 2 <= u64::MAX as u128);
    }
    let pal_start: u64 = (pp + 2) as u64;
    let palette = decode_records::<Rgb>(c, pal_start, cu as u64)?;
    let mut indices: Vec<Vec<u8>> = Vec::new();
    indices.push(l0);
    indices.push(l1);
    indices.push(l2);
    indices.push(l3);
    let out = MipTexture { name, width, height, data: Some(MipData { indices, palette }) };
    proof {
        assert(out.data->Some_0.indices.deep_view() =~~= seq![
            out.data->Some_0.indices@[0]@,
            out.data->Some_0.indices@[1]@,
            out.data->Some_0.indices@[2]@,
            out.data->Some_0.indices@[3]@,
        ]);
    }
    Ok(out)
}

/// A decoded mip texture that carries pixel data holds exactly four
/// levels, and level `i` holds `(width * height) / 4^i` index bytes —
/// the quarter-per-level relationship, equivalently a right shift of
/// the pixel count by twice the level number.
pub proof fn lemma_mip_level_lengths(b: Seq<u8>, p: int)
    requires
        p >= 0,
        spec_mip_texture(b, p) matches Ok(m) && m.data is Some,
    ensures
        spec_mip_texture(b, p)->Ok_0.data->Some_0.indices.len() == 4,
        ({
            let m = spec_mip_texture(b, p)->Ok_0;
            let px = (m.width as int) * (m.height as int);
            &&& m.data->Some_0.indices[0].len() == px
            &&& m.data->Some_0.indices[1].len() == px / 4
            &&& m.data->Some_0.indices[2].len() == px / 16
            &&& m.data->Some_0.indices[3].len() == px / 64
        }),
{
    let w = le32(b, p + 16);
    let h = le32(b, p + 20);
    let px = w * h;
    let m = spec_mip_texture(b, p)->Ok_0;
    assert(0 <= w <= 0xffff_ffff);
    assert(0 <= h <= 0xffff_ffff);
    assert(m.width == w as u32);
    assert(m.height == h as u32);
    assert((m.width as int) * (m.height as int) == px);
    assert(m.data->Some_0.indices[0].len() == px);
    assert(m.data->Some_0.indices[1].len() == px / 4);
    assert(m.data->Some_0.indices[2].len() == px / 16);
    assert(m.data->Some_0.indices[3].len() == px / 64);
}

/// The alpha byte derived for one palette colour: fully transparent for
/// the conventional pure-blue colour key, fully opaque otherwise.
pub open spec fn alpha_of(color: Rgb) -> u8 {
    if color.r < 30 && color.g < 30 && color.b > 125 {
        0
    } else {
        255
    }
}

impl MipTexture {
    /// The index bytes of level `i`, or empty when the texture carries no
    /// pixel data.
    pub open spec fn level_of(self, i: int) -> Seq<u8> {
        match self.data {
            Some(d) => d.indices@[i]@,
            None => seq![],
        }
    }

    /// The number of mip levels carried: four, or zero for a
    /// reference-only texture.
    pub open spec fn level_count(self) -> int {
        match self.data {
            Some(d) => d.indices@.len() as int,
            None => 0,
        }
    }

    /// The shared palette, or empty when the texture carries no pixel
    /// data.
    pub open spec fn palette_of(self) -> Seq<Rgb> {
        match self.data {
            Some(d) => d.palette@,
            None => seq![],
        }
    }

    /// Expands level `mip_level` to RGBA bytes: each index byte becomes
    /// the palette colour at that position followed by the derived alpha.
    pub fn pixels(&self, mip_level: usize) -> (r: Option<Vec<u8>>)
        requires
            self.data is Some,
            mip_level < self.level_count(),
            forall|j: int|
                0 <= j < self.level_of(mip_level as int).len() ==> self.level_of(
                    mip_level as int,
                )[j] < self.palette_of().len(),
        ensures
            r matches Some(px) && px@.len() == 4 * self.level_of(mip_level as int).len()
                && forall|j: int|
                #![trigger self.level_of(mip_level as int)[j]]
                0 <= j < self.level_of(mip_level as int).len() ==> {
                    let color = self.palette_of()[self.level_of(mip_level as int)[j] as int];
                    px@[4 * j] == color.r && px@[4 * j + 1] == color.g && px@[4 * j + 2] == color.b
                        && px@[4 * j + 3] == alpha_of(color)
                },
    {
        match &self.data {
            Some(d) => {
                let idx: &Vec<u8> = &d.indices[mip_level];
                proof {
                    assert(idx@ == self.level_of(mip_level as int));
                    assert forall|t: int| 0 <= t < idx@.len() implies idx@[t]
                        < d.palette@.len() by {
                        assert(self.level_of(mip_level as int)[t] < self.palette_of().len());
                    }
                }
                let mut out: Vec<u8> = Vec::new();
                let mut j: usize = 0;
                while j < idx.len()
                    invariant
                        0 <= j <= idx@.len(),
                        idx@ == self.level_of(mip_level as int),
                        d.palette@ == self.palette_of(),
                        forall|t: int| 0 <= t < idx@.len() ==> idx@[t] < d.palette@.len(),
                        out@.len() == 4 * j,
                        forall|t: int|
                            #![trigger idx@[t]]
                            0 <= t < j ==> {
                                let color = d.palette@[idx@[t] as int];
                                out@[4 * t] == color.r && out@[4 * t + 1] == color.g && out@[4 * t
                                    + 2] == color.b && out@[4 * t + 3] == alpha_of(color)
                            },
                    decreases idx@.len() - j,
                {
                    let i: usize = idx[j] as usize;
                    let color: Rgb = d.palette[i];
                    out.push(color.r);
                    out.push(color.g);
                    out.push(color.b);
                    if color.r < 30 && color.g < 30 && color.b > 125 {
                        out.push(0);
                    } else {
                        out.push(255);
                    }
                    j = j + 1;
                }
                Some(out)
            },
            None => None,
        }
    }

    /// True exactly when the texture carries no pixel data.
    pub fn is_empty(&self) -> (r: bool)
        ensures
            r == (self.data is None),
    {
        match &self.data {
            Some(_) => false,
            None => true,
        }
    }
}

/// A fixed-layout bitmap font: row metrics, a 256-entry per-character
/// placement table, `width * height` index bytes, and a palette shaped
/// like a picture's.
#[derive(Debug, Clone, PartialEq, Eq)]
pub struct Font {
    pub width: u32,
    pub height: u32,
    /// Number of fixed-height character rows.
    pub row_count: u32,
    /// Height of a row.
    pub row_height: u32,
    /// Placement of each of the 256 characters.
    pub font_info: Vec<CharInfo>,
    pub data: Vec<u8>,
    pub palette: Vec<Rgb>,
}

/// The mathematical image of a [`Font`].
pub struct FontView {
    pub width: u32,
    pub height: u32,
    pub row_count: u32,
    pub row_height: u32,
    pub font_info: Seq<CharInfo>,
    pub data: Seq<u8>,
    pub palette: Seq<Rgb>,
}

impl DeepView for Font {
    type V = FontView;

    open spec fn deep_view(&self) -> FontView {
        FontView {
            width: self.width,
            height: self.height,
            row_count: self.row_count,
            row_height: self.row_height,
            font_info: self.font_info.deep_view(),
            data: self.data.deep_view(),
            palette: self.palette.deep_view(),
        }
    }
}

/// The font stored at `p`: four 32-bit metrics, 256 character records,
/// `width * height` index bytes, a signed 16-bit palette count, and that
/// many colours.
pub open spec fn spec_font(b: Seq<u8>, p: int) -> Result<FontView, Error> {
    if p + 16 > b.len() {
        Err(Error::UnexpectedEnd)
    } else {
        let w = le32(b, p);
        let h = le32(b, p + 4);
        let rc = le32(b, p + 8);
        let rh = le32(b, p + 12);
        match spec_records::<CharInfo>(b, p + 16, 256) {
            Err(e) => Err(e),
            Ok(fi) => {
                let px = w * h;
                match spec_block(b, p + 1040, px) {
                    Err(e) => Err(e),
                    Ok(data) => if p + 1040 + px + 2 > b.len() {
                        Err(Error::UnexpectedEnd)
                    } else {
                        let cu = le_i16(b, p + 1040 + px);
                        if cu < 0 {
                            Err(Error::InvalidValue)
                        } else {
                            match spec_records::<Rgb>(b, p + 1040 + px + 2, cu as nat) {
                                Err(e) => Err(e),
                                Ok(pal) => Ok(
                                    FontView {
                                        width: w as u32,
                                        height: h as u32,
                                        row_count: rc as u32,
                                        row_height: rh as u32,
                                        font_info: fi,
                                        data: data,
                                        palette: pal,
                                    },
                                ),
                            }
                        }
                    },
                }
            },
        }
    }
}

/// Decodes a [`Font`] at the cursor's position.
pub fn decode_font(c: &mut Cursor) -> (r: Result<Font, Error>)
    ensures
        final(c).data@ == old(c).data@,
        match r {
            Ok(v) => spec_font(old(c).data@, old(c).pos as int) == Ok::<FontView, Error>(
                v.deep_view(),
            ),
            Err(e) => spec_font(old(c).data@, old(c).pos as int) == Err::<FontView, Error>(e),
        },
{
    let base: u64 = c.pos;
    let width = c.read_u32()?;
    let height = c.read_u32()?;
    let row_count = c.read_u32()?;
    let row_height = c.read_u32()?;
    let fi_off: u64 = c.pos;
    let font_info = decode_records::<CharInfo>(c, fi_off, 256)?;
    proof {
        assert((width as u64) * (height as u64) <= 0xffff_ffffu64 * 0xffff_ffffu64)
            by (nonlinear_arith)
            requires
                width <= 0xffff_ffffu64,
                height <= 0xffff_ffffu64,
        ;
    }
    let px: u64 = (width as u64) * (height as u64);
    let base128: u128 = base as u128;
    let data = c.read_block(base128 + 1040, px)?;
    let cu = c.read_i16_at(base128 + 1040 + px as u128)?;
    if cu < 0 {
        return Err(Error::InvalidValue);
    }
    let buf_len: usize = c.data.len();
    proof {
        assert(base128 + 1040 + px as u128 + 2 <= buf_len as u128);
        assert(base128 + 1040 + px as u128 + 2 <= u64::MAX as u128);
    }
    let pal_start: u64 = (base128 + 1040 + px as u128 + 2) as u64;
    let palette = decode_records::<Rgb>(c, pal_start, cu as u64)?;
    let out = Font { width, height, row_count, row_height, font_info, data, palette };
    proof {
        assert(out.data.deep_view() =~= out.data@);
    }
    Ok(out)
}

} // verus!
