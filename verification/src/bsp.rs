//! The level-geometry container: a 4-byte version field followed by
//! fifteen `(offset, byte-length)` lump pointers, each resolved with a
//! scoped seek. Record counts come from the byte length divided by the
//! record width.

use vstd::prelude::*;
use vstd::utf8::valid_utf8;

use crate::Error;
use crate::cursor::Cursor;
use crate::cursor::le32;
use crate::entities::Entity;
use crate::entities::PropsView;
use crate::entities::parse_entities_bytes;
use crate::entities::spec_parse_entities;
use crate::records::Record;
use crate::records::decode_records;
use crate::records::lemma_records_short_buffer;
use crate::records::spec_records;
use crate::shared::BoundBox;
use crate::shared::MipTexture;
use crate::shared::MipTextureView;
use crate::shared::Vec3;
use crate::shared::decode_mip_texture;
use crate::shared::spec_mip_texture;
use crate::shared::spec_vec3_at;
use crate::shared::strip_nul;

verus! {

/// The version number this decoder requires in the leading field.
pub const BSP_VERSION: u32 = 30;

/// Which axis a plane is perpendicular to, or how a non-axial plane is
/// snapped.
#[derive(Clone, Copy, Debug, PartialEq, Eq, Structural)]
pub enum PlaneType {
    X,
    Y,
    Z,
    AnyX,
    AnyY,
    AnyZ,
}

/// The plane type stored as the 32-bit value `v`, if `v` is declared.
pub open spec fn spec_plane_type(v: int) -> Option<PlaneType> {
    if v == 0 {
        Some(PlaneType::X)
    } else if v == 1 {
        Some(PlaneType::Y)
    } else if v == 2 {
        Some(PlaneType::Z)
    } else if v == 3 {
        Some(PlaneType::AnyX)
    } else if v == 4 {
        Some(PlaneType::AnyY)
    } else if v == 5 {
        Some(PlaneType::AnyZ)
    } else {
        None
    }
}

/// A splitting plane. `dist` is an IEEE-754 single-precision bit
/// pattern, like the normal's components.
#[derive(Clone, Copy, Debug, PartialEq, Eq, Structural)]
pub struct Plane {
    pub normal: Vec3,
    pub dist: u32,
    pub kind: PlaneType,
}

impl DeepView for Plane {
    type V = Plane;

    open spec fn deep_view(&self) -> Plane {
        *self
    }
}

impl Record for Plane {
    open spec fn spec_width() -> int {
        20
    }

    open spec fn spec_decode(b: Seq<u8>, p: int) -> Result<Plane, Error> {
        if p + 20 > b.len() {
            Err(Error::UnexpectedEnd)
        } else {
            match spec_plane_type(le32(b, p + 16)) {
                None => Err(Error::InvalidValue),
                Some(k) => Ok(
                    Plane { normal: spec_vec3_at(b, p), dist: le32(b, p + 12) as u32, kind: k },
                ),
            }
        }
    }

    fn exec_width() -> u64 {
        20
    }

    fn decode(c: &mut Cursor) -> Result<Self, Error> {
        let normal = Vec3::decode(c)?;
        let dist = c.read_u32()?;
        let kv = c.read_u32()?;
        let kind = if kv == 0 {
            PlaneType::X
        } else if kv == 1 {
            PlaneType::Y
        } else if kv == 2 {
            PlaneType::Z
        } else if kv == 3 {
            PlaneType::AnyX
        } else if kv == 4 {
            PlaneType::AnyY
        } else if kv == 5 {
            PlaneType::AnyZ
        } else {
            return Err(Error::InvalidValue);
        };
        Ok(Plane { normal, dist, kind })
    }
}

/// One node of the geometry tree.
#[derive(Clone, Copy, Debug, PartialEq, Eq)]
pub struct Node {
    /// Index into the planes lump.
    pub plane_index: u32,
    pub children: (i16, i16),
    pub mins: (i16, i16, i16),
    pub maxs: (i16, i16, i16),
    /// Index into the faces lump.
    pub first_face: u16,
    /// Count into the faces lump.
    pub num_faces: u16,
}

impl DeepView for Node {
    type V = Node;

    open spec fn deep_view(&self) -> Node {
        *self
    }
}

impl Record for Node {
    open spec fn spec_width() -> int {
        24
    }

    open spec fn spec_decode(b: Seq<u8>, p: int) -> Result<Node, Error> {
        if p + 24 > b.len() {
            Err(Error::UnexpectedEnd)
        } else {
            Ok(
                Node {
                    plane_index: le32(b, p) as u32,
                    children: (
                        crate::cursor::le_i16(b, p + 4) as i16,
                        crate::cursor::le_i16(b, p + 6) as i16,
                    ),
                    mins: (
                        crate::cursor::le_i16(b, p + 8) as i16,
                        crate::cursor::le_i16(b, p + 10) as i16,
                        crate::cursor::le_i16(b, p + 12) as i16,
                    ),
                    maxs: (
                        crate::cursor::le_i16(b, p + 14) as i16,
                        crate::cursor::le_i16(b, p + 16) as i16,
                        crate::cursor::le_i16(b, p + 18) as i16,
                    ),
                    first_face: crate::cursor::le16(b, p + 20) as u16,
                    num_faces: crate::cursor::le16(b, p + 22) as u16,
                },
            )
        }
    }

    fn exec_width() -> u64 {
        24
    }

    fn decode(c: &mut Cursor) -> Result<Self, Error> {
        let plane_index = c.read_u32()?;
        let c0 = c.read_i16()?;
        let c1 = c.read_i16()?;
        let mn0 = c.read_i16()?;
        let mn1 = c.read_i16()?;
        let mn2 = c.read_i16()?;
        let mx0 = c.read_i16()?;
        let mx1 = c.read_i16()?;
        let mx2 = c.read_i16()?;
        let first_face = c.read_u16()?;
        let num_faces = c.read_u16()?;
        Ok(
            Node {
                plane_index,
                children: (c0, c1),
                mins: (mn0, mn1, mn2),
                maxs: (mx0, mx1, mx2),
                first_face,
                num_faces,
            },
        )
    }
}

/// How a face is textured. The shift fields are IEEE-754
/// single-precision bit patterns.
#[derive(Clone, Copy, Debug, PartialEq, Eq, Structural)]
pub struct TextureInfo {
    pub s: Vec3,
    pub s_shift: u32,
    pub t: Vec3,
    pub t_shift: u32,
    pub miptex: u32,
    pub flags: u32,
}

impl DeepView for TextureInfo {
    type V = TextureInfo;

    open spec fn deep_view(&self) -> TextureInfo {
        *self
    }
}

impl Record for TextureInfo {
    open spec fn spec_width() -> int {
        40
    }

    open spec fn spec_decode(b: Seq<u8>, p: int) -> Result<TextureInfo, Error> {
        if p + 40 > b.len() {
            Err(Error::UnexpectedEnd)
        } else {
            Ok(
                TextureInfo {
                    s: spec_vec3_at(b, p),
                    s_shift: le32(b, p + 12) as u32,
                    t: spec_vec3_at(b, p + 16),
                    t_shift: le32(b, p + 28) as u32,
                    miptex: le32(b, p + 32) as u32,
                    flags: le32(b, p + 36) as u32,
                },
            )
        }
    }

    fn exec_width() -> u64 {
        40
    }

    fn decode(c: &mut Cursor) -> Result<Self, Error> {
        let s = Vec3::decode(c)?;
        let s_shift = c.read_u32()?;
        let t = Vec3::decode(c)?;
        let t_shift = c.read_u32()?;
        let miptex = c.read_u32()?;
        let flags = c.read_u32()?;
        Ok(TextureInfo { s, s_shift, t, t_shift, miptex, flags })
    }
}

/// One drawable surface.
#[derive(Clone, Copy, Debug, PartialEq, Eq)]
pub struct Face {
    pub plane_index: u16,
    pub plane_side: u16,
    pub first_edge: u32,
    pub edges: u16,
    pub texture_info: u16,
    pub styles: (u8, u8, u8, u8),
    pub lightmap_offset: u32,
}

impl DeepView for Face {
    type V = Face;

    open spec fn deep_view(&self) -> Face {
        *self
    }
}

impl Record for Face {
    open spec fn spec_width() -> int {
        20
    }

    open spec fn spec_decode(b: Seq<u8>, p: int) -> Result<Face, Error> {
        if p + 20 > b.len() {
            Err(Error::UnexpectedEnd)
        } else {
            Ok(
                Face {
                    plane_index: crate::cursor::le16(b, p) as u16,
                    plane_side: crate::cursor::le16(b, p + 2) as u16,
                    first_edge: le32(b, p + 4) as u32,
                    edges: crate::cursor::le16(b, p + 8) as u16,
                    texture_info: crate::cursor::le16(b, p + 10) as u16,
                    styles: (b[p + 12], b[p + 13], b[p + 14], b[p + 15]),
                    lightmap_offset: le32(b, p + 16) as u32,
                },
            )
        }
    }

    fn exec_width() -> u64 {
        20
    }

    fn decode(c: &mut Cursor) -> Result<Self, Error> {
        let plane_index = c.read_u16()?;
        let plane_side = c.read_u16()?;
        let first_edge = c.read_u32()?;
        let edges = c.read_u16()?;
        let texture_info = c.read_u16()?;
        let s0 = c.read_u8()?;
        let s1 = c.read_u8()?;
        let s2 = c.read_u8()?;
        let s3 = c.read_u8()?;
        let lightmap_offset = c.read_u32()?;
        Ok(
            Face {
                plane_index,
                plane_side,
                first_edge,
                edges,
                texture_info,
                styles: (s0, s1, s2, s3),
                lightmap_offset,
            },
        )
    }
}

/// One node of the collision tree.
#[derive(Clone, Copy, Debug, PartialEq, Eq)]
pub struct ClipNode {
    pub plane_index: i32,
    pub children: (i16, i16),
}

impl DeepView for ClipNode {
    type V = ClipNode;

    open spec fn deep_view(&self) -> ClipNode {
        *self
    }
}

impl Record for ClipNode {
    open spec fn spec_width() -> int {
        8
    }

    open spec fn spec_decode(b: Seq<u8>, p: int) -> Result<ClipNode, Error> {
        if p + 8 > b.len() {
            Err(Error::UnexpectedEnd)
        } else {
            Ok(
                ClipNode {
                    plane_index: crate::cursor::le_i32(b, p) as i32,
                    children: (
                        crate::cursor::le_i16(b, p + 4) as i16,
                        crate::cursor::le_i16(b, p + 6) as i16,
                    ),
                },
            )
        }
    }

    fn exec_width() -> u64 {
        8
    }

    fn decode(c: &mut Cursor) -> Result<Self, Error> {
        let plane_index = c.read_i32()?;
        let c0 = c.read_i16()?;
        let c1 = c.read_i16()?;
        Ok(ClipNode { plane_index, children: (c0, c1) })
    }
}

/// What a leaf of the geometry tree holds.
#[derive(Clone, Copy, Debug, PartialEq, Eq, Structural)]
pub enum LeafContent {
    Empty,
    Solid,
    Water,
    Slime,
    Lava,
    Sky,
    Origin,
    Clip,
    Current0,
    Current90,
    Current180,
    Current270,
    CurrentUp,
    CurrentDown,
    Translucent,
}

/// The leaf content stored as the signed 32-bit value `v`, if `v` is
/// declared: the declared values are -1 down to -15.
pub open spec fn spec_leaf_content(v: int) -> Option<LeafContent> {
    if v == -1 {
        Some(LeafContent::Empty)
    } else if v == -2 {
        Some(LeafContent::Solid)
    } else if v == -3 {
        Some(LeafContent::Water)
    } else if v == -4 {
        Some(LeafContent::Slime)
    } else if v == -5 {
        Some(LeafContent::Lava)
    } else if v == -6 {
        Some(LeafContent::Sky)
    } else if v == -7 {
        Some(LeafContent::Origin)
    } else if v == -8 {
        Some(LeafContent::Clip)
    } else if v == -9 {
        Some(LeafContent::Current0)
    } else if v == -10 {
        Some(LeafContent::Current90)
    } else if v == -11 {
        Some(LeafContent::Current180)
    } else if v == -12 {
        Some(LeafContent::Current270)
    } else if v == -13 {
        Some(LeafContent::CurrentUp)
    } else if v == -14 {
        Some(LeafContent::CurrentDown)
    } else if v == -15 {
        Some(LeafContent::Translucent)
    } else {
        None
    }
}

/// Maps a stored leaf-content value to its variant.
fn leaf_content_of(v: i32) -> (r: Result<LeafContent, Error>)
    ensures
        match r {
            Ok(lc) => spec_leaf_content(v as int) == Some(lc),
            Err(e) => spec_leaf_content(v as int) is None && e == Error::InvalidValue,
        },
{
    if v == -1 {
        Ok(LeafContent::Empty)
    } else if v == -2 {
        Ok(LeafContent::Solid)
    } else if v == -3 {
        Ok(LeafContent::Water)
    } else if v == -4 {
        Ok(LeafContent::Slime)
    } else if v == -5 {
        Ok(LeafContent::Lava)
    } else if v == -6 {
        Ok(LeafContent::Sky)
    } else if v == -7 {
        Ok(LeafContent::Origin)
    } else if v == -8 {
        Ok(LeafContent::Clip)
    } else if v == -9 {
        Ok(LeafContent::Current0)
    } else if v == -10 {
        Ok(LeafContent::Current90)
    } else if v == -11 {
        Ok(LeafContent::Current180)
    } else if v == -12 {
        Ok(LeafContent::Current270)
    } else if v == -13 {
        Ok(LeafContent::CurrentUp)
    } else if v == -14 {
        Ok(LeafContent::CurrentDown)
    } else if v == -15 {
        Ok(LeafContent::Translucent)
    } else {
        Err(Error::InvalidValue)
    }
}

/// One leaf of the geometry tree.
#[derive(Clone, Copy, Debug, PartialEq, Eq)]
pub struct Leaf {
    pub contents: LeafContent,
    pub vis_offset: i32,
    pub mins: (i16, i16, i16),
    pub maxs: (i16, i16, i16),
    pub first_mark_surface: u16,
    pub mark_surface: u16,
    pub ambient_levels: (u8, u8, u8, u8),
}

impl DeepView for Leaf {
    type V = Leaf;

    open spec fn deep_view(&self) -> Leaf {
        *self
    }
}

impl Record for Leaf {
    open spec fn spec_width() -> int {
        28
    }

    open spec fn spec_decode(b: Seq<u8>, p: int) -> Result<Leaf, Error> {
        if p + 28 > b.len() {
            Err(Error::UnexpectedEnd)
        } else {
            match spec_leaf_content(crate::cursor::le_i32(b, p)) {
                None => Err(Error::InvalidValue),
                Some(lc) => Ok(
                    Leaf {
                        contents: lc,
                        vis_offset: crate::cursor::le_i32(b, p + 4) as i32,
                        mins: (
                            crate::cursor::le_i16(b, p + 8) as i16,
                            crate::cursor::le_i16(b, p + 10) as i16,
                            crate::cursor::le_i16(b, p + 12) as i16,
                        ),
                        maxs: (
                            crate::cursor::le_i16(b, p + 14) as i16,
                            crate::cursor::le_i16(b, p + 16) as i16,
                            crate::cursor::le_i16(b, p + 18) as i16,
                        ),
                        first_mark_surface: crate::cursor::le16(b, p + 20) as u16,
                        mark_surface: crate::cursor::le16(b, p + 22) as u16,
                        ambient_levels: (b[p + 24], b[p + 25], b[p + 26], b[p + 27]),
                    },
                ),
            }
        }
    }

    fn exec_width() -> u64 {
        28
    }

    fn decode(c: &mut Cursor) -> Result<Self, Error> {
        let cv = c.read_i32()?;
        let vis_offset = c.read_i32()?;
        let mn0 = c.read_i16()?;
        let mn1 = c.read_i16()?;
        let mn2 = c.read_i16()?;
        let mx0 = c.read_i16()?;
        let mx1 = c.read_i16()?;
        let mx2 = c.read_i16()?;
        let first_mark_surface = c.read_u16()?;
        let mark_surface = c.read_u16()?;
        let a0 = c.read_u8()?;
        let a1 = c.read_u8()?;
        let a2 = c.read_u8()?;
        let a3 = c.read_u8()?;
        let contents = leaf_content_of(cv)?;
        Ok(
            Leaf {
                contents,
                vis_offset,
                mins: (mn0, mn1, mn2),
                maxs: (mx0, mx1, mx2),
                first_mark_surface,
                mark_surface,
                ambient_levels: (a0, a1, a2, a3),
            },
        )
    }
}

/// One edge: the indices of its two vertices.
#[derive(Clone, Copy, Debug, PartialEq, Eq, Structural)]
pub struct Edge {
    pub start: u16,
    pub end: u16,
}

impl DeepView for Edge {
    type V = Edge;

    open spec fn deep_view(&self) -> Edge {
        *self
    }
}

impl Record for Edge {
    open spec fn spec_width() -> int {
        4
    }

    open spec fn spec_decode(b: Seq<u8>, p: int) -> Result<Edge, Error> {
        if p + 4 > b.len() {
            Err(Error::UnexpectedEnd)
        } else {
            Ok(
                Edge {
                    start: crate::cursor::le16(b, p) as u16,
                    end: crate::cursor::le16(b, p + 2) as u16,
                },
            )
        }
    }

    fn exec_width() -> u64 {
        4
    }

    fn decode(c: &mut Cursor) -> Result<Self, Error> {
        let start = c.read_u16()?;
        let end = c.read_u16()?;
        Ok(Edge { start, end })
    }
}

/// One sub-model of the level. `origin`'s components are IEEE-754
/// single-precision bit patterns.
#[derive(Clone, Copy, Debug, PartialEq, Eq)]
pub struct Model {
    pub bounding_box: BoundBox,
    pub origin: Vec3,
    pub head_nodes: (i32, i32, i32, i32),
    pub vis_leafs: i32,
    pub first_face: i32,
    pub faces: i32,
}

impl DeepView for Model {
    type V = Model;

    open spec fn deep_view(&self) -> Model {
        *self
    }
}

impl Record for Model {
    open spec fn spec_width() -> int {
        64
    }

    open spec fn spec_decode(b: Seq<u8>, p: int) -> Result<Model, Error> {
        if p + 64 > b.len() {
            Err(Error::UnexpectedEnd)
        } else {
            Ok(
                Model {
                    bounding_box: BoundBox {
                        min: spec_vec3_at(b, p),
                        max: spec_vec3_at(b, p + 12),
                    },
                    origin: spec_vec3_at(b, p + 24),
                    head_nodes: (
                        crate::cursor::le_i32(b, p + 36) as i32,
                        crate::cursor::le_i32(b, p + 40) as i32,
                        crate::cursor::le_i32(b, p + 44) as i32,
                        crate::cursor::le_i32(b, p + 48) as i32,
                    ),
                    vis_leafs: crate::cursor::le_i32(b, p + 52) as i32,
                    first_face: crate::cursor::le_i32(b, p + 56) as i32,
                    faces: crate::cursor::le_i32(b, p + 60) as i32,
                },
            )
        }
    }

    fn exec_width() -> u64 {
        64
    }

    fn decode(c: &mut Cursor) -> Result<Self, Error> {
        let bounding_box = BoundBox::decode(c)?;
        let origin = Vec3::decode(c)?;
        let h0 = c.read_i32()?;
        let h1 = c.read_i32()?;
        let h2 = c.read_i32()?;
        let h3 = c.read_i32()?;
        let vis_leafs = c.read_i32()?;
        let first_face = c.read_i32()?;
        let faces = c.read_i32()?;
        Ok(
            Model {
                bounding_box,
                origin,
                head_nodes: (h0, h1, h2, h3),
                vis_leafs,
                first_face,
                faces,
            },
        )
    }
}

/// The record array named by the `(offset, byte-length)` pointer at `p`:
/// the stored byte length divided by the record width gives the count.
pub open spec fn spec_lump<T: Record>(b: Seq<u8>, p: int) -> Result<Seq<T::V>, Error> {
    if p + 8 > b.len() {
        Err(Error::UnexpectedEnd)
    } else {
        spec_records::<T>(b, le32(b, p), (le32(b, p + 4) / T::spec_width()) as nat)
    }
}

/// Reads one `(offset, byte-length)` lump pointer and decodes the
/// records it names, leaving the cursor just past the pointer.
pub fn read_lump<T: Record>(c: &mut Cursor) -> (r: Result<Vec<T>, Error>)
    ensures
        final(c).data@ == old(c).data@,
        match r {
            Ok(v) => spec_lump::<T>(old(c).data@, old(c).pos as int) == Ok::<Seq<T::V>, Error>(
                v.deep_view(),
            ) && final(c).pos == old(c).pos + 8,
            Err(e) => spec_lump::<T>(old(c).data@, old(c).pos as int) == Err::<Seq<T::V>, Error>(
                e,
            ),
        },
{
    let off = c.read_u32()?;
    let size = c.read_u32()?;
    let w: u64 = T::exec_width();
    decode_records::<T>(c, off as u64, (size as u64) / w)
}

/// The entity text named by the `(offset, byte-length)` pointer at `p`:
/// the stored bytes with NUL padding dropped must be valid UTF-8, and
/// decode to the property sets of the entity mini-language.
pub open spec fn spec_entities_lump(b: Seq<u8>, p: int) -> Result<Seq<PropsView>, Error> {
    if p + 8 > b.len() {
        Err(Error::UnexpectedEnd)
    } else {
        let off = le32(b, p);
        let size = le32(b, p + 4);
        if off + size > b.len() {
            Err(Error::UnexpectedEnd)
        } else {
            let nb = strip_nul(b.subrange(off, off + size));
            if valid_utf8(nb) {
                Ok(spec_parse_entities(nb))
            } else {
                Err(Error::InvalidText)
            }
        }
    }
}

/// Reads the entities lump: resolves its pointer, extracts the text with
/// NUL bytes dropped, and parses the entity mini-language.
pub fn entry_parser_entities(c: &mut Cursor) -> (r: Result<Vec<Entity>, Error>)
    ensures
        final(c).data@ == old(c).data@,
        match r {
            Ok(v) => spec_entities_lump(old(c).data@, old(c).pos as int) == Ok::<
                Seq<PropsView>,
                Error,
            >(v.deep_view()) && final(c).pos == old(c).pos + 8,
            Err(e) => spec_entities_lump(old(c).data@, old(c).pos as int) == Err::<
                Seq<PropsView>,
                Error,
            >(e),
        },
{
    let off = c.read_u32()?;
    let size = c.read_u32()?;
    let raw = c.read_block(off as u128, size as u64)?;
    let stripped = crate::shared::strip_nul_exec(raw.as_slice());
    match crate::shared::utf8_to_string(stripped.as_slice()) {
        None => Err(Error::InvalidText),
        Some(_text) => Ok(parse_entities_bytes(stripped.as_slice())),
    }
}

/// The mip textures named by the offset table at `toff`: entry `k` of
/// the table locates texture `k` relative to the table's own start.
pub open spec fn spec_mips(b: Seq<u8>, toff: int, offs: Seq<u32>, n: nat) -> Result<
    Seq<MipTextureView>,
    Error,
>
    decreases n,
{
    if n == 0 {
        Ok(seq![])
    } else {
        match spec_mips(b, toff, offs, (n - 1) as nat) {
            Err(e) => Err(e),
            Ok(pre) => match spec_mip_texture(b, toff + offs[n - 1]) {
                Err(e) => Err(e),
                Ok(m) => Ok(pre.push(m)),
            },
        }
    }
}

/// When the textures up to `k` decode cleanly but texture `k` fails, the
/// whole list fails with texture `k`'s error.
proof fn lemma_mips_first_error(
    b: Seq<u8>,
    toff: int,
    offs: Seq<u32>,
    k: nat,
    n: nat,
    e: Error,
)
    requires
        k < n,
        spec_mips(b, toff, offs, k) is Ok,
        spec_mip_texture(b, toff + offs[k as int]) == Err::<MipTextureView, Error>(e),
    ensures
        spec_mips(b, toff, offs, n) == Err::<Seq<MipTextureView>, Error>(e),
    decreases n,
{
    if n == k + 1 {
    } else {
        lemma_mips_first_error(b, toff, offs, k, (n - 1) as nat, e);
    }
}

/// The textures lump at `p`: its pointer leads to a count, an offset
/// table, and one mip texture per table entry.
pub open spec fn spec_textures_lump(b: Seq<u8>, p: int) -> Result<Seq<MipTextureView>, Error> {
    if p + 8 > b.len() {
        Err(Error::UnexpectedEnd)
    } else {
        let toff = le32(b, p);
        if toff + 4 > b.len() {
            Err(Error::UnexpectedEnd)
        } else {
            let num = le32(b, toff);
            match spec_records::<u32>(b, toff + 4, num as nat) {
                Err(e) => Err(e),
                Ok(offs) => spec_mips(b, toff, offs, num as nat),
            }
        }
    }
}

/// Reads the textures lump: resolves its pointer, reads the offset
/// table, and decodes one mip texture per entry.
pub fn entry_parser_textures(c: &mut Cursor) -> (r: Result<Vec<MipTexture>, Error>)
    ensures
        final(c).data@ == old(c).data@,
        match r {
            Ok(v) => spec_textures_lump(old(c).data@, old(c).pos as int) == Ok::<
                Seq<MipTextureView>,
                Error,
            >(v.deep_view()) && final(c).pos == old(c).pos + 8,
            Err(e) => spec_textures_lump(old(c).data@, old(c).pos as int) == Err::<
                Seq<MipTextureView>,
                Error,
            >(e),
        },
{
    let toff = c.read_u32()?;
    let _size = c.read_u32()?;
    let num = c.read_u32_at(toff as u128)?;
    let offsets = decode_records::<u32>(c, toff as u64 + 4, num as u64)?;
    proof {
        assert(offsets.deep_view() =~= offsets@);
        crate::records::lemma_records_len::<u32>(c.data@, toff as int + 4, num as nat);
    }
    let saved: u64 = c.pos;
    let mut out: Vec<MipTexture> = Vec::new();
    proof {
        assert(out.deep_view() =~= seq![]);
    }
    let mut k: u64 = 0;
    while k < num as u64
        invariant
            0 <= k <= num,
            c.data@ == old(c).data@,
            saved == c.pos,
            saved == old(c).pos + 8,
            old(c).pos + 8 <= c.data@.len(),
            toff == le32(c.data@, old(c).pos as int),
            toff + 4 <= c.data@.len(),
            num == le32(c.data@, toff as int),
            spec_records::<u32>(c.data@, toff as int + 4, num as nat) == Ok::<Seq<u32>, Error>(
                offsets@,
            ),
            offsets@.len() == num,
            spec_mips(c.data@, toff as int, offsets@, k as nat) == Ok::<
                Seq<MipTextureView>,
                Error,
            >(out.deep_view()),
            out@.len() == k,
        decreases num - k,
    {
        let off_k: u32 = offsets[k as usize];
        c.seek(toff as u64 + off_k as u64);
        let ghost pre = out.deep_view();
        match decode_mip_texture(c) {
            Ok(m) => {
                let ghost mdv = m.deep_view();
                out.push(m);
                proof {
                    assert(out.deep_view() =~= pre.push(mdv));
                    assert(spec_mips(c.data@, toff as int, offsets@, (k + 1) as nat) == Ok::<
                        Seq<MipTextureView>,
                        Error,
                    >(out.deep_view()));
                }
                k = k + 1;
                c.seek(saved);
            },
            Err(e) => {
                proof {
                    lemma_mips_first_error(
                        c.data@,
                        toff as int,
                        offsets@,
                        k as nat,
                        num as nat,
                        e,
                    );
                }
                c.seek(saved);
                return Err(e);
            },
        }
    }
    Ok(out)
}

/// The decoded level container.
#[derive(Debug, Clone, PartialEq)]
pub struct Bsp {
    pub version: u32,
    pub entities: Vec<Entity>,
    pub planes: Vec<Plane>,
    pub textures: Vec<MipTexture>,
    pub vertices: Vec<Vec3>,
    pub vis_offset: u32,
    pub vis_size: u32,
    pub nodes: Vec<Node>,
    pub texture_infos: Vec<TextureInfo>,
    pub faces: Vec<Face>,
    pub lightmap: Vec<u8>,
    pub clip_nodes: Vec<ClipNode>,
    pub leaves: Vec<Leaf>,
    pub mark_surfaces: Vec<u16>,
    pub edges: Vec<Edge>,
    pub surf_edges: Vec<i32>,
    pub models: Vec<Model>,
}

/// The mathematical image of a [`Bsp`].
pub struct BspView {
    pub version: u32,
    pub entities: Seq<PropsView>,
    pub planes: Seq<Plane>,
    pub textures: Seq<MipTextureView>,
    pub vertices: Seq<Vec3>,
    pub vis_offset: u32,
    pub vis_size: u32,
    pub nodes: Seq<Node>,
    pub texture_infos: Seq<TextureInfo>,
    pub faces: Seq<Face>,
    pub lightmap: Seq<u8>,
    pub clip_nodes: Seq<ClipNode>,
    pub leaves: Seq<Leaf>,
    pub mark_surfaces: Seq<u16>,
    pub edges: Seq<Edge>,
    pub surf_edges: Seq<i32>,
    pub models: Seq<Model>,
}

impl DeepView for Bsp {
    type V = BspView;

    open spec fn deep_view(&self) -> BspView {
        BspView {
            version: self.version,
            entities: self.entities.deep_view(),
            planes: self.planes.deep_view(),
            textures: self.textures.deep_view(),
            vertices: self.vertices.deep_view(),
            vis_offset: self.vis_offset,
            vis_size: self.vis_size,
            nodes: self.nodes.deep_view(),
            texture_infos: self.texture_infos.deep_view(),
            faces: self.faces.deep_view(),
            lightmap: self.lightmap.deep_view(),
            clip_nodes: self.clip_nodes.deep_view(),
            leaves: self.leaves.deep_view(),
            mark_surfaces: self.mark_surfaces.deep_view(),
            edges: self.edges.deep_view(),
            surf_edges: self.surf_edges.deep_view(),
            models: self.models.deep_view(),
        }
    }
}

/// The level container decoded from `b`: a version field equal to 30,
/// then the fifteen lump pointers in declared order, each followed to
/// its data.
pub open spec fn spec_read_bsp(b: Seq<u8>) -> Result<BspView, Error> {
    if 4 > b.len() {
        Err(Error::UnexpectedEnd)
    } else if le32(b, 0) != BSP_VERSION {
        Err(Error::VersionMismatch)
    } else {
        match spec_entities_lump(b, 4) {
            Err(e) => Err(e),
            Ok(entities) => match spec_lump::<Plane>(b, 12) {
                Err(e) => Err(e),
                Ok(planes) => match spec_textures_lump(b, 20) {
                    Err(e) => Err(e),
                    Ok(textures) => match spec_lump::<Vec3>(b, 28) {
                        Err(e) => Err(e),
                        Ok(vertices) => if 44 > b.len() {
                            Err(Error::UnexpectedEnd)
                        } else {
                            match spec_lump::<Node>(b, 44) {
                                Err(e) => Err(e),
                                Ok(nodes) => match spec_lump::<TextureInfo>(b, 52) {
                                    Err(e) => Err(e),
                                    Ok(texture_infos) => match spec_lump::<Face>(b, 60) {
                                        Err(e) => Err(e),
                                        Ok(faces) => match spec_lump::<u8>(b, 68) {
                                            Err(e) => Err(e),
                                            Ok(lightmap) => match spec_lump::<ClipNode>(b, 76) {
                                                Err(e) => Err(e),
                                                Ok(clip_nodes) => match spec_lump::<Leaf>(b, 84) {
                                                    Err(e) => Err(e),
                                                    Ok(leaves) => match spec_lump::<u16>(b, 92) {
                                                        Err(e) => Err(e),
                                                        Ok(mark_surfaces) => match spec_lump::<
                                                            Edge,
                                                        >(b, 100) {
                                                            Err(e) => Err(e),
                                                            Ok(edges) => match spec_lump::<i32>(
                                                                b,
                                                                108,
                                                            ) {
                                                                Err(e) => Err(e),
                                                                Ok(surf_edges) => match spec_lump::<
                                                                    Model,
                                                                >(b, 116) {
                                                                    Err(e) => Err(e),
                                                                    Ok(models) => Ok(
                                                                        BspView {
                                                                            version: le32(
                                                                                b,
                                                                                0,
                                                                            ) as u32,
                                                                            entities,
                                                                            planes,
                                                                            textures,
                                                                            vertices,
                                                                            vis_offset: le32(
                                                                                b,
                                                                                36,
                                                                            ) as u32,
                                                                            vis_size: le32(
                                                                                b,
                                                                                40,
                                                                            ) as u32,
                                                                            nodes,
                                                                            texture_infos,
                                                                            faces,
                                                                            lightmap,
                                                                            clip_nodes,
                                                                            leaves,
                                                                            mark_surfaces,
                                                                            edges,
                                                                            surf_edges,
                                                                            models,
                                                                        },
                                                                    ),
                                                                },
                                                            },
                                                        },
                                                    },
                                                },
                                            },
                                        },
                                    },
                                },
                            }
                        },
                    },
                },
            },
        }
    }
}

/// Decodes a level container. The buffer must begin with a 4-byte
/// version field equal to 30; there is no magic string.
#[verifier::rlimit(100)]
pub fn read_bsp(bytes: &[u8]) -> (r: Result<Bsp, Error>)
    ensures
        match r {
            Ok(v) => spec_read_bsp(bytes@) == Ok::<BspView, Error>(v.deep_view()),
            Err(e) => spec_read_bsp(bytes@) == Err::<BspView, Error>(e),
        },
{
    let mut c = Cursor::new(bytes);
    let version = c.read_u32()?;
    if version != BSP_VERSION {
        return Err(Error::VersionMismatch);
    }
    let entities = entry_parser_entities(&mut c)?;
    let planes = read_lump::<Plane>(&mut c)?;
    let textures = entry_parser_textures(&mut c)?;
    let vertices = read_lump::<Vec3>(&mut c)?;
    let vis_offset = c.read_u32()?;
    let vis_size = c.read_u32()?;
    let nodes = read_lump::<Node>(&mut c)?;
    let texture_infos = read_lump::<TextureInfo>(&mut c)?;
    let faces = read_lump::<Face>(&mut c)?;
    let lightmap = read_lump::<u8>(&mut c)?;
    let clip_nodes = read_lump::<ClipNode>(&mut c)?;
    let leaves = read_lump::<Leaf>(&mut c)?;
    let mark_surfaces = read_lump::<u16>(&mut c)?;
    let edges = read_lump::<Edge>(&mut c)?;
    let surf_edges = read_lump::<i32>(&mut c)?;
    let models = read_lump::<Model>(&mut c)?;
    Ok(
        Bsp {
            version,
            entities,
            planes,
            textures,
            vertices,
            vis_offset,
            vis_size,
            nodes,
            texture_infos,
            faces,
            lightmap,
            clip_nodes,
            leaves,
            mark_surfaces,
            edges,
            surf_edges,
            models,
        },
    )
}

impl Bsp {
    /// The normal of every plane, in lump order.
    pub fn normals(&self) -> (r: Vec<Vec3>)
        ensures
            r@.len() == self.planes@.len(),
            forall|i: int| 0 <= i < r@.len() ==> r@[i] == #[trigger] self.planes@[i].normal,
    {
        let mut out: Vec<Vec3> = Vec::new();
        let mut i: usize = 0;
        while i < self.planes.len()
            invariant
                0 <= i <= self.planes@.len(),
                out@.len() == i,
                forall|t: int| 0 <= t < i ==> out@[t] == #[trigger] self.planes@[t].normal,
            decreases self.planes@.len() - i,
        {
            out.push(self.planes[i].normal);
            i = i + 1;
        }
        out
    }
}

/// Decoding is deterministic: the same bytes always decode to the same
/// level container.
pub proof fn lemma_read_bsp_deterministic(b1: Seq<u8>, b2: Seq<u8>)
    requires
        b1 == b2,
    ensures
        spec_read_bsp(b1) == spec_read_bsp(b2),
{
}

/// A zero-length lump decodes to the empty record array, never to an
/// error, wherever its offset points: splitting planes taken as the
/// witness record shape.
pub proof fn lemma_empty_plane_lump(b: Seq<u8>, p: int)
    ensures
        spec_records::<Plane>(b, p, 0) == Ok::<Seq<Plane>, Error>(Seq::<Plane>::empty()),
{
    crate::records::lemma_empty_record_array::<Plane>(b, p);
}

/// A buffer shorter than one plane record at the resolved offset makes
/// the whole plane array fail with `UnexpectedEnd`: no truncated or
/// zero-filled record is ever returned.
pub proof fn lemma_short_plane_lump(b: Seq<u8>, p: int, count: nat)
    requires
        count > 0,
        p >= 0,
        p + 20 > b.len(),
    ensures
        spec_records::<Plane>(b, p, count) == Err::<Seq<Plane>, Error>(Error::UnexpectedEnd),
{
    lemma_records_short_buffer::<Plane>(b, p, count);
}

} // verus!
