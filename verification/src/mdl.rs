//! The skeletal-model container: a 4-byte magic `IDST`, a version field
//! equal to 10, a large header of `(count, offset)` pointer pairs, and a
//! forward pointer to a secondary header block. Sequences carry forward
//! pointers to animation descriptions that re-validate the magic, body
//! parts carry explicit model counts, and each model's vertex and normal
//! arrays are addressed relative to that model record's own start — the
//! one deliberate deviation from absolute addressing in these formats,
//! which must not be generalized to any other pointer.

use vstd::prelude::*;

use crate::Error;
use crate::cursor::Cursor;
use crate::cursor::le32;
use crate::records::Record;
use crate::records::decode_records;
use crate::records::lemma_empty_record_array;
use crate::records::lemma_records_short_buffer;
use crate::records::spec_records;
use crate::shared::BoundBox;
use crate::shared::Vec3;
use crate::shared::parse_string;
use crate::shared::spec_fixed_string;
use crate::shared::spec_vec3_at;

verus! {

/// The capacity of the fixed name fields most model records use.
pub const MAX_STUDIO_NAME: usize = 32;

/// The version number this decoder requires after the magic.
pub const MDL_VERSION: u32 = 10;

/// Decodes a count/offset pointer pair in the model format's field
/// order: the count comes first, then the offset.
fn read_count_offset(c: &mut Cursor) -> (r: Result<(u32, u32), Error>)
    ensures
        final(c).data@ == old(c).data@,
        match r {
            Ok(v) => old(c).pos + 8 <= final(c).data@.len() && v.0 == le32(
                final(c).data@,
                old(c).pos as int,
            ) && v.1 == le32(final(c).data@, old(c).pos + 4) && final(c).pos == old(c).pos + 8,
            Err(e) => e == Error::UnexpectedEnd && old(c).pos + 8 > final(c).data@.len(),
        },
{
    let count = c.read_u32()?;
    let offset = c.read_u32()?;
    Ok((count, offset))
}

/// One bone of the skeleton. Position, rotation and the compressed
/// scales are IEEE-754 single-precision bit patterns.
#[derive(Debug, PartialEq, Eq)]
pub struct Bone {
    pub name: String,
    /// The parent bone offset.
    pub parent: u32,
    pub flags: u32,
    /// Available bone controller per motion type.
    pub bone_controller: (u32, u32, u32, u32, u32, u32),
    pub position: Vec3,
    pub rotation: Vec3,
    pub compressed_position_scale: Vec3,
    pub compressed_rotation_scale: Vec3,
}

/// The mathematical image of a [`Bone`].
pub struct BoneView {
    pub name: Seq<char>,
    pub parent: u32,
    pub flags: u32,
    pub bone_controller: (u32, u32, u32, u32, u32, u32),
    pub position: Vec3,
    pub rotation: Vec3,
    pub compressed_position_scale: Vec3,
    pub compressed_rotation_scale: Vec3,
}

impl DeepView for Bone {
    type V = BoneView;

    open spec fn deep_view(&self) -> BoneView {
        BoneView {
            name: self.name@,
            parent: self.parent,
            flags: self.flags,
            bone_controller: self.bone_controller,
            position: self.position,
            rotation: self.rotation,
            compressed_position_scale: self.compressed_position_scale,
            compressed_rotation_scale: self.compressed_rotation_scale,
        }
    }
}

impl Record for Bone {
    open spec fn spec_width() -> int {
        112
    }

    open spec fn spec_decode(b: Seq<u8>, p: int) -> Result<BoneView, Error> {
        match spec_fixed_string(b, p, 32) {
            Err(e) => Err(e),
            Ok(name) => if p + 112 > b.len() {
                Err(Error::UnexpectedEnd)
            } else {
                Ok(
                    BoneView {
                        name,
                        parent: le32(b, p + 32) as u32,
                        flags: le32(b, p + 36) as u32,
                        bone_controller: (
                            le32(b, p + 40) as u32,
                            le32(b, p + 44) as u32,
                            le32(b, p + 48) as u32,
                            le32(b, p + 52) as u32,
                            le32(b, p + 56) as u32,
                            le32(b, p + 60) as u32,
                        ),
                        position: spec_vec3_at(b, p + 64),
                        rotation: spec_vec3_at(b, p + 76),
                        compressed_position_scale: spec_vec3_at(b, p + 88),
                        compressed_rotation_scale: spec_vec3_at(b, p + 100),
                    },
                )
            },
        }
    }

    fn exec_width() -> u64 {
        112
    }

    fn decode(c: &mut Cursor) -> Result<Self, Error> {
        let name = parse_string(c, 32)?;
        let parent = c.read_u32()?;
        let flags = c.read_u32()?;
        let b0 = c.read_u32()?;
        let b1 = c.read_u32()?;
        let b2 = c.read_u32()?;
        let b3 = c.read_u32()?;
        let b4 = c.read_u32()?;
        let b5 = c.read_u32()?;
        let position = Vec3::decode(c)?;
        let rotation = Vec3::decode(c)?;
        let compressed_position_scale = Vec3::decode(c)?;
        let compressed_rotation_scale = Vec3::decode(c)?;
        Ok(
            Bone {
                name,
                parent,
                flags,
                bone_controller: (b0, b1, b2, b3, b4, b5),
                position,
                rotation,
                compressed_position_scale,
                compressed_rotation_scale,
            },
        )
    }
}

/// One bone controller. `start` and `end` are IEEE-754 single-precision
/// bit patterns.
#[derive(Clone, Copy, Debug, PartialEq, Eq, Structural)]
pub struct BoneController {
    /// Bone affected by this controller.
    pub bone: u32,
    /// The motion type.
    pub kind: u32,
    pub start: u32,
    pub end: u32,
    pub rest: u32,
    /// The bone controller channel.
    pub index: u32,
}

impl DeepView for BoneController {
    type V = BoneController;

    open spec fn deep_view(&self) -> BoneController {
        *self
    }
}

impl Record for BoneController {
    open spec fn spec_width() -> int {
        24
    }

    open spec fn spec_decode(b: Seq<u8>, p: int) -> Result<BoneController, Error> {
        if p + 24 > b.len() {
            Err(Error::UnexpectedEnd)
        } else {
            Ok(
                BoneController {
                    bone: le32(b, p) as u32,
                    kind: le32(b, p + 4) as u32,
                    start: le32(b, p + 8) as u32,
                    end: le32(b, p + 12) as u32,
                    rest: le32(b, p + 16) as u32,
                    index: le32(b, p + 20) as u32,
                },
            )
        }
    }

    fn exec_width() -> u64 {
        24
    }

    fn decode(c: &mut Cursor) -> Result<Self, Error> {
        let bone = c.read_u32()?;
        let kind = c.read_u32()?;
        let start = c.read_u32()?;
        let end = c.read_u32()?;
        let rest = c.read_u32()?;
        let index = c.read_u32()?;
        Ok(BoneController { bone, kind, start, end, rest, index })
    }
}

/// One hit box.
#[derive(Clone, Copy, Debug, PartialEq, Eq, Structural)]
pub struct IntersectionBox {
    /// The bone this hit box follows.
    pub bone: u32,
    /// The hit group.
    pub group: u32,
    pub extents: BoundBox,
}

impl DeepView for IntersectionBox {
    type V = IntersectionBox;

    open spec fn deep_view(&self) -> IntersectionBox {
        *self
    }
}

impl Record for IntersectionBox {
    open spec fn spec_width() -> int {
        32
    }

    open spec fn spec_decode(b: Seq<u8>, p: int) -> Result<IntersectionBox, Error> {
        if p + 32 > b.len() {
            Err(Error::UnexpectedEnd)
        } else {
            Ok(
                IntersectionBox {
                    bone: le32(b, p) as u32,
                    group: le32(b, p + 4) as u32,
                    extents: BoundBox { min: spec_vec3_at(b, p + 8), max: spec_vec3_at(b, p + 20) },
                },
            )
        }
    }

    fn exec_width() -> u64 {
        32
    }

    fn decode(c: &mut Cursor) -> Result<Self, Error> {
        let bone = c.read_u32()?;
        let group = c.read_u32()?;
        let extents = BoundBox::decode(c)?;
        Ok(IntersectionBox { bone, group, extents })
    }
}

/// One scripted event of a sequence.
#[derive(Debug, Clone, PartialEq, Eq)]
pub struct Event {
    /// The frame at which this animation event occurs.
    pub frame: u32,
    /// The script event type.
    pub event: u32,
    pub kind: u32,
    /// Free-form options, often a sound file path.
    pub options: String,
}

/// The mathematical image of an [`Event`].
pub struct EventView {
    pub frame: u32,
    pub event: u32,
    pub kind: u32,
    pub options: Seq<char>,
}

impl DeepView for Event {
    type V = EventView;

    open spec fn deep_view(&self) -> EventView {
        EventView {
            frame: self.frame,
            event: self.event,
            kind: self.kind,
            options: self.options@,
        }
    }
}

impl Record for Event {
    open spec fn spec_width() -> int {
        76
    }

    open spec fn spec_decode(b: Seq<u8>, p: int) -> Result<EventView, Error> {
        if p + 12 > b.len() {
            Err(Error::UnexpectedEnd)
        } else {
            match spec_fixed_string(b, p + 12, 64) {
                Err(e) => Err(e),
                Ok(options) => Ok(
                    EventView {
                        frame: le32(b, p) as u32,
                        event: le32(b, p + 4) as u32,
                        kind: le32(b, p + 8) as u32,
                        options,
                    },
                ),
            }
        }
    }

    fn exec_width() -> u64 {
        76
    }

    fn decode(c: &mut Cursor) -> Result<Self, Error> {
        let frame = c.read_u32()?;
        let event = c.read_u32()?;
        let kind = c.read_u32()?;
        let options = parse_string(c, 64)?;
        Ok(Event { frame, event, kind, options })
    }
}

/// One group of sequences.
#[derive(Debug, Clone, PartialEq, Eq)]
pub struct SequenceGroup {
    /// The textual name.
    pub label: String,
    /// The file name.
    pub name: String,
    pub cache: u32,
    pub data: u32,
}

/// The mathematical image of a [`SequenceGroup`].
pub struct SequenceGroupView {
    pub label: Seq<char>,
    pub name: Seq<char>,
    pub cache: u32,
    pub data: u32,
}

impl DeepView for SequenceGroup {
    type V = SequenceGroupView;

    open spec fn deep_view(&self) -> SequenceGroupView {
        SequenceGroupView {
            label: self.label@,
            name: self.name@,
            cache: self.cache,
            data: self.data,
        }
    }
}

impl Record for SequenceGroup {
    open spec fn spec_width() -> int {
        104
    }

    open spec fn spec_decode(b: Seq<u8>, p: int) -> Result<SequenceGroupView, Error> {
        match spec_fixed_string(b, p, 32) {
            Err(e) => Err(e),
            Ok(label) => match spec_fixed_string(b, p + 32, 64) {
                Err(e) => Err(e),
                Ok(name) => if p + 104 > b.len() {
                    Err(Error::UnexpectedEnd)
                } else {
                    Ok(
                        SequenceGroupView {
                            label,
                            name,
                            cache: le32(b, p + 96) as u32,
                            data: le32(b, p + 100) as u32,
                        },
                    )
                },
            },
        }
    }

    fn exec_width() -> u64 {
        104
    }

    fn decode(c: &mut Cursor) -> Result<Self, Error> {
        let label = parse_string(c, 32)?;
        let name = parse_string(c, 64)?;
        let cache = c.read_u32()?;
        let data = c.read_u32()?;
        Ok(SequenceGroup { label, name, cache, data })
    }
}

/// One texture declaration of the model.
#[derive(Debug, Clone, PartialEq, Eq)]
pub struct Texture {
    /// The file name.
    pub name: String,
    /// The texture flags.
    pub flags: u32,
    /// Texture width in pixels.
    pub width: u32,
    /// Texture height in pixels.
    pub height: u32,
}

/// The mathematical image of a [`Texture`].
pub struct TextureView {
    pub name: Seq<char>,
    pub flags: u32,
    pub width: u32,
    pub height: u32,
}

impl DeepView for Texture {
    type V = TextureView;

    open spec fn deep_view(&self) -> TextureView {
        TextureView {
            name: self.name@,
            flags: self.flags,
            width: self.width,
            height: self.height,
        }
    }
}

impl Record for Texture {
    open spec fn spec_width() -> int {
        80
    }

    open spec fn spec_decode(b: Seq<u8>, p: int) -> Result<TextureView, Error> {
        match spec_fixed_string(b, p, 64) {
            Err(e) => Err(e),
            Ok(name) => if p + 80 > b.len() {
                Err(Error::UnexpectedEnd)
            } else {
                Ok(
                    TextureView {
                        name,
                        flags: le32(b, p + 64) as u32,
                        width: le32(b, p + 68) as u32,
                        height: le32(b, p + 72) as u32,
                    },
                )
            },
        }
    }

    fn exec_width() -> u64 {
        80
    }

    fn decode(c: &mut Cursor) -> Result<Self, Error> {
        let name = parse_string(c, 64)?;
        let flags = c.read_u32()?;
        let width = c.read_u32()?;
        let height = c.read_u32()?;
        let _data_offset = c.read_u32()?;
        Ok(Texture { name, flags, width, height })
    }
}

/// One attachment point. The origin and the three vectors are IEEE-754
/// single-precision bit patterns.
#[derive(Debug, PartialEq, Eq)]
pub struct Attachment {
    pub name: String,
    pub flags: u32,
    /// The bone this attachment follows.
    pub bone: u32,
    /// The attachment origin.
    pub org: Vec3,
    /// The attachment vectors.
    pub vectors: (Vec3, Vec3, Vec3),
}

/// The mathematical image of an [`Attachment`].
pub struct AttachmentView {
    pub name: Seq<char>,
    pub flags: u32,
    pub bone: u32,
    pub org: Vec3,
    pub vectors: (Vec3, Vec3, Vec3),
}

impl DeepView for Attachment {
    type V = AttachmentView;

    open spec fn deep_view(&self) -> AttachmentView {
        AttachmentView {
            name: self.name@,
            flags: self.flags,
            bone: self.bone,
            org: self.org,
            vectors: self.vectors,
        }
    }
}

impl Record for Attachment {
    open spec fn spec_width() -> int {
        88
    }

    open spec fn spec_decode(b: Seq<u8>, p: int) -> Result<AttachmentView, Error> {
        match spec_fixed_string(b, p, 32) {
            Err(e) => Err(e),
            Ok(name) => if p + 88 > b.len() {
                Err(Error::UnexpectedEnd)
            } else {
                Ok(
                    AttachmentView {
                        name,
                        flags: le32(b, p + 32) as u32,
                        bone: le32(b, p + 36) as u32,
                        org: spec_vec3_at(b, p + 40),
                        vectors: (
                            spec_vec3_at(b, p + 52),
                            spec_vec3_at(b, p + 64),
                            spec_vec3_at(b, p + 76),
                        ),
                    },
                )
            },
        }
    }

    fn exec_width() -> u64 {
        88
    }

    fn decode(c: &mut Cursor) -> Result<Self, Error> {
        let name = parse_string(c, 32)?;
        let flags = c.read_u32()?;
        let bone = c.read_u32()?;
        let org = Vec3::decode(c)?;
        let v0 = Vec3::decode(c)?;
        let v1 = Vec3::decode(c)?;
        let v2 = Vec3::decode(c)?;
        Ok(Attachment { name, flags, bone, org, vectors: (v0, v1, v2) })
    }
}

/// One triangle of a mesh.
#[derive(Clone, Copy, Debug, PartialEq, Eq, Structural)]
pub struct Triangle {
    /// Index into the vertex array.
    pub vert_index: u16,
    /// Index into the normal array.
    pub norm_index: u16,
    /// Texture coordinate, absolute and unnormalized.
    pub s: u16,
    /// Texture coordinate, absolute and unnormalized.
    pub t: u16,
}

impl DeepView for Triangle {
    type V = Triangle;

    open spec fn deep_view(&self) -> Triangle {
        *self
    }
}

impl Record for Triangle {
    open spec fn spec_width() -> int {
        8
    }

    open spec fn spec_decode(b: Seq<u8>, p: int) -> Result<Triangle, Error> {
        if p + 8 > b.len() {
            Err(Error::UnexpectedEnd)
        } else {
            Ok(
                Triangle {
                    vert_index: crate::cursor::le16(b, p) as u16,
                    norm_index: crate::cursor::le16(b, p + 2) as u16,
                    s: crate::cursor::le16(b, p + 4) as u16,
                    t: crate::cursor::le16(b, p + 6) as u16,
                },
            )
        }
    }

    fn exec_width() -> u64 {
        8
    }

    fn decode(c: &mut Cursor) -> Result<Self, Error> {
        let vert_index = c.read_u16()?;
        let norm_index = c.read_u16()?;
        let s = c.read_u16()?;
        let t = c.read_u16()?;
        Ok(Triangle { vert_index, norm_index, s, t })
    }
}

/// One mesh of a model: its triangle records and skin selection. The
/// record ends with four documented padding bytes.
#[derive(Debug, Clone, PartialEq, Eq)]
pub struct Mesh {
    pub indices: Vec<Triangle>,
    /// The skin index.
    pub skin_ref_index: u32,
    pub norms: u32,
}

/// The mathematical image of a [`Mesh`].
pub struct MeshView {
    pub indices: Seq<Triangle>,
    pub skin_ref_index: u32,
    pub norms: u32,
}

impl DeepView for Mesh {
    type V = MeshView;

    open spec fn deep_view(&self) -> MeshView {
        MeshView {
            indices: self.indices.deep_view(),
            skin_ref_index: self.skin_ref_index,
            norms: self.norms,
        }
    }
}

impl Record for Mesh {
    open spec fn spec_width() -> int {
        20
    }

    open spec fn spec_decode(b: Seq<u8>, p: int) -> Result<MeshView, Error> {
        if p + 8 > b.len() {
            Err(Error::UnexpectedEnd)
        } else {
            match spec_records::<Triangle>(b, le32(b, p + 4), le32(b, p) as nat) {
                Err(e) => Err(e),
                Ok(indices) => if p + 20 > b.len() {
                    Err(Error::UnexpectedEnd)
                } else {
                    Ok(
                        MeshView {
                            indices,
                            skin_ref_index: le32(b, p + 8) as u32,
                            norms: le32(b, p + 12) as u32,
                        },
                    )
                },
            }
        }
    }

    fn exec_width() -> u64 {
        20
    }

    fn decode(c: &mut Cursor) -> Result<Self, Error> {
        let (tri_count, tri_offset) = read_count_offset(c)?;
        let indices = decode_records::<Triangle>(c, tri_offset as u64, tri_count as u64)?;
        let skin_ref_index = c.read_u32()?;
        let norms = c.read_u32()?;
        let _buf_len: usize = c.data.len();
        if !c.can_read(4) {
            return Err(Error::UnexpectedEnd);
        }
        c.skip(4);
        Ok(Mesh { indices, skin_ref_index, norms })
    }
}

/// One animation description, reached through a forward pointer from
/// its sequence and re-validated against the container magic. `fps` is
/// an IEEE-754 single-precision bit pattern.
#[derive(Debug, Clone, PartialEq, Eq)]
pub struct AnimDesc {
    /// Animation label.
    pub label: String,
    pub fps: u32,
    pub flags: u32,
    pub frames: u32,
    pub movements: u32,
    pub movement_offset: u32,
    pub ik_rules: u32,
    pub ik_rules_offset: u32,
    pub unused: Vec<u32>,
}

/// The mathematical image of an [`AnimDesc`].
pub struct AnimDescView {
    pub label: Seq<char>,
    pub fps: u32,
    pub flags: u32,
    pub frames: u32,
    pub movements: u32,
    pub movement_offset: u32,
    pub ik_rules: u32,
    pub ik_rules_offset: u32,
    pub unused: Seq<u32>,
}

impl DeepView for AnimDesc {
    type V = AnimDescView;

    open spec fn deep_view(&self) -> AnimDescView {
        AnimDescView {
            label: self.label@,
            fps: self.fps,
            flags: self.flags,
            frames: self.frames,
            movements: self.movements,
            movement_offset: self.movement_offset,
            ik_rules: self.ik_rules,
            ik_rules_offset: self.ik_rules_offset,
            unused: self.unused.deep_view(),
        }
    }
}

/// The animation description stored at `p`: the magic `IDST`, a label,
/// and its frame metrics.
pub open spec fn spec_anim_desc(b: Seq<u8>, p: int) -> Result<AnimDescView, Error> {
    if p + 4 > b.len() {
        Err(Error::UnexpectedEnd)
    } else if !(b[p] == 73 && b[p + 1] == 68 && b[p + 2] == 83 && b[p + 3] == 84) {
        Err(Error::MagicMismatch)
    } else {
        match spec_fixed_string(b, p + 4, 32) {
            Err(e) => Err(e),
            Ok(label) => if p + 64 > b.len() {
                Err(Error::UnexpectedEnd)
            } else {
                match spec_records::<u32>(b, p + 64, 8) {
                    Err(e) => Err(e),
                    Ok(unused) => Ok(
                        AnimDescView {
                            label,
                            fps: le32(b, p + 36) as u32,
                            flags: le32(b, p + 40) as u32,
                            frames: le32(b, p + 44) as u32,
                            movements: le32(b, p + 48) as u32,
                            movement_offset: le32(b, p + 52) as u32,
                            ik_rules: le32(b, p + 56) as u32,
                            ik_rules_offset: le32(b, p + 60) as u32,
                            unused,
                        },
                    ),
                }
            },
        }
    }
}

/// Decodes an [`AnimDesc`] at the cursor's position.
fn decode_anim_desc(c: &mut Cursor) -> (r: Result<AnimDesc, Error>)
    ensures
        final(c).data@ == old(c).data@,
        match r {
            Ok(v) => spec_anim_desc(old(c).data@, old(c).pos as int) == Ok::<AnimDescView, Error>(
                v.deep_view(),
            ),
            Err(e) => spec_anim_desc(old(c).data@, old(c).pos as int) == Err::<
                AnimDescView,
                Error,
            >(e),
        },
{
    let magic = c.read_bytes(4)?;
    if !(magic[0] == 73 && magic[1] == 68 && magic[2] == 83 && magic[3] == 84) {
        return Err(Error::MagicMismatch);
    }
    let label = parse_string(c, 32)?;
    let fps = c.read_u32()?;
    let flags = c.read_u32()?;
    let frames = c.read_u32()?;
    let movements = c.read_u32()?;
    let movement_offset = c.read_u32()?;
    let ik_rules = c.read_u32()?;
    let ik_rules_offset = c.read_u32()?;
    let upos: u64 = c.pos;
    let unused = decode_records::<u32>(c, upos, 8)?;
    let out = AnimDesc {
        label,
        fps,
        flags,
        frames,
        movements,
        movement_offset,
        ik_rules,
        ik_rules_offset,
        unused,
    };
    proof {
        assert(out.unused.deep_view() =~= out.unused@);
    }
    Ok(out)
}

/// One animation sequence. `fps`, `linear_movement` and the blend
/// bounds are IEEE-754 single-precision bit patterns.
#[derive(Debug, PartialEq, Eq)]
pub struct Sequence {
    /// The sequence name.
    pub label: String,
    pub fps: u32,
    /// Looping and other flags.
    pub flags: u32,
    /// The sequence activity.
    pub activity: u32,
    /// The sequence activity weight.
    pub act_weight: u32,
    pub events: Vec<Event>,
    pub frames: u32,
    pub ik_lock_offset: u32,
    pub motion_type: u32,
    pub motion_bone: u32,
    pub linear_movement: u32,
    /// Extents.
    pub extents: BoundBox,
    pub num_blends: u32,
    pub anim_offset: u32,
    pub blend_type: (u32, u32),
    pub blend_start: (u32, u32),
    pub blend_end: (u32, u32),
    pub group_size: (u8, u8),
    pub num_auto_layers: u8,
    pub num_ik_locks: u8,
    pub seq_groups: u8,
    pub entry_node: u32,
    pub exit_node: u32,
    pub node_flags: u8,
    pub cycle_pose_index: u8,
    /// Ideal cross-fade-in time, in hundredths of a second.
    pub fade_in_time: u8,
    /// Ideal cross-fade-out time, in hundredths of a second.
    pub fade_out_time: u8,
    pub anim_desc: AnimDesc,
}

/// The mathematical image of a [`Sequence`].
pub struct SequenceView {
    pub label: Seq<char>,
    pub fps: u32,
    pub flags: u32,
    pub activity: u32,
    pub act_weight: u32,
    pub events: Seq<EventView>,
    pub frames: u32,
    pub ik_lock_offset: u32,
    pub motion_type: u32,
    pub motion_bone: u32,
    pub linear_movement: u32,
    pub extents: BoundBox,
    pub num_blends: u32,
    pub anim_offset: u32,
    pub blend_type: (u32, u32),
    pub blend_start: (u32, u32),
    pub blend_end: (u32, u32),
    pub group_size: (u8, u8),
    pub num_auto_layers: u8,
    pub num_ik_locks: u8,
    pub seq_groups: u8,
    pub entry_node: u32,
    pub exit_node: u32,
    pub node_flags: u8,
    pub cycle_pose_index: u8,
    pub fade_in_time: u8,
    pub fade_out_time: u8,
    pub anim_desc: AnimDescView,
}

impl DeepView for Sequence {
    type V = SequenceView;

    open spec fn deep_view(&self) -> SequenceView {
        SequenceView {
            label: self.label@,
            fps: self.fps,
            flags: self.flags,
            activity: self.activity,
            act_weight: self.act_weight,
            events: self.events.deep_view(),
            frames: self.frames,
            ik_lock_offset: self.ik_lock_offset,
            motion_type: self.motion_type,
            motion_bone: self.motion_bone,
            linear_movement: self.linear_movement,
            extents: self.extents,
            num_blends: self.num_blends,
            anim_offset: self.anim_offset,
            blend_type: self.blend_type,
            blend_start: self.blend_start,
            blend_end: self.blend_end,
            group_size: self.group_size,
            num_auto_layers: self.num_auto_layers,
            num_ik_locks: self.num_ik_locks,
            seq_groups: self.seq_groups,
            entry_node: self.entry_node,
            exit_node: self.exit_node,
            node_flags: self.node_flags,
            cycle_pose_index: self.cycle_pose_index,
            fade_in_time: self.fade_in_time,
            fade_out_time: self.fade_out_time,
            anim_desc: self.anim_desc.deep_view(),
        }
    }
}

impl Record for Sequence {
    open spec fn spec_width() -> int {
        165
    }

    open spec fn spec_decode(b: Seq<u8>, p: int) -> Result<SequenceView, Error> {
        match spec_fixed_string(b, p, 32) {
            Err(e) => Err(e),
            Ok(label) => if p + 56 > b.len() {
                Err(Error::UnexpectedEnd)
            } else {
                match spec_records::<Event>(b, le32(b, p + 52), le32(b, p + 48) as nat) {
                    Err(e) => Err(e),
                    Ok(events) => if p + 165 > b.len() {
                        Err(Error::UnexpectedEnd)
                    } else {
                        match spec_anim_desc(b, le32(b, p + 161)) {
                            Err(e) => Err(e),
                            Ok(anim_desc) => Ok(
                                SequenceView {
                                    label,
                                    fps: le32(b, p + 32) as u32,
                                    flags: le32(b, p + 36) as u32,
                                    activity: le32(b, p + 40) as u32,
                                    act_weight: le32(b, p + 44) as u32,
                                    events,
                                    frames: le32(b, p + 56) as u32,
                                    ik_lock_offset: le32(b, p + 64) as u32,
                                    motion_type: le32(b, p + 68) as u32,
                                    motion_bone: le32(b, p + 72) as u32,
                                    linear_movement: le32(b, p + 76) as u32,
                                    extents: BoundBox {
                                        min: spec_vec3_at(b, p + 88),
                                        max: spec_vec3_at(b, p + 100),
                                    },
                                    num_blends: le32(b, p + 112) as u32,
                                    anim_offset: le32(b, p + 116) as u32,
                                    blend_type: (le32(b, p + 120) as u32, le32(b, p + 124) as u32),
                                    blend_start: (
                                        le32(b, p + 128) as u32,
                                        le32(b, p + 132) as u32,
                                    ),
                                    blend_end: (le32(b, p + 136) as u32, le32(b, p + 140) as u32),
                                    group_size: (b[p + 144], b[p + 145]),
                                    num_auto_layers: b[p + 146],
                                    num_ik_locks: b[p + 147],
                                    seq_groups: b[p + 148],
                                    entry_node: le32(b, p + 149) as u32,
                                    exit_node: le32(b, p + 153) as u32,
                                    node_flags: b[p + 157],
                                    cycle_pose_index: b[p + 158],
                                    fade_in_time: b[p + 159],
                                    fade_out_time: b[p + 160],
                                    anim_desc,
                                },
                            ),
                        }
                    },
                }
            },
        }
    }

    fn exec_width() -> u64 {
        165
    }

    #[verifier::rlimit(100)]
    fn decode(c: &mut Cursor) -> Result<Self, Error> {
        let label = parse_string(c, 32)?;
        let fps = c.read_u32()?;
        let flags = c.read_u32()?;
        let activity = c.read_u32()?;
        let act_weight = c.read_u32()?;
        let (ev_count, ev_offset) = read_count_offset(c)?;
        let events = decode_records::<Event>(c, ev_offset as u64, ev_count as u64)?;
        let frames = c.read_u32()?;
        let _weight_list_offset = c.read_u32()?;
        let ik_lock_offset = c.read_u32()?;
        let motion_type = c.read_u32()?;
        let motion_bone = c.read_u32()?;
        let linear_movement = c.read_u32()?;
        let _auto_layer_offset = c.read_u32()?;
        let _key_value_offset = c.read_u32()?;
        let extents = BoundBox::decode(c)?;
        let num_blends = c.read_u32()?;
        let anim_offset = c.read_u32()?;
        let bt0 = c.read_u32()?;
        let bt1 = c.read_u32()?;
        let bs0 = c.read_u32()?;
        let bs1 = c.read_u32()?;
        let be0 = c.read_u32()?;
        let be1 = c.read_u32()?;
        let gs0 = c.read_u8()?;
        let gs1 = c.read_u8()?;
        let num_auto_layers = c.read_u8()?;
        let num_ik_locks = c.read_u8()?;
        let seq_groups = c.read_u8()?;
        let entry_node = c.read_u32()?;
        let exit_node = c.read_u32()?;
        let node_flags = c.read_u8()?;
        let cycle_pose_index = c.read_u8()?;
        let fade_in_time = c.read_u8()?;
        let fade_out_time = c.read_u8()?;
        let anim_desc_offset = c.read_u32()?;
        let saved: u64 = c.pos;
        c.seek(anim_desc_offset as u64);
        let anim_desc = match decode_anim_desc(c) {
            Ok(a) => a,
            Err(e) => {
                c.seek(saved);
                return Err(e);
            },
        };
        c.seek(saved);
        Ok(
            Sequence {
                label,
                fps,
                flags,
                activity,
                act_weight,
                events,
                frames,
                ik_lock_offset,
                motion_type,
                motion_bone,
                linear_movement,
                extents,
                num_blends,
                anim_offset,
                blend_type: (bt0, bt1),
                blend_start: (bs0, bs1),
                blend_end: (be0, be1),
                group_size: (gs0, gs1),
                num_auto_layers,
                num_ik_locks,
                seq_groups,
                entry_node,
                exit_node,
                node_flags,
                cycle_pose_index,
                fade_in_time,
                fade_out_time,
                anim_desc,
            },
        )
    }
}

/// Decodes `count` coordinate triples at `base + rel`: the one place in
/// the formats where a pointer is relative to its owning record's start
/// rather than to the buffer origin.
fn decode_vec3s_rel(c: &mut Cursor, base: u64, rel: u32, count: u32) -> (r: Result<
    Vec<Vec3>,
    Error,
>)
    ensures
        final(c).data@ == old(c).data@,
        final(c).pos == old(c).pos,
        match r {
            Ok(v) => spec_records::<Vec3>(old(c).data@, base + rel, count as nat) == Ok::<
                Seq<Vec3>,
                Error,
            >(v.deep_view()),
            Err(e) => spec_records::<Vec3>(old(c).data@, base + rel, count as nat) == Err::<
                Seq<Vec3>,
                Error,
            >(e),
        },
{
    let off128: u128 = base as u128 + rel as u128;
    let buf_len: usize = c.data.len();
    if off128 > u64::MAX as u128 {
        if count == 0 {
            let out: Vec<Vec3> = Vec::new();
            proof {
                assert(out.deep_view() =~= Seq::<Vec3>::empty());
                lemma_empty_record_array::<Vec3>(c.data@, base + rel);
            }
            return Ok(out);
        }
        proof {
            lemma_records_short_buffer::<Vec3>(c.data@, base + rel, count as nat);
        }
        return Err(Error::UnexpectedEnd);
    }
    decode_records::<Vec3>(c, off128 as u64, count as u64)
}

/// One model of a body part. The bounding radius is an IEEE-754
/// single-precision bit pattern. Its vertex and normal arrays are
/// addressed relative to this record's own start.
#[derive(Debug, Clone, PartialEq, Eq)]
pub struct Model {
    /// The model name.
    pub name: String,
    pub kind: u32,
    pub bounding_radius: u32,
    pub meshes: Vec<Mesh>,
    pub verts_info_offset: u32,
    pub verts: Vec<Vec3>,
    pub norms_info_offset: u32,
    pub normals: Vec<Vec3>,
    pub blend_vert_info_offset: u32,
    pub blend_norm_info_offset: u32,
}

/// The mathematical image of a [`Model`].
pub struct ModelView {
    pub name: Seq<char>,
    pub kind: u32,
    pub bounding_radius: u32,
    pub meshes: Seq<MeshView>,
    pub verts_info_offset: u32,
    pub verts: Seq<Vec3>,
    pub norms_info_offset: u32,
    pub normals: Seq<Vec3>,
    pub blend_vert_info_offset: u32,
    pub blend_norm_info_offset: u32,
}

impl DeepView for Model {
    type V = ModelView;

    open spec fn deep_view(&self) -> ModelView {
        ModelView {
            name: self.name@,
            kind: self.kind,
            bounding_radius: self.bounding_radius,
            meshes: self.meshes.deep_view(),
            verts_info_offset: self.verts_info_offset,
            verts: self.verts.deep_view(),
            norms_info_offset: self.norms_info_offset,
            normals: self.normals.deep_view(),
            blend_vert_info_offset: self.blend_vert_info_offset,
            blend_norm_info_offset: self.blend_norm_info_offset,
        }
    }
}

impl Record for Model {
    open spec fn spec_width() -> int {
        112
    }

    open spec fn spec_decode(b: Seq<u8>, p: int) -> Result<ModelView, Error> {
        match spec_fixed_string(b, p, 64) {
            Err(e) => Err(e),
            Ok(name) => if p + 80 > b.len() {
                Err(Error::UnexpectedEnd)
            } else {
                match spec_records::<Mesh>(b, le32(b, p + 76), le32(b, p + 72) as nat) {
                    Err(e) => Err(e),
                    Ok(meshes) => if p + 92 > b.len() {
                        Err(Error::UnexpectedEnd)
                    } else {
                        match spec_records::<Vec3>(
                            b,
                            p + le32(b, p + 88),
                            le32(b, p + 80) as nat,
                        ) {
                            Err(e) => Err(e),
                            Ok(verts) => if p + 104 > b.len() {
                                Err(Error::UnexpectedEnd)
                            } else {
                                match spec_records::<Vec3>(
                                    b,
                                    p + le32(b, p + 100),
                                    le32(b, p + 92) as nat,
                                ) {
                                    Err(e) => Err(e),
                                    Ok(normals) => if p + 112 > b.len() {
                                        Err(Error::UnexpectedEnd)
                                    } else {
                                        Ok(
                                            ModelView {
                                                name,
                                                kind: le32(b, p + 64) as u32,
                                                bounding_radius: le32(b, p + 68) as u32,
                                                meshes,
                                                verts_info_offset: le32(b, p + 84) as u32,
                                                verts,
                                                norms_info_offset: le32(b, p + 96) as u32,
                                                normals,
                                                blend_vert_info_offset: le32(b, p + 104) as u32,
                                                blend_norm_info_offset: le32(b, p + 108) as u32,
                                            },
                                        )
                                    },
                                }
                            },
                        }
                    },
                }
            },
        }
    }

    fn exec_width() -> u64 {
        112
    }

    #[verifier::rlimit(100)]
    fn decode(c: &mut Cursor) -> Result<Self, Error> {
        let base: u64 = c.pos;
        let name = parse_string(c, 64)?;
        let kind = c.read_u32()?;
        let bounding_radius = c.read_u32()?;
        let (mesh_count, mesh_offset) = read_count_offset(c)?;
        let meshes = decode_records::<Mesh>(c, mesh_offset as u64, mesh_count as u64)?;
        let verts_size = c.read_u32()?;
        let verts_info_offset = c.read_u32()?;
        let verts_offset = c.read_u32()?;
        let verts = decode_vec3s_rel(c, base, verts_offset, verts_size)?;
        let norms_size = c.read_u32()?;
        let norms_info_offset = c.read_u32()?;
        let norms_offset = c.read_u32()?;
        let normals = decode_vec3s_rel(c, base, norms_offset, norms_size)?;
        let blend_vert_info_offset = c.read_u32()?;
        let blend_norm_info_offset = c.read_u32()?;
        Ok(
            Model {
                name,
                kind,
                bounding_radius,
                meshes,
                verts_info_offset,
                verts,
                norms_info_offset,
                normals,
                blend_vert_info_offset,
                blend_norm_info_offset,
            },
        )
    }
}

/// One body part: an explicit model count and a forward pointer to that
/// many model records.
#[derive(Debug, Clone, PartialEq, Eq)]
pub struct BodyPart {
    /// The body part name.
    pub name: String,
    pub base: u32,
    pub models: Vec<Model>,
}

/// The mathematical image of a [`BodyPart`].
pub struct BodyPartView {
    pub name: Seq<char>,
    pub base: u32,
    pub models: Seq<ModelView>,
}

impl DeepView for BodyPart {
    type V = BodyPartView;

    open spec fn deep_view(&self) -> BodyPartView {
        BodyPartView { name: self.name@, base: self.base, models: self.models.deep_view() }
    }
}

impl Record for BodyPart {
    open spec fn spec_width() -> int {
        76
    }

    open spec fn spec_decode(b: Seq<u8>, p: int) -> Result<BodyPartView, Error> {
        match spec_fixed_string(b, p, 64) {
            Err(e) => Err(e),
            Ok(name) => if p + 76 > b.len() {
                Err(Error::UnexpectedEnd)
            } else {
                match spec_records::<Model>(b, le32(b, p + 72), le32(b, p + 64) as nat) {
                    Err(e) => Err(e),
                    Ok(models) => Ok(BodyPartView { name, base: le32(b, p + 68) as u32, models }),
                }
            },
        }
    }

    fn exec_width() -> u64 {
        76
    }

    fn decode(c: &mut Cursor) -> Result<Self, Error> {
        let name = parse_string(c, 64)?;
        let models_size = c.read_u32()?;
        let base = c.read_u32()?;
        let model_offset = c.read_u32()?;
        let models = decode_records::<Model>(c, model_offset as u64, models_size as u64)?;
        Ok(BodyPart { name, base, models })
    }
}

/// The secondary header block, reached through a forward pointer from
/// the primary header.
#[derive(Clone, Copy, Debug, PartialEq, Eq, Structural)]
pub struct Mdl2 {
    /// Number of pose parameters.
    pub num_pose_parameters: u32,
    /// Offset to the first pose parameter.
    pub pose_param_offset: u32,
    /// Number of IK-autoplaying locks.
    pub num_ik_auto_play_locks: u32,
    /// Offset to the first IK-autoplaying lock.
    pub ik_auto_play_lock_offset: u32,
    /// Number of IK-chains.
    pub num_ik_chains: u32,
    /// Offset to the first IK-chain.
    pub ik_chain_offset: u32,
    /// Offset to the first key-value.
    pub key_value_offset: u32,
    /// Size of key-values.
    pub key_value_size: u32,
    /// Number of hitbox sets.
    pub num_hit_box_sets: u32,
    /// Offset to the first hitbox set.
    pub hit_box_set_offset: u32,
}

impl DeepView for Mdl2 {
    type V = Mdl2;

    open spec fn deep_view(&self) -> Mdl2 {
        *self
    }
}

/// The secondary header stored at `p`.
pub open spec fn spec_mdl2(b: Seq<u8>, p: int) -> Result<Mdl2, Error> {
    if p + 40 > b.len() {
        Err(Error::UnexpectedEnd)
    } else {
        Ok(
            Mdl2 {
                num_pose_parameters: le32(b, p) as u32,
                pose_param_offset: le32(b, p + 4) as u32,
                num_ik_auto_play_locks: le32(b, p + 8) as u32,
                ik_auto_play_lock_offset: le32(b, p + 12) as u32,
                num_ik_chains: le32(b, p + 16) as u32,
                ik_chain_offset: le32(b, p + 20) as u32,
                key_value_offset: le32(b, p + 24) as u32,
                key_value_size: le32(b, p + 28) as u32,
                num_hit_box_sets: le32(b, p + 32) as u32,
                hit_box_set_offset: le32(b, p + 36) as u32,
            },
        )
    }
}

/// Decodes the secondary header at the cursor's position.
fn decode_mdl2(c: &mut Cursor) -> (r: Result<Mdl2, Error>)
    ensures
        final(c).data@ == old(c).data@,
        match r {
            Ok(v) => spec_mdl2(old(c).data@, old(c).pos as int) == Ok::<Mdl2, Error>(v),
            Err(e) => spec_mdl2(old(c).data@, old(c).pos as int) == Err::<Mdl2, Error>(e),
        },
{
    let num_pose_parameters = c.read_u32()?;
    let pose_param_offset = c.read_u32()?;
    let num_ik_auto_play_locks = c.read_u32()?;
    let ik_auto_play_lock_offset = c.read_u32()?;
    let num_ik_chains = c.read_u32()?;
    let ik_chain_offset = c.read_u32()?;
    let key_value_offset = c.read_u32()?;
    let key_value_size = c.read_u32()?;
    let num_hit_box_sets = c.read_u32()?;
    let hit_box_set_offset = c.read_u32()?;
    Ok(
        Mdl2 {
            num_pose_parameters,
            pose_param_offset,
            num_ik_auto_play_locks,
            ik_auto_play_lock_offset,
            num_ik_chains,
            ik_chain_offset,
            key_value_offset,
            key_value_size,
            num_hit_box_sets,
            hit_box_set_offset,
        },
    )
}

/// The decoded model container.
#[derive(Debug, PartialEq)]
pub struct Mdl {
    /// Format version.
    pub version: u32,
    /// Model name.
    pub name: String,
    /// Ideal eye position; IEEE-754 single-precision bit patterns.
    pub eye_position: Vec3,
    /// Ideal movement hull size.
    pub hull: BoundBox,
    /// Clipping bounding box.
    pub bounding_box: BoundBox,
    pub flags: u32,
    pub bones: Vec<Bone>,
    pub bone_controller: Vec<BoneController>,
    pub hit_boxes: Vec<IntersectionBox>,
    pub sequences: Vec<Sequence>,
    pub sequence_groups: Vec<SequenceGroup>,
    pub textures: Vec<Texture>,
    pub body_parts: Vec<BodyPart>,
    pub attachments: Vec<Attachment>,
    pub mdl2: Mdl2,
}

/// The mathematical image of a [`Mdl`].
pub struct MdlView {
    pub version: u32,
    pub name: Seq<char>,
    pub eye_position: Vec3,
    pub hull: BoundBox,
    pub bounding_box: BoundBox,
    pub flags: u32,
    pub bones: Seq<BoneView>,
    pub bone_controller: Seq<BoneController>,
    pub hit_boxes: Seq<IntersectionBox>,
    pub sequences: Seq<SequenceView>,
    pub sequence_groups: Seq<SequenceGroupView>,
    pub textures: Seq<TextureView>,
    pub body_parts: Seq<BodyPartView>,
    pub attachments: Seq<AttachmentView>,
    pub mdl2: Mdl2,
}

impl DeepView for Mdl {
    type V = MdlView;

    open spec fn deep_view(&self) -> MdlView {
        MdlView {
            version: self.version,
            name: self.name@,
            eye_position: self.eye_position,
            hull: self.hull,
            bounding_box: self.bounding_box,
            flags: self.flags,
            bones: self.bones.deep_view(),
            bone_controller: self.bone_controller.deep_view(),
            hit_boxes: self.hit_boxes.deep_view(),
            sequences: self.sequences.deep_view(),
            sequence_groups: self.sequence_groups.deep_view(),
            textures: self.textures.deep_view(),
            body_parts: self.body_parts.deep_view(),
            attachments: self.attachments.deep_view(),
            mdl2: self.mdl2,
        }
    }
}

/// The model container decoded from `b`: the magic `IDST`, a version
/// field equal to 10, the primary header's pointer pairs in declared
/// order, and the secondary header behind its forward pointer.
pub open spec fn spec_read_mdl(b: Seq<u8>) -> Result<MdlView, Error> {
    if 4 > b.len() {
        Err(Error::UnexpectedEnd)
    } else if !(b[0] == 73 && b[1] == 68 && b[2] == 83 && b[3] == 84) {
        Err(Error::MagicMismatch)
    } else if 8 > b.len() {
        Err(Error::UnexpectedEnd)
    } else if le32(b, 4) != MDL_VERSION {
        Err(Error::VersionMismatch)
    } else {
        match spec_fixed_string(b, 8, 64) {
            Err(e) => Err(e),
            Ok(name) => if 148 > b.len() {
                Err(Error::UnexpectedEnd)
            } else {
                match spec_records::<Bone>(b, le32(b, 144), le32(b, 140) as nat) {
                    Err(e) => Err(e),
                    Ok(bones) => if 156 > b.len() {
                        Err(Error::UnexpectedEnd)
                    } else {
                        match spec_records::<BoneController>(
                            b,
                            le32(b, 152),
                            le32(b, 148) as nat,
                        ) {
                            Err(e) => Err(e),
                            Ok(bone_controller) => if 164 > b.len() {
                                Err(Error::UnexpectedEnd)
                            } else {
                                match spec_records::<IntersectionBox>(
                                    b,
                                    le32(b, 160),
                                    le32(b, 156) as nat,
                                ) {
                                    Err(e) => Err(e),
                                    Ok(hit_boxes) => if 172 > b.len() {
                                        Err(Error::UnexpectedEnd)
                                    } else {
                                        match spec_records::<Sequence>(
                                            b,
                                            le32(b, 168),
                                            le32(b, 164) as nat,
                                        ) {
                                            Err(e) => Err(e),
                                            Ok(sequences) => if 180 > b.len() {
                                                Err(Error::UnexpectedEnd)
                                            } else {
                                                match spec_records::<SequenceGroup>(
                                                    b,
                                                    le32(b, 176),
                                                    le32(b, 172) as nat,
                                                ) {
                                                    Err(e) => Err(e),
                                                    Ok(sequence_groups) => if 188 > b.len() {
                                                        Err(Error::UnexpectedEnd)
                                                    } else {
                                                        match spec_records::<Texture>(
                                                            b,
                                                            le32(b, 184),
                                                            le32(b, 180) as nat,
                                                        ) {
                                                            Err(e) => Err(e),
                                                            Ok(textures) => if 212 > b.len() {
                                                                Err(Error::UnexpectedEnd)
                                                            } else {
                                                                match spec_records::<BodyPart>(
                                                                    b,
                                                                    le32(b, 208),
                                                                    le32(b, 204) as nat,
                                                                ) {
                                                                    Err(e) => Err(e),
                                                                    Ok(body_parts) => if 220
                                                                        > b.len() {
                                                                        Err(Error::UnexpectedEnd)
                                                                    } else {
                                                                        match spec_records::<
                                                                            Attachment,
                                                                        >(
                                                                            b,
                                                                            le32(b, 216),
                                                                            le32(b, 212) as nat,
                                                                        ) {
                                                                            Err(e) => Err(e),
                                                                            Ok(attachments) => if 224 > b.len() {
                                                                                Err(
                                                                                    Error::UnexpectedEnd,
                                                                                )
                                                                            } else {
                                                                                match spec_mdl2(
                                                                                    b,
                                                                                    le32(b, 220),
                                                                                ) {
                                                                                    Err(e) => Err(
                                                                                        e,
                                                                                    ),
                                                                                    Ok(mdl2) => Ok(
                                                                                        MdlView {
                                                                                            version:
                                                                                                le32(b, 4) as u32,
                                                                                            name,
                                                                                            eye_position:
                                                                                                spec_vec3_at(b, 76),
                                                                                            hull: BoundBox {
                                                                                                min: spec_vec3_at(b, 88),
                                                                                                max: spec_vec3_at(b, 100),
                                                                                            },
                                                                                            bounding_box:
                                                                                                BoundBox {
                                                                                                min: spec_vec3_at(b, 112),
                                                                                                max: spec_vec3_at(b, 124),
                                                                                            },
                                                                                            flags:
                                                                                                le32(b, 136) as u32,
                                                                                            bones,
                                                                                            bone_controller,
                                                                                            hit_boxes,
                                                                                            sequences,
                                                                                            sequence_groups,
                                                                                            textures,
                                                                                            body_parts,
                                                                                            attachments,
                                                                                            mdl2,
                                                                                        },
                                                                                    ),
                                                                                }
                                                                            },
                                                                        }
                                                                    },
                                                                }
                                                            },
                                                        }
                                                    },
                                                }
                                            },
                                        }
                                    },
                                }
                            },
                        }
                    },
                }
            },
        }
    }
}

/// Decodes a model container. The buffer must begin with the 4-byte
/// magic `IDST` and a version field equal to 10.
#[verifier::rlimit(100)]
pub fn read_mdl(bytes: &[u8]) -> (r: Result<Mdl, Error>)
    ensures
        match r {
            Ok(v) => spec_read_mdl(bytes@) == Ok::<MdlView, Error>(v.deep_view()),
            Err(e) => spec_read_mdl(bytes@) == Err::<MdlView, Error>(e),
        },
{
    let mut c = Cursor::new(bytes);
    let magic = c.read_bytes(4)?;
    if !(magic[0] == 73 && magic[1] == 68 && magic[2] == 83 && magic[3] == 84) {
        return Err(Error::MagicMismatch);
    }
    let version = c.read_u32()?;
    if version != MDL_VERSION {
        return Err(Error::VersionMismatch);
    }
    let name = parse_string(&mut c, 64)?;
    let _length = c.read_u32()?;
    let eye_position = Vec3::decode(&mut c)?;
    let hull = BoundBox::decode(&mut c)?;
    let bounding_box = BoundBox::decode(&mut c)?;
    let flags = c.read_u32()?;
    let (bone_count, bone_offset) = read_count_offset(&mut c)?;
    let bones = decode_records::<Bone>(&mut c, bone_offset as u64, bone_count as u64)?;
    let (bc_count, bc_offset) = read_count_offset(&mut c)?;
    let bone_controller = decode_records::<BoneController>(
        &mut c,
        bc_offset as u64,
        bc_count as u64,
    )?;
    let (hb_count, hb_offset) = read_count_offset(&mut c)?;
    let hit_boxes = decode_records::<IntersectionBox>(&mut c, hb_offset as u64, hb_count as u64)?;
    let (seq_count, seq_offset) = read_count_offset(&mut c)?;
    let sequences = decode_records::<Sequence>(&mut c, seq_offset as u64, seq_count as u64)?;
    let (sg_count, sg_offset) = read_count_offset(&mut c)?;
    let sequence_groups = decode_records::<SequenceGroup>(
        &mut c,
        sg_offset as u64,
        sg_count as u64,
    )?;
    let (tex_count, tex_offset) = read_count_offset(&mut c)?;
    let textures = decode_records::<Texture>(&mut c, tex_offset as u64, tex_count as u64)?;
    let _first_texture_data_offset = c.read_u32()?;
    let _ref_skins_size = c.read_u32()?;
    let _skin_families = c.read_u32()?;
    let _ref_skin_offset = c.read_u32()?;
    let (bp_count, bp_offset) = read_count_offset(&mut c)?;
    let body_parts = decode_records::<BodyPart>(&mut c, bp_offset as u64, bp_count as u64)?;
    let (at_count, at_offset) = read_count_offset(&mut c)?;
    let attachments = decode_records::<Attachment>(&mut c, at_offset as u64, at_count as u64)?;
    let mdl2_offset = c.read_u32()?;
    c.seek(mdl2_offset as u64);
    let mdl2 = decode_mdl2(&mut c)?;
    Ok(
        Mdl {
            version,
            name,
            eye_position,
            hull,
            bounding_box,
            flags,
            bones,
            bone_controller,
            hit_boxes,
            sequences,
            sequence_groups,
            textures,
            body_parts,
            attachments,
            mdl2,
        },
    )
}

/// Decoding is deterministic: the same bytes always decode to the same
/// model container.
pub proof fn lemma_read_mdl_deterministic(b1: Seq<u8>, b2: Seq<u8>)
    requires
        b1 == b2,
    ensures
        spec_read_mdl(b1) == spec_read_mdl(b2),
{
}

} // verus!
