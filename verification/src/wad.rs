//! The texture-archive container: a 4-byte magic, an entry count and a
//! directory offset, then one 32-byte directory record per entry. Each
//! record stores an absolute payload offset, a byte size, a one-byte
//! content tag between documented padding bytes, and a 16-byte
//! NUL-padded name. The tag dispatches the payload decoder; an
//! unrecognized tag keeps the payload as an opaque byte blob of exactly
//! the stored size.

use vstd::prelude::*;

use crate::Error;
use crate::cursor::Cursor;
use crate::cursor::le32;
use crate::records::Record;
use crate::records::decode_records;
use crate::records::spec_records;
use crate::shared::Font;
use crate::shared::FontView;
use crate::shared::MipTexture;
use crate::shared::MipTextureView;
use crate::shared::Picture;
use crate::shared::PictureView;
use crate::shared::decode_font;
use crate::shared::decode_mip_texture;
use crate::shared::decode_picture;
use crate::shared::parse_string_at;
use crate::shared::spec_block;
use crate::shared::spec_fixed_string;
use crate::shared::spec_font;
use crate::shared::spec_mip_texture;
use crate::shared::spec_picture;

verus! {

/// The tag byte values the directory uses for its recognized payload
/// shapes.
pub const TAG_PICTURE: u8 = 0x42;

pub const TAG_MIP_TEXTURE: u8 = 0x43;

pub const TAG_FONT: u8 = 0x45;

/// The kind of payload a directory entry stores.
#[derive(Clone, Copy, Debug, PartialEq, Eq, Structural)]
pub enum ContentType {
    Picture,
    MipTexture,
    Font,
    /// Any unrecognized tag byte.
    Other,
}

/// The content type selected by a stored tag byte; every unrecognized
/// tag selects the opaque-blob kind.
pub open spec fn spec_content_type(tag: u8) -> ContentType {
    if tag == TAG_PICTURE {
        ContentType::Picture
    } else if tag == TAG_MIP_TEXTURE {
        ContentType::MipTexture
    } else if tag == TAG_FONT {
        ContentType::Font
    } else {
        ContentType::Other
    }
}

/// Maps a stored tag byte to its content type.
pub fn content_type_of(tag: u8) -> (r: ContentType)
    ensures
        r == spec_content_type(tag),
{
    if tag == TAG_PICTURE {
        ContentType::Picture
    } else if tag == TAG_MIP_TEXTURE {
        ContentType::MipTexture
    } else if tag == TAG_FONT {
        ContentType::Font
    } else {
        ContentType::Other
    }
}

/// One decoded payload.
#[derive(Debug, Clone, PartialEq)]
pub enum Content {
    Picture(Picture),
    MipTexture(MipTexture),
    Font(Font),
    /// The raw bytes of a payload whose tag is unrecognized: exactly the
    /// stored size, starting at the stored offset.
    Other { bytes: Vec<u8> },
}

/// The mathematical image of a [`Content`].
pub enum ContentView {
    Picture(PictureView),
    MipTexture(MipTextureView),
    Font(FontView),
    Other { bytes: Seq<u8> },
}

impl DeepView for Content {
    type V = ContentView;

    open spec fn deep_view(&self) -> ContentView {
        match self {
            Content::Picture(p) => ContentView::Picture(p.deep_view()),
            Content::MipTexture(m) => ContentView::MipTexture(m.deep_view()),
            Content::Font(f) => ContentView::Font(f.deep_view()),
            Content::Other { bytes } => ContentView::Other { bytes: bytes.deep_view() },
        }
    }
}

/// One archive entry: its decoded payload.
#[derive(Debug, Clone, PartialEq)]
pub struct WadEntry {
    pub content: Content,
}

/// The mathematical image of a [`WadEntry`].
pub struct WadEntryView {
    pub content: ContentView,
}

impl DeepView for WadEntry {
    type V = WadEntryView;

    open spec fn deep_view(&self) -> WadEntryView {
        WadEntryView { content: self.content.deep_view() }
    }
}

impl Record for (String, WadEntry) {
    open spec fn spec_width() -> int {
        32
    }

    open spec fn spec_decode(b: Seq<u8>, p: int) -> Result<(Seq<char>, WadEntryView), Error> {
        if p + 8 > b.len() {
            Err(Error::UnexpectedEnd)
        } else if p + 13 > b.len() {
            Err(Error::UnexpectedEnd)
        } else {
            let off = le32(b, p);
            let size = le32(b, p + 4);
            let tag = b[p + 12];
            let content = if tag == TAG_PICTURE {
                match spec_picture(b, off) {
                    Err(e) => Err(e),
                    Ok(pic) => Ok(ContentView::Picture(pic)),
                }
            } else if tag == TAG_MIP_TEXTURE {
                match spec_mip_texture(b, off) {
                    Err(e) => Err(e),
                    Ok(m) => Ok(ContentView::MipTexture(m)),
                }
            } else if tag == TAG_FONT {
                match spec_font(b, off) {
                    Err(e) => Err(e),
                    Ok(f) => Ok(ContentView::Font(f)),
                }
            } else {
                match spec_block(b, off, size) {
                    Err(e) => Err(e),
                    Ok(bytes) => Ok(ContentView::Other { bytes }),
                }
            };
            match content {
                Err(e) => Err(e),
                Ok(cv) => match spec_fixed_string(b, p + 16, 16) {
                    Err(e) => Err(e),
                    Ok(name) => Ok((name, WadEntryView { content: cv })),
                },
            }
        }
    }

    fn exec_width() -> u64 {
        32
    }

    fn decode(c: &mut Cursor) -> Result<Self, Error> {
        let base: u64 = c.pos;
        let ghost p = base as int;
        let off = c.read_u32()?;
        let size = c.read_u32()?;
        // four documented padding bytes, the tag, three more padding bytes
        let head = c.read_bytes(5)?;
        let tag: u8 = head[4];
        proof {
            assert(head@[4] == c.data@[p + 12]);
        }
        let content: Content = match content_type_of(tag) {
            ContentType::Picture => {
                c.seek(off as u64);
                Content::Picture(decode_picture(c)?)
            },
            ContentType::MipTexture => {
                c.seek(off as u64);
                Content::MipTexture(decode_mip_texture(c)?)
            },
            ContentType::Font => {
                c.seek(off as u64);
                Content::Font(decode_font(c)?)
            },
            ContentType::Other => {
                let bytes = c.read_block(off as u128, size as u64)?;
                proof {
                    assert(bytes.deep_view() =~= bytes@);
                }
                Content::Other { bytes }
            },
        };
        let name = parse_string_at(c, base as u128 + 16, 16)?;
        let buf_len: usize = c.data.len();
        proof {
            assert(p + 32 <= buf_len);
            assert(base as u128 + 32 <= u64::MAX as u128);
        }
        let next: u64 = (base as u128 + 32) as u64;
        c.seek(next);
        Ok((name, WadEntry { content }))
    }
}

/// The decoded archive: its entries in directory order, each a name and
/// a payload. Names are lookup keys; when a producer repeats a name the
/// later entry is the one a last-write-wins lookup sees.
#[derive(Debug, Clone, PartialEq)]
pub struct Wad {
    pub entiries: Vec<(String, WadEntry)>,
}

impl DeepView for Wad {
    type V = Seq<(Seq<char>, WadEntryView)>;

    open spec fn deep_view(&self) -> Seq<(Seq<char>, WadEntryView)> {
        self.entiries.deep_view()
    }
}

/// The archive decoded from `b`: the magic `WAD3`, an entry count, a
/// directory offset, and the directory's entries.
pub open spec fn spec_read_wad(b: Seq<u8>) -> Result<Seq<(Seq<char>, WadEntryView)>, Error> {
    if 4 > b.len() {
        Err(Error::UnexpectedEnd)
    } else if !(b[0] == 87 && b[1] == 65 && b[2] == 68 && b[3] == 51) {
        Err(Error::MagicMismatch)
    } else if 12 > b.len() {
        Err(Error::UnexpectedEnd)
    } else {
        spec_records::<(String, WadEntry)>(b, le32(b, 8), le32(b, 4) as nat)
    }
}

/// Decodes a texture archive. The buffer must begin with the 4-byte
/// magic `WAD3`.
pub fn read_wad(bytes: &[u8]) -> (r: Result<Wad, Error>)
    ensures
        match r {
            Ok(v) => spec_read_wad(bytes@) == Ok::<Seq<(Seq<char>, WadEntryView)>, Error>(
                v.deep_view(),
            ),
            Err(e) => spec_read_wad(bytes@) == Err::<Seq<(Seq<char>, WadEntryView)>, Error>(e),
        },
{
    let mut c = Cursor::new(bytes);
    let magic = c.read_bytes(4)?;
    if !(magic[0] == 87 && magic[1] == 65 && magic[2] == 68 && magic[3] == 51) {
        return Err(Error::MagicMismatch);
    }
    let size = c.read_u32()?;
    let offset = c.read_u32()?;
    let entiries = decode_records::<(String, WadEntry)>(&mut c, offset as u64, size as u64)?;
    Ok(Wad { entiries })
}

/// Decoding is deterministic: the same bytes always decode to the same
/// archive.
pub proof fn lemma_read_wad_deterministic(b1: Seq<u8>, b2: Seq<u8>)
    requires
        b1 == b2,
    ensures
        spec_read_wad(b1) == spec_read_wad(b2),
{
}

/// A directory entry whose tag byte is unrecognized decodes to the
/// opaque-blob variant holding exactly the stored size in bytes,
/// starting at the stored offset.
pub proof fn lemma_unknown_tag_blob(b: Seq<u8>, p: int)
    requires
        p >= 0,
        p + 32 <= b.len(),
        spec_content_type(b[p + 12]) == ContentType::Other,
        le32(b, p) + le32(b, p + 4) <= b.len(),
        spec_fixed_string(b, p + 16, 16) is Ok,
    ensures
        <(String, WadEntry) as Record>::spec_decode(b, p) matches Ok(pair) && pair.1.content
            == (ContentView::Other {
            bytes: b.subrange(le32(b, p), le32(b, p) + le32(b, p + 4)),
        }) && pair.1.content->Other_bytes.len() == le32(b, p + 4),
{
}

} // verus!
