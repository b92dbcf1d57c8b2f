//! The container's framing: a fixed file header, then records that each
//! carry an 11-byte header, a payload and a 4-byte size footer.
use vstd::prelude::*;
use crate::types::{TagHeader, TagType};

verus! {

/// File header (9 bytes) plus the size footer of the absent previous record.
pub const FILE_HEADER_LEN: usize = 13;

/// Fixed part of a record before its payload.
pub const TAG_HEADER_LEN: usize = 11;

/// Size footer after each record's payload.
pub const FOOTER_LEN: usize = 4;

/// The fields of the file header.
#[derive(Clone, Copy, Debug, PartialEq, Eq, Structural)]
pub struct FlvHeader {
    pub version: u8,
    pub audio: bool,
    pub video: bool,
    /// Length of the file header as the file states it.
    pub offset: u32,
}

/// What the framing makes of a window of bytes.
#[derive(Clone, Copy, Debug, PartialEq, Eq, Structural)]
pub enum Parse<T> {
    /// A complete item, and how many bytes of the window it spans.
    Complete(T, usize),
    /// The window is a prefix of an item: more bytes are needed.
    Incomplete,
    /// The window breaks the grammar.
    Malformed,
}

/// The big-endian number in the three bytes of `s` from `i`.
pub open spec fn be24(s: Seq<u8>, i: int) -> int {
    s[i] as int * 65536 + s[i + 1] as int * 256 + s[i + 2] as int
}

/// The big-endian number in the four bytes of `s` from `i`.
pub open spec fn be32(s: Seq<u8>, i: int) -> int {
    s[i] as int * 16777216 + be24(s, i + 1)
}

/// Every byte of `s` that falls within the magic "FLV" agrees with it.
pub open spec fn magic_agrees(s: Seq<u8>) -> bool {
    &&& s.len() > 0 ==> s[0] == 0x46u8
    &&& s.len() > 1 ==> s[1] == 0x4Cu8
    &&& s.len() > 2 ==> s[2] == 0x56u8
}

/// The file header at the start of `s` (which holds at least 9 bytes).
pub open spec fn file_header_of(s: Seq<u8>) -> FlvHeader {
    FlvHeader {
        version: s[3],
        audio: (s[4] / 4) % 2 == 1,
        video: s[4] % 2 == 1,
        offset: be32(s, 5) as u32,
    }
}

fn read_be24(input: &[u8], i: usize) -> (r: u32)
    requires
        i + 3 <= input@.len(),
    ensures
        r == be24(input@, i as int),
{
    (input[i] as u32) * 65536 + (input[i + 1] as u32) * 256 + (input[i + 2] as u32)
}

fn read_be32(input: &[u8], i: usize) -> (r: u32)
    requires
        i + 4 <= input@.len(),
    ensures
        r == be32(input@, i as int),
{
    (input[i] as u32) * 16777216 + read_be24(input, i + 1)
}

/// Parses the file header and the size footer that follows it.
pub fn parse_file_header(input: &[u8]) -> (r: Parse<FlvHeader>)
    ensures
        r is Malformed <==> !magic_agrees(input@),
        r is Incomplete <==> magic_agrees(input@) && input@.len() < FILE_HEADER_LEN,
        r matches Parse::Complete(h, n) ==> n == FILE_HEADER_LEN && h == file_header_of(input@),
{
    let magic: [u8; 3] = [0x46u8, 0x4Cu8, 0x56u8];
    let mut i: usize = 0;
    while i < 3 && i < input.len()
        invariant
            i <= 3,
            magic@ == seq![0x46u8, 0x4Cu8, 0x56u8],
            forall|k: int| 0 <= k < i && k < input@.len() ==> input@[k] == magic@[k],
        decreases 3 - i,
    {
        if input[i] != magic[i] {
            return Parse::Malformed;
        }
        i = i + 1;
    }
    if input.len() < FILE_HEADER_LEN {
        return Parse::Incomplete;
    }
    let flags = input[4];
    let h = FlvHeader {
        version: input[3],
        audio: (flags / 4) % 2 == 1,
        video: flags % 2 == 1,
        offset: read_be32(input, 5),
    };
    Parse::Complete(h, FILE_HEADER_LEN)
}

/// The record kind that a type byte names, if any.
pub open spec fn tag_type_of(b: u8) -> Option<TagType> {
    if b == 8 {
        Some(TagType::Audio)
    } else if b == 9 {
        Some(TagType::Video)
    } else if b == 18 {
        Some(TagType::Script)
    } else {
        None
    }
}

/// The payload length that a record at the start of `s` declares.
pub open spec fn record_size(s: Seq<u8>) -> int {
    be24(s, 1)
}

/// The record at the start of `s` breaks the grammar: its type byte names no
/// kind, or an audio or video record declares an empty payload.
pub open spec fn record_malformed(s: Seq<u8>) -> bool {
    &&& s.len() > 0
    &&& match tag_type_of(s[0]) {
        None => true,
        Some(t) => t != TagType::Script && s.len() >= TAG_HEADER_LEN && record_size(s) == 0,
    }
}

/// Bytes spanned by the record at the start of `s`, footer included.
pub open spec fn record_span(s: Seq<u8>) -> int {
    TAG_HEADER_LEN + record_size(s) + FOOTER_LEN
}

/// `s` is too short for the record at its start.
pub open spec fn record_short(s: Seq<u8>) -> bool {
    s.len() < TAG_HEADER_LEN || s.len() < record_span(s)
}

/// The header of the record at the start of `s`.
pub open spec fn record_header(s: Seq<u8>) -> TagHeader {
    TagHeader {
        tag_type: tag_type_of(s[0])->Some_0,
        data_size: record_size(s) as u32,
        timestamp: (s[7] as int * 16777216 + be24(s, 4)) as u32,
        stream_id: be24(s, 8) as u32,
    }
}

/// The payload of the record at the start of `s`.
pub open spec fn record_payload(s: Seq<u8>) -> Seq<u8> {
    s.subrange(TAG_HEADER_LEN as int, TAG_HEADER_LEN + record_size(s))
}

fn tag_type_from(b: u8) -> (r: Option<TagType>)
    ensures
        r == tag_type_of(b),
{
    if b == 8 {
        Some(TagType::Audio)
    } else if b == 9 {
        Some(TagType::Video)
    } else if b == 18 {
        Some(TagType::Script)
    } else {
        None
    }
}

/// Frames the record at the start of `input`: decodes its header and says
/// how many bytes it spans, leaving the payload where it is.
pub fn frame_record(input: &[u8]) -> (r: Parse<TagHeader>)
    ensures
        r is Malformed <==> record_malformed(input@),
        r is Incomplete <==> !record_malformed(input@) && record_short(input@),
        r matches Parse::Complete(h, n) ==> {
            &&& n == record_span(input@)
            &&& n <= input@.len()
            &&& h == record_header(input@)
        },
{
    if input.len() == 0 {
        return Parse::Incomplete;
    }
    let tag_type = match tag_type_from(input[0]) {
        Some(t) => t,
        None => {
            return Parse::Malformed;
        },
    };
    if input.len() < TAG_HEADER_LEN {
        return Parse::Incomplete;
    }
    let size = read_be24(input, 1);
    if size == 0 && tag_type != TagType::Script {
        return Parse::Malformed;
    }
    let span = TAG_HEADER_LEN + size as usize + FOOTER_LEN;
    if input.len() < span {
        return Parse::Incomplete;
    }
    let ext = input[7] as u32;
    let header = TagHeader {
        tag_type,
        data_size: size,
        timestamp: ext * 16777216 + read_be24(input, 4),
        stream_id: read_be24(input, 8),
    };
    Parse::Complete(header, span)
}

} // verus!
