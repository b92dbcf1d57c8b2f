//! Records of the stream, owned and independent of the buffer they were read from.
use vstd::prelude::*;
use vstd::slice::slice_to_vec;

verus! {

/// The kind of a record, from its type byte.
#[derive(Clone, Copy, Debug, PartialEq, Eq, Structural)]
pub enum TagType {
    Audio,
    Video,
    Script,
}

/// The fixed-width fields that precede a record's payload.
#[derive(Clone, Copy, Debug, PartialEq, Eq, Structural)]
pub struct TagHeader {
    pub tag_type: TagType,
    /// Length of the payload in bytes.
    pub data_size: u32,
    /// Milliseconds; the extension byte forms the top eight bits.
    pub timestamp: u32,
    pub stream_id: u32,
}

/// An audio payload: the codec fields packed in its first byte, and all of
/// its bytes.
#[derive(Clone, Debug, PartialEq, Eq)]
pub struct AudioData {
    pub sound_format: u8,
    pub sound_rate: u8,
    pub sound_size: u8,
    pub sound_type: u8,
    pub sound_data: Vec<u8>,
}

/// A video payload: the frame type and codec packed in its first byte, and
/// all of its bytes.
#[derive(Clone, Debug, PartialEq, Eq)]
pub struct VideoData {
    pub frame_type: u8,
    pub codec_id: u8,
    pub video_data: Vec<u8>,
}

/// A record's payload, by kind.
#[derive(Clone, Debug, PartialEq, Eq)]
pub enum TagData {
    Audio(AudioData),
    Video(VideoData),
    Script(Vec<u8>),
}

/// One record: its header and its owned payload.
#[derive(Clone, Debug, PartialEq, Eq)]
pub struct Tag {
    pub header: TagHeader,
    pub data: TagData,
}

/// Audio and video payloads carry their codec fields in a first byte, so they
/// cannot be empty.
pub open spec fn payload_fits(tag_type: TagType, payload: Seq<u8>) -> bool {
    tag_type != TagType::Script ==> payload.len() > 0
}

/// `d` is the payload `payload` of a record of kind `tag_type`, with the codec
/// fields taken from the bits of its first byte.
pub open spec fn data_matches(d: TagData, tag_type: TagType, payload: Seq<u8>) -> bool {
    match d {
        TagData::Audio(a) => {
            &&& tag_type == TagType::Audio
            &&& payload.len() > 0
            &&& a.sound_data@ == payload
            &&& a.sound_format == payload[0] / 16
            &&& a.sound_rate == (payload[0] / 4) % 4
            &&& a.sound_size == (payload[0] / 2) % 2
            &&& a.sound_type == payload[0] % 2
        },
        TagData::Video(v) => {
            &&& tag_type == TagType::Video
            &&& payload.len() > 0
            &&& v.video_data@ == payload
            &&& v.frame_type == payload[0] / 16
            &&& v.codec_id == payload[0] % 16
        },
        TagData::Script(s) => tag_type == TagType::Script && s@ == payload,
    }
}

impl TagData {
    /// All bytes of the payload.
    pub open spec fn bytes(self) -> Seq<u8> {
        match self {
            TagData::Audio(a) => a.sound_data@,
            TagData::Video(v) => v.video_data@,
            TagData::Script(s) => s@,
        }
    }
}

impl Tag {
    /// Builds an owned record from a header and a payload borrowed from
    /// elsewhere, copying the payload's bytes.
    pub fn new(header: TagHeader, payload: &[u8]) -> (r: Tag)
        requires
            payload_fits(header.tag_type, payload@),
        ensures
            r.header == header,
            data_matches(r.data, header.tag_type, payload@),
            r.data.bytes() == payload@,
    {
        let bytes = slice_to_vec(payload);
        let data = match header.tag_type {
            TagType::Audio => {
                let b = payload[0];
                TagData::Audio(AudioData {
                    sound_format: b / 16,
                    sound_rate: (b / 4) % 4,
                    sound_size: (b / 2) % 2,
                    sound_type: b % 2,
                    sound_data: bytes,
                })
            },
            TagType::Video => {
                let b = payload[0];
                TagData::Video(VideoData { frame_type: b / 16, codec_id: b % 16, video_data: bytes })
            },
            TagType::Script => TagData::Script(bytes),
        };
        Tag { header, data }
    }
}

} // verus!
