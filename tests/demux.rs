use flv_demux::buffer::SlidingBuffer;
use flv_demux::demux::{DemuxError, Demuxer, State, Step};
use flv_demux::frame::{frame_record, parse_file_header, FlvHeader, Parse};
use flv_demux::types::{AudioData, Tag, TagData, TagHeader, TagType, VideoData};

fn file_header() -> Vec<u8> {
    vec![0x46, 0x4C, 0x56, 1, 5, 0, 0, 0, 9, 0, 0, 0, 0]
}

fn record(kind: u8, timestamp: u32, stream_id: u32, payload: &[u8]) -> Vec<u8> {
    let size = payload.len() as u32;
    let mut v = vec![
        kind,
        (size >> 16) as u8,
        (size >> 8) as u8,
        size as u8,
        (timestamp >> 16) as u8,
        (timestamp >> 8) as u8,
        timestamp as u8,
        (timestamp >> 24) as u8,
        (stream_id >> 16) as u8,
        (stream_id >> 8) as u8,
        stream_id as u8,
    ];
    v.extend_from_slice(payload);
    let footer = size + 11;
    v.extend_from_slice(&footer.to_be_bytes());
    v
}

fn two_records() -> Vec<u8> {
    let mut v = file_header();
    v.extend(record(8, 0x000102, 0, &[0xAF, 1, 2]));
    v.extend(record(9, 0x01000203, 7, &[0x17, 9, 8, 7, 6]));
    v
}

struct Run {
    tags: Vec<Tag>,
    last: Step,
    requests: usize,
}

fn drive(input: &[u8], capacity: usize, max: usize, chunk: usize) -> (Run, Demuxer) {
    let mut d = Demuxer::new(capacity, max);
    let mut pos = 0usize;
    let mut tags = Vec::new();
    let mut requests = 0usize;
    loop {
        match d.resume() {
            Step::NeedBytes => {
                requests += 1;
                let n = d.writable_len().min(chunk).min(input.len() - pos);
                let took = d.supply(&input[pos..pos + n]);
                assert_eq!(took, n);
                pos += n;
            }
            Step::Record(t) => tags.push(t),
            last => {
                return (Run { tags, last, requests }, d);
            }
        }
    }
}

#[test]
fn two_records_end_to_end() {
    let input = two_records();
    let (run, d) = drive(&input, 8, 1 << 20, 1000);
    assert_eq!(run.last, Step::Done(2));
    assert_eq!(run.tags.len(), 2);
    assert_eq!(
        run.tags[0],
        Tag {
            header: TagHeader { tag_type: TagType::Audio, data_size: 3, timestamp: 0x000102, stream_id: 0 },
            data: TagData::Audio(AudioData {
                sound_format: 10,
                sound_rate: 3,
                sound_size: 1,
                sound_type: 1,
                sound_data: vec![0xAF, 1, 2],
            }),
        }
    );
    assert_eq!(
        run.tags[1],
        Tag {
            header: TagHeader { tag_type: TagType::Video, data_size: 5, timestamp: 0x01000203, stream_id: 7 },
            data: TagData::Video(VideoData { frame_type: 1, codec_id: 7, video_data: vec![0x17, 9, 8, 7, 6] }),
        }
    );
    assert_eq!(d.count(), 2);
    assert_eq!(d.consumed(), input.len() as u64);
    assert_eq!(d.header(), Some(FlvHeader { version: 1, audio: true, video: true, offset: 9 }));
    assert!(d.capacity() > 8);
}

#[test]
fn byte_by_byte_feeding_consumes_whole_input() {
    let input = two_records();
    let (run, d) = drive(&input, 64, 64, 1);
    assert_eq!(run.last, Step::Done(2));
    assert_eq!(run.tags.len(), 2);
    assert_eq!(d.consumed(), input.len() as u64);
    assert!(run.requests > input.len());
}

#[test]
fn truncated_last_payload_is_never_emitted() {
    let mut input = two_records();
    let last_payload_byte = input.len() - 5;
    input.remove(last_payload_byte);
    let (run, d) = drive(&input, 16, 1 << 20, 3);
    assert_eq!(run.last, Step::Done(1));
    assert_eq!(run.tags.len(), 1);
    assert_eq!(run.tags[0].header.tag_type, TagType::Audio);
    assert_eq!(d.count(), 1);
    assert!(run.requests > 2);
}

#[test]
fn truncated_final_record_waits_then_ends() {
    let input = two_records();
    let cut = &input[..input.len() - 5];
    let (run, d) = drive(cut, 256, 256, 4);
    assert_eq!(run.last, Step::Done(1));
    assert_eq!(run.tags.len(), 1);
    assert_eq!(d.state(), State::Done(1));
    assert!(d.consumed() < cut.len() as u64);
}

#[test]
fn corrupted_magic_fails_in_header() {
    let mut input = two_records();
    input[1] = b'X';
    let (run, d) = drive(&input, 64, 64, 64);
    assert_eq!(run.last, Step::Failed(DemuxError::MalformedHeader { offset: 0 }));
    assert!(run.tags.is_empty());
    assert_eq!(d.count(), 0);
    assert_eq!(d.consumed(), 0);
}

#[test]
fn empty_source_fails_in_header() {
    let (run, d) = drive(&[], 16, 16, 16);
    assert_eq!(run.last, Step::Failed(DemuxError::MalformedHeader { offset: 0 }));
    assert_eq!(d.count(), 0);
}

#[test]
fn header_only_stream_is_done_with_zero() {
    let (run, _) = drive(&file_header(), 16, 16, 16);
    assert_eq!(run.last, Step::Done(0));
}

#[test]
fn bad_record_type_reports_offset() {
    let mut input = two_records();
    input[13 + 18] = 7;
    let (run, d) = drive(&input, 128, 128, 128);
    assert_eq!(run.tags.len(), 1);
    assert_eq!(run.last, Step::Failed(DemuxError::MalformedRecord { offset: 31 }));
    assert_eq!(d.count(), 1);
}

#[test]
fn capacity_ceiling_is_fatal() {
    let input = two_records();
    let (run, _) = drive(&input, 8, 16, 1000);
    assert_eq!(run.last, Step::Failed(DemuxError::CapacityLimitExceeded { capacity: 16 }));
}

#[test]
fn terminal_states_repeat() {
    let input = two_records();
    let (_, mut d) = drive(&input, 64, 64, 64);
    assert_eq!(d.resume(), Step::Done(2));
    assert_eq!(d.resume(), Step::Done(2));
    let mut f = Demuxer::new(4, 4);
    f.fail_source();
    assert_eq!(f.resume(), Step::Failed(DemuxError::SourceReadFailure));
    assert_eq!(f.resume(), Step::Failed(DemuxError::SourceReadFailure));
}

#[test]
fn supply_outside_filling_is_ignored() {
    let mut d = Demuxer::new(32, 32);
    assert_eq!(d.resume(), Step::NeedBytes);
    assert_eq!(d.supply(&[0x46]), 1);
    assert_eq!(d.state(), State::Parsing);
    assert_eq!(d.supply(&[0x4C]), 0);
    assert_eq!(d.resume(), Step::NeedBytes);
    assert_eq!(d.supply(&[0x4C]), 1);
}

#[test]
fn materialized_record_survives_buffer_changes() {
    let mut b = SlidingBuffer::new(32);
    let input = record(9, 1, 2, &[0x27, 5, 6]);
    assert_eq!(b.fill(&input), input.len());
    let tag = match frame_record(b.data()) {
        Parse::Complete(h, n) => {
            let t = Tag::new(h, &b.data()[11..11 + h.data_size as usize]);
            b.consume(n);
            t
        }
        other => panic!("unexpected {:?}", other),
    };
    assert!(b.grow(128));
    assert_eq!(b.fill(&[0xFF; 40]), 40);
    assert_eq!(tag.data, TagData::Video(VideoData { frame_type: 2, codec_id: 7, video_data: vec![0x27, 5, 6] }));
}

#[test]
fn buffer_accounting_holds() {
    let mut b = SlidingBuffer::new(20);
    assert_eq!(b.available_data() + b.available_space(), b.capacity() - b.position());
    assert_eq!(b.fill(&[1, 2, 3, 4, 5, 6]), 6);
    b.consume(4);
    assert_eq!(b.data(), &[5, 6]);
    assert_eq!(b.position(), 4);
    assert_eq!(b.available_data() + b.available_space(), b.capacity() - b.position());
    assert_eq!(b.available_space(), 14);
}

#[test]
fn fill_is_cut_to_free_space() {
    let mut b = SlidingBuffer::new(4);
    assert_eq!(b.fill(&[1, 2, 3, 4, 5, 6]), 4);
    assert_eq!(b.data(), &[1, 2, 3, 4]);
    assert_eq!(b.fill(&[7]), 0);
    assert_eq!(b.available_space(), 0);
}

#[test]
fn zero_consume_and_empty_fill_change_nothing() {
    let mut b = SlidingBuffer::new(16);
    b.fill(&[9, 8, 7]);
    b.consume(1);
    let (d, p, c) = (b.data().to_vec(), b.position(), b.capacity());
    b.consume(0);
    assert_eq!(b.fill(&[]), 0);
    assert_eq!((b.data().to_vec(), b.position(), b.capacity()), (d, p, c));
}

#[test]
fn consume_past_half_moves_data_to_front() {
    let mut b = SlidingBuffer::new(10);
    b.fill(&[1, 2, 3, 4, 5, 6, 7]);
    b.consume(6);
    assert_eq!(b.position(), 0);
    assert_eq!(b.data(), &[7]);
    assert_eq!(b.available_space(), 9);
}

#[test]
fn grow_is_monotonic_and_keeps_data() {
    let mut b = SlidingBuffer::new(8);
    b.fill(&[1, 2, 3, 4, 5]);
    b.consume(2);
    assert!(!b.grow(8));
    assert!(!b.grow(3));
    assert_eq!((b.capacity(), b.position()), (8, 2));
    assert!(b.grow(16));
    assert_eq!(b.capacity(), 16);
    assert_eq!(b.position(), 0);
    assert_eq!(b.data(), &[3, 4, 5]);
    assert_eq!(b.available_space(), 13);
}

#[test]
fn file_header_parses() {
    let h = file_header();
    assert_eq!(
        parse_file_header(&h),
        Parse::Complete(FlvHeader { version: 1, audio: true, video: true, offset: 9 }, 13)
    );
    assert_eq!(parse_file_header(&h[..12]), Parse::Incomplete);
    assert_eq!(parse_file_header(&[0x46, 0x4C]), Parse::Incomplete);
    assert_eq!(parse_file_header(&[0x46, 0x4D]), Parse::Malformed);
    assert_eq!(parse_file_header(&[]), Parse::Incomplete);
}

#[test]
fn record_framing() {
    let r = record(18, 0x01020304, 0x050607, &[1, 2]);
    assert_eq!(
        frame_record(&r),
        Parse::Complete(
            TagHeader { tag_type: TagType::Script, data_size: 2, timestamp: 0x01020304, stream_id: 0x050607 },
            17
        )
    );
    assert_eq!(frame_record(&r[..16]), Parse::Incomplete);
    assert_eq!(frame_record(&r[..5]), Parse::Incomplete);
    assert_eq!(frame_record(&[3]), Parse::Malformed);
    let empty_audio = record(8, 0, 0, &[]);
    assert_eq!(frame_record(&empty_audio), Parse::Malformed);
    let empty_script = record(18, 0, 0, &[]);
    assert_eq!(
        frame_record(&empty_script),
        Parse::Complete(TagHeader { tag_type: TagType::Script, data_size: 0, timestamp: 0, stream_id: 0 }, 15)
    );
}

#[test]
fn audio_fields_come_from_first_byte() {
    let h = TagHeader { tag_type: TagType::Audio, data_size: 2, timestamp: 0, stream_id: 0 };
    let t = Tag::new(h, &[0b0010_0110, 3]);
    assert_eq!(
        t.data,
        TagData::Audio(AudioData { sound_format: 2, sound_rate: 1, sound_size: 1, sound_type: 0, sound_data: vec![0b0010_0110, 3] })
    );
    let s = Tag::new(TagHeader { tag_type: TagType::Script, data_size: 1, timestamp: 0, stream_id: 0 }, &[4]);
    assert_eq!(s.data, TagData::Script(vec![4]));
}
