use noodle::dxgi::{Adapter1, Factory2, Output};
use noodle::mf::{
    MajorTypeAttr, MediaBuffer, MediaStream, MediaType, SourceReader, SourceReaderStream,
    VideoFormat,
};
use std::cell::Cell;

#[test]
fn stream_selector_codes() {
    assert_eq!(SourceReaderStream::All.code(), 0xFFFF_FFFE);
    assert_eq!(SourceReaderStream::Any.code(), 0xFFFF_FFFE);
    assert_eq!(SourceReaderStream::FirstAudio.code(), 0xFFFF_FFFD);
    assert_eq!(SourceReaderStream::FirstVideo.code(), 0xFFFF_FFFC);
    assert_eq!(SourceReaderStream::from_index(4).code(), 4);
}

#[test]
fn media_type_attributes() {
    let mut t = MediaType::new();
    assert_eq!(t.major_type(), None);
    t.set_major_type(MajorTypeAttr::Video);
    t.set_format(VideoFormat::Nv12);
    assert_eq!(t.major_type(), Some(MajorTypeAttr::Video));
    assert_eq!(t.format, Some(VideoFormat::Nv12));
    assert!(!t.is_compressed_format());
}

fn video_type() -> MediaType {
    let mut t = MediaType::new();
    t.set_major_type(MajorTypeAttr::Video);
    t.set_format(VideoFormat::Nv12);
    t
}

fn audio_type() -> MediaType {
    let mut t = MediaType::new();
    t.set_major_type(MajorTypeAttr::Audio);
    t
}

#[test]
fn native_types_by_stream() {
    let reader = SourceReader::new(vec![
        MediaStream { major: MajorTypeAttr::Audio, native_types: vec![audio_type()] },
        MediaStream {
            major: MajorTypeAttr::Video,
            native_types: vec![video_type(), video_type()],
        },
    ]);
    assert_eq!(reader.native_media_types(SourceReaderStream::FirstVideo).len(), 2);
    assert_eq!(reader.native_media_types(SourceReaderStream::FirstAudio).len(), 1);
    let by_index = reader.native_media_types(SourceReaderStream::from_index(1));
    assert_eq!(by_index.len(), 2);
    assert_eq!(by_index[0].major_type(), Some(MajorTypeAttr::Video));
}

#[test]
fn media_buffer_hands_out_its_bytes() {
    let buffer = MediaBuffer::new(vec![1, 2, 3, 4], 16);
    assert_eq!(buffer.current_length(), 4);
    assert_eq!(buffer.max_length(), 16);
    let sum = Cell::new(0u32);
    buffer.lock(|bytes: &[u8]| {
        sum.set(bytes.iter().map(|b| *b as u32).sum());
    });
    assert_eq!(sum.get(), 10);
}

#[test]
fn adapters_and_outputs_enumerate_in_order() {
    let factory = Factory2::new(vec![
        Adapter1::new(0, vec![Output::new(0), Output::new(1)]),
        Adapter1::new(1, vec![]),
    ]);
    let adapters = factory.adapters1();
    assert_eq!(adapters.len(), 2);
    assert_eq!(adapters[0].id, 0);
    let outputs = adapters[0].outputs();
    assert_eq!(outputs.len(), 2);
    assert_eq!(outputs[1], Output::new(1));
    assert_eq!(adapters[1].outputs().len(), 0);
}
