//! Media-pipeline value types of the binding layer, modeled as plain data:
//! attribute and stream-selector vocabularies with their native codes, media
//! types as the two attributes the pipeline reads, a source reader holding
//! its streams' native media types, and a media buffer holding bytes.

use vstd::prelude::*;

verus! {

/// Media-type attributes the pipeline reads and writes.
#[derive(Clone, Copy, Debug, PartialEq, Eq, Structural)]
pub enum Attr {
    MajorType,
    SubType,
}

/// Source-reader configuration attributes.
#[derive(Clone, Copy, Debug, PartialEq, Eq, Structural)]
pub enum SourceReaderAttr {
    D3dManager,
    EnableAdvancedVideoProcessing,
}

/// Reader/writer configuration attributes.
#[derive(Clone, Copy, Debug, PartialEq, Eq, Structural)]
pub enum ReadWriteAttr {
    EnableHardwareTransforms,
}

/// The major type of a media stream.
#[derive(Clone, Copy, Debug, PartialEq, Eq, Structural)]
pub enum MajorTypeAttr {
    Audio,
    Video,
}

/// The video formats the pipeline selects.
#[derive(Clone, Copy, Debug, PartialEq, Eq, Structural)]
pub enum VideoFormat {
    Nv12,
}

/// Which stream of a source a call addresses: one by index, the first of a
/// major type, any stream, or all of them.
#[derive(Clone, Copy, Debug, PartialEq, Eq, Structural)]
pub enum SourceReaderStream {
    All,
    Any,
    FirstAudio,
    FirstVideo,
    Index(u32),
}

impl SourceReaderStream {
    /// The native stream-selector code: plain indices stay under the
    /// sentinel range, the sentinels sit at the top of the `u32` range, and
    /// the all-streams and any-stream selectors share one code.
    pub open spec fn spec_code(self) -> u32 {
        match self {
            SourceReaderStream::All => 0xFFFF_FFFEu32,
            SourceReaderStream::Any => 0xFFFF_FFFEu32,
            SourceReaderStream::FirstAudio => 0xFFFF_FFFDu32,
            SourceReaderStream::FirstVideo => 0xFFFF_FFFCu32,
            SourceReaderStream::Index(index) => index,
        }
    }

    pub fn code(self) -> (c: u32)
        ensures
            c == self.spec_code(),
    {
        match self {
            SourceReaderStream::All => 0xFFFF_FFFE,
            SourceReaderStream::Any => 0xFFFF_FFFE,
            SourceReaderStream::FirstAudio => 0xFFFF_FFFD,
            SourceReaderStream::FirstVideo => 0xFFFF_FFFC,
            SourceReaderStream::Index(index) => index,
        }
    }

    /// A plain stream index; indices at or above the sentinel range are a
    /// caller error.
    pub fn from_index(index: u32) -> (s: SourceReaderStream)
        requires
            index < 0x8000_0000,
        ensures
            s == SourceReaderStream::Index(index),
    {
        SourceReaderStream::Index(index)
    }
}

/// A media type as the pipeline reads it: its major type and its format,
/// either possibly not yet set, and whether the format is compressed.
#[derive(Clone, Copy, Debug, PartialEq, Eq, Structural)]
pub struct MediaType {
    pub major: Option<MajorTypeAttr>,
    pub format: Option<VideoFormat>,
    pub compressed: bool,
}

impl MediaType {
    /// An empty media type, attributes not yet set.
    pub fn new() -> (t: MediaType)
        ensures
            t.major is None,
            t.format is None,
            !t.compressed,
    {
        MediaType { major: None, format: None, compressed: false }
    }

    /// The stream's major type, if set.
    pub fn major_type(&self) -> (m: Option<MajorTypeAttr>)
        ensures
            m == self.major,
    {
        self.major
    }

    pub fn set_major_type(&mut self, major: MajorTypeAttr)
        ensures
            *final(self) == (MediaType { major: Some(major), ..*old(self) }),
    {
        self.major = Some(major);
    }

    pub fn set_format(&mut self, format: VideoFormat)
        ensures
            *final(self) == (MediaType { format: Some(format), ..*old(self) }),
    {
        self.format = Some(format);
    }

    pub fn is_compressed_format(&self) -> (c: bool)
        ensures
            c == self.compressed,
    {
        self.compressed
    }
}

/// One stream of a media source: its major type and its native media types,
/// best first.
#[derive(Debug)]
pub struct MediaStream {
    pub major: MajorTypeAttr,
    pub native_types: Vec<MediaType>,
}

/// Whether some stream has the major type.
pub open spec fn spec_has_stream(streams: Seq<MediaStream>, major: MajorTypeAttr) -> bool {
    exists|i: int| 0 <= i < streams.len() && (#[trigger] streams[i]).major == major
}

/// The first stream of the major type.
pub open spec fn spec_first_stream(streams: Seq<MediaStream>, major: MajorTypeAttr) -> int
    decreases streams.len(),
{
    if streams.len() == 0 {
        0
    } else if streams[0].major == major {
        0
    } else {
        1 + spec_first_stream(streams.drop_first(), major)
    }
}

/// The first stream of a major type is exactly the one with no earlier
/// stream of that type.
proof fn lemma_first_stream_at(streams: Seq<MediaStream>, major: MajorTypeAttr, k: int)
    requires
        0 <= k < streams.len(),
        streams[k].major == major,
        forall|j: int| 0 <= j < k ==> (#[trigger] streams[j]).major != major,
    ensures
        spec_first_stream(streams, major) == k,
    decreases k,
{
    if k > 0 {
        lemma_first_stream_at(streams.drop_first(), major, k - 1);
    }
}

/// A media source reader, holding per stream the native media types the
/// source offers.
#[derive(Debug)]
pub struct SourceReader {
    pub streams: Vec<MediaStream>,
}

impl SourceReader {
    pub fn new(streams: Vec<MediaStream>) -> (r: SourceReader)
        ensures
            r.streams@ == streams@,
    {
        SourceReader { streams }
    }

    /// The native media types the addressed stream offers, in the source's
    /// order. A stream is addressed by index or as the first stream of a
    /// major type; the all-streams and any-stream selectors do not address
    /// one stream and are a caller error here, as the native call rejects
    /// them.
    pub fn native_media_types(&self, stream: SourceReaderStream) -> (ts: Vec<MediaType>)
        requires
            match stream {
                SourceReaderStream::Index(i) => i < self.streams@.len(),
                SourceReaderStream::FirstAudio => spec_has_stream(
                    self.streams@,
                    MajorTypeAttr::Audio,
                ),
                SourceReaderStream::FirstVideo => spec_has_stream(
                    self.streams@,
                    MajorTypeAttr::Video,
                ),
                SourceReaderStream::All => false,
                SourceReaderStream::Any => false,
            },
        ensures
            match stream {
                SourceReaderStream::Index(i) => ts@ == self.streams@[i as int].native_types@,
                SourceReaderStream::FirstAudio => ts@ == self.streams@[spec_first_stream(
                    self.streams@,
                    MajorTypeAttr::Audio,
                )].native_types@,
                SourceReaderStream::FirstVideo => ts@ == self.streams@[spec_first_stream(
                    self.streams@,
                    MajorTypeAttr::Video,
                )].native_types@,
                SourceReaderStream::All => false,
                SourceReaderStream::Any => false,
            },
    {
        let index: usize = match stream {
            SourceReaderStream::Index(i) => i as usize,
            SourceReaderStream::FirstAudio => self.first_stream_index(MajorTypeAttr::Audio),
            SourceReaderStream::FirstVideo => self.first_stream_index(MajorTypeAttr::Video),
            SourceReaderStream::All => unreached(),
            SourceReaderStream::Any => unreached(),
        };
        let native = &self.streams[index].native_types;
        let mut ts: Vec<MediaType> = Vec::new();
        let mut k: usize = 0;
        while k < native.len()
            invariant
                k <= native@.len(),
                ts@ == native@.take(k as int),
            decreases native@.len() - k,
        {
            ts.push(native[k]);
            proof {
                assert(ts@ =~= native@.take(k + 1));
            }
            k += 1;
        }
        proof {
            assert(ts@ =~= native@);
        }
        ts
    }

    /// The index of the first stream with the major type.
    fn first_stream_index(&self, major: MajorTypeAttr) -> (k: usize)
        requires
            spec_has_stream(self.streams@, major),
        ensures
            k < self.streams@.len(),
            self.streams@[k as int].major == major,
            k == spec_first_stream(self.streams@, major),
    {
        let mut k: usize = 0;
        loop
            invariant
                k <= self.streams@.len(),
                spec_has_stream(self.streams@, major),
                forall|j: int| 0 <= j < k ==> (#[trigger] self.streams@[j]).major != major,
            decreases self.streams@.len() - k,
        {
            if k == self.streams.len() {
                proof {
                    let w = choose|i: int| 0 <= i < self.streams@.len()
                        && (#[trigger] self.streams@[i]).major == major;
                    assert(false);
                }
            }
            if self.streams[k].major == major {
                proof {
                    lemma_first_stream_at(self.streams@, major, k as int);
                }
                return k;
            }
            k += 1;
        }
    }
}

/// A media buffer: its bytes and the capacity the native allocator gave it.
#[derive(Debug)]
pub struct MediaBuffer {
    pub data: Vec<u8>,
    pub max_len: usize,
}

impl MediaBuffer {
    pub fn new(data: Vec<u8>, max_len: usize) -> (b: MediaBuffer)
        requires
            data@.len() <= max_len,
        ensures
            b.data@ == data@,
            b.max_len == max_len,
    {
        MediaBuffer { data, max_len }
    }

    /// Hand the buffer's bytes to the reader exactly once.
    pub fn lock<F: Fn(&[u8])>(&self, f: F)
        requires
            forall|b: &[u8]| #[trigger] call_requires(f, (b,)),
        ensures
            exists|b: &[u8]| b@ == self.data@ && call_ensures(f, (b,), ()),
    {
        let bytes = self.data.as_slice();
        f(bytes);
    }

    /// How many bytes the buffer currently holds.
    pub fn current_length(&self) -> (n: usize)
        ensures
            n == self.data@.len(),
    {
        self.data.len()
    }

    /// The buffer's capacity.
    pub fn max_length(&self) -> (n: usize)
        ensures
            n == self.max_len,
    {
        self.max_len
    }
}

} // verus!
