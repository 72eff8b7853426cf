//! Frame data carried through the pipeline: flag bits, raw decoder output,
//! finished decoded frames, and the assembly of the latter from the former.

use vstd::prelude::*;

verus! {

/// Stream can be split on that frame.
pub const FLAG_KEYFRAME: u32 = 1u32 << 0;
/// Last frame indicator.
pub const FLAG_LAST: u32 = 1u32 << 1;
/// Live stream.
pub const FLAG_LIVE: u32 = 1u32 << 2;
/// Live-stream timestamp synchronized with the source.
pub const FLAG_TIME_SYNCED: u32 = 1u32 << 3;
/// Frame carries extra decoding parameters.
pub const FLAG_HAS_PARAMS: u32 = 1u32 << 4;
/// Live stream carries the timestamp of its start.
pub const FLAG_HAS_START_TIMESTAMP: u32 = 1u32 << 5;
/// Stream has more than one channel.
pub const FLAG_MULTICHANNEL: u32 = 1u32 << 6;
/// Payload is an encoded bitstream.
pub const FLAG_ENCODED: u32 = 1u32 << 7;
/// Generated, non-real video stream.
pub const FLAG_DUMMY: u32 = 1u32 << 8;
/// Payload is Annex-B start-code delimited.
pub const FLAG_ANNEXB: u32 = 1u32 << 9;
/// Frame belongs to an audio stream.
pub const FLAG_AUDIO_STREAM: u32 = 1u32 << 16;
/// Frame belongs to a video stream.
pub const FLAG_VIDEO_STREAM: u32 = 1u32 << 17;
/// Frame belongs to a metadata stream.
pub const FLAG_METADATA_STREAM: u32 = 1u32 << 18;

/// A set of per-frame flag bits, matching the pipeline framework's flag
/// vocabulary (see the `FLAG_*` constants).
#[derive(Clone, Copy, PartialEq, Eq, Structural, Debug)]
pub struct FrameFlags {
    pub bits: u32,
}

impl FrameFlags {
    /// The empty flag set.
    pub fn empty() -> (r: FrameFlags)
        ensures
            r.bits == 0u32,
    {
        FrameFlags { bits: 0 }
    }

    /// A flag set holding exactly the bits of `mask`.
    pub fn from_bits(mask: u32) -> (r: FrameFlags)
        ensures
            r.bits == mask,
    {
        FrameFlags { bits: mask }
    }

    /// Whether every bit of `mask` is set.
    pub fn contains(&self, mask: u32) -> (r: bool)
        ensures
            r == (self.bits & mask == mask),
    {
        self.bits & mask == mask
    }

    /// Sets every bit of `mask`.
    pub fn insert(&mut self, mask: u32)
        ensures
            final(self).bits == old(self).bits | mask,
    {
        self.bits = self.bits | mask;
    }

    /// Clears every bit of `mask`.
    pub fn clear(&mut self, mask: u32)
        ensures
            final(self).bits == old(self).bits & !mask,
    {
        self.bits = self.bits & !mask;
    }
}

/// One decoded picture as it comes out of the codec adapter: dimensions as
/// the native decoder reports them, and a fully initialized row-major RGB
/// buffer of exactly `width * height * 3` bytes.
pub struct DecodedImage {
    pub width: usize,
    pub height: usize,
    pub rgb: Vec<u8>,
}

impl DecodedImage {
    /// The buffer holds exactly three bytes per pixel.
    pub open spec fn wf(&self) -> bool {
        self.rgb@.len() == self.width * self.height * 3
    }
}

/// The metadata half of an encoded unit, retained while its pixel payload is
/// in flight inside the codec: timestamp, flag bits, and the opaque source
/// tag that carries provenance for downstream consumers.
pub struct PendingEntry<S> {
    pub timestamp: u64,
    pub flags: FrameFlags,
    pub source: S,
}

/// One encoded input unit: a timestamp (monotonic across the stream), flag
/// bits, a source tag, and one or more raw byte chunks that together hold
/// one coded picture.
pub struct EncodedUnit<S> {
    pub timestamp: u64,
    pub flags: FrameFlags,
    pub source: S,
    pub chunks: Vec<Vec<u8>>,
}

impl<S> EncodedUnit<S> {
    /// The metadata half of this unit, as the reassociation heap retains it.
    pub open spec fn entry(&self) -> PendingEntry<S> {
        PendingEntry { timestamp: self.timestamp, flags: self.flags, source: self.source }
    }
}

/// A finished decoded frame: pixel data in planar RGB (three bytes per
/// pixel), the dimensions the codec reported, and the timing metadata
/// recovered from the reassociation heap.
pub struct DecodedFrame<S> {
    pub timestamp: u64,
    pub data: Vec<u8>,
    pub width: u16,
    pub height: u16,
    pub flags: FrameFlags,
    pub source: S,
}

impl<S> DecodedFrame<S> {
    /// Timestamp when the frame should appear, from the start of the stream.
    pub fn timestamp(&self) -> (r: u64)
        ensures
            r == self.timestamp,
    {
        self.timestamp
    }

    /// Width and height in pixels.
    pub fn dimensions(&self) -> (r: (u16, u16))
        ensures
            r.0 == self.width,
            r.1 == self.height,
    {
        (self.width, self.height)
    }

    /// The frame's flag bits.
    pub fn flags(&self) -> (r: FrameFlags)
        ensures
            r == self.flags,
    {
        self.flags
    }

    /// The source tag recovered for this frame.
    pub fn source(&self) -> (r: &S)
        ensures
            r == self.source,
    {
        &self.source
    }

    /// Four-character code of the payload: packed 24-bit RGB.
    pub fn codec(&self) -> (r: [u8; 4])
        ensures
            r@ == seq![82u8, 71u8, 50u8, 52u8],
    {
        [82u8, 71u8, 50u8, 52u8]
    }

    /// Bits per pixel component.
    pub fn bit_depth(&self) -> (r: u8)
        ensures
            r == 8u8,
    {
        8
    }

    /// The frame's single chunk of pixel data.
    pub fn chunks(&self) -> (r: &Vec<u8>)
        ensures
            r@ == self.data@,
    {
        &self.data
    }

    /// Consumes the frame, handing out its pixel data.
    pub fn into_chunks(self) -> (r: Vec<u8>)
        ensures
            r@ == self.data@,
    {
        self.data
    }
}

/// Pairs one decoded picture with the metadata popped from the reassociation
/// heap. When the heap was empty at pop time (`in_entry` is `None`) the frame
/// falls back to a zero timestamp, the caller-supplied fallback source tag,
/// and plain video-stream flags: an explicit degraded-output policy, not a
/// failure. In every case the bits marking an encoded or Annex-B payload are
/// cleared, since the payload is now raw RGB.
pub fn make_frame<S>(in_entry: Option<PendingEntry<S>>, img: DecodedImage, fallback_source: S) -> (
    f: DecodedFrame<S>)
    requires
        img.wf(),
    ensures
        in_entry matches Some(e) ==> f.timestamp == e.timestamp && f.source == e.source
            && f.flags.bits == e.flags.bits & !(FLAG_ENCODED | FLAG_ANNEXB),
        in_entry is None ==> f.timestamp == 0 && f.source == fallback_source && f.flags.bits
            == FLAG_VIDEO_STREAM & !(FLAG_ENCODED | FLAG_ANNEXB),
        f.width == img.width as u16,
        f.height == img.height as u16,
        f.data@ == img.rgb@,
        f.data@.len() == img.width * img.height * 3,
        img.width <= u16::MAX && img.height <= u16::MAX ==> f.data@.len() == f.width as int
            * f.height as int * 3,
{
    let (timestamp, mut flags, source): (u64, FrameFlags, S) = match in_entry {
        Some(e) => (e.timestamp, e.flags, e.source),
        None => (0, FrameFlags { bits: FLAG_VIDEO_STREAM }, fallback_source),
    };
    flags.clear(FLAG_ENCODED | FLAG_ANNEXB);
    DecodedFrame {
        timestamp,
        width: img.width as u16,
        height: img.height as u16,
        data: img.rgb,
        flags,
        source,
    }
}

} // verus!
