//! The codec adapter: a thin trusted boundary around the opaque, stateful
//! native H.264 decoder. Given encoded bytes it yields zero or one decoded
//! picture per call; everything the verified logic reads of a picture is
//! carried out as plain values in a [`DecodedImage`]. The adapter keeps a
//! ghost log of the byte runs handed to the decoder, so that callers'
//! contracts can state which bytes reached the codec, how often, and in
//! what order.

use vstd::prelude::*;

use crate::frame::DecodedImage;

verus! {

#[verifier::external_type_specification]
#[verifier::external_body]
pub struct ExDecoder(openh264::decoder::Decoder);

/// Wraps the native decoder. The adapter is constructed once per worker
/// lifetime and owned exclusively by it: the decoder keeps reference-frame
/// history between calls, so no other party may touch it.
pub struct CodecAdapter {
    dec: openh264::decoder::Decoder,
    calls: Ghost<Seq<Seq<u8>>>,
}

impl CodecAdapter {
    /// Every byte run handed to the native decode call so far, in call
    /// order.
    pub closed spec fn log(&self) -> Seq<Seq<u8>> {
        self.calls@
    }

    /// Relies on openh264's `Decoder::with_api_config`, configured not to
    /// flush after decode. The decoder is built from the crate's bundled
    /// codec source (`OpenH264API::from_source`) rather than loading a
    /// shared system library. Construction may fail inside the native
    /// library; the error text is handed back. A fresh adapter has made no
    /// decode call.
    #[verifier::external_body]
    pub fn new() -> (r: Result<CodecAdapter, String>)
        ensures
            r matches Ok(c) ==> c.log() == Seq::<Seq<u8>>::empty(),
    {
        let api = openh264::OpenH264API::from_source();
        let config = openh264::decoder::DecoderConfig::new().flush_after_decode(
            openh264::decoder::Flush::NoFlush,
        );
        match openh264::decoder::Decoder::with_api_config(api, config) {
            Ok(dec) => Ok(CodecAdapter { dec, calls: Ghost(Seq::empty()) }),
            Err(e) => Err(format!("{e}")),
        }
    }

    /// Relies on openh264's `Decoder::decode`: one call consumes a series of
    /// NAL bytes and yields at most one decoded picture, or an error when the
    /// bitstream is corrupted; `None` means the codec buffered the input.
    /// Relies on `DecodedYUV::dimensions` and `DecodedYUV::write_rgb8` for
    /// the picture itself: the target buffer must hold exactly
    /// `width * height * 3` bytes and is written in full, so the image
    /// handed back is fully initialized and well-formed. The call log grows
    /// by exactly this call's bytes.
    #[verifier::external_body]
    pub(crate) fn decode(&mut self, data: &[u8]) -> (r: Result<
        Option<DecodedImage>,
        String,
    >)
        ensures
            r matches Ok(Some(img)) ==> img.wf(),
            final(self).log() == old(self).log().push(data@),
    {
        match self.dec.decode(data) {
            Ok(Some(yuv)) => {
                let (width, height) = openh264::formats::YUVSource::dimensions(&yuv);
                match width.checked_mul(height).and_then(|p| p.checked_mul(3)) {
                    Some(n) => {
                        let mut rgb = vec![0u8; n];
                        yuv.write_rgb8(&mut rgb);
                        Ok(Some(DecodedImage { width, height, rgb }))
                    },
                    None => Err(format!("picture dimensions overflow an address")),
                }
            },
            Ok(None) => Ok(None),
            Err(e) => Err(format!("{e}")),
        }
    }
}

} // verus!
