//! The brotli encoding in which guest components travel from the server to
//! the portal.
use vstd::prelude::*;

verus! {

/// What the brotli decoder yields for `compressed`: the decoded bytes, or
/// `None` where the input is not a complete, valid brotli stream.
pub uninterp spec fn brotli_decoded(compressed: Seq<u8>) -> Option<Seq<u8>>;

/// The brotli stream that the encoder, with its default parameters, makes
/// of `content`.
pub uninterp spec fn brotli_encoded(content: Seq<u8>) -> Seq<u8>;

/// Decodes a brotli stream.
///
/// Trusted: reads a `brotli::Decompressor` over `compressed` (with a
/// 4096-byte buffer) to its end. The contract claims only that the outcome is
/// the one named by [`brotli_decoded`] for these bytes; how brotli decodes
/// is not stated.
#[verifier::external_body]
fn brotli_decompress(compressed: &[u8]) -> (res: Option<Vec<u8>>)
    ensures
        match res {
            Some(v) => brotli_decoded(compressed@) == Some(v@),
            None => brotli_decoded(compressed@) is None,
        },
{
    let mut out = Vec::new();
    match std::io::Read::read_to_end(&mut brotli::Decompressor::new(compressed, 4096), &mut out) {
        Ok(_) => Some(out),
        Err(_) => None,
    }
}

/// Encodes bytes as a brotli stream.
///
/// Trusted: writes `content` into a `brotli::CompressorWriter` made with the
/// default `BrotliEncoderParams` (and a 4096-byte buffer) over an empty
/// vector, and takes the vector back with `into_inner`, which finishes the
/// stream. Writing into a vector cannot fail and a fresh encoder accepts the
/// input, so the result of `write_all` carries no error to report. The
/// contract claims that the stream is the one named by [`brotli_encoded`]
/// and that brotli is lossless: decoding it gives `content` back.
#[verifier::external_body]
fn brotli_compress(content: &[u8]) -> (res: Vec<u8>)
    ensures
        res@ == brotli_encoded(content@),
        brotli_decoded(res@) == Some(content@),
{
    let params = brotli::enc::BrotliEncoderParams::default();
    let mut writer = brotli::CompressorWriter::with_params(Vec::new(), 4096, &params);
    let _ = std::io::Write::write_all(&mut writer, content);
    writer.into_inner()
}

/// Why a received component could not be decoded.
#[derive(Clone, Copy, Debug, PartialEq, Eq, Structural)]
pub enum CodecError {
    /// The received bytes are not a valid brotli stream.
    InvalidStream,
}

/// Decodes a received component: its bytes, or [`CodecError::InvalidStream`]
/// exactly when the input is not a valid brotli stream.
pub fn decompress_wasm(compressed: &[u8]) -> (res: Result<Vec<u8>, CodecError>)
    ensures
        match res {
            Ok(v) => brotli_decoded(compressed@) == Some(v@),
            Err(e) => e == CodecError::InvalidStream && brotli_decoded(compressed@) is None,
        },
{
    match brotli_decompress(compressed) {
        Some(v) => Ok(v),
        None => Err(CodecError::InvalidStream),
    }
}

/// Encodes a component for sending: the brotli stream of the content,
/// which decodes back to the content.
pub fn compress_wasm(content: &[u8]) -> (res: Vec<u8>)
    ensures
        res@ == brotli_encoded(content@),
        brotli_decoded(res@) == Some(content@),
{
    brotli_compress(content)
}

} // verus!
