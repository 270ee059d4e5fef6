//! Decoding and encoding of pure compression layers over byte buffers.
//!
//! A transform chain's layerable prefix is written outermost first, so
//! decoding applies the first layer first and encoding applies it last. The
//! per-format work is done by outside codec crates behind trusted wrappers;
//! what each one returns is a function of its input bytes alone, so the
//! results carry uninterpreted names that the chain contracts compose.

use crate::format::LayerFormat;
use vstd::prelude::*;

verus! {

pub uninterp spec fn gzip_decoded(s: Seq<u8>) -> Option<Seq<u8>>;

pub uninterp spec fn gzip_encoded(s: Seq<u8>) -> Seq<u8>;

pub uninterp spec fn bzip_decoded(s: Seq<u8>) -> Option<Seq<u8>>;

pub uninterp spec fn bzip_encoded(s: Seq<u8>) -> Seq<u8>;

pub uninterp spec fn lz4_decoded(s: Seq<u8>) -> Option<Seq<u8>>;

pub uninterp spec fn lz4_encoded(s: Seq<u8>) -> Seq<u8>;

pub uninterp spec fn lzma_decoded(s: Seq<u8>) -> Option<Seq<u8>>;

pub uninterp spec fn lzma_encoded(s: Seq<u8>) -> Seq<u8>;

pub uninterp spec fn snappy_decoded(s: Seq<u8>) -> Option<Seq<u8>>;

pub uninterp spec fn snappy_encoded(s: Seq<u8>) -> Seq<u8>;

pub uninterp spec fn zstd_decoded(s: Seq<u8>) -> Option<Seq<u8>>;

pub uninterp spec fn zstd_encoded(s: Seq<u8>) -> Seq<u8>;

/// What decoding one layer yields: the decoded bytes, or nothing when the
/// input is not a well-formed stream of that format.
pub open spec fn layer_decoded(f: LayerFormat, s: Seq<u8>) -> Option<Seq<u8>> {
    match f {
        LayerFormat::Gzip => gzip_decoded(s),
        LayerFormat::Bzip => bzip_decoded(s),
        LayerFormat::Lz4 => lz4_decoded(s),
        LayerFormat::Lzma => lzma_decoded(s),
        LayerFormat::Snappy => snappy_decoded(s),
        LayerFormat::Zstd => zstd_decoded(s),
    }
}

/// What encoding one layer yields.
pub open spec fn layer_encoded(f: LayerFormat, s: Seq<u8>) -> Seq<u8> {
    match f {
        LayerFormat::Gzip => gzip_encoded(s),
        LayerFormat::Bzip => bzip_encoded(s),
        LayerFormat::Lz4 => lz4_encoded(s),
        LayerFormat::Lzma => lzma_encoded(s),
        LayerFormat::Snappy => snappy_encoded(s),
        LayerFormat::Zstd => zstd_encoded(s),
    }
}

/// Decoding a whole chain, outermost layer first: the result of stripping
/// every layer in order, or nothing as soon as one layer fails.
pub open spec fn decode_chain(layers: Seq<LayerFormat>, s: Seq<u8>) -> Option<Seq<u8>>
    decreases layers.len(),
{
    if layers.len() == 0 {
        Some(s)
    } else {
        match layer_decoded(layers[0], s) {
            Some(t) => decode_chain(layers.drop_first(), t),
            None => None,
        }
    }
}

/// Encoding a whole chain: the innermost (last) layer is applied first, so
/// the first layer of the chain ends up outermost.
pub open spec fn encode_chain(layers: Seq<LayerFormat>, s: Seq<u8>) -> Seq<u8>
    decreases layers.len(),
{
    if layers.len() == 0 {
        s
    } else {
        layer_encoded(layers[0], encode_chain(layers.drop_first(), s))
    }
}

/// `f` is the first layer of the chain whose decoding fails on its input.
pub open spec fn is_failing_layer(layers: Seq<LayerFormat>, s: Seq<u8>, f: LayerFormat) -> bool
    decreases layers.len(),
{
    layers.len() > 0 && match layer_decoded(layers[0], s) {
        Some(t) => is_failing_layer(layers.drop_first(), t, f),
        None => f == layers[0],
    }
}

/// For any chain in which every layer's decoder inverts its encoder — the
/// fact each codec wrapper states of its own calls — decoding the encoded
/// chain reproduces the original bytes exactly, whatever the layers and
/// their order.
pub proof fn lemma_chain_roundtrip(layers: Seq<LayerFormat>, data: Seq<u8>)
    requires
        forall|f: LayerFormat, s: Seq<u8>| #[trigger] layer_decoded(f, layer_encoded(f, s))
            == Some(s),
    ensures
        decode_chain(layers, encode_chain(layers, data)) == Some(data),
    decreases layers.len(),
{
    if layers.len() > 0 {
        lemma_chain_roundtrip(layers.drop_first(), data);
    }
}

/// A chain decode that failed, naming the offending layer format.
#[derive(Clone, Copy, Debug, PartialEq, Eq, Structural)]
pub struct DecodeError {
    pub format: LayerFormat,
}

/// A chain encode that failed, naming the offending layer format.
#[derive(Clone, Copy, Debug, PartialEq, Eq, Structural)]
pub struct EncodeError {
    pub format: LayerFormat,
}

/// Relies on flate2's `read::GzDecoder`: decoding a gzip stream is a
/// function of the input bytes alone, and fails exactly on malformed input.
#[verifier::external_body]
fn gzip_decode(b: &Vec<u8>) -> (r: Option<Vec<u8>>)
    ensures
        match r {
            Some(v) => gzip_decoded(b@) == Some(v@),
            None => gzip_decoded(b@) is None,
        },
{
    let mut d = flate2::read::GzDecoder::new(b.as_slice());
    let mut out = Vec::new();
    match std::io::Read::read_to_end(&mut d, &mut out) {
        Ok(_) => Some(out),
        Err(_) => None,
    }
}

/// Relies on flate2's `read::GzEncoder` at the default level: its gzip
/// header is fixed (zero timestamp, fixed system byte), so the stream is a
/// function of the input bytes alone, and `read::GzDecoder` inverts it.
#[verifier::external_body]
fn gzip_encode(b: &Vec<u8>) -> (r: Option<Vec<u8>>)
    ensures
        r matches Some(v) ==> v@ == gzip_encoded(b@) && gzip_decoded(v@) == Some(b@),
{
    let mut e = flate2::read::GzEncoder::new(b.as_slice(), flate2::Compression::default());
    let mut out = Vec::new();
    match std::io::Read::read_to_end(&mut e, &mut out) {
        Ok(_) => Some(out),
        Err(_) => None,
    }
}

/// Relies on bzip2's `read::BzDecoder`: decoding a bzip2 stream is a
/// function of the input bytes alone, and fails exactly on malformed input.
#[verifier::external_body]
fn bzip_decode(b: &Vec<u8>) -> (r: Option<Vec<u8>>)
    ensures
        match r {
            Some(v) => bzip_decoded(b@) == Some(v@),
            None => bzip_decoded(b@) is None,
        },
{
    let mut d = bzip2::read::BzDecoder::new(b.as_slice());
    let mut out = Vec::new();
    match std::io::Read::read_to_end(&mut d, &mut out) {
        Ok(_) => Some(out),
        Err(_) => None,
    }
}

/// Relies on bzip2's `read::BzEncoder` at a fixed level: the stream is a
/// function of the input bytes alone, and `read::BzDecoder` inverts it.
#[verifier::external_body]
fn bzip_encode(b: &Vec<u8>) -> (r: Option<Vec<u8>>)
    ensures
        r matches Some(v) ==> v@ == bzip_encoded(b@) && bzip_decoded(v@) == Some(b@),
{
    let mut e = bzip2::read::BzEncoder::new(b.as_slice(), bzip2::Compression::new(6));
    let mut out = Vec::new();
    match std::io::Read::read_to_end(&mut e, &mut out) {
        Ok(_) => Some(out),
        Err(_) => None,
    }
}

/// Relies on lz4_flex's `frame::FrameDecoder`: decoding an lz4 frame is a
/// function of the input bytes alone, and fails exactly on malformed input.
#[verifier::external_body]
fn lz4_decode(b: &Vec<u8>) -> (r: Option<Vec<u8>>)
    ensures
        match r {
            Some(v) => lz4_decoded(b@) == Some(v@),
            None => lz4_decoded(b@) is None,
        },
{
    let mut d = lz4_flex::frame::FrameDecoder::new(b.as_slice());
    let mut out = Vec::new();
    match std::io::Read::read_to_end(&mut d, &mut out) {
        Ok(_) => Some(out),
        Err(_) => None,
    }
}

/// Relies on lz4_flex's `frame::FrameEncoder` with default settings: the
/// frame is a function of the input bytes alone, and `frame::FrameDecoder`
/// inverts it.
#[verifier::external_body]
fn lz4_encode(b: &Vec<u8>) -> (r: Option<Vec<u8>>)
    ensures
        r matches Some(v) ==> v@ == lz4_encoded(b@) && lz4_decoded(v@) == Some(b@),
{
    let mut e = lz4_flex::frame::FrameEncoder::new(Vec::new());
    if std::io::Write::write_all(&mut e, b.as_slice()).is_err() {
        return None;
    }
    match e.finish() {
        Ok(v) => Some(v),
        Err(_) => None,
    }
}

/// Relies on xz2's `read::XzDecoder`: decoding an xz stream is a function of
/// the input bytes alone, and fails exactly on malformed input.
#[verifier::external_body]
fn lzma_decode(b: &Vec<u8>) -> (r: Option<Vec<u8>>)
    ensures
        match r {
            Some(v) => lzma_decoded(b@) == Some(v@),
            None => lzma_decoded(b@) is None,
        },
{
    let mut d = xz2::read::XzDecoder::new(b.as_slice());
    let mut out = Vec::new();
    match std::io::Read::read_to_end(&mut d, &mut out) {
        Ok(_) => Some(out),
        Err(_) => None,
    }
}

/// Relies on xz2's `read::XzEncoder` at a fixed level: the stream is a
/// function of the input bytes alone, and `read::XzDecoder` inverts it.
#[verifier::external_body]
fn lzma_encode(b: &Vec<u8>) -> (r: Option<Vec<u8>>)
    ensures
        r matches Some(v) ==> v@ == lzma_encoded(b@) && lzma_decoded(v@) == Some(b@),
{
    let mut e = xz2::read::XzEncoder::new(b.as_slice(), 6);
    let mut out = Vec::new();
    match std::io::Read::read_to_end(&mut e, &mut out) {
        Ok(_) => Some(out),
        Err(_) => None,
    }
}

/// Relies on snap's `read::FrameDecoder`: decoding a snappy frame is a
/// function of the input bytes alone, and fails exactly on malformed input.
#[verifier::external_body]
fn snappy_decode(b: &Vec<u8>) -> (r: Option<Vec<u8>>)
    ensures
        match r {
            Some(v) => snappy_decoded(b@) == Some(v@),
            None => snappy_decoded(b@) is None,
        },
{
    let mut d = snap::read::FrameDecoder::new(b.as_slice());
    let mut out = Vec::new();
    match std::io::Read::read_to_end(&mut d, &mut out) {
        Ok(_) => Some(out),
        Err(_) => None,
    }
}

/// Relies on snap's `read::FrameEncoder`: the frame is a function of the
/// input bytes alone, and `read::FrameDecoder` inverts it.
#[verifier::external_body]
fn snappy_encode(b: &Vec<u8>) -> (r: Option<Vec<u8>>)
    ensures
        r matches Some(v) ==> v@ == snappy_encoded(b@) && snappy_decoded(v@) == Some(b@),
{
    let mut e = snap::read::FrameEncoder::new(b.as_slice());
    let mut out = Vec::new();
    match std::io::Read::read_to_end(&mut e, &mut out) {
        Ok(_) => Some(out),
        Err(_) => None,
    }
}

/// Relies on zstd's `stream::decode_all`: decoding a zstd stream is a
/// function of the input bytes alone, and fails exactly on malformed input.
#[verifier::external_body]
fn zstd_decode(b: &Vec<u8>) -> (r: Option<Vec<u8>>)
    ensures
        match r {
            Some(v) => zstd_decoded(b@) == Some(v@),
            None => zstd_decoded(b@) is None,
        },
{
    match zstd::stream::decode_all(b.as_slice()) {
        Ok(v) => Some(v),
        Err(_) => None,
    }
}

/// Relies on zstd's `stream::encode_all` at the default level: the stream is
/// a function of the input bytes alone, and `stream::decode_all` inverts it.
#[verifier::external_body]
fn zstd_encode(b: &Vec<u8>) -> (r: Option<Vec<u8>>)
    ensures
        r matches Some(v) ==> v@ == zstd_encoded(b@) && zstd_decoded(v@) == Some(b@),
{
    match zstd::stream::encode_all(b.as_slice(), 0) {
        Ok(v) => Some(v),
        Err(_) => None,
    }
}

/// Strips one layer from the given bytes.
fn decode_layer(f: LayerFormat, data: &Vec<u8>) -> (r: Option<Vec<u8>>)
    ensures
        match r {
            Some(v) => layer_decoded(f, data@) == Some(v@),
            None => layer_decoded(f, data@) is None,
        },
{
    match f {
        LayerFormat::Gzip => gzip_decode(data),
        LayerFormat::Bzip => bzip_decode(data),
        LayerFormat::Lz4 => lz4_decode(data),
        LayerFormat::Lzma => lzma_decode(data),
        LayerFormat::Snappy => snappy_decode(data),
        LayerFormat::Zstd => zstd_decode(data),
    }
}

/// Wraps the given bytes in one layer.
fn encode_layer(f: LayerFormat, data: &Vec<u8>) -> (r: Option<Vec<u8>>)
    ensures
        r matches Some(v) ==> v@ == layer_encoded(f, data@) && layer_decoded(f, v@) == Some(
            data@,
        ),
{
    match f {
        LayerFormat::Gzip => gzip_encode(data),
        LayerFormat::Bzip => bzip_encode(data),
        LayerFormat::Lz4 => lz4_encode(data),
        LayerFormat::Lzma => lzma_encode(data),
        LayerFormat::Snappy => snappy_encode(data),
        LayerFormat::Zstd => zstd_encode(data),
    }
}

/// Strips every layer of the chain from `data`, outermost first, yielding
/// the fully decoded bytes; a failure names the first layer whose stream was
/// malformed, and surfaces no partial output.
pub fn decode_layers(layers: &Vec<LayerFormat>, data: Vec<u8>) -> (r: Result<Vec<u8>, DecodeError>)
    ensures
        match r {
            Ok(v) => decode_chain(layers@, data@) == Some(v@),
            Err(e) => decode_chain(layers@, data@) is None && is_failing_layer(
                layers@,
                data@,
                e.format,
            ),
        },
{
    let mut cur = data;
    let mut i: usize = 0;
    proof {
        assert(layers@.skip(0) =~= layers@);
    }
    while i < layers.len()
        invariant
            0 <= i <= layers@.len(),
            decode_chain(layers@, data@) == decode_chain(layers@.skip(i as int), cur@),
            forall|f: LayerFormat|
                #[trigger] is_failing_layer(layers@, data@, f) == is_failing_layer(
                    layers@.skip(i as int),
                    cur@,
                    f,
                ),
        decreases layers@.len() - i,
    {
        let f = layers[i];
        match decode_layer(f, &cur) {
            Some(v) => {
                proof {
                    assert(layers@.skip(i as int).drop_first() =~= layers@.skip(i as int + 1));
                }
                cur = v;
            },
            None => {
                proof {
                    assert(layers@.skip(i as int)[0] == layers@[i as int]);
                    assert(decode_chain(layers@.skip(i as int), cur@) is None);
                    assert(is_failing_layer(layers@.skip(i as int), cur@, f));
                }
                return Err(DecodeError { format: f });
            },
        }
        i += 1;
    }
    Ok(cur)
}

/// Wraps `data` in every layer of the chain, applying the last layer first
/// so that the chain's first layer ends up outermost; on success the result
/// both equals the encoded chain and decodes back to `data`, layer for
/// layer.
pub fn encode_layers(layers: &Vec<LayerFormat>, data: Vec<u8>) -> (r: Result<Vec<u8>, EncodeError>)
    ensures
        r matches Ok(v) ==> v@ == encode_chain(layers@, data@) && decode_chain(layers@, v@)
            == Some(data@),
{
    let mut cur = data;
    let mut i: usize = layers.len();
    while i > 0
        invariant
            0 <= i <= layers@.len(),
            cur@ == encode_chain(layers@.skip(i as int), data@),
            decode_chain(layers@.skip(i as int), cur@) == Some(data@),
        decreases i,
    {
        let f = layers[i - 1];
        match encode_layer(f, &cur) {
            Some(v) => {
                proof {
                    assert(layers@.skip(i as int - 1).drop_first() =~= layers@.skip(i as int));
                }
                cur = v;
            },
            None => {
                return Err(EncodeError { format: f });
            },
        }
        i -= 1;
    }
    proof {
        assert(layers@.skip(0) =~= layers@);
    }
    Ok(cur)
}

} // verus!
