use std::io::Read;
use std::io::Write;

use unpack_engine::codec::decode_layers;
use unpack_engine::codec::encode_layers;
use unpack_engine::format::LayerFormat;

fn sample() -> Vec<u8> {
    let mut data = Vec::new();
    for i in 0..4096u32 {
        data.push((i % 251) as u8);
    }
    data.extend_from_slice(b"the decoded chain must reproduce the original bytes exactly");
    data
}

fn roundtrip(layers: Vec<LayerFormat>) {
    let data = sample();
    let encoded = encode_layers(&layers, data.clone()).unwrap();
    let decoded = decode_layers(&layers, encoded).unwrap();
    assert_eq!(decoded, data);
}

#[test]
fn gzip_roundtrip() {
    roundtrip(vec![LayerFormat::Gzip]);
}

#[test]
fn bzip_roundtrip() {
    roundtrip(vec![LayerFormat::Bzip]);
}

#[test]
fn lz4_roundtrip() {
    roundtrip(vec![LayerFormat::Lz4]);
}

#[test]
fn lzma_roundtrip() {
    roundtrip(vec![LayerFormat::Lzma]);
}

#[test]
fn snappy_roundtrip() {
    roundtrip(vec![LayerFormat::Snappy]);
}

#[test]
fn zstd_roundtrip() {
    roundtrip(vec![LayerFormat::Zstd]);
}

#[test]
fn six_layer_chain_roundtrip() {
    roundtrip(vec![
        LayerFormat::Gzip,
        LayerFormat::Bzip,
        LayerFormat::Lz4,
        LayerFormat::Lzma,
        LayerFormat::Snappy,
        LayerFormat::Zstd,
    ]);
}

#[test]
fn empty_chain_roundtrip_is_identity() {
    let layers: Vec<LayerFormat> = vec![];
    let data = sample();
    assert_eq!(encode_layers(&layers, data.clone()).unwrap(), data);
    assert_eq!(decode_layers(&layers, data.clone()).unwrap(), data);
}

#[test]
fn gzip_decode_matches_direct_encoder() {
    let data = sample();
    let mut enc = flate2::read::GzEncoder::new(data.as_slice(), flate2::Compression::default());
    let mut encoded = Vec::new();
    enc.read_to_end(&mut encoded).unwrap();
    assert_ne!(encoded, data);
    let decoded = decode_layers(&vec![LayerFormat::Gzip], encoded).unwrap();
    assert_eq!(decoded, data);
}

#[test]
fn gzip_encode_matches_direct_decoder() {
    let data = sample();
    let encoded = encode_layers(&vec![LayerFormat::Gzip], data.clone()).unwrap();
    assert_ne!(encoded, data);
    let mut dec = flate2::read::GzDecoder::new(encoded.as_slice());
    let mut decoded = Vec::new();
    dec.read_to_end(&mut decoded).unwrap();
    assert_eq!(decoded, data);
}

#[test]
fn bzip_decode_matches_direct_encoder() {
    let data = sample();
    let mut enc = bzip2::read::BzEncoder::new(data.as_slice(), bzip2::Compression::new(6));
    let mut encoded = Vec::new();
    enc.read_to_end(&mut encoded).unwrap();
    let decoded = decode_layers(&vec![LayerFormat::Bzip], encoded).unwrap();
    assert_eq!(decoded, data);
}

#[test]
fn bzip_encode_matches_direct_decoder() {
    let data = sample();
    let encoded = encode_layers(&vec![LayerFormat::Bzip], data.clone()).unwrap();
    let mut dec = bzip2::read::BzDecoder::new(encoded.as_slice());
    let mut decoded = Vec::new();
    dec.read_to_end(&mut decoded).unwrap();
    assert_eq!(decoded, data);
}

#[test]
fn lz4_decode_matches_direct_encoder() {
    let data = sample();
    let mut enc = lz4_flex::frame::FrameEncoder::new(Vec::new());
    enc.write_all(&data).unwrap();
    let encoded = enc.finish().unwrap();
    let decoded = decode_layers(&vec![LayerFormat::Lz4], encoded).unwrap();
    assert_eq!(decoded, data);
}

#[test]
fn lz4_encode_matches_direct_decoder() {
    let data = sample();
    let encoded = encode_layers(&vec![LayerFormat::Lz4], data.clone()).unwrap();
    let mut dec = lz4_flex::frame::FrameDecoder::new(encoded.as_slice());
    let mut decoded = Vec::new();
    dec.read_to_end(&mut decoded).unwrap();
    assert_eq!(decoded, data);
}

#[test]
fn lzma_decode_matches_direct_encoder() {
    let data = sample();
    let mut enc = xz2::read::XzEncoder::new(data.as_slice(), 6);
    let mut encoded = Vec::new();
    enc.read_to_end(&mut encoded).unwrap();
    let decoded = decode_layers(&vec![LayerFormat::Lzma], encoded).unwrap();
    assert_eq!(decoded, data);
}

#[test]
fn lzma_encode_matches_direct_decoder() {
    let data = sample();
    let encoded = encode_layers(&vec![LayerFormat::Lzma], data.clone()).unwrap();
    let mut dec = xz2::read::XzDecoder::new(encoded.as_slice());
    let mut decoded = Vec::new();
    dec.read_to_end(&mut decoded).unwrap();
    assert_eq!(decoded, data);
}

#[test]
fn snappy_decode_matches_direct_encoder() {
    let data = sample();
    let mut enc = snap::read::FrameEncoder::new(data.as_slice());
    let mut encoded = Vec::new();
    enc.read_to_end(&mut encoded).unwrap();
    let decoded = decode_layers(&vec![LayerFormat::Snappy], encoded).unwrap();
    assert_eq!(decoded, data);
}

#[test]
fn snappy_encode_matches_direct_decoder() {
    let data = sample();
    let encoded = encode_layers(&vec![LayerFormat::Snappy], data.clone()).unwrap();
    let mut dec = snap::read::FrameDecoder::new(encoded.as_slice());
    let mut decoded = Vec::new();
    dec.read_to_end(&mut decoded).unwrap();
    assert_eq!(decoded, data);
}

#[test]
fn zstd_decode_matches_direct_encoder() {
    let data = sample();
    let encoded = zstd::stream::encode_all(data.as_slice(), 0).unwrap();
    let decoded = decode_layers(&vec![LayerFormat::Zstd], encoded).unwrap();
    assert_eq!(decoded, data);
}

#[test]
fn zstd_encode_matches_direct_decoder() {
    let data = sample();
    let encoded = encode_layers(&vec![LayerFormat::Zstd], data.clone()).unwrap();
    let decoded = zstd::stream::decode_all(encoded.as_slice()).unwrap();
    assert_eq!(decoded, data);
}

#[test]
fn malformed_stream_names_the_offending_format() {
    let garbage = vec![0u8, 1, 2, 3, 4, 5, 6, 7];
    let e = decode_layers(&vec![LayerFormat::Gzip], garbage).unwrap_err();
    assert_eq!(e.format, LayerFormat::Gzip);
}

#[test]
fn failure_in_an_inner_layer_names_that_layer() {
    // a valid zstd stream whose payload is not a gzip stream: the outer
    // layer decodes, the inner one is the first to fail
    let not_gzip = b"plainly not a gzip stream".to_vec();
    let outer = zstd::stream::encode_all(not_gzip.as_slice(), 0).unwrap();
    let e = decode_layers(&vec![LayerFormat::Zstd, LayerFormat::Gzip], outer).unwrap_err();
    assert_eq!(e.format, LayerFormat::Gzip);
}
