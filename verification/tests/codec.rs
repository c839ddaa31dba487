use levo::codec::{compress_wasm, decompress_wasm, CodecError};

#[test]
fn compressed_component_decodes_back() {
    let content: Vec<u8> = (0..5000u32).map(|i| (i % 251) as u8).collect();
    let packed = compress_wasm(&content);
    assert_ne!(packed, content);
    assert!(packed.len() < content.len());
    assert_eq!(decompress_wasm(&packed).unwrap(), content);
}

#[test]
fn empty_component_roundtrips() {
    let packed = compress_wasm(&[]);
    assert_eq!(decompress_wasm(&packed).unwrap(), Vec::<u8>::new());
}

#[test]
fn garbage_is_an_invalid_stream() {
    assert_eq!(decompress_wasm(&[0xff, 0xff, 0xff, 0xff]), Err(CodecError::InvalidStream));
}
