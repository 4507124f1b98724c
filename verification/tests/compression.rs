use base64::Engine;
use novus_writer::compression::{decompress_optional_text, decompress_text};
use novus_writer::compression::{compress, compress_and_encode, decode_and_decompress, decompress};
use novus_writer::error::AppError;

#[test]
fn test_compress_decompress() {
    let input = b"Hello, World! This is a test of compression.";
    let compressed = compress(input).unwrap();
    let decompressed = decompress(&compressed).unwrap();
    assert_eq!(input, decompressed.as_slice());
}

#[test]
fn test_compress_and_encode() {
    let input = b"Test data for encoding";
    let encoded = compress_and_encode(input).unwrap();
    let decoded = decode_and_decompress(&encoded).unwrap();
    assert_eq!(input, decoded.as_slice());
}

#[test]
fn compressed_stream_is_gzip() {
    let c = compress(b"abc").unwrap();
    assert_eq!(&c[..3], &[0x1f, 0x8b, 8]);
    assert_ne!(c.as_slice(), b"abc");
    assert_eq!(compress(b"abc").unwrap(), c);
}

#[test]
fn empty_input_round_trips() {
    let c = compress(b"").unwrap();
    assert_eq!(decompress(&c).unwrap(), Vec::<u8>::new());
}

#[test]
fn encoded_text_is_padded_base64() {
    let e = compress_and_encode(b"x").unwrap();
    assert_eq!(e.len() % 4, 0);
    assert!(e.chars().all(|c| c.is_ascii_alphanumeric() || c == '+' || c == '/' || c == '='));
}

#[test]
fn decompress_rejects_non_gzip() {
    assert!(matches!(decompress(b"not gzip at all"), Err(AppError::Io(_))));
}

#[test]
fn decode_rejects_invalid_base64() {
    assert!(matches!(decode_and_decompress("@@@@"), Err(AppError::Serialization(_))));
}

#[test]
fn decode_of_valid_base64_but_not_gzip_is_io_error() {
    // "aGVsbG8=" is base64 for "hello", which is not a gzip stream.
    assert!(matches!(decode_and_decompress("aGVsbG8="), Err(AppError::Io(_))));
}

#[test]
fn stored_text_round_trips() {
    let text = "Grüße, 世界! {\"root\": {}}";
    let stored = compress(text.as_bytes()).unwrap();
    assert_eq!(decompress_text(&stored).unwrap(), text);
    assert_eq!(decompress_optional_text(Some(stored.as_slice())).unwrap(), text);
    assert_eq!(decompress_optional_text(None).unwrap(), "");
}

#[test]
fn stored_bytes_must_be_utf8() {
    let stored = compress(&[0xff, 0xfe, 0x00]).unwrap();
    assert!(matches!(decompress_text(&stored), Err(AppError::FileError(_))));
    assert!(matches!(decompress_text(b"plain"), Err(AppError::Io(_))));
}

#[test]
fn encoded_text_is_standard_base64_of_the_stream() {
    let stream = compress(b"Man").unwrap();
    let encoded = compress_and_encode(b"Man").unwrap();
    assert_eq!(encoded, base64::engine::general_purpose::STANDARD.encode(&stream));
}
