//! Gzip compression of stored content, and its base64 text form.
//!
//! The gzip streams come from `flate2` and the base64 text from `base64`'s
//! standard alphabet with padding; both are named here and never rebuilt.

use vstd::prelude::*;
use vstd::utf8::{decode_utf8, encode_utf8, valid_utf8};
use std::io::Read;
use std::io::Write;
use crate::error::AppError;
use crate::error::error_detail;

verus! {

/// What compressing `data` into a gzip stream with `flate2`'s `GzEncoder`
/// at the default level gives: the stream, or the text of the I/O error.
pub uninterp spec fn gzip_outcome(data: Seq<u8>) -> Result<Seq<u8>, Seq<char>>;

/// What reading `data` through `flate2`'s `GzDecoder` to its end gives: the
/// decompressed bytes, or the text of the I/O error.
pub uninterp spec fn gunzip_outcome(data: Seq<u8>) -> Result<Seq<u8>, Seq<char>>;

/// The character of the standard base64 alphabet for a six-bit value:
/// `A`-`Z`, `a`-`z`, `0`-`9`, `+`, `/`.
pub open spec fn base64_digit(v: int) -> char {
    if v < 26 {
        (65 + v) as char
    } else if v < 52 {
        (97 + (v - 26)) as char
    } else if v < 62 {
        (48 + (v - 52)) as char
    } else if v == 62 {
        '+'
    } else {
        '/'
    }
}

/// The base64 text of `data` (RFC 4648, standard alphabet, `=` padding):
/// each group of three bytes as four digits of six bits each, a final group
/// of one or two bytes padded with `=` to four characters.
pub open spec fn base64_text(data: Seq<u8>) -> Seq<char>
    decreases data.len(),
{
    if data.len() == 0 {
        seq![]
    } else if data.len() == 1 {
        seq![base64_digit((data[0] as int) / 4), base64_digit(((data[0] as int) % 4) * 16), '=', '=']
    } else if data.len() == 2 {
        seq![
            base64_digit((data[0] as int) / 4),
            base64_digit(((data[0] as int) % 4) * 16 + (data[1] as int) / 16),
            base64_digit(((data[1] as int) % 16) * 4),
            '=',
        ]
    } else {
        seq![
            base64_digit((data[0] as int) / 4),
            base64_digit(((data[0] as int) % 4) * 16 + (data[1] as int) / 16),
            base64_digit(((data[1] as int) % 16) * 4 + (data[2] as int) / 64),
            base64_digit((data[2] as int) % 64),
        ] + base64_text(data.skip(3))
    }
}

/// What decoding `text` as standard, padded base64 gives: the bytes, or the
/// text of the decode error.
pub uninterp spec fn base64_outcome(text: Seq<char>) -> Result<Seq<u8>, Seq<char>>;

/// The outcome `o` is success with the bytes `bytes`.
pub open spec fn yields(o: Result<Seq<u8>, Seq<char>>, bytes: Seq<u8>) -> bool {
    o == Ok::<Seq<u8>, Seq<char>>(bytes)
}

/// The outcome `o` is failure with the text `text`.
pub open spec fn fails_with(o: Result<Seq<u8>, Seq<char>>, text: Seq<char>) -> bool {
    o == Err::<Seq<u8>, Seq<char>>(text)
}

/// The bytes or the error text that a result carries.
pub open spec fn bytes_outcome(r: Result<Vec<u8>, String>) -> Result<Seq<u8>, Seq<char>> {
    match r {
        Ok(v) => Ok(v@),
        Err(m) => Err(m@),
    }
}

/// Writes `data` into a `flate2::write::GzEncoder` over a `Vec` at
/// `Compression::default()` and finishes the stream. The claim: the result is
/// `gzip_outcome(data)`; the encoder writes a fixed header (no time stamp, no
/// file name), so the stream depends on the bytes alone.
#[verifier::external_body]
fn gzip(data: &[u8]) -> (r: Result<Vec<u8>, String>)
    ensures
        bytes_outcome(r) == gzip_outcome(data@),
{
    let mut encoder = flate2::write::GzEncoder::new(Vec::new(), flate2::Compression::default());
    encoder.write_all(data).and_then(|_| encoder.finish()).map_err(|e| e.to_string())
}

/// Reads `data` through a `flate2::read::GzDecoder` to its end. The claims:
/// the result is `gunzip_outcome(data)`, and a stream that the encoder made
/// from some bytes decodes to exactly those bytes.
#[verifier::external_body]
fn gunzip(data: &[u8]) -> (r: Result<Vec<u8>, String>)
    ensures
        bytes_outcome(r) == gunzip_outcome(data@),
        forall|x: Seq<u8>| #[trigger] yields(gzip_outcome(x), data@) ==> yields(bytes_outcome(r), x),
{
    let mut decoder = flate2::read::GzDecoder::new(data);
    let mut out: Vec<u8> = Vec::new();
    decoder.read_to_end(&mut out).map(|_| out).map_err(|e| e.to_string())
}

/// Calls `base64::encode` (the standard engine: the RFC 4648 alphabet with
/// `=` padding). The claim: the result is `base64_text(data)`.
#[verifier::external_body]
#[allow(deprecated)]
fn base64_encode(data: &[u8]) -> (r: String)
    ensures
        r@ == base64_text(data@),
{
    base64::encode(data)
}

/// Calls `base64::decode` (the standard engine, padded). The claims: the
/// result is `base64_outcome(text)`, an error carried as its `Display` text,
/// and the text that `base64::encode` made from some bytes decodes to them.
#[verifier::external_body]
#[allow(deprecated)]
fn base64_decode(text: &str) -> (r: Result<Vec<u8>, String>)
    ensures
        bytes_outcome(r) == base64_outcome(text@),
        forall|x: Seq<u8>| #[trigger] base64_text(x) == text@ ==> yields(bytes_outcome(r), x),
{
    base64::decode(text).map_err(|e| e.to_string())
}

/// Compresses `data` into a gzip stream; an I/O failure of the encoder
/// becomes `AppError::Io` with its text.
pub fn compress(data: &[u8]) -> (r: Result<Vec<u8>, AppError>)
    ensures
        match r {
            Ok(v) => yields(gzip_outcome(data@), v@),
            Err(e) => e is Io && fails_with(gzip_outcome(data@), error_detail(e)),
        },
{
    match gzip(data) {
        Ok(v) => Ok(v),
        Err(m) => Err(AppError::Io(m)),
    }
}

/// Decompresses a gzip stream; a stream that cannot be read becomes
/// `AppError::Io` with the decoder's text. What `compress` made from some
/// bytes comes back as exactly those bytes.
pub fn decompress(data: &[u8]) -> (r: Result<Vec<u8>, AppError>)
    ensures
        match r {
            Ok(v) => yields(gunzip_outcome(data@), v@),
            Err(e) => e is Io && fails_with(gunzip_outcome(data@), error_detail(e)),
        },
        forall|x: Seq<u8>| #[trigger] yields(gzip_outcome(x), data@) ==> (r matches Ok(v) && v@ == x),
{
    match gunzip(data) {
        Ok(v) => Ok(v),
        Err(m) => Err(AppError::Io(m)),
    }
}

/// Compresses `data` and gives the base64 text of the gzip stream.
pub fn compress_and_encode(data: &[u8]) -> (r: Result<String, AppError>)
    ensures
        match r {
            Ok(s) => gzip_outcome(data@) matches Ok(c) && s@ == base64_text(c),
            Err(e) => e is Io && fails_with(gzip_outcome(data@), error_detail(e)),
        },
{
    match compress(data) {
        Ok(compressed) => Ok(base64_encode(compressed.as_slice())),
        Err(e) => Err(e),
    }
}

/// Decodes base64 text and decompresses the gzip stream it holds. Text that
/// is not valid base64 becomes `AppError::Serialization` with the decoder's
/// text; a stream that cannot be read becomes `AppError::Io`. What
/// `compress_and_encode` made from some bytes comes back as those bytes.
pub fn decode_and_decompress(encoded: &str) -> (r: Result<Vec<u8>, AppError>)
    ensures
        match r {
            Ok(v) => base64_outcome(encoded@) matches Ok(b) && yields(gunzip_outcome(b), v@),
            Err(e) => {
                ||| e is Serialization && fails_with(base64_outcome(encoded@), error_detail(e))
                ||| e is Io && (base64_outcome(encoded@) matches Ok(b) && fails_with(
                    gunzip_outcome(b),
                    error_detail(e),
                ))
            },
        },
        forall|x: Seq<u8>, c: Seq<u8>|
            #![trigger yields(gzip_outcome(x), c), base64_text(c)]
            yields(gzip_outcome(x), c) && base64_text(c) == encoded@ ==> (r matches Ok(v) && v@ == x),
{
    let decoded = match base64_decode(encoded) {
        Ok(d) => d,
        Err(m) => {
            return Err(AppError::Serialization(m));
        },
    };
    decompress(decoded.as_slice())
}

/// Reads bytes as UTF-8 text with `String::from_utf8`. The claim, from its
/// documentation: it succeeds exactly on valid UTF-8, giving the characters
/// the bytes encode; the error is carried as its `Display` text, whose words
/// are not stated.
#[verifier::external_body]
fn utf8_string(bytes: Vec<u8>) -> (r: Result<String, String>)
    ensures
        match r {
            Ok(s) => valid_utf8(bytes@) && s@ == decode_utf8(bytes@),
            Err(_) => !valid_utf8(bytes@),
        },
{
    String::from_utf8(bytes).map_err(|e| e.to_string())
}

/// `r` is what reading the stored text `data` gives: the gzip stream is
/// read as in `decompress`, and its bytes must be UTF-8, else the result is
/// `AppError::FileError`.
pub open spec fn read_text_result(r: Result<String, AppError>, data: Seq<u8>) -> bool {
    match r {
        Ok(s) => gunzip_outcome(data) matches Ok(b) && valid_utf8(b) && s@ == decode_utf8(b),
        Err(e) => {
            ||| e is Io && fails_with(gunzip_outcome(data), error_detail(e))
            ||| e is FileError && (gunzip_outcome(data) matches Ok(b) && !valid_utf8(b))
        },
    }
}

/// Decompresses stored text. Text whose UTF-8 bytes were compressed comes
/// back as that text.
pub fn decompress_text(data: &[u8]) -> (r: Result<String, AppError>)
    ensures
        read_text_result(r, data@),
        forall|t: Seq<char>|
            #[trigger] yields(gzip_outcome(encode_utf8(t)), data@) ==> (r matches Ok(s) && s@ == t),
{
    broadcast use vstd::utf8::encode_utf8_valid_utf8, vstd::utf8::encode_utf8_decode_utf8;

    let bytes = match decompress(data) {
        Ok(b) => b,
        Err(e) => {
            return Err(e);
        },
    };
    match utf8_string(bytes) {
        Ok(s) => Ok(s),
        Err(m) => Err(AppError::FileError(m)),
    }
}

/// Reads text that may not have been stored: no content reads as empty
/// text, stored content as `decompress_text` reads it.
pub fn decompress_optional_text(content: Option<&[u8]>) -> (r: Result<String, AppError>)
    ensures
        match content {
            Some(data) => read_text_result(r, data@) && forall|t: Seq<char>|
                #[trigger] yields(gzip_outcome(encode_utf8(t)), data@) ==> (r matches Ok(s) && s@
                    == t),
            None => r matches Ok(s) && s@.len() == 0,
        },
{
    match content {
        Some(data) => decompress_text(data),
        None => Ok(String::new()),
    }
}

} // verus!
