//! Byte and text codecs that several modules share: Base64 (through the
//! `base64` crate) and UTF-8 (through std).
use vstd::prelude::*;
use vstd::utf8::*;

verus! {

/// `base64::DecodeError`.
#[verifier::external_type_specification]
#[verifier::external_body]
pub struct ExDecodeError(base64::DecodeError);

/// What `base64::decode` (standard alphabet, padded) makes of the given
/// bytes: `None` where it reports an error.
pub uninterp spec fn base64_decoding(input: Seq<u8>) -> Option<Seq<u8>>;

/// The character of a 6-bit value in the standard Base64 alphabet.
pub open spec fn base64_digit(v: int) -> char {
    "ABCDEFGHIJKLMNOPQRSTUVWXYZabcdefghijklmnopqrstuvwxyz0123456789+/"@[v]
}

/// Padded standard Base64: each group of three bytes becomes four digits of
/// six bits each; a last group of one or two bytes is filled with zero bits
/// and padded with `=` to four characters.
pub open spec fn base64_encoding(input: Seq<u8>) -> Seq<char>
    decreases input.len(),
{
    if input.len() == 0 {
        seq![]
    } else if input.len() == 1 {
        let (a, b) = (input[0] as int, 0int);
        seq![base64_digit(a / 4), base64_digit((a % 4) * 16 + b / 16), '=', '=']
    } else if input.len() == 2 {
        let (a, b) = (input[0] as int, input[1] as int);
        seq![
            base64_digit(a / 4),
            base64_digit((a % 4) * 16 + b / 16),
            base64_digit((b % 16) * 4),
            '=',
        ]
    } else {
        let (a, b, c) = (input[0] as int, input[1] as int, input[2] as int);
        seq![
            base64_digit(a / 4),
            base64_digit((a % 4) * 16 + b / 16),
            base64_digit((b % 16) * 4 + c / 64),
            base64_digit(c % 64),
        ] + base64_encoding(input.skip(3))
    }
}

/// Calls `base64::decode`, which decodes padded standard Base64: it fails
/// exactly where the name says `None`, and otherwise gives the named bytes.
/// The crate adds 3 to the input length with a checked addition and panics
/// where that overflows, hence the bound.
#[verifier::external_body]
pub fn decode_base64(input: &[u8]) -> (r: Result<Vec<u8>, base64::DecodeError>)
    requires
        input@.len() + 3 <= usize::MAX,
    ensures
        r is Ok <==> base64_decoding(input@) is Some,
        r matches Ok(v) ==> Some(v@) == base64_decoding(input@),
{
    base64::decode(input)
}

/// Calls `base64::encode`, which writes padded standard Base64
/// (`base64_encoding`): four characters of the alphabet `A-Z a-z 0-9 + /` or
/// `=` for each started group of three bytes. The crate panics where that length overflows, hence the
/// bound.
#[verifier::external_body]
pub fn encode_base64(input: &[u8]) -> (r: String)
    requires
        input@.len() <= usize::MAX / 2,
    ensures
        r@ == base64_encoding(input@),
        r@.len() == 4 * ((input@.len() + 2) / 3),
        r.is_ascii(),
{
    base64::encode(input)
}

/// The `Debug` text of a Base64 decoding error (`format!("{:?}", e)`); its
/// wording is the crate's and is not stated.
#[verifier::external_body]
pub fn decode_error_text(e: &base64::DecodeError) -> String {
    format!("{:?}", e)
}

/// `std::string::FromUtf8Error`.
#[verifier::external_type_specification]
#[verifier::external_body]
pub struct ExFromUtf8Error(std::string::FromUtf8Error);

/// Calls `String::from_utf8`, which accepts exactly the valid UTF-8 byte
/// sequences and then holds the characters they encode.
#[verifier::external_body]
pub fn from_utf8(bytes: Vec<u8>) -> (r: Result<String, std::string::FromUtf8Error>)
    ensures
        r is Ok <==> valid_utf8(bytes@),
        r matches Ok(s) ==> s@ == decode_utf8(bytes@),
{
    String::from_utf8(bytes)
}

/// The `Debug` text of a UTF-8 error (`format!("{:?}", e)`); its wording is
/// std's and is not stated.
#[verifier::external_body]
pub fn utf8_error_text(e: &std::string::FromUtf8Error) -> String {
    format!("{:?}", e)
}

/// The text that UTF-8 bytes encode; `None` where they are not UTF-8.
pub fn utf8_text(bytes: Vec<u8>) -> (r: Option<String>)
    ensures
        r is Some <==> valid_utf8(bytes@),
        r matches Some(s) ==> s@ == decode_utf8(bytes@),
{
    match from_utf8(bytes) {
        Ok(s) => Some(s),
        Err(_) => None,
    }
}

} // verus!
