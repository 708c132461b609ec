use vstd::prelude::*;
use vstd::utf8::{decode_utf8, encode_utf8, valid_utf8};
use encoding_rs::BIG5;

verus! {

/// The byte encodings a site may use.
#[derive(Clone, Copy, Debug, PartialEq, Eq, Structural)]
pub enum Encoding {
    Big5,
    Uao241,
    Uao250,
    Utf8,
}

impl Default for Encoding {
    fn default() -> (e: Self)
        ensures
            e == Encoding::Big5,
    {
        Encoding::Big5
    }
}

/// Every byte is below 0x80.
pub open spec fn ascii_bytes(bytes: Seq<u8>) -> bool {
    forall|i: int| 0 <= i < bytes.len() ==> bytes[i] < 0x80
}

/// Every character is below U+0080.
pub open spec fn ascii_chars(text: Seq<char>) -> bool {
    forall|i: int| 0 <= i < text.len() ==> (text[i] as u32) < 0x80
}

/// What `String::from_utf8_lossy` returns for a byte sequence.
pub uninterp spec fn utf8_lossy(bytes: Seq<u8>) -> Seq<char>;

/// What `encoding_rs::BIG5.decode` returns for a byte sequence.
pub uninterp spec fn big5_decoded(bytes: Seq<u8>) -> Seq<char>;

/// What `encoding_rs::BIG5.encode` returns for a text.
pub uninterp spec fn big5_encoded(text: Seq<char>) -> Seq<u8>;

/// Calls `String::from_utf8_lossy`. Its documentation: valid UTF-8 comes
/// back as the text it encodes; invalid sequences are replaced by U+FFFD,
/// which the contract leaves to the name.
#[verifier::external_body]
fn utf8_decode_lossy(bytes: &[u8]) -> (text: String)
    ensures
        text@ == utf8_lossy(bytes@),
        valid_utf8(bytes@) ==> text@ == decode_utf8(bytes@),
{
    String::from_utf8_lossy(bytes).into_owned()
}

/// Calls `encoding_rs::BIG5.decode` (with BOM sniffing, malformed input
/// replaced by U+FFFD). Its documentation says that an ASCII-only input is
/// returned as it is (Big5 is ASCII-compatible), which the contract states;
/// the rest of the Big5 table is left to the name. The crate panics when its
/// buffer size computation (about three bytes per input byte) overflows,
/// which the bound on the length excludes.
#[verifier::external_body]
fn big5_decode(bytes: &[u8]) -> (text: String)
    requires
        bytes@.len() <= usize::MAX / 4,
    ensures
        text@ == big5_decoded(bytes@),
        ascii_bytes(bytes@) ==> text@ == bytes@.map_values(|b: u8| b as char),
{
    let (decoded, _, _) = BIG5.decode(bytes);
    decoded.into_owned()
}

/// Calls `encoding_rs::BIG5.encode` (unmappable characters become numeric
/// character references). Its documentation says that an ASCII-only input
/// is returned as it is, which the contract states; the rest is left to the
/// name. The length bound keeps its buffer size computation from
/// overflowing.
#[verifier::external_body]
fn big5_encode(text: &str) -> (bytes: Vec<u8>)
    requires
        encode_utf8(text@).len() <= usize::MAX / 4,
    ensures
        bytes@ == big5_encoded(text@),
        ascii_chars(text@) ==> bytes@ == encode_utf8(text@),
{
    let (encoded, _, _) = BIG5.encode(text);
    encoded.into_owned()
}

/// The text that `bytes` hold in encoding `enc`. The UAO variants are
/// decoded with the Big5 table, of which they are supersets.
pub open spec fn decoded_text(bytes: Seq<u8>, enc: Encoding) -> Seq<char> {
    match enc {
        Encoding::Utf8 => utf8_lossy(bytes),
        _ => big5_decoded(bytes),
    }
}

/// The bytes of `text` in encoding `enc`.
pub open spec fn encoded_bytes(text: Seq<char>, enc: Encoding) -> Seq<u8> {
    match enc {
        Encoding::Utf8 => encode_utf8(text),
        _ => big5_encoded(text),
    }
}

/// Decodes the bytes received from a site.
pub fn decode(bytes: &[u8], enc: Encoding) -> (text: String)
    requires
        enc != Encoding::Utf8 ==> bytes@.len() <= usize::MAX / 4,
    ensures
        text@ == decoded_text(bytes@, enc),
        enc == Encoding::Utf8 && valid_utf8(bytes@) ==> text@ == decode_utf8(bytes@),
        enc != Encoding::Utf8 && ascii_bytes(bytes@) ==> text@ == bytes@.map_values(|b: u8| b as char),
{
    match enc {
        Encoding::Utf8 => utf8_decode_lossy(bytes),
        Encoding::Big5 => big5_decode(bytes),
        Encoding::Uao241 | Encoding::Uao250 => big5_decode(bytes),
    }
}

/// Encodes text to send to a site.
pub fn encode(s: &str, enc: Encoding) -> (bytes: Vec<u8>)
    requires
        enc != Encoding::Utf8 ==> encode_utf8(s@).len() <= usize::MAX / 4,
    ensures
        bytes@ == encoded_bytes(s@, enc),
        ascii_chars(s@) ==> bytes@ == encode_utf8(s@),
{
    match enc {
        Encoding::Utf8 => vstd::slice::slice_to_vec(s.as_bytes()),
        Encoding::Big5 => big5_encode(s),
        Encoding::Uao241 | Encoding::Uao250 => big5_encode(s),
    }
}

/// The UAO variants read and write text as Big5 does: for every text and
/// every byte sequence, Big5, UAO 2.41 and UAO 2.50 give the same bytes and
/// the same text, namely those of the Big5 table; only UTF-8 gives the
/// UTF-8 bytes of a text and reads bytes as UTF-8.
pub proof fn law_uao_is_big5(text: Seq<char>, bytes: Seq<u8>)
    ensures
        encoded_bytes(text, Encoding::Big5) == big5_encoded(text),
        encoded_bytes(text, Encoding::Uao241) == big5_encoded(text),
        encoded_bytes(text, Encoding::Uao250) == big5_encoded(text),
        encoded_bytes(text, Encoding::Utf8) == encode_utf8(text),
        decoded_text(bytes, Encoding::Big5) == big5_decoded(bytes),
        decoded_text(bytes, Encoding::Uao241) == big5_decoded(bytes),
        decoded_text(bytes, Encoding::Uao250) == big5_decoded(bytes),
        decoded_text(bytes, Encoding::Utf8) == utf8_lossy(bytes),
{
}

/// UTF-8 round trip: decoding what `encode` produced for UTF-8 gives back
/// the text.
pub proof fn law_utf8_round_trip(text: Seq<char>)
    ensures
        valid_utf8(encoded_bytes(text, Encoding::Utf8)),
        decode_utf8(encoded_bytes(text, Encoding::Utf8)) == text,
{
    vstd::utf8::encode_utf8_valid_utf8(text);
    vstd::utf8::encode_utf8_decode_utf8(text);
}

} // verus!
