//! Text forms of an identifier that other crates compute: plain hexadecimal
//! and the two base64 flavours.

use vstd::prelude::*;
use vstd::slice::slice_subrange;

use crate::hex_text::lower_hex;
use crate::identifier::UUID;

verus! {

/// The text that `Engine::encode` of the base64 crate gives for `data` on
/// its `URL_SAFE_NO_PAD` engine: base64 with the URL-safe alphabet and
/// without padding.
pub uninterp spec fn url_safe_base64(data: Seq<u8>) -> Seq<char>;

/// The text that `Engine::encode` of the base64 crate gives for `data` on
/// its `STANDARD` engine: base64 with the standard alphabet and with
/// padding.
pub uninterp spec fn standard_base64(data: Seq<u8>) -> Seq<char>;

/// How many characters base64 gives for `n` bytes: four for every three
/// bytes, and for one or two bytes left over either a whole group of four,
/// with padding, or two or three characters, without.
pub open spec fn encoded_len(n: nat, padding: bool) -> nat {
    let whole = 4 * (n / 3);
    if n % 3 == 0 {
        whole
    } else if padding {
        whole + 4
    } else if n % 3 == 1 {
        whole + 2
    } else {
        whole + 3
    }
}

/// Whether `c` is a letter of either case or a digit.
pub open spec fn is_letter_or_digit(c: char) -> bool {
    ('A' <= c && c <= 'Z') || ('a' <= c && c <= 'z') || ('0' <= c && c <= '9')
}

/// Whether `c` belongs to the URL-safe base64 alphabet: letters, digits,
/// `-` and `_`.
pub open spec fn is_url_safe_symbol(c: char) -> bool {
    is_letter_or_digit(c) || c == '-' || c == '_'
}

/// Whether `c` can stand in padded standard base64: letters, digits, `+`,
/// `/`, and `=` for padding.
pub open spec fn is_standard_symbol(c: char) -> bool {
    is_letter_or_digit(c) || c == '+' || c == '/' || c == '='
}

/// `hex::encode`: two lower-case hexadecimal digits for each byte of
/// `data`, the high half first, in the order of the bytes.
#[verifier::external_body]
fn encode_hex(data: &[u8]) -> (text: String)
    ensures
        text@ == lower_hex(data@),
{
    hex::encode(data)
}

/// `Engine::encode` of the base64 crate on its `URL_SAFE_NO_PAD` engine.
/// The text is a function of `data` alone, has the length that the crate's
/// `encoded_len` gives without padding, and holds only symbols of the
/// URL-safe alphabet. The crate panics where that length does not fit in a
/// `usize`, which `requires` leaves out.
#[verifier::external_body]
fn encode_url_safe(data: &[u8]) -> (text: String)
    requires
        encoded_len(data@.len(), false) <= usize::MAX,
    ensures
        text@ == url_safe_base64(data@),
        text@.len() == encoded_len(data@.len(), false),
        forall|i: int| 0 <= i < text@.len() ==> is_url_safe_symbol(#[trigger] text@[i]),
{
    base64::Engine::encode(&base64::engine::general_purpose::URL_SAFE_NO_PAD, data)
}

/// `Engine::encode` of the base64 crate on its `STANDARD` engine. The text
/// is a function of `data` alone, has the length that the crate's
/// `encoded_len` gives with padding, and holds only symbols of the standard
/// alphabet and `=`. The crate panics where that length does not fit in a
/// `usize`, which `requires` leaves out.
#[verifier::external_body]
fn encode_standard(data: &[u8]) -> (text: String)
    requires
        encoded_len(data@.len(), true) <= usize::MAX,
    ensures
        text@ == standard_base64(data@),
        text@.len() == encoded_len(data@.len(), true),
        forall|i: int| 0 <= i < text@.len() ==> is_standard_symbol(#[trigger] text@[i]),
{
    base64::Engine::encode(&base64::engine::general_purpose::STANDARD, data)
}

/// How many bytes a short form takes where `take_bytes` are asked for: that
/// many, or all sixteen where more are asked for.
pub open spec fn bytes_taken(take_bytes: usize) -> nat {
    if take_bytes <= 16 {
        take_bytes as nat
    } else {
        16
    }
}

impl UUID {
    /// The 32 lower-case hexadecimal digits of the identifier, without
    /// dashes.
    pub fn hex(&self) -> (text: String)
        ensures
            text@ == lower_hex(self@),
            text@.len() == 32,
    {
        let bytes = self.bytes();
        encode_hex(bytes.as_slice())
    }

    /// The first `take_bytes` bytes of the identifier in URL-safe base64
    /// without padding; all sixteen where `take_bytes` is more than that.
    /// Fewer bytes make a shorter text that tells fewer identifiers apart:
    /// the text stands for 8 bits for each byte taken.
    pub fn to_short_id(&self, take_bytes: usize) -> (text: String)
        ensures
            text@ == url_safe_base64(self@.take(bytes_taken(take_bytes) as int)),
            text@.len() == encoded_len(bytes_taken(take_bytes), false),
            forall|i: int| 0 <= i < text@.len() ==> is_url_safe_symbol(#[trigger] text@[i]),
    {
        let bytes = self.bytes();
        let taken = if take_bytes <= 16 {
            take_bytes
        } else {
            16
        };
        let head = slice_subrange(bytes.as_slice(), 0, taken);
        encode_url_safe(head)
    }

    /// The 16-character short form: the first 12 bytes, that is 96 bits, of
    /// the identifier. In a time-ordered identifier these are the 48 bits of
    /// the time stamp, the 6 tag bits and 42 random bits.
    pub fn short_id(&self) -> (text: String)
        ensures
            text@ == url_safe_base64(self@.take(12)),
            text@.len() == 16,
            forall|i: int| 0 <= i < text@.len() ==> is_url_safe_symbol(#[trigger] text@[i]),
    {
        self.to_short_id(12)
    }

    /// The 12-character short form: the first 9 bytes, that is 72 bits, of
    /// the identifier. In a time-ordered identifier these are the 48 bits of
    /// the time stamp, the 6 tag bits and 18 random bits.
    pub fn compact_id(&self) -> (text: String)
        ensures
            text@ == url_safe_base64(self@.take(9)),
            text@.len() == 12,
            forall|i: int| 0 <= i < text@.len() ==> is_url_safe_symbol(#[trigger] text@[i]),
    {
        self.to_short_id(9)
    }

    /// All sixteen bytes in standard base64 with padding: 24 characters.
    pub fn base64(&self) -> (text: String)
        ensures
            text@ == standard_base64(self@),
            text@.len() == 24,
            forall|i: int| 0 <= i < text@.len() ==> is_standard_symbol(#[trigger] text@[i]),
    {
        let bytes = self.bytes();
        encode_standard(bytes.as_slice())
    }
}

} // verus!
