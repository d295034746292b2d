//! The 128-bit identifier: how one is made from text or bytes, and what can
//! be read from it.

use vstd::prelude::*;

use vstd::string::StringExecFns;

use crate::big_endian::{
    be_prefix, be_value, bytes_before, lemma_be_value_bound, lemma_be_value_concat,
    lemma_byte_order_is_number_order, lemma_radix_power_values, radix_power,
};
use crate::error::InvalidFormat;
use crate::hex_text::{
    all_hex_digits, digit_char, hex_bytes, is_hex_digit, lemma_hex_bytes_spelled,
    lemma_lower_hex_spells, lemma_strip_dashes_dash, lemma_strip_dashes_keeps, lower_case_digits,
    lower_hex, pair_value, strip_dashes, without_dashes,
};
use crate::strings::push_range;

verus! {

/// A 128-bit identifier: sixteen bytes, never changed once made.
#[derive(Clone, Copy, Eq, Hash, Debug)]
pub struct UUID {
    bytes: [u8; 16],
}

impl View for UUID {
    type V = Seq<u8>;

    /// The sixteen bytes, first to last.
    closed spec fn view(&self) -> Seq<u8> {
        self.bytes@
    }
}

impl PartialEq for UUID {
    fn eq(&self, other: &UUID) -> (r: bool) {
        let mut i: usize = 0;
        while i < 16
            invariant
                i <= 16,
                forall|j: int| 0 <= j < i ==> self.bytes[j] == other.bytes[j],
            decreases 16 - i,
        {
            if self.bytes[i] != other.bytes[i] {
                return false;
            }
            i += 1;
        }
        assert(self.bytes@ =~= other.bytes@);
        true
    }
}

impl vstd::std_specs::cmp::PartialEqSpecImpl for UUID {
    open spec fn obeys_eq_spec() -> bool {
        true
    }

    /// Two identifiers are equal when their sixteen bytes are.
    open spec fn eq_spec(&self, other: &UUID) -> bool {
        self@ == other@
    }
}

/// What a text gives when read as an identifier: its dashes are dropped, and
/// 32 hexadecimal digits must remain, which spell the sixteen bytes.
pub open spec fn parse_hex(text: Seq<char>) -> Result<Seq<u8>, InvalidFormat> {
    let digits = strip_dashes(text);
    if digits.len() != 32 {
        Err(InvalidFormat::HexLength)
    } else if !all_hex_digits(digits) {
        Err(InvalidFormat::HexDigit)
    } else {
        Ok(hex_bytes(digits))
    }
}

/// What a buffer gives when taken as an identifier: it must hold sixteen
/// bytes, which are kept as they are.
pub open spec fn check_bytes(buf: Seq<u8>) -> Result<Seq<u8>, InvalidFormat> {
    if buf.len() != 16 {
        Err(InvalidFormat::BytesLength)
    } else {
        Ok(buf)
    }
}

/// What the constructor gives: the text decides where there is one, else the
/// buffer, and with neither there is nothing to build from.
pub open spec fn construct(hex: Option<&str>, bytes: Option<&[u8]>) -> Result<
    Seq<u8>,
    InvalidFormat,
> {
    match hex {
        Some(text) => parse_hex(text@),
        None => match bytes {
            Some(buf) => check_bytes(buf@),
            None => Err(InvalidFormat::Missing),
        },
    }
}

/// The version tag of an identifier: the high half of its seventh byte.
pub open spec fn version_of(bytes: Seq<u8>) -> int {
    bytes[6] as int / 16
}

/// The variant tag of an identifier: the top two bits of its ninth byte.
pub open spec fn variant_of(bytes: Seq<u8>) -> int {
    bytes[8] as int / 64
}

/// The millisecond time stamp of a time-ordered identifier: its first six
/// bytes read as one number.
pub open spec fn timestamp_of(bytes: Seq<u8>) -> nat {
    be_value(bytes.take(6))
}

/// The name of the layout family that a variant tag stands for.
pub open spec fn variant_name(tag: int) -> Seq<char> {
    if tag == 0 || tag == 1 {
        "reserved for NCS compatibility"@
    } else if tag == 2 {
        "specified in RFC 4122"@
    } else {
        "reserved for Microsoft compatibility"@
    }
}

/// 32 digits in five groups of 8, 4, 4, 4 and 12 with a dash between them.
pub open spec fn dashed(digits: Seq<char>) -> Seq<char> {
    digits.subrange(0, 8) + seq!['-'] + digits.subrange(8, 12) + seq!['-'] + digits.subrange(
        12,
        16,
    ) + seq!['-'] + digits.subrange(16, 20) + seq!['-'] + digits.subrange(20, 32)
}

/// Whether `made` is the outcome that `wanted` describes: the identifier
/// with the wanted bytes, or the wanted error.
pub open spec fn yields(
    made: Result<UUID, InvalidFormat>,
    wanted: Result<Seq<u8>, InvalidFormat>,
) -> bool {
    match made {
        Ok(id) => wanted == Ok::<Seq<u8>, InvalidFormat>(id@),
        Err(e) => wanted == Err::<Seq<u8>, InvalidFormat>(e),
    }
}

/// Reading a text that is taken and writing the identifier out again gives
/// the canonical form of that text: its 32 digits in lower case, grouped by
/// dashes, 36 characters in all.
pub proof fn lemma_read_then_write(text: Seq<char>)
    requires
        parse_hex(text) is Ok,
    ensures
        dashed(lower_hex(parse_hex(text)->Ok_0)) == dashed(
            lower_case_digits(strip_dashes(text)),
        ),
        dashed(lower_hex(parse_hex(text)->Ok_0)).len() == 36,
{
    lemma_hex_bytes_spelled(strip_dashes(text));
}

/// Writing sixteen bytes out, with or without dashes, and reading the text
/// again gives the same bytes.
pub proof fn lemma_write_then_read(bytes: Seq<u8>)
    requires
        bytes.len() == 16,
    ensures
        parse_hex(dashed(lower_hex(bytes))) == Ok::<Seq<u8>, InvalidFormat>(bytes),
        parse_hex(lower_hex(bytes)) == Ok::<Seq<u8>, InvalidFormat>(bytes),
{
    let digits = lower_hex(bytes);
    lemma_lower_hex_spells(bytes);
    let dash = seq!['-'];
    let g0 = digits.subrange(0, 8);
    let g1 = digits.subrange(8, 12);
    let g2 = digits.subrange(12, 16);
    let g3 = digits.subrange(16, 20);
    let g4 = digits.subrange(20, 32);
    lemma_strip_dashes_dash();
    lemma_strip_dashes_keeps(g0);
    lemma_strip_dashes_keeps(g1);
    lemma_strip_dashes_keeps(g2);
    lemma_strip_dashes_keeps(g3);
    lemma_strip_dashes_keeps(g4);
    assert(strip_dashes(dashed(digits)) =~= digits);
}

/// A buffer of sixteen bytes is taken as it is: the identifier made from it
/// holds the bytes of the buffer.
pub proof fn lemma_bytes_are_kept(buf: Seq<u8>)
    requires
        buf.len() == 16,
    ensures
        check_bytes(buf) == Ok::<Seq<u8>, InvalidFormat>(buf),
{
}

/// Whether `text` holds dashes and is read as an identifier all the same:
/// besides the dashes there are 32 characters, all of them digits.
pub open spec fn valid_with_dashes(text: Seq<char>) -> bool {
    &&& text.contains('-')
    &&& strip_dashes(text).len() == 32
    &&& all_hex_digits(strip_dashes(text))
}

/// A text that is not 32 characters long, or that holds a character which
/// is no hexadecimal digit, is refused, unless it is a valid text with
/// dashes.
pub proof fn lemma_malformed_text_is_refused(text: Seq<char>)
    requires
        text.len() != 32 || exists|i: int| 0 <= i < text.len() && !is_hex_digit(#[trigger] text[i]),
        !valid_with_dashes(text),
    ensures
        parse_hex(text) is Err,
{
    if !text.contains('-') {
        lemma_strip_dashes_keeps(text);
    }
}

/// The order of identifiers follows their time stamps: the one with the
/// smaller time stamp is the smaller number, and comes first when the two
/// are compared byte by byte.
pub proof fn lemma_order_follows_timestamp(a: Seq<u8>, b: Seq<u8>)
    requires
        a.len() == 16,
        b.len() == 16,
        timestamp_of(a) < timestamp_of(b),
    ensures
        be_value(a) < be_value(b),
        bytes_before(a, b),
{
    assert(a =~= a.take(6) + a.skip(6));
    assert(b =~= b.take(6) + b.skip(6));
    lemma_be_value_concat(a.take(6), a.skip(6));
    lemma_be_value_concat(b.take(6), b.skip(6));
    lemma_be_value_bound(a.skip(6));
    let r = radix_power(10);
    let x = timestamp_of(a);
    let y = timestamp_of(b);
    assert((x + 1) * r <= y * r) by (nonlinear_arith)
        requires
            x + 1 <= y,
    ;
    assert((x + 1) * r == x * r + r) by (nonlinear_arith);
    lemma_byte_order_is_number_order(a, b);
}

impl UUID {
    /// Every identifier holds exactly sixteen bytes.
    pub proof fn lemma_sixteen_bytes(self)
        ensures
            self@.len() == 16,
    {
    }

    /// The identifier with exactly these bytes.
    pub fn from_array(bytes: [u8; 16]) -> (id: UUID)
        ensures
            id@ == bytes@,
    {
        UUID { bytes }
    }

    /// Reads an identifier from 32 hexadecimal digits, among which dashes may
    /// stand anywhere.
    pub fn from_hex(text: &str) -> (made: Result<UUID, InvalidFormat>)
        ensures
            yields(made, parse_hex(text@)),
    {
        let digits = without_dashes(text);
        if digits.len() != 32 {
            return Err(InvalidFormat::HexLength);
        }
        let mut bytes = [0u8; 16];
        let mut i: usize = 0;
        while i < 16
            invariant
                i <= 16,
                digits@.len() == 32,
                digits@ == strip_dashes(text@),
                forall|j: int| 0 <= j < 2 * i ==> is_hex_digit(#[trigger] digits@[j]),
                forall|j: int| 0 <= j < i ==> bytes@[j] == #[trigger] hex_bytes(digits@)[j],
            decreases 16 - i,
        {
            match pair_value(digits[2 * i], digits[2 * i + 1]) {
                Some(b) => {
                    bytes[i] = b;
                },
                None => {
                    return Err(InvalidFormat::HexDigit);
                },
            }
            i += 1;
        }
        assert(bytes@ =~= hex_bytes(digits@));
        Ok(UUID { bytes })
    }

    /// Takes a buffer of exactly sixteen bytes as an identifier.
    pub fn from_bytes(buf: &[u8]) -> (made: Result<UUID, InvalidFormat>)
        ensures
            yields(made, check_bytes(buf@)),
    {
        if buf.len() != 16 {
            return Err(InvalidFormat::BytesLength);
        }
        let mut bytes = [0u8; 16];
        let mut i: usize = 0;
        while i < 16
            invariant
                i <= 16,
                buf@.len() == 16,
                forall|j: int| 0 <= j < i ==> bytes@[j] == buf@[j],
            decreases 16 - i,
        {
            bytes[i] = buf[i];
            i += 1;
        }
        assert(bytes@ =~= buf@);
        Ok(UUID { bytes })
    }

    /// Builds an identifier from a text or, where there is none, from a
    /// buffer.
    pub fn new(hex: Option<&str>, bytes: Option<&[u8]>) -> (made: Result<UUID, InvalidFormat>)
        ensures
            yields(made, construct(hex, bytes)),
    {
        match hex {
            Some(text) => UUID::from_hex(text),
            None => match bytes {
                Some(buf) => UUID::from_bytes(buf),
                None => Err(InvalidFormat::Missing),
            },
        }
    }

    /// The sixteen bytes.
    pub fn bytes(&self) -> (b: [u8; 16])
        ensures
            b@ == self@,
    {
        self.bytes
    }

    /// The version tag, which tells how the identifier was generated.
    pub fn version(&self) -> (v: u8)
        ensures
            v == version_of(self@),
    {
        let b = self.bytes[6];
        assert((b >> 4) & 0x0f == b / 16) by (bit_vector);
        (b >> 4) & 0x0f
    }

    /// The name of the layout family that the variant tag stands for.
    pub fn variant(&self) -> (name: String)
        ensures
            name@ == variant_name(variant_of(self@)),
    {
        let b = self.bytes[8];
        assert(b >> 6 == b / 64) by (bit_vector);
        let tag = b >> 6;
        if tag == 0 || tag == 1 {
            String::from_str("reserved for NCS compatibility")
        } else if tag == 2 {
            String::from_str("specified in RFC 4122")
        } else {
            String::from_str("reserved for Microsoft compatibility")
        }
    }

    /// The sixteen bytes read as one number, the first byte counting most.
    pub fn as_u128(&self) -> (v: u128)
        ensures
            v == be_value(self@),
    {
        assert(self.bytes@.take(16) =~= self.bytes@);
        be_prefix(&self.bytes, 16)
    }

    /// The first six bytes read as one number: in a time-ordered identifier,
    /// the milliseconds at which it was made.
    pub fn timestamp_millis(&self) -> (t: u64)
        ensures
            t == timestamp_of(self@),
    {
        let v = be_prefix(&self.bytes, 6);
        proof {
            lemma_be_value_bound(self.bytes@.take(6));
            lemma_radix_power_values();
        }
        v as u64
    }

    /// The lower-case digits of the sixteen bytes.
    fn digits(&self) -> (d: Vec<char>)
        ensures
            d@ == lower_hex(self@),
    {
        let mut d: Vec<char> = Vec::new();
        let mut i: usize = 0;
        while i < 16
            invariant
                i <= 16,
                d@.len() == 2 * i,
                forall|j: int| 0 <= j < 2 * i ==> d@[j] == #[trigger] lower_hex(self@)[j],
            decreases 16 - i,
        {
            let b = self.bytes[i];
            d.push(digit_char(b / 16));
            d.push(digit_char(b % 16));
            i += 1;
        }
        d
    }

    /// The canonical text: 32 lower-case digits in groups of 8, 4, 4, 4 and
    /// 12 with a dash between them.
    pub fn to_hex_dashed(&self) -> (text: String)
        ensures
            text@ == dashed(lower_hex(self@)),
            text@.len() == 36,
    {
        let d = self.digits();
        let mut text = String::new();
        push_range(&mut text, &d, 0, 8);
        text.push('-');
        push_range(&mut text, &d, 8, 12);
        text.push('-');
        push_range(&mut text, &d, 12, 16);
        text.push('-');
        push_range(&mut text, &d, 16, 20);
        text.push('-');
        push_range(&mut text, &d, 20, 32);
        text
    }

    /// The canonical text inside `UUID('` and `')`.
    pub fn repr(&self) -> (text: String)
        ensures
            text@ == "UUID('"@ + dashed(lower_hex(self@)) + "')"@,
    {
        let inner = self.to_hex_dashed();
        let mut text = String::from_str("UUID('");
        text.append(inner.as_str());
        text.append("')");
        text
    }
}

} // verus!
