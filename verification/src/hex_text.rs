//! Hexadecimal digits and the text form of byte strings.

use vstd::prelude::*;
use vstd::std_specs::iter::IteratorSpec;

verus! {

/// Whether `c` is one of `0-9`, `a-f`, `A-F`.
pub open spec fn is_hex_digit(c: char) -> bool {
    ('0' <= c && c <= '9') || ('a' <= c && c <= 'f') || ('A' <= c && c <= 'F')
}

/// The value, 0 to 15, that a hexadecimal digit stands for.
pub open spec fn hex_value(c: char) -> int {
    if '0' <= c && c <= '9' {
        c as int - '0' as int
    } else if 'a' <= c && c <= 'f' {
        c as int - 'a' as int + 10
    } else {
        c as int - 'A' as int + 10
    }
}

/// The lower-case digit for a value from 0 to 15.
pub open spec fn lower_hex_digit(v: int) -> char {
    if v < 10 {
        ('0' as int + v) as char
    } else {
        ('a' as int + v - 10) as char
    }
}

/// Whether every character of `s` is a hexadecimal digit.
pub open spec fn all_hex_digits(s: Seq<char>) -> bool {
    forall|i: int| 0 <= i < s.len() ==> is_hex_digit(#[trigger] s[i])
}

/// `s` with every `-` taken out, the other characters in their order.
pub open spec fn strip_dashes(s: Seq<char>) -> Seq<char> {
    s.filter(|c: char| c != '-')
}

/// The bytes that a string of digits spells, two digits to a byte, the high
/// half first.
pub open spec fn hex_bytes(digits: Seq<char>) -> Seq<u8> {
    Seq::new(
        digits.len() / 2,
        |i: int| (hex_value(digits[2 * i]) * 16 + hex_value(digits[2 * i + 1])) as u8,
    )
}

/// The lower-case hexadecimal text of `bytes`: two digits for each byte, the
/// high half first.
pub open spec fn lower_hex(bytes: Seq<u8>) -> Seq<char> {
    Seq::new(
        2 * bytes.len(),
        |i: int|
            if i % 2 == 0 {
                lower_hex_digit(bytes[i / 2] as int / 16)
            } else {
                lower_hex_digit(bytes[i / 2] as int % 16)
            },
    )
}

/// The same digits with the letters in lower case.
pub open spec fn lower_case_digits(digits: Seq<char>) -> Seq<char> {
    Seq::new(digits.len(), |i: int| lower_hex_digit(hex_value(digits[i])))
}

/// Reads one hexadecimal digit.
pub fn digit_value(c: char) -> (r: Option<u8>)
    ensures
        r is Some <==> is_hex_digit(c),
        r matches Some(v) ==> v as int == hex_value(c) && v < 16,
{
    if '0' <= c && c <= '9' {
        Some((c as u32 - '0' as u32) as u8)
    } else if 'a' <= c && c <= 'f' {
        Some((c as u32 - 'a' as u32 + 10) as u8)
    } else if 'A' <= c && c <= 'F' {
        Some((c as u32 - 'A' as u32 + 10) as u8)
    } else {
        None
    }
}

/// Writes a value from 0 to 15 as a lower-case hexadecimal digit.
pub fn digit_char(v: u8) -> (c: char)
    requires
        v < 16,
    ensures
        c == lower_hex_digit(v as int),
{
    if v < 10 {
        ('0' as u8 + v) as char
    } else {
        ('a' as u8 + (v - 10)) as char
    }
}

/// Reads two hexadecimal digits as one byte, the high half first.
pub fn pair_value(high: char, low: char) -> (r: Option<u8>)
    ensures
        r is Some <==> is_hex_digit(high) && is_hex_digit(low),
        r matches Some(b) ==> b as int == hex_value(high) * 16 + hex_value(low),
{
    match digit_value(high) {
        Some(h) => match digit_value(low) {
            Some(l) => Some(h * 16 + l),
            None => None,
        },
        None => None,
    }
}

/// The text of a byte string holds digits only, and spells that byte
/// string.
pub proof fn lemma_lower_hex_spells(bytes: Seq<u8>)
    ensures
        lower_hex(bytes).len() == 2 * bytes.len(),
        all_hex_digits(lower_hex(bytes)),
        hex_bytes(lower_hex(bytes)) == bytes,
{
    let text = lower_hex(bytes);
    assert forall|k: int| 0 <= k < bytes.len() implies #[trigger] hex_bytes(text)[k] == bytes[k] by {
        assert(text[2 * k] == lower_hex_digit(bytes[k] as int / 16));
        assert(text[2 * k + 1] == lower_hex_digit(bytes[k] as int % 16));
    }
    assert(hex_bytes(text) =~= bytes);
}

/// Writing the bytes that an even number of digits spell gives those digits
/// back in lower case.
pub proof fn lemma_hex_bytes_spelled(digits: Seq<char>)
    requires
        digits.len() % 2 == 0,
        all_hex_digits(digits),
    ensures
        lower_hex(hex_bytes(digits)) == lower_case_digits(digits),
{
    let text = lower_hex(hex_bytes(digits));
    assert forall|i: int| 0 <= i < text.len() implies #[trigger] text[i] == lower_case_digits(
        digits,
    )[i] by {
        let high = hex_value(digits[2 * (i / 2)]);
        let low = hex_value(digits[2 * (i / 2) + 1]);
        assert(hex_bytes(digits)[i / 2] as int == high * 16 + low);
    }
    assert(text =~= lower_case_digits(digits));
}

/// A text without dashes loses nothing when its dashes are stripped.
pub proof fn lemma_strip_dashes_keeps(s: Seq<char>)
    requires
        forall|i: int| 0 <= i < s.len() ==> s[i] != '-',
    ensures
        strip_dashes(s) == s,
    decreases s.len(),
{
    reveal(Seq::filter);
    if s.len() > 0 {
        lemma_strip_dashes_keeps(s.drop_last());
        assert(s.drop_last().push(s.last()) =~= s);
    }
}

/// A lone dash is stripped to nothing.
pub proof fn lemma_strip_dashes_dash()
    ensures
        strip_dashes(seq!['-']) == Seq::<char>::empty(),
{
    reveal_with_fuel(Seq::filter, 2);
}

/// Stripping one more character either keeps what was stripped so far or
/// adds that character to it.
pub proof fn lemma_strip_dashes_step(s: Seq<char>, k: int)
    requires
        0 <= k < s.len(),
    ensures
        strip_dashes(s.take(k + 1)) == if s[k] == '-' {
            strip_dashes(s.take(k))
        } else {
            strip_dashes(s.take(k)).push(s[k])
        },
{
    reveal(Seq::filter);
    assert(s.take(k + 1).drop_last() =~= s.take(k));
}

/// The characters of `text` other than `-`, in their order.
pub fn without_dashes(text: &str) -> (digits: Vec<char>)
    ensures
        digits@ == strip_dashes(text@),
{
    broadcast use vstd::string::group_string_axioms;

    let mut rest = text.chars();
    let mut digits: Vec<char> = Vec::new();
    let ghost mut seen: int = 0;
    loop
        invariant
            0 <= seen <= text@.len(),
            rest.remaining() == text@.skip(seen),
            digits@ == strip_dashes(text@.take(seen)),
        decreases text@.len() - seen,
    {
        match rest.next() {
            Some(c) => {
                proof {
                    lemma_strip_dashes_step(text@, seen);
                    seen = seen + 1;
                }
                if c != '-' {
                    digits.push(c);
                }
            },
            None => {
                proof {
                    assert(text@.take(seen) =~= text@);
                }
                return digits;
            },
        }
    }
}

} // verus!
