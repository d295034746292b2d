//! Random strings over an alphabet of 64 symbols.

use vstd::prelude::*;
use vstd::string::StrSliceExecFns;

use crate::encoding::is_url_safe_symbol;

verus! {

/// The 64 symbols, in the order in which a draw picks them.
pub const ALPHABET: &'static str =
    "0123456789ABCDEFGHIJKLMNOPQRSTUVWXYZabcdefghijklmnopqrstuvwxyz-_";

/// How many symbols there are.
pub const ALPHABET_SIZE: usize = 64;

/// The length of a string where the caller names none.
pub const DEFAULT_SIZE: usize = 21;

/// The 64 symbols as a sequence.
pub open spec fn alphabet() -> Seq<char> {
    ALPHABET@
}

/// Whether each character of `text` is one of the 64 symbols.
pub open spec fn over_alphabet(text: Seq<char>) -> bool {
    forall|i: int| 0 <= i < text.len() ==> alphabet().contains(#[trigger] text[i])
}

/// The length that a request asks for.
pub open spec fn requested_size(size: Option<usize>) -> usize {
    match size {
        Some(n) => n,
        None => DEFAULT_SIZE,
    }
}

/// The alphabet holds 64 symbols.
pub proof fn lemma_alphabet_len()
    ensures
        alphabet().len() == ALPHABET_SIZE,
{
    reveal_strlit("0123456789ABCDEFGHIJKLMNOPQRSTUVWXYZabcdefghijklmnopqrstuvwxyz-_");
}

/// The place of a symbol in the alphabet: digits first, then capitals, then
/// small letters, then `-` and `_`.
pub open spec fn place_of(c: char) -> int {
    if '0' <= c && c <= '9' {
        c as int - '0' as int
    } else if 'A' <= c && c <= 'Z' {
        c as int - 'A' as int + 10
    } else if 'a' <= c && c <= 'z' {
        c as int - 'a' as int + 36
    } else if c == '-' {
        62
    } else {
        63
    }
}

/// The symbols are the ten digits, the letters of both cases, `-` and `_`,
/// each at its place and none twice.
pub proof fn lemma_alphabet_symbols()
    ensures
        forall|c: char| alphabet().contains(c) <==> is_url_safe_symbol(c),
        forall|c: char| is_url_safe_symbol(c) ==> alphabet()[#[trigger] place_of(c)] == c,
        forall|k: int| 0 <= k < 64 ==> place_of(#[trigger] alphabet()[k]) == k,
        alphabet().no_duplicates(),
{
    reveal_strlit("0123456789ABCDEFGHIJKLMNOPQRSTUVWXYZabcdefghijklmnopqrstuvwxyz-_");
    let a = alphabet();
    assert forall|c: char| a.contains(c) <==> is_url_safe_symbol(c) by {
        if is_url_safe_symbol(c) {
            assert(a[place_of(c)] == c);
        }
    }
}

/// `fastrand::usize` on the range from `low` up to, but not including,
/// `high`: some number of that range. The crate panics on an empty range,
/// which `requires` leaves out.
#[verifier::external_body]
fn random_in(low: usize, high: usize) -> (n: usize)
    requires
        low < high,
    ensures
        low <= n < high,
{
    fastrand::usize(low..high)
}

/// The symbol that a draw of `index` picks.
pub fn symbol(index: usize) -> (c: char)
    requires
        index < ALPHABET_SIZE,
    ensures
        c == alphabet()[index as int],
{
    proof {
        lemma_alphabet_len();
    }
    ALPHABET.get_char(index)
}

/// A string of `size` symbols, or of 21 where `size` is `None`, each drawn
/// on its own from the 64 symbols.
pub fn nano_id(size: Option<usize>) -> (text: String)
    ensures
        text@.len() == requested_size(size),
        over_alphabet(text@),
{
    let size = match size {
        Some(n) => n,
        None => DEFAULT_SIZE,
    };
    let mut text = String::new();
    let mut i: usize = 0;
    while i < size
        invariant
            i <= size,
            text@.len() == i,
            over_alphabet(text@),
        decreases size - i,
    {
        let index = random_in(0, ALPHABET_SIZE);
        let c = symbol(index);
        proof {
            lemma_alphabet_len();
        }
        text.push(c);
        i += 1;
    }
    text
}

} // verus!
