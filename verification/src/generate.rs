//! Fresh identifiers: time-ordered, time-ordered with a node, and random.

use vstd::prelude::*;

use crate::encoding::{is_url_safe_symbol, url_safe_base64};
use crate::identifier::{variant_of, version_of, UUID};

verus! {

/// The version tag of an identifier made from the time and a node.
pub const VERSION_TIME_AND_NODE: u8 = 1;

/// The version tag of a random identifier.
pub const VERSION_RANDOM: u8 = 4;

/// The version tag of a time-ordered identifier.
pub const VERSION_TIME_ORDERED: u8 = 7;

/// The variant tag that every generated identifier carries.
pub const VARIANT_RFC: u8 = 2;

/// The node that stands in an identifier where the caller names none.
pub open spec fn default_node() -> Seq<u8> {
    seq![1u8, 2u8, 3u8, 4u8, 5u8, 6u8]
}

/// Whether `bytes` are sixteen bytes that carry the version tag `version`
/// and the variant tag of generated identifiers.
pub open spec fn tagged(bytes: Seq<u8>, version: u8) -> bool {
    &&& bytes.len() == 16
    &&& version_of(bytes) == version
    &&& variant_of(bytes) == VARIANT_RFC
}

/// Whether `text` is the short form, over the first `take` bytes, of some
/// time-ordered identifier.
pub open spec fn short_form_of_time_ordered(text: Seq<char>, take: int) -> bool {
    exists|bytes: Seq<u8>|
        tagged(bytes, VERSION_TIME_ORDERED) && text == #[trigger] url_safe_base64(bytes.take(take))
}

/// Whether `text` is a short form of `len` characters, over the first
/// `take` bytes, of some time-ordered identifier.
pub open spec fn is_short_id(text: Seq<char>, take: int, len: nat) -> bool {
    &&& short_form_of_time_ordered(text, take)
    &&& text.len() == len
    &&& forall|i: int| 0 <= i < text.len() ==> is_url_safe_symbol(#[trigger] text[i])
}

/// `Uuid::now_v7` of the uuid crate, as bytes. Whatever the clock and the
/// random source give, the crate sets the version tag to 7 and the variant
/// tag to binary 10. Nothing is claimed of the other bits. The crate panics
/// where the system clock stands before 1970 or the operating system gives
/// no random bytes, which no argument decides.
#[verifier::external_body]
fn now_v7() -> (bytes: [u8; 16])
    ensures
        tagged(bytes@, VERSION_TIME_ORDERED),
{
    uuid::Uuid::now_v7().into_bytes()
}

/// `Uuid::now_v1` of the uuid crate, as bytes. Whatever the clock and the
/// counter give, the crate sets the version tag to 1 and the variant tag to
/// binary 10, and puts the six bytes of the node last. Nothing is claimed of
/// the other bits. The crate panics where the system clock stands before
/// 1970 or the operating system gives no random bytes for the counter's
/// start, which no argument decides.
#[verifier::external_body]
fn now_v1(node: &[u8; 6]) -> (bytes: [u8; 16])
    ensures
        tagged(bytes@, VERSION_TIME_AND_NODE),
        bytes@.skip(10) == node@,
{
    uuid::Uuid::now_v1(node).into_bytes()
}

/// `Uuid::new_v4` of the uuid crate, as bytes. Whatever the random source
/// gives, the crate sets the version tag to 4 and the variant tag to binary
/// 10. Nothing is claimed of the other bits. The crate panics where the
/// operating system gives no random bytes, which no argument decides.
#[verifier::external_body]
fn new_v4() -> (bytes: [u8; 16])
    ensures
        tagged(bytes@, VERSION_RANDOM),
{
    uuid::Uuid::new_v4().into_bytes()
}

impl UUID {
    /// A new identifier that starts with the current time in milliseconds,
    /// so that identifiers sort by when they were made.
    pub fn new_time_ordered() -> (id: UUID)
        ensures
            tagged(id@, VERSION_TIME_ORDERED),
    {
        UUID::from_array(now_v7())
    }

    /// A new identifier in the older layout of time, counter and node, which
    /// ends in the six bytes of `node`.
    pub fn new_time_ordered_with_node(node: [u8; 6]) -> (id: UUID)
        ensures
            tagged(id@, VERSION_TIME_AND_NODE),
            id@.skip(10) == node@,
    {
        UUID::from_array(now_v1(&node))
    }

    /// A new identifier of 122 random bits.
    pub fn new_random() -> (id: UUID)
        ensures
            tagged(id@, VERSION_RANDOM),
    {
        UUID::from_array(new_v4())
    }
}

/// A new identifier from the time and the node `01 02 03 04 05 06`.
pub fn uuid1() -> (id: UUID)
    ensures
        tagged(id@, VERSION_TIME_AND_NODE),
        id@.skip(10) == default_node(),
{
    let node: [u8; 6] = [1, 2, 3, 4, 5, 6];
    UUID::new_time_ordered_with_node(node)
}

/// A new random identifier.
pub fn uuid4() -> (id: UUID)
    ensures
        tagged(id@, VERSION_RANDOM),
{
    UUID::new_random()
}

/// A new time-ordered identifier.
pub fn uuid7() -> (id: UUID)
    ensures
        tagged(id@, VERSION_TIME_ORDERED),
{
    UUID::new_time_ordered()
}

/// The 16-character short form of a new time-ordered identifier: its first
/// 12 bytes, that is 96 bits, of which 48 are the time stamp, 6 the tags and
/// 42 random.
pub fn short_id() -> (text: String)
    ensures
        is_short_id(text@, 12, 16),
{
    let id = UUID::new_time_ordered();
    id.short_id()
}

/// The 12-character short form of a new time-ordered identifier: its first
/// 9 bytes, that is 72 bits, of which 48 are the time stamp, 6 the tags and
/// 18 random.
pub fn generate_id() -> (text: String)
    ensures
        is_short_id(text@, 9, 12),
{
    let id = UUID::new_time_ordered();
    id.compact_id()
}

} // verus!
