//! Many items at once, made side by side on a pool of worker threads.

use vstd::prelude::*;

use crate::generate::{
    generate_id, is_short_id, short_id, tagged, uuid4, uuid7, VERSION_RANDOM,
    VERSION_TIME_ORDERED,
};
use crate::identifier::UUID;
use crate::nano::{nano_id, over_alphabet, requested_size};

verus! {

/// `into_par_iter`, `map` and `collect` of the rayon crate on the range from
/// 0 to `count`: `make` is called once for each number of the range, on
/// whichever worker, and the results are gathered into a vector of `count`
/// items.
#[verifier::external_body]
fn collect_in_parallel<T: Send, F: Fn() -> T + Sync + Send>(count: usize, make: F) -> (items: Vec<T>)
    requires
        call_requires(make, ()),
    ensures
        items@.len() == count,
        forall|i: int| 0 <= i < items@.len() ==> call_ensures(make, (), #[trigger] items@[i]),
{
    rayon::iter::ParallelIterator::collect(
        rayon::iter::ParallelIterator::map(
            rayon::iter::IntoParallelIterator::into_par_iter(0..count),
            |_| make(),
        ),
    )
}

/// Makes `count` items by calling `make` that many times, spread over the
/// worker threads. The items come in no particular order. With a count of 0
/// nothing is handed to the workers.
pub fn generate_batch<T: Send, F: Fn() -> T + Sync + Send>(count: usize, make: F) -> (items: Vec<T>)
    requires
        call_requires(make, ()),
    ensures
        items@.len() == count,
        forall|i: int| 0 <= i < items@.len() ==> call_ensures(make, (), #[trigger] items@[i]),
{
    if count == 0 {
        Vec::new()
    } else {
        collect_in_parallel(count, make)
    }
}

/// `count` new random identifiers.
pub fn uuid4_batch(count: usize) -> (ids: Vec<UUID>)
    ensures
        ids@.len() == count,
        forall|i: int| 0 <= i < ids@.len() ==> tagged((#[trigger] ids@[i])@, VERSION_RANDOM),
{
    let make = || -> (id: UUID)
        ensures
            tagged(id@, VERSION_RANDOM),
        { uuid4() };
    generate_batch(count, make)
}

/// `count` new time-ordered identifiers.
pub fn uuid7_batch(count: usize) -> (ids: Vec<UUID>)
    ensures
        ids@.len() == count,
        forall|i: int| 0 <= i < ids@.len() ==> tagged((#[trigger] ids@[i])@, VERSION_TIME_ORDERED),
{
    let make = || -> (id: UUID)
        ensures
            tagged(id@, VERSION_TIME_ORDERED),
        { uuid7() };
    generate_batch(count, make)
}

/// `count` short forms of 16 characters, each of a new time-ordered
/// identifier of its own.
pub fn short_id_batch(count: usize) -> (texts: Vec<String>)
    ensures
        texts@.len() == count,
        forall|i: int| 0 <= i < texts@.len() ==> is_short_id((#[trigger] texts@[i])@, 12, 16),
{
    let make = || -> (text: String)
        ensures
            is_short_id(text@, 12, 16),
        { short_id() };
    generate_batch(count, make)
}

/// `count` short forms of 12 characters, each of a new time-ordered
/// identifier of its own.
pub fn generate_id_batch(count: usize) -> (texts: Vec<String>)
    ensures
        texts@.len() == count,
        forall|i: int| 0 <= i < texts@.len() ==> is_short_id((#[trigger] texts@[i])@, 9, 12),
{
    let make = || -> (text: String)
        ensures
            is_short_id(text@, 9, 12),
        { generate_id() };
    generate_batch(count, make)
}

/// `count` random strings of `size` symbols each, or of 21 where `size` is
/// `None`.
pub fn nano_id_batch(count: usize, size: Option<usize>) -> (texts: Vec<String>)
    ensures
        texts@.len() == count,
        forall|i: int|
            0 <= i < texts@.len() ==> (#[trigger] texts@[i])@.len() == requested_size(size)
                && over_alphabet(texts@[i]@),
{
    let make = || -> (text: String)
        ensures
            text@.len() == requested_size(size),
            over_alphabet(text@),
        { nano_id(size) };
    generate_batch(count, make)
}

} // verus!
