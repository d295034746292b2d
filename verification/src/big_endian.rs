//! Byte strings read as numbers, the first byte counting most, and how the
//! order of such numbers follows the order of the bytes.

use vstd::prelude::*;

verus! {

/// 256 to the power `n`: one more than the largest number that `n` bytes
/// can spell.
pub open spec fn radix_power(n: nat) -> nat
    decreases n,
{
    if n == 0 {
        1
    } else {
        256 * radix_power((n - 1) as nat)
    }
}

/// The number that `bytes` spell, the first byte counting most.
pub open spec fn be_value(bytes: Seq<u8>) -> nat
    decreases bytes.len(),
{
    if bytes.len() == 0 {
        0
    } else {
        be_value(bytes.drop_last()) * 256 + bytes.last() as nat
    }
}

/// Whether `a` comes before `b` when the two are compared byte by byte from
/// the front: they agree up to some place, where `a` holds the smaller byte.
pub open spec fn bytes_before(a: Seq<u8>, b: Seq<u8>) -> bool {
    exists|k: int|
        0 <= k < a.len() && k < b.len() && a.take(k) == b.take(k) && a[k] < #[trigger] b[k]
}

/// `n` bytes spell a number below 256 to the power `n`.
pub proof fn lemma_be_value_bound(bytes: Seq<u8>)
    ensures
        be_value(bytes) < radix_power(bytes.len()),
    decreases bytes.len(),
{
    if bytes.len() > 0 {
        lemma_be_value_bound(bytes.drop_last());
    }
}

/// The number spelled by two strings joined is that of the first, moved up
/// by the length of the second, plus that of the second.
pub proof fn lemma_be_value_concat(high: Seq<u8>, low: Seq<u8>)
    ensures
        be_value(high + low) == be_value(high) * radix_power(low.len()) + be_value(low),
    decreases low.len(),
{
    if low.len() == 0 {
        assert(high + low =~= high);
        assert(radix_power(low.len()) == 1);
    } else {
        let joined = high + low;
        assert(joined.drop_last() =~= high + low.drop_last());
        lemma_be_value_concat(high, low.drop_last());
        let h = be_value(high);
        let l = be_value(low.drop_last());
        let r = radix_power((low.len() - 1) as nat);
        assert((h * r + l) * 256 == h * (256 * r) + l * 256) by (nonlinear_arith);
    }
}

/// Of two strings of one length, the one that comes first byte by byte
/// spells the smaller number.
proof fn lemma_bytes_before_is_less(a: Seq<u8>, b: Seq<u8>)
    requires
        a.len() == b.len(),
        bytes_before(a, b),
    ensures
        be_value(a) < be_value(b),
{
    let k = choose|k: int|
        0 <= k < a.len() && k < b.len() && a.take(k) == b.take(k) && a[k] < #[trigger] b[k];
    let head_a = a.take(k + 1);
    let head_b = b.take(k + 1);
    let tail_a = a.skip(k + 1);
    let tail_b = b.skip(k + 1);
    assert(a =~= head_a + tail_a);
    assert(b =~= head_b + tail_b);
    assert(head_a.drop_last() =~= a.take(k));
    assert(head_b.drop_last() =~= b.take(k));
    lemma_be_value_concat(head_a, tail_a);
    lemma_be_value_concat(head_b, tail_b);
    lemma_be_value_bound(tail_a);
    let r = radix_power(tail_a.len());
    let x = be_value(head_a);
    let y = be_value(head_b);
    assert((x + 1) * r <= y * r) by (nonlinear_arith)
        requires
            x + 1 <= y,
    ;
    assert((x + 1) * r == x * r + r) by (nonlinear_arith);
}

/// Two strings of one length that spell the same number are the same.
pub proof fn lemma_be_value_injective(a: Seq<u8>, b: Seq<u8>)
    requires
        a.len() == b.len(),
        be_value(a) == be_value(b),
    ensures
        a == b,
    decreases a.len(),
{
    if a.len() > 0 {
        lemma_be_value_injective(a.drop_last(), b.drop_last());
        assert(a =~= a.drop_last().push(a.last()));
        assert(b =~= b.drop_last().push(b.last()));
    } else {
        assert(a =~= b);
    }
}

/// Of two strings of one length, the one that spells the smaller number
/// comes first byte by byte.
proof fn lemma_less_is_bytes_before(a: Seq<u8>, b: Seq<u8>)
    requires
        a.len() == b.len(),
        be_value(a) < be_value(b),
    ensures
        bytes_before(a, b),
    decreases a.len(),
{
    if a.len() > 0 {
        let front_a = a.drop_last();
        let front_b = b.drop_last();
        let k = if be_value(front_a) < be_value(front_b) {
            lemma_less_is_bytes_before(front_a, front_b);
            choose|k: int|
                0 <= k < front_a.len() && k < front_b.len() && front_a.take(k) == front_b.take(k)
                    && front_a[k] < #[trigger] front_b[k]
        } else {
            lemma_be_value_injective(front_a, front_b);
            a.len() - 1
        };
        assert(a.take(k) =~= front_a.take(k));
        assert(b.take(k) =~= front_b.take(k));
        assert(a[k] < b[k]);
    }
}

/// For strings of one length, the order byte by byte is the order of the
/// numbers that they spell.
pub proof fn lemma_byte_order_is_number_order(a: Seq<u8>, b: Seq<u8>)
    requires
        a.len() == b.len(),
    ensures
        bytes_before(a, b) <==> be_value(a) < be_value(b),
{
    if bytes_before(a, b) {
        lemma_bytes_before_is_less(a, b);
    }
    if be_value(a) < be_value(b) {
        lemma_less_is_bytes_before(a, b);
    }
}

/// Six bytes spell numbers below 2 to the power 48, sixteen bytes numbers
/// below 2 to the power 128, and one byte more after at most fifteen stays
/// within that.
pub proof fn lemma_radix_power_values()
    ensures
        radix_power(6) == 0x1_0000_0000_0000,
        radix_power(16) == 0x1_0000_0000_0000_0000_0000_0000_0000_0000,
        forall|n: nat| n <= 15 ==> 256 * #[trigger] radix_power(n) <= radix_power(16),
{
    reveal_with_fuel(radix_power, 17);
}

/// The number that the first `n` of sixteen bytes spell.
pub fn be_prefix(bytes: &[u8; 16], n: usize) -> (v: u128)
    requires
        n <= 16,
    ensures
        v == be_value(bytes@.take(n as int)),
{
    let mut v: u128 = 0;
    let mut i: usize = 0;
    while i < n
        invariant
            i <= n <= 16,
            v == be_value(bytes@.take(i as int)),
        decreases n - i,
    {
        proof {
            assert(bytes@.take(i + 1).drop_last() =~= bytes@.take(i as int));
            lemma_be_value_bound(bytes@.take(i as int));
            lemma_radix_power_values();
        }
        v = v * 256 + bytes[i] as u128;
        i += 1;
    }
    v
}

} // verus!
