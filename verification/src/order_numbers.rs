use vstd::prelude::*;

use crate::order_info_model::OrderNumber;

verus! {

/// The largest of `keys`, or zero when there are none.
pub open spec fn max_key(keys: Seq<OrderNumber>) -> nat
    decreases keys.len(),
{
    if keys.len() == 0 {
        0
    } else {
        let rest = max_key(keys.drop_last());
        if keys.last() > rest {
            keys.last() as nat
        } else {
            rest
        }
    }
}

/// `max_key` is at least every key, and is zero or one of them.
pub proof fn lemma_max_key(keys: Seq<OrderNumber>)
    ensures
        forall|i: int| 0 <= i < keys.len() ==> keys[i] <= max_key(keys),
        max_key(keys) == 0 || keys.contains(max_key(keys) as OrderNumber),
        max_key(keys) <= u32::MAX,
    decreases keys.len(),
{
    if keys.len() > 0 {
        let rest = keys.drop_last();
        lemma_max_key(rest);
        assert forall|i: int| 0 <= i < keys.len() implies keys[i] <= max_key(keys) by {
            if i < rest.len() {
                assert(keys[i] == rest[i]);
            }
        }
        if max_key(keys) != 0 && max_key(keys) != keys.last() {
            let j = choose|j: int| 0 <= j < rest.len() && rest[j] == max_key(rest) as OrderNumber;
            assert(keys[j] == rest[j]);
        }
    }
}

/// The order number that follows every invoice already stored: one more
/// than the largest stored number (one when nothing is stored).
pub fn next_order_number_after(keys: &Vec<OrderNumber>) -> (n: OrderNumber)
    requires
        forall|i: int| 0 <= i < keys@.len() ==> keys@[i] < u32::MAX,
    ensures
        n == max_key(keys@) + 1,
        forall|i: int| 0 <= i < keys@.len() ==> keys@[i] < n,
        !keys@.contains(n),
        n == 1 || keys@.contains((n - 1) as OrderNumber),
{
    let mut next: OrderNumber = 0;
    let len = keys.len();
    for i in 0..len
        invariant
            len == keys@.len(),
            next == max_key(keys@.take(i as int)),
            forall|k: int| 0 <= k < keys@.len() ==> keys@[k] < u32::MAX,
    {
        let k = keys[i];
        assert(keys@.take(i + 1).drop_last() =~= keys@.take(i as int));
        if k > next {
            next = k;
        }
    }
    assert(keys@.take(len as int) =~= keys@);
    proof {
        lemma_max_key(keys@);
        if max_key(keys@) != 0 {
            let j = choose|j: int| 0 <= j < keys@.len() && keys@[j] == max_key(keys@) as OrderNumber;
            assert(keys@[j] < u32::MAX);
        }
    }
    next + 1
}

/// Whether an invoice numbered `number` is written to the database that
/// already holds invoices numbered `keys`: only when no stored invoice has
/// that number, so a stored invoice is never overwritten.
pub fn should_store(keys: &Vec<OrderNumber>, number: OrderNumber) -> (b: bool)
    ensures
        b == !keys@.contains(number),
{
    let len = keys.len();
    for i in 0..len
        invariant
            len == keys@.len(),
            forall|k: int| 0 <= k < i ==> keys@[k] != number,
    {
        if keys[i] == number {
            assert(keys@.contains(number)) by {
                assert(keys@[i as int] == number);
            }
            return false;
        }
    }
    true
}

} // verus!
