//! What an enumeration session does against a well-behaved collection.
use vstd::prelude::*;
use vstd::arithmetic::div_mod::{lemma_basic_div, lemma_div_plus_one};
use crate::types::NSInteger;
use crate::nsenumerator::{
    EnumView, FatalProtocolViolation, NSFastEnumerationState, Pulled, fast_step, fetch_step, fresh_view, unset,
};

verus! {

/// The batch that a collection holding `items`, of which it already handed
/// out the first `delivered`, places into a window of `capacity` elements.
pub open spec fn ordered_batch<T>(items: Seq<T>, delivered: int, capacity: int) -> Seq<T> {
    if delivered + capacity <= items.len() {
        items.subrange(delivered, delivered + capacity)
    } else {
        items.subrange(delivered, items.len() as int)
    }
}

/// The outcome of `calls` successive requests on a session in state `v`,
/// over a collection that holds `items`, has handed out the first
/// `delivered` of them, and reports the mutation counter `token` on every
/// fetch: the elements handed out, the number of fetches, and whether a
/// request ended the enumeration (with `Ok(None)` or an error).
pub open spec fn run<T>(
    v: EnumView<T>,
    items: Seq<T>,
    delivered: int,
    token: NSInteger,
    calls: nat,
) -> (Seq<T>, nat, bool)
    decreases calls,
{
    if calls == 0 {
        (Seq::empty(), 0, false)
    } else if v.needs_fetch() {
        let batch = ordered_batch(items, delivered, v.capacity);
        let (next, out) = fetch_step(v, batch, token);
        match out {
            Ok(Some(x)) => {
                let rest = run(next, items, delivered + batch.len(), token, (calls - 1) as nat);
                (seq![x] + rest.0, rest.1 + 1, rest.2)
            },
            _ => (Seq::empty(), 1, true),
        }
    } else {
        let (next, out) = fast_step(v);
        match out {
            Ok(Some(x)) => {
                let rest = run(next, items, delivered, token, (calls - 1) as nat);
                (seq![x] + rest.0, rest.1, rest.2)
            },
            _ => (Seq::empty(), 0, true),
        }
    }
}

/// The position in `items` of the next element the session hands out.
spec fn cursor<T>(v: EnumView<T>, delivered: int) -> int {
    if v.is_fresh() {
        0
    } else {
        delivered - v.tail + v.head
    }
}

/// `v` is a state that a session reaches over `items` with counter `token`
/// after `delivered` elements were fetched.
spec fn consistent<T>(v: EnumView<T>, items: Seq<T>, delivered: int, token: NSInteger) -> bool {
    &&& v.wf()
    &&& !v.violated
    &&& 0 <= delivered <= items.len()
    &&& v.is_fresh() ==> delivered == 0 && v.tail == unset()
    &&& !v.is_fresh() ==> {
        &&& v.tail <= delivered
        &&& v.window == items.subrange(delivered - v.tail, delivered)
        &&& v.seen == token
        &&& v.tail < v.capacity ==> delivered == items.len()
    }
}

proof fn lemma_run_from<T>(v: EnumView<T>, items: Seq<T>, delivered: int, token: NSInteger, calls: nat)
    requires
        consistent(v, items, delivered, token),
        calls == items.len() - cursor(v, delivered) + 1,
    ensures
        run(v, items, delivered, token, calls) == (
            items.subrange(cursor(v, delivered), items.len() as int),
            if v.is_fresh() || v.tail == v.capacity {
                ((items.len() as int - delivered) / v.capacity + 1) as nat
            } else {
                0nat
            },
            true,
        ),
    decreases calls,
{
    let len = items.len() as int;
    let c = v.capacity;
    if v.needs_fetch() {
        let batch = ordered_batch(items, delivered, c);
        let n = batch.len() as int;
        let (next, out) = fetch_step(v, batch, token);
        assert(cursor(v, delivered) == delivered);
        if n > 0 {
            assert(out == Pulled::Ok(Some(items[delivered])));
            assert(next.window == items.subrange(delivered + n - n, delivered + n));
            assert(consistent(next, items, delivered + n, token));
            assert(cursor(next, delivered + n) == delivered + 1);
            lemma_run_from(next, items, delivered + n, token, (calls - 1) as nat);
            assert(seq![items[delivered]] + items.subrange(delivered + 1, len) =~= items.subrange(
                delivered,
                len,
            ));
            if n == c {
                lemma_div_plus_one(len - delivered - c, c);
                assert(c + (len - delivered - c) == len - delivered);
            } else {
                lemma_basic_div(len - delivered, c);
            }
        } else {
            assert(delivered == len);
            lemma_basic_div(0, c);
            assert(items.subrange(len, len) =~= Seq::<T>::empty());
        }
    } else {
        let (next, out) = fast_step(v);
        if v.head < v.tail {
            let at = delivered - v.tail + v.head;
            assert(out == Pulled::Ok(Some(items[at])));
            lemma_run_from(next, items, delivered, token, (calls - 1) as nat);
            assert(seq![items[at]] + items.subrange(at + 1, len) =~= items.subrange(at, len));
        } else {
            assert(items.subrange(len, len) =~= Seq::<T>::empty());
        }
    }
}

/// Against a collection that is not changed while it is enumerated, a fresh
/// session hands out exactly the collection's elements, in the order the
/// collection delivers them, and then ends.  It fetches
/// `items.len() / capacity + 1` times: once when fewer elements than the
/// window holds remain, with one extra fetch (answered with nothing) when the
/// count is a nonzero multiple of the window's capacity.
pub proof fn lemma_enumerates_in_order<T>(
    items: Seq<T>,
    capacity: int,
    token: NSInteger,
    protocol: NSFastEnumerationState,
)
    requires
        1 <= capacity < usize::MAX,
    ensures
        run(fresh_view::<T>(capacity, protocol), items, 0, token, items.len() + 1) == (
            items,
            (items.len() as int / capacity + 1) as nat,
            true,
        ),
        items.len() < capacity ==> run(fresh_view::<T>(capacity, protocol), items, 0, token, items.len() + 1).1 == 1,
{
    lemma_run_from(fresh_view::<T>(capacity, protocol), items, 0, token, items.len() + 1);
    assert(items.subrange(0, items.len() as int) =~= items);
    if items.len() < capacity {
        lemma_basic_div(items.len() as int, capacity);
    }
}

/// Two fresh sessions over the same unchanged collection hand out the same
/// sequence of elements, whatever their window sizes.
pub proof fn lemma_reenumeration_is_identical<T>(
    items: Seq<T>,
    first_capacity: int,
    second_capacity: int,
    token: NSInteger,
    protocol: NSFastEnumerationState,
)
    requires
        1 <= first_capacity < usize::MAX,
        1 <= second_capacity < usize::MAX,
    ensures
        run(fresh_view::<T>(first_capacity, protocol), items, 0, token, items.len() + 1).0 == run(
            fresh_view::<T>(second_capacity, protocol),
            items,
            0,
            token,
            items.len() + 1,
        ).0,
{
    lemma_enumerates_in_order(items, first_capacity, token, protocol);
    lemma_enumerates_in_order(items, second_capacity, token, protocol);
}

/// When a fetch after the first reports a mutation counter other than the
/// one recorded before, the request fails, and every later request fails
/// too: the session does not ask the collection again and hands out no
/// further element.
pub proof fn lemma_mutation_aborts<T>(
    v: EnumView<T>,
    batch: Seq<T>,
    token: NSInteger,
)
    requires
        v.wf(),
        v.needs_fetch(),
        !v.is_fresh(),
        token != v.seen,
    ensures
        fetch_step(v, batch, token).1 == Pulled::<T>::Err(FatalProtocolViolation),
        fetch_step(v, batch, token).0.violated,
        ({
            let after = fetch_step(v, batch, token).0;
            &&& !after.needs_fetch()
            &&& fast_step(after) == (after, Pulled::<T>::Err(FatalProtocolViolation))
        }),
{
}

} // verus!
