//! Sequences under filtering and mapping.
use vstd::prelude::*;

verus! {

/// The views of the elements of a sequence, in the same order.
pub open spec fn views<T: View>(items: Seq<T>) -> Seq<T::V> {
    items.map_values(|item: T| item@)
}

/// Filtering and mapping a concatenation is concatenating what each part gives.
pub proof fn lemma_filter_map_concat<A, B>(
    first: Seq<A>,
    second: Seq<A>,
    f: spec_fn(A) -> Option<B>,
)
    ensures
        (first + second).filter_map(f) == first.filter_map(f) + second.filter_map(f),
    decreases second.len(),
{
    if second.len() == 0 {
        assert(first + second =~= first);
        assert(first.filter_map(f) + second.filter_map(f) =~= first.filter_map(f));
    } else {
        lemma_filter_map_concat(first, second.drop_last(), f);
        assert((first + second).drop_last() =~= first + second.drop_last());
        assert((first + second).last() == second.last());
        match f(second.last()) {
            Some(b) => {
                assert(first.filter_map(f) + (second.drop_last().filter_map(f) + seq![b])
                    =~= first.filter_map(f) + second.drop_last().filter_map(f) + seq![b]);
            },
            None => {},
        }
    }
}

/// What one element of a sequence gives under filtering and mapping stands
/// between what the elements before it and the elements after it give.
pub proof fn lemma_filter_map_split<A, B>(items: Seq<A>, f: spec_fn(A) -> Option<B>, i: int)
    requires
        0 <= i < items.len(),
    ensures
        items.filter_map(f) == items.take(i).filter_map(f) + seq![items[i]].filter_map(f)
            + items.skip(i + 1).filter_map(f),
        seq![items[i]].filter_map(f) == match f(items[i]) {
            Some(b) => seq![b],
            None => Seq::empty(),
        },
{
    assert(items =~= items.take(i) + seq![items[i]] + items.skip(i + 1));
    lemma_filter_map_concat(items.take(i) + seq![items[i]], items.skip(i + 1), f);
    lemma_filter_map_concat(items.take(i), seq![items[i]], f);
    Seq::lemma_filter_map_singleton(items[i], f);
}

/// Filtering and mapping keeps elements apart that a key keeps apart: if no
/// two elements of `items` have one key, and what `f` gives for an element
/// has the key of that element, then no two elements of the result have one
/// key.
pub proof fn lemma_filter_map_distinct<A, B, K>(
    items: Seq<A>,
    f: spec_fn(A) -> Option<B>,
    key_of: spec_fn(A) -> K,
    key_of_result: spec_fn(B) -> K,
)
    requires
        forall|i: int, j: int|
            0 <= i < j < items.len() ==> key_of(#[trigger] items[i]) != key_of(#[trigger] items[j]),
        forall|i: int, b: B|
            0 <= i < items.len() && f(#[trigger] items[i]) == Some(b) ==> #[trigger] key_of_result(
                b,
            ) == key_of(items[i]),
    ensures
        forall|i: int, j: int|
            0 <= i < j < items.filter_map(f).len() ==> key_of_result(
                #[trigger] items.filter_map(f)[i],
            ) != key_of_result(#[trigger] items.filter_map(f)[j]),
        forall|k: int|
            0 <= k < items.filter_map(f).len() ==> exists|i: int|
                0 <= i < items.len() && key_of(#[trigger] items[i]) == key_of_result(
                    #[trigger] items.filter_map(f)[k],
                ),
    decreases items.len(),
{
    if items.len() > 0 {
        let shorter = items.drop_last();
        let last = items.last();
        assert(last == items[items.len() - 1]);
        assert forall|i: int, j: int| 0 <= i < j < shorter.len() implies key_of(
            #[trigger] shorter[i],
        ) != key_of(#[trigger] shorter[j]) by {
            assert(shorter[i] == items[i] && shorter[j] == items[j]);
        }
        assert forall|i: int, b: B|
            0 <= i < shorter.len() && f(#[trigger] shorter[i]) == Some(
                b,
            ) implies #[trigger] key_of_result(b) == key_of(shorter[i]) by {
            assert(shorter[i] == items[i]);
        }
        lemma_filter_map_distinct(shorter, f, key_of, key_of_result);
        let before = shorter.filter_map(f);
        let result = items.filter_map(f);
        assert forall|k: int| 0 <= k < before.len() implies exists|i: int|
            0 <= i < items.len() && key_of(#[trigger] items[i]) == key_of_result(
                #[trigger] before[k],
            ) by {
            let i = choose|i: int|
                0 <= i < shorter.len() && key_of(#[trigger] shorter[i]) == key_of_result(
                    before[k],
                );
            assert(shorter[i] == items[i]);
        }
        match f(last) {
            Some(b) => {
                assert(result =~= before + seq![b]);
                assert(key_of_result(b) == key_of(items[items.len() - 1]));
                assert forall|i: int, j: int| 0 <= i < j < result.len() implies key_of_result(
                    #[trigger] result[i],
                ) != key_of_result(#[trigger] result[j]) by {
                    if j == before.len() {
                        let source = choose|source: int|
                            0 <= source < shorter.len() && key_of(#[trigger] shorter[source])
                                == key_of_result(before[i]);
                        assert(shorter[source] == items[source]);
                    }
                }
                assert forall|k: int| 0 <= k < result.len() implies exists|i: int|
                    0 <= i < items.len() && key_of(#[trigger] items[i]) == key_of_result(
                        #[trigger] result[k],
                    ) by {
                    if k < before.len() {
                        assert(result[k] == before[k]);
                    }
                }
            },
            None => {
                assert(result =~= before);
            },
        }
    }
}

} // verus!
