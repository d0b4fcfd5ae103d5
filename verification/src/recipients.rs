//! The lists of recipients that encoding operations hand to the cryptographic
//! plugin: sorted, with each handle listed once.

use vstd::prelude::*;

use crate::types::CryptoHandle;

verus! {

/// Each handle is greater than the ones before it.
pub open spec fn strictly_increasing(list: Seq<CryptoHandle>) -> bool {
    forall|i: int, j: int| 0 <= i < j < list.len() ==> list[i] < list[j]
}

/// The list is strictly increasing and holds the given handles and no others.
pub open spec fn is_distinct_sorted(list: Seq<CryptoHandle>, handles: Seq<CryptoHandle>) -> bool {
    &&& strictly_increasing(list)
    &&& forall|handle: CryptoHandle| #[trigger] list.contains(handle) <==> handles.contains(handle)
}

/// The strictly increasing list of the given handles. There is exactly one
/// (see [`law_distinct_sorted`]).
pub open spec fn distinct_sorted(handles: Seq<CryptoHandle>) -> Seq<CryptoHandle> {
    choose|list: Seq<CryptoHandle>| is_distinct_sorted(list, handles)
}

/// Where a handle belongs in a strictly increasing list.
spec fn is_place(list: Seq<CryptoHandle>, handle: CryptoHandle, at: int) -> bool {
    &&& 0 <= at <= list.len()
    &&& forall|i: int| 0 <= i < at ==> list[i] < handle
    &&& forall|i: int| at <= i < list.len() ==> handle <= list[i]
}

/// The list with the handle put in at its place, unless it stands there already.
spec fn put_in(list: Seq<CryptoHandle>, handle: CryptoHandle, at: int) -> Seq<CryptoHandle> {
    if at < list.len() && list[at] == handle {
        list
    } else {
        list.insert(at, handle)
    }
}

proof fn lemma_place_exists(list: Seq<CryptoHandle>, handle: CryptoHandle) -> (at: int)
    requires
        strictly_increasing(list),
    ensures
        is_place(list, handle, at),
    decreases list.len(),
{
    if list.len() == 0 || list.last() < handle {
        list.len() as int
    } else {
        let shorter = list.drop_last();
        let at = lemma_place_exists(shorter, handle);
        assert forall|i: int| 0 <= i < at implies list[i] < handle by {
            assert(shorter[i] == list[i]);
        }
        assert forall|i: int| at <= i < list.len() implies handle <= list[i] by {
            if i < shorter.len() {
                assert(shorter[i] == list[i]);
            }
        }
        at
    }
}

proof fn lemma_put_in(
    list: Seq<CryptoHandle>,
    handles: Seq<CryptoHandle>,
    handle: CryptoHandle,
    at: int,
)
    requires
        is_distinct_sorted(list, handles),
        is_place(list, handle, at),
    ensures
        is_distinct_sorted(put_in(list, handle, at), handles.push(handle)),
{
    let result = put_in(list, handle, at);
    assert forall|other: CryptoHandle| #[trigger]
        result.contains(other) <==> handles.push(handle).contains(other) by {
        if result.contains(other) {
            let i = result.index_of(other);
            if other != handle {
                assert(list.contains(other)) by {
                    assert(list[if i < at || result == list {
                        i
                    } else {
                        i - 1
                    }] == other);
                }
                let j = handles.index_of(other);
                assert(handles.push(handle)[j] == other);
            } else {
                assert(handles.push(handle)[handles.len() as int] == handle);
            }
        }
        if handles.push(handle).contains(other) {
            let j = handles.push(handle).index_of(other);
            if j < handles.len() {
                assert(handles[j] == other);
                assert(list.contains(other));
                let i = list.index_of(other);
                assert(result[if i < at || result == list {
                    i
                } else {
                    i + 1
                }] == other);
            } else {
                assert(result[at] == handle);
            }
        }
    }
}

proof fn lemma_distinct_sorted_exists(handles: Seq<CryptoHandle>) -> (list: Seq<CryptoHandle>)
    ensures
        is_distinct_sorted(list, handles),
    decreases handles.len(),
{
    if handles.len() == 0 {
        handles
    } else {
        let shorter = lemma_distinct_sorted_exists(handles.drop_last());
        let at = lemma_place_exists(shorter, handles.last());
        lemma_put_in(shorter, handles.drop_last(), handles.last(), at);
        assert(handles.drop_last().push(handles.last()) =~= handles);
        put_in(shorter, handles.last(), at)
    }
}

proof fn lemma_distinct_sorted_unique(a: Seq<CryptoHandle>, b: Seq<CryptoHandle>)
    requires
        strictly_increasing(a),
        strictly_increasing(b),
        forall|handle: CryptoHandle|
            #![trigger a.contains(handle)]
            #![trigger b.contains(handle)]
            a.contains(handle) <==> b.contains(handle),
    ensures
        a == b,
    decreases a.len(),
{
    if a.len() == 0 {
        if b.len() > 0 {
            assert(b.contains(b[0]));
        }
        assert(a =~= b);
    } else {
        assert(a.contains(a.last()));
        assert(b.len() > 0);
        assert(b.contains(b.last()));
        let in_a = a.index_of(b.last());
        let in_b = b.index_of(a.last());
        assert(a[in_a] == b.last() && b[in_b] == a.last());
        assert(a.last() == b.last());
        let shorter_a = a.drop_last();
        let shorter_b = b.drop_last();
        assert forall|handle: CryptoHandle| #[trigger]
            shorter_a.contains(handle) <==> shorter_b.contains(handle) by {
            if shorter_a.contains(handle) {
                assert(a[shorter_a.index_of(handle)] == handle);
                assert(a.contains(handle));
                assert(shorter_b[b.index_of(handle)] == handle);
            }
            if shorter_b.contains(handle) {
                assert(b[shorter_b.index_of(handle)] == handle);
                assert(b.contains(handle));
                assert(shorter_a[a.index_of(handle)] == handle);
            }
        }
        lemma_distinct_sorted_unique(shorter_a, shorter_b);
        assert(a =~= shorter_a.push(a.last()));
        assert(b =~= shorter_b.push(b.last()));
    }
}

/// The list of recipients is strictly increasing, it holds the given handles and
/// no others, and it is the only list that does.
pub proof fn law_distinct_sorted(handles: Seq<CryptoHandle>)
    ensures
        is_distinct_sorted(distinct_sorted(handles), handles),
        forall|list: Seq<CryptoHandle>| #[trigger]
            is_distinct_sorted(list, handles) ==> list == distinct_sorted(handles),
{
    let witness = lemma_distinct_sorted_exists(handles);
    assert(is_distinct_sorted(witness, handles));
    assert forall|list: Seq<CryptoHandle>| #[trigger] is_distinct_sorted(list, handles) implies list
        == distinct_sorted(handles) by {
        assert(is_distinct_sorted(distinct_sorted(handles), handles));
        lemma_distinct_sorted_unique(list, distinct_sorted(handles));
    }
}

/// The list of recipients depends on which handles are given, not on their order
/// nor on how often each is given.
pub proof fn law_recipients_ignore_order_and_repetition(
    handles: Seq<CryptoHandle>,
    others: Seq<CryptoHandle>,
)
    requires
        handles.to_set() == others.to_set(),
    ensures
        distinct_sorted(handles) == distinct_sorted(others),
{
    law_distinct_sorted(handles);
    law_distinct_sorted(others);
    assert forall|handle: CryptoHandle| #[trigger]
        distinct_sorted(handles).contains(handle) <==> others.contains(handle) by {
        assert(handles.contains(handle) <==> handles.to_set().contains(handle));
        assert(others.contains(handle) <==> others.to_set().contains(handle));
    }
    assert(is_distinct_sorted(distinct_sorted(handles), others));
}

/// The strictly increasing list of the given handles.
pub fn remove_duplicates(handles: &Vec<CryptoHandle>) -> (list: Vec<CryptoHandle>)
    ensures
        list@ == distinct_sorted(handles@),
{
    let mut list: Vec<CryptoHandle> = Vec::new();
    for i in 0..handles.len()
        invariant
            is_distinct_sorted(list@, handles@.take(i as int)),
    {
        let handle: CryptoHandle = handles[i];
        let mut low: usize = 0;
        let mut high: usize = list.len();
        while low < high
            invariant
                strictly_increasing(list@),
                low <= high <= list@.len(),
                forall|k: int| 0 <= k < low ==> list@[k] < handle,
                forall|k: int| high <= k < list@.len() ==> handle <= list@[k],
            decreases high - low,
        {
            let middle: usize = low + (high - low) / 2;
            if list[middle] < handle {
                low = middle + 1;
            } else {
                high = middle;
            }
        }
        proof {
            lemma_put_in(list@, handles@.take(i as int), handle, low as int);
            assert(handles@.take(i as int).push(handle) =~= handles@.take(i + 1));
        }
        if low == list.len() || list[low] != handle {
            list.insert(low, handle);
        }
    }
    proof {
        assert(handles@.take(handles@.len() as int) =~= handles@);
        law_distinct_sorted(handles@);
    }
    list
}

} // verus!
