//! Ordering fetched item details to match the requested id order.
//!
//! The server returns item details in its own order and may omit some ids.
//! Each fetched item is ranked by the last position of its id among the
//! requested ids, items whose id was not requested are dropped, and items
//! of equal rank keep their fetched order.

use vstd::prelude::*;
use crate::jellyfin::models::MediaItem;

verus! {

/// `j` is the last position of `ids[j]` in `ids`.
pub open spec fn is_last_occurrence(ids: Seq<String>, j: int) -> bool {
    forall|k: int| j < k < ids.len() ==> #[trigger] ids[k]@ != ids[j]@
}

/// The items of `s` whose id is `id`, in order.
pub open spec fn items_with_id(s: Seq<MediaItem>, id: Seq<char>) -> Seq<MediaItem>
    decreases s.len(),
{
    if s.len() == 0 {
        Seq::empty()
    } else {
        items_with_id(s.drop_last(), id) + if s.last().id@ == id {
            seq![s.last()]
        } else {
            Seq::empty()
        }
    }
}

/// The fetched items ranked by the first `n` requested ids.
pub open spec fn ordered_prefix(items: Seq<MediaItem>, ids: Seq<String>, n: int) -> Seq<MediaItem>
    decreases n,
{
    if n <= 0 {
        Seq::empty()
    } else {
        ordered_prefix(items, ids, n - 1) + if is_last_occurrence(ids, n - 1) {
            items_with_id(items, ids[n - 1]@)
        } else {
            Seq::empty()
        }
    }
}

/// The fetched items in the order of the requested ids.
pub open spec fn ordered_items(items: Seq<MediaItem>, ids: Seq<String>) -> Seq<MediaItem> {
    ordered_prefix(items, ids, ids.len() as int)
}

fn last_occurrence(ids: &Vec<String>, j: usize) -> (r: bool)
    requires
        j < ids.len(),
    ensures
        r == is_last_occurrence(ids@, j as int),
{
    let mut k: usize = j + 1;
    while k < ids.len()
        invariant
            j < k <= ids.len(),
            forall|m: int| j < m < k ==> #[trigger] ids@[m]@ != ids@[j as int]@,
        decreases ids.len() - k,
    {
        if ids[k] == ids[j] {
            return false;
        }
        k = k + 1;
    }
    true
}

fn push_items_with_id(out: &mut Vec<MediaItem>, items: &Vec<MediaItem>, id: &String)
    ensures
        final(out)@ == old(out)@ + items_with_id(items@, id@),
{
    let mut i: usize = 0;
    let ghost base = out@;
    proof {
        assert(items@.subrange(0, 0) =~= Seq::<MediaItem>::empty());
        assert(base + Seq::<MediaItem>::empty() =~= base);
    }
    while i < items.len()
        invariant
            i <= items.len(),
            out@ == base + items_with_id(items@.subrange(0, i as int), id@),
        decreases items.len() - i,
    {
        proof {
            let s = items@.subrange(0, i + 1);
            assert(s.drop_last() =~= items@.subrange(0, i as int));
            assert(s.last() == items@[i as int]);
        }
        if items[i].id == *id {
            out.push(items[i].copy());
            proof {
                let s = items@.subrange(0, i + 1);
                assert(out@ =~= base + items_with_id(s, id@));
            }
        } else {
            proof {
                let s = items@.subrange(0, i + 1);
                assert(out@ =~= base + items_with_id(s, id@));
            }
        }
        i = i + 1;
    }
    proof {
        assert(items@.subrange(0, items@.len() as int) =~= items@);
    }
}

/// Orders fetched items by the requested ids: each item is ranked by the
/// last position of its id in `item_ids`, items with an id that was not
/// requested are dropped, and items of equal rank keep their order.
pub fn order_items_by_ids(items: &Vec<MediaItem>, item_ids: &Vec<String>) -> (r: Vec<MediaItem>)
    ensures
        r@ == ordered_items(items@, item_ids@),
{
    let mut out: Vec<MediaItem> = Vec::new();
    let mut j: usize = 0;
    while j < item_ids.len()
        invariant
            j <= item_ids.len(),
            out@ == ordered_prefix(items@, item_ids@, j as int),
        decreases item_ids.len() - j,
    {
        if last_occurrence(item_ids, j) {
            push_items_with_id(&mut out, items, &item_ids[j]);
        } else {
            proof {
                assert(out@ + Seq::<MediaItem>::empty() =~= out@);
            }
        }
        j = j + 1;
    }
    out
}

/// Every item of the ordered result has an id that was requested.
pub proof fn lemma_ordered_ids_requested(items: Seq<MediaItem>, ids: Seq<String>, n: int, k: int)
    requires
        0 <= n <= ids.len(),
        0 <= k < ordered_prefix(items, ids, n).len(),
    ensures
        exists|j: int| 0 <= j < n && #[trigger] ids[j]@ == ordered_prefix(items, ids, n)[k].id@,
    decreases n,
{
    let prev = ordered_prefix(items, ids, n - 1);
    if k < prev.len() {
        lemma_ordered_ids_requested(items, ids, n - 1, k);
        let j = choose|j: int| 0 <= j < n - 1 && #[trigger] ids[j]@ == prev[k].id@;
        assert(ids[j]@ == ordered_prefix(items, ids, n)[k].id@);
    } else {
        lemma_items_with_id_match(items, ids[n - 1]@, k - prev.len());
        assert(ids[n - 1]@ == ordered_prefix(items, ids, n)[k].id@);
    }
}

proof fn lemma_items_with_id_match(s: Seq<MediaItem>, id: Seq<char>, k: int)
    requires
        0 <= k < items_with_id(s, id).len(),
    ensures
        items_with_id(s, id)[k].id@ == id,
    decreases s.len(),
{
    let prev = items_with_id(s.drop_last(), id);
    if k < prev.len() {
        lemma_items_with_id_match(s.drop_last(), id, k);
    }
}

} // verus!

verus! {

/// The last position of `id` among the requested ids, or -1 when it was
/// not requested.
pub open spec fn last_pos(ids: Seq<String>, id: Seq<char>) -> int
    decreases ids.len(),
{
    if ids.len() == 0 {
        -1
    } else if ids.last()@ == id {
        ids.len() - 1
    } else {
        last_pos(ids.drop_last(), id)
    }
}

proof fn lemma_last_pos_of_last_occurrence(ids: Seq<String>, j: int)
    requires
        0 <= j < ids.len(),
        is_last_occurrence(ids, j),
    ensures
        last_pos(ids, ids[j]@) == j,
    decreases ids.len(),
{
    if j < ids.len() - 1 {
        assert(ids[ids.len() - 1]@ != ids[j]@);
        let u = ids.drop_last();
        assert(u[j] == ids[j]);
        assert forall|k: int| j < k < u.len() implies #[trigger] u[k]@ != u[j]@ by {
            assert(u[k] == ids[k]);
        }
        lemma_last_pos_of_last_occurrence(u, j);
    }
}

proof fn lemma_prefix_ranks(items: Seq<MediaItem>, ids: Seq<String>, n: int, k: int)
    requires
        0 <= n <= ids.len(),
        0 <= k < ordered_prefix(items, ids, n).len(),
    ensures
        0 <= last_pos(ids, ordered_prefix(items, ids, n)[k].id@) < n,
    decreases n,
{
    let prev = ordered_prefix(items, ids, n - 1);
    if k < prev.len() {
        lemma_prefix_ranks(items, ids, n - 1, k);
    } else {
        lemma_items_with_id_match(items, ids[n - 1]@, k - prev.len());
        lemma_last_pos_of_last_occurrence(ids, n - 1);
    }
}

proof fn lemma_prefix_sorted(items: Seq<MediaItem>, ids: Seq<String>, n: int, i: int, j: int)
    requires
        0 <= n <= ids.len(),
        0 <= i < j < ordered_prefix(items, ids, n).len(),
    ensures
        last_pos(ids, ordered_prefix(items, ids, n)[i].id@) <= last_pos(
            ids,
            ordered_prefix(items, ids, n)[j].id@,
        ),
    decreases n,
{
    let prev = ordered_prefix(items, ids, n - 1);
    let cur = ordered_prefix(items, ids, n);
    if j < prev.len() {
        lemma_prefix_sorted(items, ids, n - 1, i, j);
    } else if i < prev.len() {
        lemma_prefix_ranks(items, ids, n - 1, i);
        lemma_items_with_id_match(items, ids[n - 1]@, j - prev.len());
        lemma_last_pos_of_last_occurrence(ids, n - 1);
    } else {
        lemma_items_with_id_match(items, ids[n - 1]@, i - prev.len());
        lemma_items_with_id_match(items, ids[n - 1]@, j - prev.len());
    }
}

/// The ordered items are requested items in the order of the requests:
/// every one has an id that was requested, and an item never comes before
/// one whose id was (last) requested earlier.
pub proof fn lemma_ordered_by_request(items: Seq<MediaItem>, ids: Seq<String>)
    ensures
        forall|k: int|
            0 <= k < ordered_items(items, ids).len() ==> 0 <= #[trigger] last_pos(
                ids,
                ordered_items(items, ids)[k].id@,
            ),
        forall|i: int, j: int|
            0 <= i < j < ordered_items(items, ids).len() ==> #[trigger] last_pos(
                ids,
                ordered_items(items, ids)[i].id@,
            ) <= #[trigger] last_pos(ids, ordered_items(items, ids)[j].id@),
{
    let n = ids.len() as int;
    assert forall|k: int| 0 <= k < ordered_items(items, ids).len() implies 0 <= #[trigger] last_pos(
        ids,
        ordered_items(items, ids)[k].id@,
    ) by {
        lemma_prefix_ranks(items, ids, n, k);
    }
    assert forall|i: int, j: int| 0 <= i < j < ordered_items(items, ids).len() implies #[trigger] last_pos(
        ids,
        ordered_items(items, ids)[i].id@,
    ) <= #[trigger] last_pos(ids, ordered_items(items, ids)[j].id@) by {
        lemma_prefix_sorted(items, ids, n, i, j);
    }
}

} // verus!

verus! {

/// How often `x` occurs in `s`.
pub open spec fn occurrences(s: Seq<MediaItem>, x: MediaItem) -> nat
    decreases s.len(),
{
    if s.len() == 0 {
        0
    } else {
        occurrences(s.drop_last(), x) + if s.last() == x {
            1nat
        } else {
            0nat
        }
    }
}

proof fn lemma_occurrences_append(a: Seq<MediaItem>, b: Seq<MediaItem>, x: MediaItem)
    ensures
        occurrences(a + b, x) == occurrences(a, x) + occurrences(b, x),
    decreases b.len(),
{
    if b.len() == 0 {
        assert(a + b =~= a);
    } else {
        assert((a + b).drop_last() =~= a + b.drop_last());
        lemma_occurrences_append(a, b.drop_last(), x);
    }
}

proof fn lemma_occurrences_with_id(s: Seq<MediaItem>, id: Seq<char>, x: MediaItem)
    ensures
        occurrences(items_with_id(s, id), x) == if x.id@ == id {
            occurrences(s, x)
        } else {
            0
        },
    decreases s.len(),
{
    if s.len() > 0 {
        let tail = if s.last().id@ == id {
            seq![s.last()]
        } else {
            Seq::<MediaItem>::empty()
        };
        lemma_occurrences_with_id(s.drop_last(), id, x);
        lemma_occurrences_append(items_with_id(s.drop_last(), id), tail, x);
        if s.last().id@ == id {
            assert(tail.drop_last() =~= Seq::<MediaItem>::empty());
            assert(tail.len() == 1 && tail.last() == s.last());
            assert(occurrences(tail.drop_last(), x) == 0);
            assert(occurrences(tail, x) == if s.last() == x { 1nat } else { 0nat });
        } else {
            assert(occurrences(tail, x) == 0);
        }
        assert(items_with_id(s, id) == items_with_id(s.drop_last(), id) + tail);
    }
}

proof fn lemma_last_pos_facts(ids: Seq<String>, id: Seq<char>)
    ensures
        last_pos(ids, id) < ids.len(),
        last_pos(ids, id) >= -1,
        last_pos(ids, id) >= 0 ==> ids[last_pos(ids, id)]@ == id && is_last_occurrence(
            ids,
            last_pos(ids, id),
        ),
    decreases ids.len(),
{
    if ids.len() > 0 && ids.last()@ != id {
        let u = ids.drop_last();
        lemma_last_pos_facts(u, id);
        let p = last_pos(u, id);
        if p >= 0 {
            assert(ids[p] == u[p]);
            assert forall|k: int| p < k < ids.len() implies #[trigger] ids[k]@ != ids[p]@ by {
                if k < u.len() {
                    assert(ids[k] == u[k]);
                }
            }
        }
    }
}

proof fn lemma_occurrences_prefix(items: Seq<MediaItem>, ids: Seq<String>, n: int, x: MediaItem)
    requires
        0 <= n <= ids.len(),
    ensures
        occurrences(ordered_prefix(items, ids, n), x) == if 0 <= last_pos(ids, x.id@) < n {
            occurrences(items, x)
        } else {
            0
        },
    decreases n,
{
    lemma_last_pos_facts(ids, x.id@);
    if n > 0 {
        let prev = ordered_prefix(items, ids, n - 1);
        let block = if is_last_occurrence(ids, n - 1) {
            items_with_id(items, ids[n - 1]@)
        } else {
            Seq::<MediaItem>::empty()
        };
        lemma_occurrences_prefix(items, ids, n - 1, x);
        lemma_occurrences_append(prev, block, x);
        if is_last_occurrence(ids, n - 1) {
            lemma_occurrences_with_id(items, ids[n - 1]@, x);
            lemma_last_pos_of_last_occurrence(ids, n - 1);
        }
    }
}

/// The ordered items hold each fetched item whose id was requested exactly
/// as often as the fetched items do, and no other: they are the requested
/// fetched items, rearranged.
pub proof fn lemma_ordered_keeps_requested(items: Seq<MediaItem>, ids: Seq<String>, x: MediaItem)
    ensures
        occurrences(ordered_items(items, ids), x) == if last_pos(ids, x.id@) >= 0 {
            occurrences(items, x)
        } else {
            0
        },
{
    lemma_last_pos_facts(ids, x.id@);
    lemma_occurrences_prefix(items, ids, ids.len() as int, x);
}

} // verus!
