use vstd::prelude::*;

verus! {

/// Whether `id` stands at the head of `q`.
pub open spec fn is_head(q: Seq<u32>, id: u32) -> bool {
    q.len() > 0 && q[0] == id
}

/// Position of the first occurrence of `id` in `q`, scanning from the head,
/// or `q.len()` when `id` does not occur.
pub open spec fn cut_point(q: Seq<u32>, id: u32) -> int
    decreases q.len(),
{
    if q.len() == 0 {
        0
    } else if q[0] == id {
        0
    } else {
        1 + cut_point(q.subrange(1, q.len() as int), id)
    }
}

/// `p` is where a head-first scan for `id` stops.
pub open spec fn is_cut(q: Seq<u32>, id: u32, p: int) -> bool {
    &&& 0 <= p <= q.len()
    &&& forall|i: int| 0 <= i < p ==> q[i] != id
    &&& p < q.len() ==> q[p] == id
}

/// The ids that a cascading abort at `id` discards: `id` and all that follow it.
pub open spec fn cut_suffix(q: Seq<u32>, id: u32) -> Seq<u32> {
    q.subrange(cut_point(q, id), q.len() as int)
}

/// What a cascading abort at `id` keeps: all that precedes `id`.
pub open spec fn cut_prefix(q: Seq<u32>, id: u32) -> Seq<u32> {
    q.subrange(0, cut_point(q, id))
}

/// The scan position exists and is unique.
pub proof fn lemma_cut_point(q: Seq<u32>, id: u32)
    ensures
        is_cut(q, id, cut_point(q, id)),
        forall|p: int| is_cut(q, id, p) ==> p == cut_point(q, id),
    decreases q.len(),
{
    if q.len() > 0 && q[0] != id {
        let t = q.subrange(1, q.len() as int);
        lemma_cut_point(t, id);
        assert forall|i: int| 0 <= i < cut_point(q, id) implies q[i] != id by {
            if i > 0 {
                assert(q[i] == t[i - 1]);
            }
        }
    }
    assert forall|p: int| is_cut(q, id, p) implies p == cut_point(q, id) by {
        let c = cut_point(q, id);
        if p < c {
            assert(q[p] == id);
        } else if c < p {
            assert(q[c] == id);
        }
    }
}

/// A cut splits the queue into the kept prefix and the discarded suffix.
pub proof fn lemma_cut_splits(q: Seq<u32>, id: u32)
    ensures
        cut_prefix(q, id) + cut_suffix(q, id) == q,
        cut_suffix(q, id).len() == 0 <==> !q.contains(id),
        cut_suffix(q, id).len() > 0 ==> cut_suffix(q, id)[0] == id,
        !cut_prefix(q, id).contains(id),
{
    lemma_cut_point(q, id);
    let c = cut_point(q, id);
    assert(cut_prefix(q, id) + cut_suffix(q, id) =~= q);
    if !q.contains(id) {
        if c < q.len() {
            assert(q[c] == id);
        }
    } else {
        let j = choose|j: int| 0 <= j < q.len() && q[j] == id;
        assert(c <= j);
    }
    if cut_prefix(q, id).contains(id) {
        let j = choose|j: int| 0 <= j < c && cut_prefix(q, id)[j] == id;
        assert(q[j] == id);
    }
}

/// Whether `tx_id` is the head of `queue`.
pub fn check_queue_top(queue: Vec<u32>, tx_id: u32) -> (r: bool)
    ensures
        r == is_head(queue@, tx_id),
{
    if queue.len() == 0 {
        return false;
    }
    queue[0] == tx_id
}

/// Cuts `queue` at the first occurrence of `tx_id`, scanning from the head:
/// that id and every id behind it are taken out and returned in queue order.
/// Where `tx_id` does not occur, the queue stays as it is and nothing is returned.
pub fn remove_all_pending_elements(queue: &mut Vec<u32>, tx_id: u32) -> (removed: Vec<u32>)
    ensures
        final(queue)@ == cut_prefix(old(queue)@, tx_id),
        removed@ == cut_suffix(old(queue)@, tx_id),
        final(queue)@ + removed@ == old(queue)@,
        removed@.len() == 0 <==> !old(queue)@.contains(tx_id),
        removed@.len() > 0 ==> removed@[0] == tx_id,
{
    let ghost q = queue@;
    let mut i: usize = 0;
    while i < queue.len() && queue[i] != tx_id
        invariant
            queue@ == q,
            0 <= i <= q.len(),
            forall|j: int| 0 <= j < i ==> q[j] != tx_id,
        decreases q.len() - i,
    {
        i = i + 1;
    }
    proof {
        lemma_cut_point(q, tx_id);
        lemma_cut_splits(q, tx_id);
        assert(is_cut(q, tx_id, i as int));
    }
    queue.split_off(i)
}

} // verus!
