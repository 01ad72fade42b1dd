//! Properties of the ring that hold across operations.
use vstd::prelude::*;
use crate::ring::{filled, PostedWr, RingView, Staged, WorkRequest};

verus! {

/// Every ring operation keeps each descriptor bound to the scatter-gather
/// entry of its own slot.
pub proof fn lemma_binding_kept(v: RingView, e: Staged, op: u32)
    requires
        v.wf(),
        v.bound(),
    ensures
        v.next_step().bound(),
        v.with_cur(-1).bound(),
        v.fill_step(e).bound(),
        v.staged_step(e).bound(),
        v.init_step(op).bound(),
        v.size() > 0 ==> v.freeze_step().bound(),
        v.size() > 0 ==> v.freeze_done_step().bound(),
        v.size() > 0 ==> v.clear_step().bound(),
        v.post_step(e).bound(),
{
    let s = v.staged_step(e);
    assert(s.wf());
    if s.is_full() {
        assert(s.freeze_step().bound());
        assert(s.freeze_step().clear_step().bound());
    }
}

/// Outside the frozen window the links keep forming the cycle: reserving,
/// filling, emptying and posting keep it, and clearing a frozen ring brings
/// it back.
pub proof fn lemma_cycle_kept(v: RingView, e: Staged)
    requires
        v.wf(),
    ensures
        v.cyclic() ==> v.next_step().cyclic(),
        v.cyclic() ==> v.fill_step(e).cyclic(),
        v.cyclic() ==> v.with_cur(-1).cyclic(),
        v.cyclic() ==> v.post_step(e).cyclic(),
        v.cyclic() && v.size() > 0 ==> v.freeze_step().frozen(),
        v.frozen() ==> v.clear_step().cyclic(),
        v.frozen() ==> v.clear_step().size() == 0,
{
    let s = v.staged_step(e);
    if v.cyclic() {
        assert(s.wf());
        if s.is_full() {
            assert(s.freeze_step().frozen());
            assert(s.freeze_step().clear_step().cyclic());
        }
    }
}

/// The slot reached from `i` after `k` links, or `-1` where a link is null
/// or leaves the arena.
pub open spec fn hop(v: RingView, i: int, k: nat) -> int
    decreases k,
{
    if !(0 <= i < v.wrs.len()) {
        -1
    } else if k == 0 {
        i
    } else {
        match v.wrs[i].next {
            None => -1,
            Some(n) => hop(v, n as int, (k - 1) as nat),
        }
    }
}

proof fn lemma_hop_mod(v: RingView, i: int, k: nat)
    requires
        v.wf(),
        v.cyclic(),
        0 <= i < v.capacity,
    ensures
        hop(v, i, k) == (i + k) % v.capacity,
    decreases k,
{
    let c = v.capacity;
    if k == 0 {
        vstd::arithmetic::div_mod::lemma_small_mod(i as nat, c as nat);
    } else {
        assert(v.wrs[i].next == Some(v.succ(i) as usize));
        lemma_hop_mod(v, v.succ(i), (k - 1) as nat);
        if i + 1 == c {
            vstd::arithmetic::div_mod::lemma_mod_add_multiples_vanish((k - 1) as int, c);
            assert((c + (k - 1)) % c == (k - 1) % c);
            assert(i + k == c + (k - 1));
        }
    }
}

/// In a ring whose links form the cycle, the walk from any slot comes back
/// to that slot after exactly `capacity` links, and not before.
pub proof fn lemma_cyclic_closure(v: RingView, i: int)
    requires
        v.wf(),
        v.cyclic(),
        0 <= i < v.capacity,
    ensures
        hop(v, i, v.capacity as nat) == i,
        forall|k: nat| 0 < k < v.capacity ==> #[trigger] hop(v, i, k) != i,
{
    let c = v.capacity;
    lemma_hop_mod(v, i, c as nat);
    vstd::arithmetic::div_mod::lemma_mod_add_multiples_vanish(i, c);
    vstd::arithmetic::div_mod::lemma_small_mod(i as nat, c as nat);
    assert forall|k: nat| 0 < k < c implies #[trigger] hop(v, i, k) != i by {
        lemma_hop_mod(v, i, k);
        if i + k < c {
            vstd::arithmetic::div_mod::lemma_small_mod((i + k) as nat, c as nat);
        } else {
            vstd::arithmetic::div_mod::lemma_mod_add_multiples_vanish(i + k - c, c);
            vstd::arithmetic::div_mod::lemma_small_mod((i + k - c) as nat, c as nat);
        }
    }
}

/// Freezing a filled ring and clearing it right after brings back the cycle
/// and an empty ring, with every descriptor as it was.
pub proof fn lemma_freeze_clear_round_trip(v: RingView)
    requires
        v.wf(),
        v.cyclic(),
        v.is_full(),
    ensures
        v.freeze_step().frozen(),
        v.freeze_step().clear_step().cyclic(),
        v.freeze_step().clear_step().size() == 0,
        v.freeze_step().clear_step().wrs == v.wrs,
        v.freeze_step().clear_step().sges == v.sges,
{
    let w = v.freeze_step().clear_step();
    assert(v.wrs[v.cur].next == Some(v.succ(v.cur) as usize));
    assert(w.wrs[v.cur] == v.wrs[v.cur]);
    assert(w.wrs =~= v.wrs);
}

/// A frozen ring hands the driver its staged slots, in slot order.
pub proof fn lemma_frozen_batch(v: RingView)
    requires
        v.wf(),
        v.frozen(),
    ensures
        v.batch() == v.slots(v.size()),
{
    lemma_walk_frozen(v, 0, v.capacity as nat);
    assert(v.batch() =~= v.slots(v.size()));
}

proof fn lemma_walk_frozen(v: RingView, j: int, fuel: nat)
    requires
        v.wf(),
        v.frozen(),
        0 <= j <= v.cur,
        fuel >= v.cur - j + 1,
    ensures
        v.posted_from(j, fuel) == Seq::new(
            (v.cur - j + 1) as nat,
            |k: int| PostedWr { wr: v.wrs[j + k], sge: v.sges[j + k] },
        ),
    decreases v.cur - j,
{
    let want = Seq::new(
        (v.cur - j + 1) as nat,
        |k: int| PostedWr { wr: v.wrs[j + k], sge: v.sges[j + k] },
    );
    if j == v.cur {
        assert(v.posted_from(j, fuel) =~= want);
    } else {
        assert(v.wrs[j].next == Some(v.succ(j) as usize));
        lemma_walk_frozen(v, j + 1, (fuel - 1) as nat);
        assert(v.posted_from(j, fuel) =~= want);
    }
}

/// The state after posting every operation of `es`, in order.
pub open spec fn post_all(v: RingView, es: Seq<Staged>) -> RingView
    decreases es.len(),
{
    if es.len() == 0 {
        v
    } else {
        post_all(v, es.drop_last()).post_step(es.last())
    }
}

/// Slot `k` after an operation `e` was posted into it over the descriptor `w`.
pub open spec fn posted_slot(w: WorkRequest, e: Staged) -> PostedWr {
    PostedWr { wr: filled(w, e), sge: e.sge }
}

proof fn lemma_post_prefix(v: RingView, es: Seq<Staged>, k: int)
    requires
        v.wf(),
        v.cyclic(),
        v.size() == 0,
        es.len() == v.capacity,
        0 <= k < v.capacity,
    ensures
        ({
            let s = post_all(v, es.take(k));
            &&& s.wf()
            &&& s.cyclic()
            &&& s.size() == k
            &&& s.capacity == v.capacity
            &&& forall|j: int| 0 <= j < k ==> #[trigger] s.wrs[j] == filled(v.wrs[j], es[j])
            &&& forall|j: int| 0 <= j < k ==> #[trigger] s.sges[j] == es[j].sge
            &&& forall|j: int| k <= j < s.wrs.len() ==> #[trigger] s.wrs[j] == v.wrs[j]
            &&& forall|j: int| k <= j < s.sges.len() ==> #[trigger] s.sges[j] == v.sges[j]
        }),
    decreases k,
{
    if k == 0 {
        assert(es.take(0).len() == 0);
    } else {
        lemma_post_prefix(v, es, k - 1);
        let p = post_all(v, es.take(k - 1));
        assert(es.take(k).drop_last() =~= es.take(k - 1));
        assert(es.take(k).last() == es[k - 1]);
        let s = p.staged_step(es[k - 1]);
        assert(!s.is_full());
        assert(post_all(v, es.take(k)) == s);
    }
}

/// Posting `capacity` operations into an empty ring whose links form the
/// cycle hands over no batch until the last one; the last one hands over
/// exactly one batch, holding every operation in the order posted; the ring
/// is then empty again, with its cycle restored.
pub proof fn lemma_auto_flush(v: RingView, es: Seq<Staged>)
    requires
        v.wf(),
        v.cyclic(),
        v.size() == 0,
        es.len() == v.capacity,
    ensures
        forall|k: int|
            0 <= k < es.len() - 1 ==> #[trigger] post_all(v, es.take(k)).post_batch(es[k]) is None,
        post_all(v, es.drop_last()).post_batch(es.last()) == Some(
            Seq::new(
                v.capacity as nat,
                |k: int|
                    if k == v.capacity - 1 {
                        PostedWr {
                            wr: WorkRequest { next: None, ..filled(v.wrs[k], es[k]) },
                            sge: es[k].sge,
                        }
                    } else {
                        posted_slot(v.wrs[k], es[k])
                    },
            ),
        ),
        post_all(v, es).size() == 0,
        post_all(v, es).cyclic(),
        forall|k: int| 0 <= k < v.capacity ==> #[trigger] post_all(v, es).wrs[k] == filled(v.wrs[k], es[k]),
        forall|k: int| 0 <= k < v.capacity ==> #[trigger] post_all(v, es).sges[k] == es[k].sge,
{
    let c = v.capacity;
    assert forall|k: int| 0 <= k < es.len() - 1 implies #[trigger] post_all(v, es.take(k)).post_batch(es[k]) is None by {
        lemma_post_prefix(v, es, k);
    }
    lemma_post_prefix(v, es, c - 1);
    assert(es.drop_last() =~= es.take(c - 1));
    let p = post_all(v, es.drop_last());
    let s = p.staged_step(es.last());
    assert(s.is_full());
    let f = s.freeze_step();
    assert(f.frozen());
    lemma_frozen_batch(f);
    assert(f.batch() =~= Seq::new(
        c as nat,
        |k: int|
            if k == c - 1 {
                PostedWr { wr: WorkRequest { next: None, ..filled(v.wrs[k], es[k]) }, sge: es[k].sge }
            } else {
                posted_slot(v.wrs[k], es[k])
            },
    ));
    let w = f.clear_step();
    assert(post_all(v, es) == w);
    assert(w.wrs =~= s.wrs);
}

} // verus!
