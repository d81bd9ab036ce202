use vstd::prelude::*;

use crate::arith::sat_add;
use crate::correlator::{
    accepts_delivery, delivered_instance, handle_index, has_handle, lemma_handle_index, PendingCall,
};
use crate::instance::{
    has_id, id_index, ids_unique, lemma_id_index, AsyncOutcome, Instance, InstanceState,
};

verus! {

/// `id_index` only looks at ids, so two registries whose instances carry the
/// same ids position by position agree on where any id stands.
proof fn lemma_id_index_same_ids(s: Seq<Instance>, t: Seq<Instance>, id: u64)
    requires
        s.len() == t.len(),
        forall|i: int| 0 <= i < s.len() ==> s[i].id == t[i].id,
    ensures
        id_index(s, id) == id_index(t, id),
    decreases s.len(),
{
    if s.len() == 0 {
    } else if s[0].id == id {
    } else {
        assert forall|i: int|
            0 <= i < s.drop_first().len() implies s.drop_first()[i].id == t.drop_first()[i].id by {
            assert(s.drop_first()[i] == s[i + 1]);
            assert(t.drop_first()[i] == t[i + 1]);
        }
        lemma_id_index_same_ids(s.drop_first(), t.drop_first(), id);
    }
}

/// An issued side call is answered exactly once, and to the instance that
/// issued it.
///
/// Starting from any well-formed correlator (pending handles pairwise
/// distinct and below the allocation counter `nh0`) and registry in which
/// `owner` is live with no outstanding call, this follows the states that the
/// contracts of `issue`, the filter's suspension, and `resolve` prescribe:
/// `c1`/`s1` after `issue` returns the fresh handle `h`, `s1b` after the
/// owner suspends on it, `c2` after `resolve(h)` evicts the entry.
///
/// It concludes that `resolve(h)` finds exactly the entry that `issue`
/// recorded, that its owner is still live at the same position and accepts
/// the delivery — so by `resolve`'s contract the outcome reaches the issuing
/// instance, whose delivery count rises by exactly one — and that afterwards
/// no entry carries `h` any more, so by the same contract a second
/// `resolve(h)` fails with `UnknownHandle` and mutates nothing.
pub proof fn lemma_handle_resolves_once(
    s0: Seq<Instance>,
    c0: Seq<PendingCall>,
    nh0: u64,
    owner: u64,
    timeout: u64,
    now: u64,
    status: u32,
)
    requires
        ids_unique(s0),
        forall|i: int, j: int| 0 <= i < j < c0.len() ==> c0[i].handle != c0[j].handle,
        forall|i: int| 0 <= i < c0.len() ==> c0[i].handle < nh0,
        nh0 < u64::MAX,
        has_id(s0, owner),
        s0[id_index(s0, owner)].pending is None,
    ensures
        ({
            let i0 = id_index(s0, owner);
            let h = nh0;
            let c1 = c0.push(PendingCall { handle: h, owner, deadline: sat_add(now, timeout) });
            let s1 = s0.update(i0, (Instance { pending: Some(h), ..s0[i0] }));
            let s1b = s1.update(i0, (Instance { state: InstanceState::Suspended, ..s1[i0] }));
            let ci = handle_index(c1, h);
            let c2 = c1.remove(ci);
            // resolve(h) finds the entry that issue recorded, owned by `owner`
            &&& has_handle(c1, h)
            &&& ci == c0.len()
            &&& c1[ci].owner == owner
            // the issuing instance is still live at the same position and is
            // suspended on exactly this handle, so the delivery reaches it
            &&& has_id(s1b, owner)
            &&& id_index(s1b, owner) == i0
            &&& accepts_delivery(s1b[i0], h)
            // the delivered callback is the one and only: the count rises by
            // exactly one and the recorded outcome is this response
            &&& delivered_instance(s1b[i0], AsyncOutcome::Response(status)).delivered == sat_add(
                s0[i0].delivered,
                1,
            )
            &&& delivered_instance(s1b[i0], AsyncOutcome::Response(status)).last_outcome == Some(
                AsyncOutcome::Response(status),
            )
            // the handle is spent: no pending entry carries it any more
            &&& !has_handle(c2, h)
        }),
{
    let i0 = id_index(s0, owner);
    let h = nh0;
    let entry = PendingCall { handle: h, owner, deadline: sat_add(now, timeout) };
    let c1 = c0.push(entry);
    let s1 = s0.update(i0, (Instance { pending: Some(h), ..s0[i0] }));
    let s1b = s1.update(i0, (Instance { state: InstanceState::Suspended, ..s1[i0] }));
    lemma_id_index(s0, owner);
    assert(c1[c0.len() as int] == entry);
    assert(has_handle(c1, h));
    lemma_handle_index(c1, h);
    let ci = handle_index(c1, h);
    if ci < c0.len() {
        assert(c1[ci] == c0[ci]);
        assert(false);
    }
    assert(ci == c0.len());
    assert(s1b[i0].id == owner);
    assert(has_id(s1b, owner));
    lemma_id_index_same_ids(s0, s1b, owner);
    let c2 = c1.remove(ci);
    assert forall|i: int| 0 <= i < c2.len() implies c2[i].handle != h by {
        assert(c2[i] == c0[i]);
    }
}

/// A second `issue` while a call is outstanding is rejected and the original
/// pending call is unaffected.
///
/// After a successful `issue` of handle `h` for `owner`, the owner holds a
/// pending handle — exactly the condition under which `issue`'s contract
/// answers a further call for the same owner with `InstanceAlreadyPending`
/// and leaves correlator and registry unchanged — and the entry recorded for
/// the original call is still pending.
pub proof fn lemma_second_issue_rejected(
    s0: Seq<Instance>,
    c0: Seq<PendingCall>,
    nh0: u64,
    owner: u64,
    timeout: u64,
    now: u64,
)
    requires
        ids_unique(s0),
        has_id(s0, owner),
        s0[id_index(s0, owner)].pending is None,
    ensures
        ({
            let i0 = id_index(s0, owner);
            let h = nh0;
            let c1 = c0.push(PendingCall { handle: h, owner, deadline: sat_add(now, timeout) });
            let s1 = s0.update(i0, (Instance { pending: Some(h), ..s0[i0] }));
            &&& has_id(s1, owner)
            &&& id_index(s1, owner) == i0
            &&& s1[id_index(s1, owner)].pending is Some
            &&& has_handle(c1, h)
        }),
{
    let i0 = id_index(s0, owner);
    let h = nh0;
    let c1 = c0.push(PendingCall { handle: h, owner, deadline: sat_add(now, timeout) });
    let s1 = s0.update(i0, (Instance { pending: Some(h), ..s0[i0] }));
    lemma_id_index(s0, owner);
    assert(s1[i0].id == owner);
    assert(has_id(s1, owner));
    lemma_id_index_same_ids(s0, s1, owner);
    assert(c1[c0.len() as int].handle == h);
}

/// A handle that was never issued is not pending, so by `resolve`'s
/// contract the attempt fails with `UnknownHandle` and mutates nothing.
///
/// In a well-formed correlator every pending handle was allocated below the
/// counter, and handles at or above it are exactly the ones never handed
/// out.
pub proof fn lemma_unissued_handle_unknown(c: Seq<PendingCall>, next_handle: u64, h: u64)
    requires
        forall|i: int| 0 <= i < c.len() ==> c[i].handle < next_handle,
        h >= next_handle,
    ensures
        !has_handle(c, h),
{
}

/// An async outcome that arrives after the owning instance was destroyed is
/// dropped.
///
/// Destroying the only live instance with the owner's id leaves no live
/// instance with that id — exactly the condition under which `resolve` and a
/// firing deadline evict the pending entry but, by their contracts, change no
/// instance at all: a late resolution or timeout is a silent no-op.
pub proof fn lemma_outcome_after_destroy_dropped(s: Seq<Instance>, owner: u64)
    requires
        ids_unique(s),
        has_id(s, owner),
    ensures
        !has_id(s.remove(id_index(s, owner)), owner),
{
    lemma_id_index(s, owner);
    let k = id_index(s, owner);
    let rest = s.remove(k);
    assert forall|i: int| 0 <= i < rest.len() implies rest[i].id != owner by {
        if i < k {
            assert(rest[i] == s[i]);
        } else {
            assert(rest[i] == s[i + 1]);
        }
    }
}

} // verus!
