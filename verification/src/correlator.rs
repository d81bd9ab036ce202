use vstd::prelude::*;

use crate::arith::sat_add;
use crate::errors::CoreError;
use crate::instance::{
    has_id, id_index, lemma_id_index, AsyncOutcome, Instance, InstanceRegistry, InstanceState,
};

verus! {

/// One outstanding side call: its correlation handle, the id of the owning
/// instance, and the deadline by which a response must have arrived.
#[derive(Clone, Copy, Debug, PartialEq, Eq)]
pub struct PendingCall {
    pub handle: u64,
    pub owner: u64,
    pub deadline: u64,
}

/// Whether some pending call carries `h`.
pub open spec fn has_handle(s: Seq<PendingCall>, h: u64) -> bool {
    exists|i: int| 0 <= i < s.len() && s[i].handle == h
}

/// The first position that carries `h` (the length of `s` if none does).
pub open spec fn handle_index(s: Seq<PendingCall>, h: u64) -> int
    decreases s.len(),
{
    if s.len() == 0 {
        0
    } else if s[0].handle == h {
        0
    } else {
        1 + handle_index(s.drop_first(), h)
    }
}

pub proof fn lemma_handle_index(s: Seq<PendingCall>, h: u64)
    requires
        has_handle(s, h),
    ensures
        ({
            let i = handle_index(s, h);
            &&& 0 <= i < s.len()
            &&& s[i].handle == h
            &&& forall|j: int| 0 <= j < i ==> s[j].handle != h
        }),
    decreases s.len(),
{
    if s.len() == 0 {
    } else if s[0].handle == h {
    } else {
        let k = choose|k: int| 0 <= k < s.len() && s[k].handle == h;
        assert(s.drop_first()[k - 1] == s[k]);
        lemma_handle_index(s.drop_first(), h);
        let i = handle_index(s, h);
        assert(s[i] == s.drop_first()[i - 1]);
        assert forall|j: int| 0 <= j < i implies s[j].handle != h by {
            if j >= 1 {
                assert(s.drop_first()[j - 1] == s[j]);
            }
        }
    }
}

/// Whether some pending call is due at time `now`.
pub open spec fn has_due(s: Seq<PendingCall>, now: u64) -> bool {
    exists|i: int| 0 <= i < s.len() && s[i].deadline <= now
}

/// The first position whose deadline has passed (the length of `s` if none).
pub open spec fn due_index(s: Seq<PendingCall>, now: u64) -> int
    decreases s.len(),
{
    if s.len() == 0 {
        0
    } else if s[0].deadline <= now {
        0
    } else {
        1 + due_index(s.drop_first(), now)
    }
}

pub proof fn lemma_due_index(s: Seq<PendingCall>, now: u64)
    requires
        has_due(s, now),
    ensures
        ({
            let i = due_index(s, now);
            &&& 0 <= i < s.len()
            &&& s[i].deadline <= now
            &&& forall|j: int| 0 <= j < i ==> s[j].deadline > now
        }),
    decreases s.len(),
{
    if s.len() == 0 {
    } else if s[0].deadline <= now {
    } else {
        let k = choose|k: int| 0 <= k < s.len() && s[k].deadline <= now;
        assert(s.drop_first()[k - 1] == s[k]);
        lemma_due_index(s.drop_first(), now);
        let i = due_index(s, now);
        assert(s[i] == s.drop_first()[i - 1]);
        assert forall|j: int| 0 <= j < i implies s[j].deadline > now by {
            if j >= 1 {
                assert(s.drop_first()[j - 1] == s[j]);
            }
        }
    }
}

/// An instance only accepts an async outcome while it is suspended on
/// exactly that handle; in every other situation the delivery is dropped.
pub open spec fn accepts_delivery(inst: Instance, h: u64) -> bool {
    inst.state is Suspended && inst.pending == Some(h)
}

/// The instance after one async outcome has been delivered to it: it resumes
/// processing, its pending handle is spent, and the outcome is recorded.
pub open spec fn delivered_instance(inst: Instance, o: AsyncOutcome) -> Instance {
    Instance {
        state: InstanceState::Processing,
        pending: None,
        delivered: sat_add(inst.delivered, 1),
        last_outcome: Some(o),
        ..inst
    }
}

/// The correlator is unchanged between `c0` and `c1`.
pub open spec fn correlator_unchanged(c0: AsyncCallCorrelator, c1: AsyncCallCorrelator) -> bool {
    c1.calls@ == c0.calls@ && c1.next_handle == c0.next_handle
}

/// Whether `resolve` (or a firing deadline) reached the owning instance, or
/// was silently dropped because that instance is gone or no longer suspended
/// on the handle.
#[derive(Clone, Copy, Debug, PartialEq, Eq)]
pub enum Delivery {
    Delivered,
    Dropped,
}

/// Matches outbound side-call handles to the instance awaiting their
/// response. Handles are allocated from a counter and never reused, each
/// entry is evicted exactly once — by `resolve` or by its deadline firing,
/// never both — and a delivery whose owning instance has already been
/// destroyed is dropped silently.
pub struct AsyncCallCorrelator {
    pub calls: Vec<PendingCall>,
    pub next_handle: u64,
}

impl AsyncCallCorrelator {
    /// Handles of pending calls are pairwise distinct and were all allocated
    /// below the counter, so a handle about to be allocated is fresh.
    pub open spec fn wf(&self) -> bool {
        &&& forall|i: int, j: int|
            0 <= i < j < self.calls@.len() ==> self.calls@[i].handle != self.calls@[j].handle
        &&& forall|i: int| 0 <= i < self.calls@.len() ==> self.calls@[i].handle < self.next_handle
    }

    /// Creates a correlator with no calls in flight.
    pub fn new() -> (r: AsyncCallCorrelator)
        ensures
            r.wf(),
            r.calls@ =~= Seq::<PendingCall>::empty(),
            r.next_handle == 0,
    {
        AsyncCallCorrelator { calls: Vec::new(), next_handle: 0 }
    }

    /// The position of the pending call with handle `h`, if any.
    fn call_index(&self, h: u64) -> (r: Option<usize>)
        ensures
            r matches Some(i) ==> i == handle_index(self.calls@, h) && i < self.calls@.len()
                && self.calls@[i as int].handle == h,
            r is None <==> !has_handle(self.calls@, h),
    {
        let n = self.calls.len();
        let mut i: usize = 0;
        while i < n
            invariant
                n == self.calls@.len(),
                i <= n,
                forall|j: int| 0 <= j < i ==> self.calls@[j].handle != h,
            decreases n - i,
        {
            if self.calls[i].handle == h {
                proof {
                    lemma_handle_index(self.calls@, h);
                }
                return Some(i);
            }
            i = i + 1;
        }
        None
    }

    /// Records a pending mapping from a fresh handle to the owning instance
    /// and starts its deadline at `now + timeout`. Fails with
    /// `InstanceAlreadyPending`, changing nothing, if the owner already has
    /// an outstanding handle; fails with `NotFound` if the owner is not live.
    pub fn issue(
        &mut self,
        reg: &mut InstanceRegistry,
        owner: u64,
        timeout: u64,
        now: u64,
    ) -> (r: Result<u64, CoreError>)
        requires
            old(self).wf(),
            old(reg).wf(),
            old(self).next_handle < u64::MAX,
        ensures
            final(self).wf(),
            final(reg).wf(),
            ({
                let s = old(reg).instances@;
                let c = old(self).calls@;
                if !has_id(s, owner) {
                    &&& r == Err::<u64, CoreError>(CoreError::NotFound)
                    &&& final(self).calls@ == c
                    &&& final(self).next_handle == old(self).next_handle
                    &&& final(reg).instances@ == s
                } else if s[id_index(s, owner)].pending is Some {
                    &&& r == Err::<u64, CoreError>(CoreError::InstanceAlreadyPending)
                    &&& final(self).calls@ == c
                    &&& final(self).next_handle == old(self).next_handle
                    &&& final(reg).instances@ == s
                } else {
                    let h = old(self).next_handle;
                    let inst = s[id_index(s, owner)];
                    &&& r == Ok::<u64, CoreError>(h)
                    &&& !has_handle(c, h)
                    &&& final(self).next_handle == h + 1
                    &&& final(self).calls@ =~= c.push(
                        PendingCall { handle: h, owner, deadline: sat_add(now, timeout) },
                    )
                    &&& final(reg).instances@ =~= s.update(
                        id_index(s, owner),
                        (Instance { pending: Some(h), ..inst }),
                    )
                }
            }),
    {
        match reg.index_of(owner) {
            None => Err(CoreError::NotFound),
            Some(i) => {
                let inst = reg.instances[i];
                match inst.pending {
                    Some(_) => Err(CoreError::InstanceAlreadyPending),
                    None => {
                        let h = self.next_handle;
                        self.next_handle = h + 1;
                        let deadline = if timeout > u64::MAX - now {
                            u64::MAX
                        } else {
                            now + timeout
                        };
                        self.calls.push(PendingCall { handle: h, owner, deadline });
                        reg.instances[i] = Instance { pending: Some(h), ..inst };
                        proof {
                            let s = old(reg).instances@;
                            assert forall|a: int, b: int|
                                0 <= a < b < self.calls@.len() implies self.calls@[a].handle
                                != self.calls@[b].handle by {}
                            assert forall|a: int, b: int|
                                0 <= a < b < reg.instances@.len() implies reg.instances@[a].id
                                != reg.instances@[b].id by {
                                assert(s[a].id != s[b].id);
                            }
                        }
                        Ok(h)
                    },
                }
            },
        }
    }

    /// Looks up the pending entry for `handle`, evicts it, and delivers
    /// `status` to the owning instance. Fails with `UnknownHandle`, changing
    /// nothing, if the handle was never issued or was already resolved or
    /// timed out. If the owner has been destroyed in the meantime, or is no
    /// longer suspended on this handle, the eviction still happens but the
    /// delivery is dropped silently.
    pub fn resolve(
        &mut self,
        reg: &mut InstanceRegistry,
        handle: u64,
        status: u32,
    ) -> (r: Result<Delivery, CoreError>)
        requires
            old(self).wf(),
            old(reg).wf(),
        ensures
            final(self).wf(),
            final(reg).wf(),
            final(self).next_handle == old(self).next_handle,
            ({
                let c = old(self).calls@;
                let s = old(reg).instances@;
                if !has_handle(c, handle) {
                    &&& r == Err::<Delivery, CoreError>(CoreError::UnknownHandle)
                    &&& final(self).calls@ == c
                    &&& final(reg).instances@ == s
                } else {
                    let ci = handle_index(c, handle);
                    let owner = c[ci].owner;
                    &&& final(self).calls@ =~= c.remove(ci)
                    &&& !has_handle(final(self).calls@, handle)
                    &&& if has_id(s, owner) && accepts_delivery(s[id_index(s, owner)], handle) {
                        &&& r == Ok::<Delivery, CoreError>(Delivery::Delivered)
                        &&& final(reg).instances@ =~= s.update(
                            id_index(s, owner),
                            delivered_instance(
                                s[id_index(s, owner)],
                                AsyncOutcome::Response(status),
                            ),
                        )
                    } else {
                        &&& r == Ok::<Delivery, CoreError>(Delivery::Dropped)
                        &&& final(reg).instances@ == s
                    }
                }
            }),
    {
        match self.call_index(handle) {
            None => Err(CoreError::UnknownHandle),
            Some(ci) => {
                let entry = self.calls.remove(ci);
                proof {
                    lemma_evicted(old(self).calls@, ci as int, handle);
                }
                let delivered = deliver(reg, entry.owner, handle, AsyncOutcome::Response(status));
                if delivered {
                    Ok(Delivery::Delivered)
                } else {
                    Ok(Delivery::Dropped)
                }
            },
        }
    }

    /// Fires the first pending call whose deadline has passed: evicts it and
    /// delivers a `TimedOut` outcome to the owning instance exactly as if it
    /// were a resolve with a failure payload, with the same silent-drop rule
    /// for instances that are already gone. Returns the handle that fired,
    /// or `None`, changing nothing, if no deadline has passed.
    pub fn fire_due(&mut self, reg: &mut InstanceRegistry, now: u64) -> (r: Option<u64>)
        requires
            old(self).wf(),
            old(reg).wf(),
        ensures
            final(self).wf(),
            final(reg).wf(),
            final(self).next_handle == old(self).next_handle,
            ({
                let c = old(self).calls@;
                let s = old(reg).instances@;
                if !has_due(c, now) {
                    &&& r is None
                    &&& final(self).calls@ == c
                    &&& final(reg).instances@ == s
                } else {
                    let ci = due_index(c, now);
                    let handle = c[ci].handle;
                    let owner = c[ci].owner;
                    &&& r == Some(handle)
                    &&& final(self).calls@ =~= c.remove(ci)
                    &&& !has_handle(final(self).calls@, handle)
                    &&& if has_id(s, owner) && accepts_delivery(s[id_index(s, owner)], handle) {
                        final(reg).instances@ =~= s.update(
                            id_index(s, owner),
                            delivered_instance(s[id_index(s, owner)], AsyncOutcome::TimedOut),
                        )
                    } else {
                        final(reg).instances@ == s
                    }
                }
            }),
    {
        let n = self.calls.len();
        let mut i: usize = 0;
        while i < n
            invariant
                old(self).wf(),
                old(reg).wf(),
                self.calls@ == old(self).calls@,
                self.next_handle == old(self).next_handle,
                reg.instances@ == old(reg).instances@,
                n == self.calls@.len(),
                i <= n,
                forall|j: int| 0 <= j < i ==> self.calls@[j].deadline > now,
            decreases n - i,
        {
            if self.calls[i].deadline <= now {
                proof {
                    lemma_due_index(self.calls@, now);
                }
                let entry = self.calls.remove(i);
                proof {
                    lemma_evicted(old(self).calls@, i as int, entry.handle);
                }
                deliver(reg, entry.owner, entry.handle, AsyncOutcome::TimedOut);
                return Some(entry.handle);
            }
            i = i + 1;
        }
        None
    }
}

/// After the entry at `ci` (the first one carrying `handle`) is removed from
/// a well-formed call list, no entry carries `handle` any more: a handle is
/// evicted exactly once.
proof fn lemma_evicted(c: Seq<PendingCall>, ci: int, handle: u64)
    requires
        0 <= ci < c.len(),
        c[ci].handle == handle,
        forall|i: int, j: int| 0 <= i < j < c.len() ==> c[i].handle != c[j].handle,
    ensures
        !has_handle(c.remove(ci), handle),
{
    let rest = c.remove(ci);
    assert forall|i: int| 0 <= i < rest.len() implies rest[i].handle != handle by {
        if i < ci {
            assert(rest[i] == c[i]);
        } else {
            assert(rest[i] == c[i + 1]);
        }
    }
}

/// Hands one async outcome to the instance that issued the call. The
/// delivery happens exactly when the owner is still live and suspended on
/// this very handle; a late or stale outcome changes nothing.
fn deliver(reg: &mut InstanceRegistry, owner: u64, handle: u64, outcome: AsyncOutcome) -> (d: bool)
    requires
        old(reg).wf(),
    ensures
        final(reg).wf(),
        ({
            let s = old(reg).instances@;
            if has_id(s, owner) && accepts_delivery(s[id_index(s, owner)], handle) {
                &&& d
                &&& final(reg).instances@ =~= s.update(
                    id_index(s, owner),
                    delivered_instance(s[id_index(s, owner)], outcome),
                )
            } else {
                &&& !d
                &&& final(reg).instances@ == s
            }
        }),
{
    match reg.index_of(owner) {
        None => false,
        Some(i) => {
            let inst = reg.instances[i];
            let suspended = match inst.state {
                InstanceState::Suspended => true,
                _ => false,
            };
            let own_handle = match inst.pending {
                Some(h) => h == handle,
                None => false,
            };
            if suspended && own_handle {
                let delivered = if inst.delivered < u64::MAX {
                    inst.delivered + 1
                } else {
                    u64::MAX
                };
                reg.instances[i] = Instance {
                    state: InstanceState::Processing,
                    pending: None,
                    delivered,
                    last_outcome: Some(outcome),
                    ..inst
                };
                proof {
                    let s = old(reg).instances@;
                    assert forall|a: int, b: int|
                        0 <= a < b < reg.instances@.len() implies reg.instances@[a].id
                        != reg.instances@[b].id by {
                        assert(s[a].id != s[b].id);
                    }
                }
                true
            } else {
                false
            }
        },
    }
}

} // verus!
