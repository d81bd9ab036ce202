use vstd::prelude::*;

use crate::config::{Config, ConfigurationStore};
use crate::errors::CoreError;

verus! {

/// Which of the three extension shapes an instance runs.
#[derive(Clone, Copy, Debug, PartialEq, Eq)]
pub enum Shape {
    AccessLogger,
    HttpFilter,
    NetworkFilter,
}

/// The lifecycle of one instance:
/// `Created -> Processing -> [Suspended <-> Processing]* -> Completed`.
/// `Completed` is terminal; events delivered to a completed instance are
/// ignored, never an error.
#[derive(Clone, Copy, Debug, PartialEq, Eq)]
pub enum InstanceState {
    Created,
    Processing,
    Suspended,
    Completed,
}

/// What an instance answers to a stream event that neither suspends nor
/// short-circuits: let the host continue the stream, or ignore an event that
/// does not match the instance's current state (never an error).
#[derive(Clone, Copy, Debug, PartialEq, Eq)]
pub enum EventStatus {
    Continue,
    Ignored,
}

/// The outcome of one asynchronous side call, as delivered to the instance
/// that issued it: either the correlated response or a timeout failure.
#[derive(Clone, Copy, Debug, PartialEq, Eq)]
pub enum AsyncOutcome {
    Response(u32),
    TimedOut,
}

/// One live extension instance, bound to a single connection, request or log
/// stream. The configuration snapshot is recorded as the epoch index that was
/// current at creation and never changes afterwards. `pending` holds the
/// handle of the at most one outstanding side call; `delivered` counts the
/// async callbacks this instance has received, and `last_outcome` keeps the
/// most recent one.
#[derive(Clone, Copy, Debug, PartialEq, Eq)]
pub struct Instance {
    pub id: u64,
    pub shape: Shape,
    pub config_epoch: usize,
    pub state: InstanceState,
    pub pending: Option<u64>,
    pub delivered: u64,
    pub last_outcome: Option<AsyncOutcome>,
}

/// The fields every instance starts with.
pub open spec fn fresh_instance(id: u64, shape: Shape, config_epoch: usize) -> Instance {
    Instance {
        id,
        shape,
        config_epoch,
        state: InstanceState::Created,
        pending: None,
        delivered: 0,
        last_outcome: None,
    }
}

/// Whether some live instance carries `id`.
pub open spec fn has_id(s: Seq<Instance>, id: u64) -> bool {
    exists|i: int| 0 <= i < s.len() && s[i].id == id
}

/// The first position that carries `id` (the length of `s` if none does).
pub open spec fn id_index(s: Seq<Instance>, id: u64) -> int
    decreases s.len(),
{
    if s.len() == 0 {
        0
    } else if s[0].id == id {
        0
    } else {
        1 + id_index(s.drop_first(), id)
    }
}

pub proof fn lemma_id_index(s: Seq<Instance>, id: u64)
    requires
        has_id(s, id),
    ensures
        ({
            let i = id_index(s, id);
            &&& 0 <= i < s.len()
            &&& s[i].id == id
            &&& forall|j: int| 0 <= j < i ==> s[j].id != id
        }),
    decreases s.len(),
{
    if s.len() == 0 {
    } else if s[0].id == id {
    } else {
        let k = choose|k: int| 0 <= k < s.len() && s[k].id == id;
        assert(s.drop_first()[k - 1] == s[k]);
        lemma_id_index(s.drop_first(), id);
        let i = id_index(s, id);
        assert(s[i] == s.drop_first()[i - 1]);
        assert forall|j: int| 0 <= j < i implies s[j].id != id by {
            if j >= 1 {
                assert(s.drop_first()[j - 1] == s[j]);
            }
        }
    }
}

/// No two live instances share an id.
pub open spec fn ids_unique(s: Seq<Instance>) -> bool {
    forall|i: int, j: int| 0 <= i < j < s.len() ==> s[i].id != s[j].id
}

/// Updating instances without touching their ids keeps the registry's
/// uniqueness invariant.
pub proof fn lemma_same_ids_wf(s: Seq<Instance>, t: Seq<Instance>)
    requires
        ids_unique(s),
        t.len() == s.len(),
        forall|i: int| 0 <= i < s.len() ==> t[i].id == s[i].id,
    ensures
        ids_unique(t),
{
}

/// Tracks the live per-connection / per-request instances by opaque id.
pub struct InstanceRegistry {
    pub instances: Vec<Instance>,
}

impl InstanceRegistry {
    /// Ids are unique among currently-live instances.
    pub open spec fn wf(&self) -> bool {
        ids_unique(self.instances@)
    }

    /// Creates an empty registry.
    pub fn new() -> (r: InstanceRegistry)
        ensures
            r.wf(),
            r.instances@ =~= Seq::<Instance>::empty(),
    {
        InstanceRegistry { instances: Vec::new() }
    }

    /// The position of the live instance with `id`, if any.
    pub fn index_of(&self, id: u64) -> (r: Option<usize>)
        ensures
            r matches Some(i) ==> i == id_index(self.instances@, id)
                && i < self.instances@.len() && self.instances@[i as int].id == id,
            r is None <==> !has_id(self.instances@, id),
    {
        let n = self.instances.len();
        let mut i: usize = 0;
        while i < n
            invariant
                n == self.instances@.len(),
                i <= n,
                forall|j: int| 0 <= j < i ==> self.instances@[j].id != id,
            decreases n - i,
        {
            if self.instances[i].id == id {
                proof {
                    lemma_id_index(self.instances@, id);
                }
                return Some(i);
            }
            i = i + 1;
        }
        None
    }

    /// Allocates a new instance bound to the configuration epoch active at
    /// call time. Fails with `DuplicateId` if `id` is already live, in which
    /// case nothing changes.
    pub fn create(&mut self, id: u64, shape: Shape, config_epoch: usize) -> (r: Result<
        (),
        CoreError,
    >)
        requires
            old(self).wf(),
        ensures
            final(self).wf(),
            r is Ok <==> !has_id(old(self).instances@, id),
            r is Ok ==> final(self).instances@ =~= old(self).instances@.push(
                fresh_instance(id, shape, config_epoch),
            ),
            r is Err ==> final(self).instances@ == old(self).instances@ && r == Err::<
                (),
                CoreError,
            >(CoreError::DuplicateId),
    {
        match self.index_of(id) {
            Some(_) => Err(CoreError::DuplicateId),
            None => {
                self.instances.push(
                    Instance {
                        id,
                        shape,
                        config_epoch,
                        state: InstanceState::Created,
                        pending: None,
                        delivered: 0,
                        last_outcome: None,
                    },
                );
                Ok(())
            },
        }
    }

    /// Removes the instance with `id`. Removing an absent id is a no-op, not
    /// an error: teardown signals may arrive more than once, or after a late
    /// async resolution has already removed the instance.
    pub fn destroy(&mut self, id: u64) -> (removed: bool)
        requires
            old(self).wf(),
        ensures
            final(self).wf(),
            removed <==> has_id(old(self).instances@, id),
            removed ==> final(self).instances@ =~= old(self).instances@.remove(
                id_index(old(self).instances@, id),
            ),
            !removed ==> final(self).instances@ == old(self).instances@,
    {
        match self.index_of(id) {
            Some(i) => {
                self.instances.remove(i);
                proof {
                    let s = old(self).instances@;
                    let k = i as int;
                    assert forall|a: int, b: int|
                        0 <= a < b < self.instances@.len() implies self.instances@[a].id
                        != self.instances@[b].id by {
                        assert(self.instances@[a] == if a < k {
                            s[a]
                        } else {
                            s[a + 1]
                        });
                        assert(self.instances@[b] == if b < k {
                            s[b]
                        } else {
                            s[b + 1]
                        });
                    }
                }
                true
            },
            None => false,
        }
    }

    /// The live instance with `id`, or `NotFound`.
    pub fn lookup(&self, id: u64) -> (r: Result<&Instance, CoreError>)
        ensures
            r is Ok <==> has_id(self.instances@, id),
            r matches Ok(inst) ==> *inst == self.instances@[id_index(self.instances@, id)],
            r is Err ==> r == Err::<&Instance, CoreError>(CoreError::NotFound),
    {
        match self.index_of(id) {
            Some(i) => Ok(&self.instances[i]),
            None => Err(CoreError::NotFound),
        }
    }
}

impl Instance {
    /// The configuration this instance observes: the snapshot taken at its
    /// creation, unaffected by later republishes.
    pub fn current_config<'a>(&self, store: &'a ConfigurationStore) -> (c: &'a Config)
        requires
            self.config_epoch < store@.len(),
        ensures
            c.source@ == store@[self.config_epoch as int],
    {
        store.config_at(self.config_epoch)
    }
}

} // verus!
