//! The connection registry: live connections keyed by handles. Handles are
//! issued in increasing order, each one once; a connection can be stored
//! under a handle once; and a handle that was removed stays dead.

use std::collections::{HashMap, HashSet};
use vstd::prelude::*;

verus! {

broadcast use vstd::std_specs::hash::group_hash_axioms;

/// What a registry is, mathematically: how many handles it has issued,
/// which of them still wait for their connection, and which connection each
/// live handle stands for.
pub struct RegistryState<C> {
    pub issued: nat,
    pub reserved: Set<usize>,
    pub live: Map<usize, C>,
}

/// One state-changing call on a registry.
pub enum RegistryOp<C> {
    Allocate,
    Insert { handle: usize, connection: C },
    Remove { handle: usize },
}

impl<C> RegistryOp<C> {
    /// Whether this call offers a connection for `handle`.
    pub open spec fn inserts(self, handle: usize) -> bool {
        self matches RegistryOp::Insert { handle: h, .. } && h == handle
    }

    /// Whether this call removes `handle`.
    pub open spec fn removes(self, handle: usize) -> bool {
        self matches RegistryOp::Remove { handle: h } && h == handle
    }
}

impl<C> RegistryState<C> {
    /// Only issued handles are reserved or live, and none is both.
    pub open spec fn wf(self) -> bool {
        &&& self.issued <= usize::MAX
        &&& forall|h: usize| self.reserved.contains(h) ==> h < self.issued
        &&& forall|h: usize| self.live.contains_key(h) ==> h < self.issued
        &&& forall|h: usize| !(self.reserved.contains(h) && self.live.contains_key(h))
    }

    /// The handle that `Allocate` returns in this state, if the handle space
    /// is not used up.
    pub open spec fn next_handle(self) -> Option<usize> {
        if self.issued < usize::MAX {
            Some(self.issued as usize)
        } else {
            None
        }
    }

    /// Whether `handle` has been issued and is neither reserved nor live:
    /// its connection is gone for good.
    pub open spec fn dead(self, handle: usize) -> bool {
        handle < self.issued && !self.reserved.contains(handle) && !self.live.contains_key(handle)
    }

    /// The state after one call. `Allocate` issues and reserves the next
    /// handle, if one is left. `Insert` stores the connection if the handle
    /// is reserved, and only then. `Remove` takes the handle out of use.
    pub open spec fn step(self, op: RegistryOp<C>) -> Self {
        match op {
            RegistryOp::Allocate => if self.issued < usize::MAX {
                RegistryState {
                    issued: self.issued + 1,
                    reserved: self.reserved.insert(self.issued as usize),
                    live: self.live,
                }
            } else {
                self
            },
            RegistryOp::Insert { handle, connection } => if self.reserved.contains(handle) {
                RegistryState {
                    issued: self.issued,
                    reserved: self.reserved.remove(handle),
                    live: self.live.insert(handle, connection),
                }
            } else {
                self
            },
            RegistryOp::Remove { handle } => RegistryState {
                issued: self.issued,
                reserved: self.reserved.remove(handle),
                live: self.live.remove(handle),
            },
        }
    }

    /// The state after a sequence of calls, first call first.
    pub open spec fn run(self, ops: Seq<RegistryOp<C>>) -> Self
        decreases ops.len(),
    {
        if ops.len() == 0 {
            self
        } else {
            self.run(ops.drop_last()).step(ops.last())
        }
    }

    /// The handle that call number `i` of `ops` returned, if it was an
    /// allocation that succeeded.
    pub open spec fn allocated_at(self, ops: Seq<RegistryOp<C>>, i: int) -> Option<usize> {
        if ops[i] is Allocate {
            self.run(ops.take(i)).next_handle()
        } else {
            None
        }
    }

    /// Running one call more is one step from where the shorter run ended.
    pub proof fn lemma_run_take(self, ops: Seq<RegistryOp<C>>, k: int)
        requires
            0 <= k < ops.len(),
        ensures
            self.run(ops.take(k + 1)) == self.run(ops.take(k)).step(ops[k]),
    {
        assert(ops.take(k + 1).drop_last() =~= ops.take(k));
    }

    /// No call ever lowers the count of issued handles.
    pub proof fn lemma_issued_grows(self, ops: Seq<RegistryOp<C>>, i: int, j: int)
        requires
            0 <= i <= j <= ops.len(),
        ensures
            self.run(ops.take(i)).issued <= self.run(ops.take(j)).issued,
        decreases j - i,
    {
        if i < j {
            self.lemma_issued_grows(ops, i, j - 1);
            self.lemma_run_take(ops, j - 1);
        }
    }

    /// Every call leaves a well-formed state well-formed.
    pub proof fn lemma_step_keeps_wf(self, op: RegistryOp<C>)
        requires
            self.wf(),
        ensures
            self.step(op).wf(),
    {
    }

    /// Every sequence of calls leaves a well-formed state well-formed.
    pub proof fn lemma_run_keeps_wf(self, ops: Seq<RegistryOp<C>>)
        requires
            self.wf(),
        ensures
            self.run(ops).wf(),
        decreases ops.len(),
    {
        if ops.len() > 0 {
            self.lemma_run_keeps_wf(ops.drop_last());
            self.run(ops.drop_last()).lemma_step_keeps_wf(ops.last());
        }
    }

    /// Handles come out in strictly increasing order: of two allocations in
    /// one history, the later one returns the larger handle, whatever calls
    /// lie between them. In particular no handle is issued twice.
    pub proof fn lemma_handles_increase(self, ops: Seq<RegistryOp<C>>, i: int, j: int)
        requires
            0 <= i < j < ops.len(),
            self.allocated_at(ops, i) is Some,
            self.allocated_at(ops, j) is Some,
        ensures
            self.allocated_at(ops, i).unwrap() < self.allocated_at(ops, j).unwrap(),
    {
        self.lemma_run_take(ops, i);
        self.lemma_issued_grows(ops, i + 1, j);
    }

    /// No call brings a dead handle back.
    pub proof fn lemma_dead_stays_dead(self, op: RegistryOp<C>, handle: usize)
        requires
            self.dead(handle),
        ensures
            self.step(op).dead(handle),
    {
    }

    /// A handle that was removed after it had been issued is never found
    /// again, whatever calls follow, further inserts under it included.
    pub proof fn lemma_removed_stays_absent(self, ops: Seq<RegistryOp<C>>, i: int, handle: usize)
        requires
            0 <= i < ops.len(),
            ops[i].removes(handle),
            handle < self.run(ops.take(i)).issued,
        ensures
            self.run(ops).dead(handle),
            !self.run(ops).live.contains_key(handle),
        decreases ops.len(),
    {
        let shorter = ops.drop_last();
        if i == ops.len() - 1 {
            assert(shorter =~= ops.take(i));
        } else {
            assert(shorter[i] == ops[i]);
            assert(shorter.take(i) =~= ops.take(i));
            self.lemma_removed_stays_absent(shorter, i, handle);
            self.run(shorter).lemma_dead_stays_dead(ops.last(), handle);
        }
    }

    /// A handle under which a connection was stored is found until it is
    /// removed.
    pub proof fn lemma_inserted_stays_present(self, ops: Seq<RegistryOp<C>>, i: int, handle: usize)
        requires
            0 <= i < ops.len(),
            ops[i].inserts(handle),
            self.run(ops.take(i)).reserved.contains(handle),
            forall|k: int| i < k < ops.len() ==> !(#[trigger] ops[k]).removes(handle),
        ensures
            self.run(ops).live.contains_key(handle),
        decreases ops.len(),
    {
        let shorter = ops.drop_last();
        if i == ops.len() - 1 {
            assert(shorter =~= ops.take(i));
        } else {
            assert(shorter[i] == ops[i]);
            assert(shorter.take(i) =~= ops.take(i));
            assert forall|k: int| i < k < shorter.len() implies !(#[trigger] shorter[k]).removes(
                handle,
            ) by {
                assert(shorter[k] == ops[k]);
            }
            self.lemma_inserted_stays_present(shorter, i, handle);
            assert(ops.last() == ops[ops.len() - 1]);
        }
    }
}

/// Live connections of type `C`, each under the handle it was given.
pub struct Registry<C> {
    clients: HashMap<usize, C>,
    reserved: HashSet<usize>,
    next_id: usize,
}

impl<C> View for Registry<C> {
    type V = Map<usize, C>;

    /// The live connections by handle.
    closed spec fn view(&self) -> Map<usize, C> {
        self.clients@
    }
}

impl<C> Registry<C> {
    /// How many handles have been issued so far; the next one to be issued.
    pub closed spec fn issued(&self) -> nat {
        self.next_id as nat
    }

    /// The handles that have been issued and wait for their connection.
    pub closed spec fn reserved(&self) -> Set<usize> {
        self.reserved@
    }

    /// The registry as a mathematical state.
    pub open spec fn state(&self) -> RegistryState<C> {
        RegistryState { issued: self.issued(), reserved: self.reserved(), live: self@ }
    }

    /// Holds of every registry built by the functions of this type.
    pub open spec fn wf(&self) -> bool {
        self.state().wf()
    }

    /// A registry with no connection and no handle issued.
    pub fn new() -> (registry: Self)
        ensures
            registry.wf(),
            registry.state() == (RegistryState::<C> {
                issued: 0,
                reserved: Set::empty(),
                live: Map::empty(),
            }),
    {
        Registry { clients: HashMap::new(), reserved: HashSet::new(), next_id: 0 }
    }

    /// Issues the next handle and reserves it for one connection. Returns
    /// `None`, and changes nothing, once the handle space is used up.
    pub fn allocate_handle(&mut self) -> (handle: Option<usize>)
        requires
            old(self).wf(),
        ensures
            final(self).wf(),
            handle == old(self).state().next_handle(),
            final(self).state() == old(self).state().step(RegistryOp::Allocate),
    {
        if self.next_id == usize::MAX {
            None
        } else {
            let handle = self.next_id;
            self.reserved.insert(handle);
            self.next_id = handle + 1;
            proof {
                old(self).state().lemma_step_keeps_wf(RegistryOp::Allocate);
                assert(self.state() == old(self).state().step(RegistryOp::Allocate));
            }
            Some(handle)
        }
    }

    /// Stores `connection` under `handle` and returns true, if that handle
    /// is reserved: it was issued and nothing has been stored under it, nor
    /// has it been removed. Otherwise stores nothing and returns false. So
    /// no connection is ever replaced.
    pub fn insert(&mut self, handle: usize, connection: C) -> (stored: bool)
        requires
            old(self).wf(),
        ensures
            final(self).wf(),
            stored == old(self).reserved().contains(handle),
            final(self).state() == old(self).state().step(
                RegistryOp::Insert { handle, connection },
            ),
            stored ==> !old(self)@.contains_key(handle) && final(self)@ == old(self)@.insert(
                handle,
                connection,
            ),
    {
        let ghost op = RegistryOp::Insert { handle, connection };
        proof {
            old(self).state().lemma_step_keeps_wf(op);
        }
        if self.reserved.remove(&handle) {
            self.clients.insert(handle, connection);
            assert(self.state() == old(self).state().step(op));
            true
        } else {
            assert(self.reserved() =~= old(self).reserved());
            assert(self.state() == old(self).state().step(op));
            false
        }
    }

    /// The connection stored under `handle`; `None` when none was stored
    /// or the handle has been removed.
    pub fn lookup(&self, handle: usize) -> (found: Option<&C>)
        ensures
            found == if self@.contains_key(handle) {
                Some(&self@[handle])
            } else {
                None
            },
    {
        self.clients.get(&handle)
    }

    /// Takes `handle` out of use: drops the connection stored under it, or
    /// the reservation if nothing was stored yet. Says whether there was a
    /// connection.
    pub fn remove(&mut self, handle: usize) -> (present: bool)
        requires
            old(self).wf(),
        ensures
            final(self).wf(),
            present == old(self)@.contains_key(handle),
            final(self).state() == old(self).state().step(RegistryOp::Remove { handle }),
            final(self)@ == old(self)@.remove(handle),
    {
        self.reserved.remove(&handle);
        let gone = self.clients.remove(&handle);
        proof {
            old(self).state().lemma_step_keeps_wf(RegistryOp::Remove { handle });
            assert(self.state() == old(self).state().step(RegistryOp::Remove { handle }));
        }
        gone.is_some()
    }
}

} // verus!
