//! Per-type asset storage with a two-phase commit protocol.
//!
//! One [`Assets`] store exists per asset type.  The load pipeline pushes
//! decoded versions into the *uncommitted* side with
//! [`Assets::update_asset`]; a later [`Assets::commit_asset_version`]
//! moves the entry to the *committed* side, where readers can see it, and
//! [`Assets::free`] drops an entry — but only if it still holds the exact
//! version being freed, so a slower free can never tear down a newer
//! hot-reloaded generation.  Indirect handles are re-resolved against the
//! indirection table on every access, and every change to the committed
//! state queues an [`AssetEvent`].

use vstd::prelude::*;

use crate::Asset;
use crate::AssetEvent;
use crate::AssetTypeId;
use crate::handle::AssetHandle;
use crate::handle::Handle;
use crate::handle::HandleAllocator;
use crate::handle::LoadHandle;
use crate::handle::WeakHandle;
use crate::table::SlotTable;

verus! {

/// One stored version of an asset.
pub struct AssetState<A> {
    pub version: u32,
    pub asset: A,
}

/// The error handed back when the load pipeline's payload for a slot
/// could not be decoded.  The slot stays absent; the pipeline may retry.
#[derive(Debug, Clone, PartialEq, Eq)]
pub struct DecodeError {
    pub message: String,
}

/// The direct load handle with the given id.
pub open spec fn spec_direct(id: u64) -> LoadHandle {
    LoadHandle { id, indirect: false }
}

/// The weak handle carried by events about the slot `id`.
pub open spec fn spec_weak<A: Asset>(id: u64) -> WeakHandle<A> {
    WeakHandle { load_handle: spec_direct(id), marker: core::marker::PhantomData }
}

/// The event queued when slot `id` is added, committed, or mutably
/// borrowed at `version`.
pub open spec fn modified_event<A: Asset>(id: u64, version: u32) -> AssetEvent<A> {
    AssetEvent::Modified { handle: spec_weak(id), version }
}

/// The event queued when slot `id` leaves the committed state at
/// `version`.
pub open spec fn removed_event<A: Asset>(id: u64, version: u32) -> AssetEvent<A> {
    AssetEvent::Removed { handle: spec_weak(id), version }
}

/// The per-type asset cache: committed and uncommitted versioned entries,
/// the indirection table consulted on every access, a handle allocator
/// for programmatic inserts, and the outgoing event queue.
pub struct Assets<A: Asset> {
    committed: SlotTable<AssetState<A>>,
    uncommitted: SlotTable<AssetState<A>>,
    indirection: SlotTable<u64>,
    allocator: HandleAllocator,
    events: Vec<AssetEvent<A>>,
}

impl<A: Asset> Assets<A> {
    /// Both entry tables and the indirection table are well-formed.
    pub closed spec fn wf(&self) -> bool {
        self.committed.wf() && self.uncommitted.wf() && self.indirection.wf()
    }

    /// The committed entries: what readers can see.
    pub closed spec fn spec_committed(&self) -> Map<u64, AssetState<A>> {
        self.committed@
    }

    /// The decoded-but-not-yet-visible entries.
    pub closed spec fn spec_uncommitted(&self) -> Map<u64, AssetState<A>> {
        self.uncommitted@
    }

    /// The indirection table: indirect slot id to direct slot id.
    pub closed spec fn spec_indirection(&self) -> Map<u64, u64> {
        self.indirection@
    }

    /// The queued events, oldest first.
    pub closed spec fn spec_events(&self) -> Seq<AssetEvent<A>> {
        self.events@
    }

    /// The id the next programmatic insert will use.
    pub closed spec fn spec_next_handle(&self) -> u64 {
        self.allocator.spec_next()
    }

    /// The committed keys in insertion order (the deterministic iteration
    /// order of `iter` and `ids`).
    pub closed spec fn spec_committed_keys(&self) -> Seq<u64> {
        self.committed.spec_keys()
    }

    /// What a load handle resolves to right now: a direct handle is
    /// itself; an indirect one is whatever the indirection table maps it
    /// to, or nothing while unresolved.
    pub open spec fn spec_resolve(&self, lh: LoadHandle) -> Option<u64> {
        if !lh.indirect {
            Some(lh.id)
        } else if self.spec_indirection().dom().contains(lh.id) {
            Some(self.spec_indirection()[lh.id])
        } else {
            None
        }
    }

    /// The committed entry a handle denotes, after resolution; `None`
    /// when unresolved, never loaded, or freed.
    pub open spec fn spec_get(&self, lh: LoadHandle) -> Option<AssetState<A>> {
        match self.spec_resolve(lh) {
            Some(id) => if self.spec_committed().dom().contains(id) {
                Some(self.spec_committed()[id])
            } else {
                None
            },
            None => None,
        }
    }

    /// An empty store whose allocator starts at `first_handle_id`.
    pub fn new(first_handle_id: u64) -> (r: Assets<A>)
        ensures
            r.wf(),
            r.spec_committed() == Map::<u64, AssetState<A>>::empty(),
            r.spec_uncommitted() == Map::<u64, AssetState<A>>::empty(),
            r.spec_indirection() == Map::<u64, u64>::empty(),
            r.spec_events() == Seq::<AssetEvent<A>>::empty(),
            r.spec_next_handle() == first_handle_id,
    {
        Assets {
            committed: SlotTable::new(),
            uncommitted: SlotTable::new(),
            indirection: SlotTable::new(),
            allocator: HandleAllocator::new(first_handle_id),
            events: Vec::new(),
        }
    }

    /// Resolve a handle to the direct handle it currently denotes.  This
    /// must be re-done immediately before every storage access: the
    /// indirection table may be repointed at any time.
    pub fn resolve_handle(&self, load_handle: LoadHandle) -> (r: Option<LoadHandle>)
        requires
            self.wf(),
        ensures
            match r {
                Some(h) => !h.indirect && self.spec_resolve(load_handle) == Some(h.id),
                None => self.spec_resolve(load_handle) is None,
            },
    {
        if load_handle.is_indirect() {
            match self.indirection.get(load_handle.handle_id()) {
                Some(id) => Some(LoadHandle::new_direct(*id)),
                None => None,
            }
        } else {
            Some(LoadHandle { id: load_handle.id, indirect: load_handle.indirect })
        }
    }

    /// Point the indirection entry `indirect` at the direct slot
    /// `direct`, replacing any earlier target.  This is the mutation the
    /// external name-resolution collaborator performs.
    pub fn set_indirection(&mut self, indirect: LoadHandle, direct: LoadHandle)
        requires
            old(self).wf(),
            indirect.indirect,
            !direct.indirect,
        ensures
            final(self).wf(),
            final(self).spec_indirection() == old(self).spec_indirection().insert(
                indirect.id,
                direct.id,
            ),
            final(self).spec_committed() == old(self).spec_committed(),
            final(self).spec_uncommitted() == old(self).spec_uncommitted(),
            final(self).spec_events() == old(self).spec_events(),
            final(self).spec_next_handle() == old(self).spec_next_handle(),
            final(self).spec_committed_keys() == old(self).spec_committed_keys(),
    {
        self.indirection.insert(indirect.handle_id(), direct.handle_id());
    }

    /// Read the committed asset a handle denotes, if any.
    pub fn get<T: AssetHandle>(&self, handle: &T) -> (r: Option<&A>)
        requires
            self.wf(),
        ensures
            r is Some <==> self.spec_get(handle.spec_load_handle()) is Some,
            r matches Some(a) ==> (self.spec_get(handle.spec_load_handle()) matches Some(st)
                && *a == st.asset),
    {
        let resolved = match self.resolve_handle(handle.load_handle()) {
            Some(h) => h,
            None => {
                return None;
            },
        };
        match self.committed.get(resolved.handle_id()) {
            Some(st) => Some(&st.asset),
            None => None,
        }
    }

    /// Read the version of the committed entry a handle denotes, if any.
    pub fn get_version<T: AssetHandle>(&self, handle: &T) -> (r: Option<u32>)
        requires
            self.wf(),
        ensures
            r is Some <==> self.spec_get(handle.spec_load_handle()) is Some,
            r matches Some(v) ==> (self.spec_get(handle.spec_load_handle()) matches Some(st)
                && v == st.version),
    {
        let resolved = match self.resolve_handle(handle.load_handle()) {
            Some(h) => h,
            None => {
                return None;
            },
        };
        match self.committed.get(resolved.handle_id()) {
            Some(st) => Some(st.version),
            None => None,
        }
    }

    /// Read the committed asset and its version together, if any.
    pub fn get_asset_with_version<T: AssetHandle>(&self, handle: &T) -> (r: Option<(&A, u32)>)
        requires
            self.wf(),
        ensures
            r is Some <==> self.spec_get(handle.spec_load_handle()) is Some,
            r matches Some(p) ==> (self.spec_get(handle.spec_load_handle()) matches Some(st)
                && *p.0 == st.asset && p.1 == st.version),
    {
        let resolved = match self.resolve_handle(handle.load_handle()) {
            Some(h) => h,
            None => {
                return None;
            },
        };
        match self.committed.get(resolved.handle_id()) {
            Some(st) => Some((&st.asset, st.version)),
            None => None,
        }
    }

    /// Insert a runtime-constructed asset under a fresh direct handle,
    /// committed immediately at version 0, and hand back an owning
    /// handle.  Queues a `Modified` event for the new slot.
    pub fn add(&mut self, asset: A) -> (r: Handle<A>)
        requires
            old(self).wf(),
            old(self).spec_next_handle() < u64::MAX,
        ensures
            final(self).wf(),
            r.load_handle == spec_direct(old(self).spec_next_handle()),
            final(self).spec_committed() == old(self).spec_committed().insert(
                old(self).spec_next_handle(),
                (AssetState { version: 0, asset }),
            ),
            final(self).spec_events() == old(self).spec_events().push(
                modified_event(old(self).spec_next_handle(), 0),
            ),
            final(self).spec_uncommitted() == old(self).spec_uncommitted(),
            final(self).spec_indirection() == old(self).spec_indirection(),
            final(self).spec_next_handle() == old(self).spec_next_handle() + 1,
    {
        let load_handle = self.allocator.allocate();
        self.committed.insert(load_handle.handle_id(), AssetState { version: 0, asset });
        self.events.push(
            AssetEvent::Modified { handle: WeakHandle::new(load_handle), version: 0 },
        );
        Handle::new(load_handle)
    }

    /// Remove the committed entry a handle denotes, returning the asset.
    /// Queues a `Removed` event when an entry was actually present.
    pub fn remove<T: AssetHandle>(&mut self, handle: &T) -> (r: Option<A>)
        requires
            old(self).wf(),
        ensures
            final(self).wf(),
            final(self).spec_uncommitted() == old(self).spec_uncommitted(),
            final(self).spec_indirection() == old(self).spec_indirection(),
            final(self).spec_next_handle() == old(self).spec_next_handle(),
            old(self).spec_get(handle.spec_load_handle()) is None ==> r is None && final(self).spec_committed() == old(self).spec_committed() && final(self).spec_events() == old(self).spec_events(),
            old(self).spec_get(handle.spec_load_handle()) matches Some(st) ==> (old(self).spec_resolve(handle.spec_load_handle()) matches Some(id) && r == Some(st.asset)
                && final(self).spec_committed() == old(self).spec_committed().remove(id) && final(self).spec_events() == old(self).spec_events().push(removed_event(id, st.version))),
    {
        let resolved = match self.resolve_handle(handle.load_handle()) {
            Some(h) => h,
            None => {
                return None;
            },
        };
        match self.committed.remove(resolved.handle_id()) {
            Some(st) => {
                self.events.push(
                    AssetEvent::Removed {
                        handle: WeakHandle::new(resolved),
                        version: st.version,
                    },
                );
                Some(st.asset)
            },
            None => None,
        }
    }

    /// The number of committed entries.
    pub fn len(&self) -> (r: usize)
        requires
            self.wf(),
        ensures
            r == self.spec_committed().dom().len(),
    {
        self.committed.len()
    }

    /// Whether no entry is committed.
    pub fn is_empty(&self) -> (r: bool)
        requires
            self.wf(),
        ensures
            r == (self.spec_committed().dom() == Set::<u64>::empty()),
    {
        self.committed.is_empty()
    }

    /// Accept a freshly decoded version from the load pipeline, or its
    /// decode failure.  A decoded value enters the *uncommitted* side
    /// under the given direct handle and stays invisible to readers
    /// until committed; a failure leaves the store untouched and is
    /// handed back for the caller to report through its load operation's
    /// error sink.  No event is queued either way.
    pub fn update_asset(
        &mut self,
        decoded: Result<A, DecodeError>,
        load_handle: LoadHandle,
        version: u32,
    ) -> (r: Option<DecodeError>)
        requires
            old(self).wf(),
            !load_handle.indirect,
        ensures
            final(self).wf(),
            final(self).spec_committed() == old(self).spec_committed(),
            final(self).spec_events() == old(self).spec_events(),
            final(self).spec_indirection() == old(self).spec_indirection(),
            final(self).spec_next_handle() == old(self).spec_next_handle(),
            final(self).spec_committed_keys() == old(self).spec_committed_keys(),
            decoded matches Ok(asset) ==> r is None && final(self).spec_uncommitted() == old(self).spec_uncommitted().insert(load_handle.id, (AssetState { version, asset })),
            decoded matches Err(e) ==> r == Some(e) && final(self).spec_uncommitted() == old(self).spec_uncommitted(),
    {
        match decoded {
            Ok(asset) => {
                self.uncommitted.insert(load_handle.handle_id(), AssetState { version, asset });
                None
            },
            Err(e) => Some(e),
        }
    }

    /// Promote the uncommitted entry for a slot to the committed side,
    /// replacing whatever was committed there, and queue a `Modified`
    /// event at the given version.  An uncommitted entry must exist:
    /// its absence is a protocol violation by the driver, treated as
    /// fatal by the untyped dispatch layer rather than tolerated.
    pub fn commit_asset_version(&mut self, load_handle: LoadHandle, version: u32)
        requires
            old(self).wf(),
            !load_handle.indirect,
            old(self).spec_uncommitted().dom().contains(load_handle.id),
        ensures
            final(self).wf(),
            final(self).spec_committed() == old(self).spec_committed().insert(
                load_handle.id,
                old(self).spec_uncommitted()[load_handle.id],
            ),
            final(self).spec_uncommitted() == old(self).spec_uncommitted().remove(
                load_handle.id,
            ),
            final(self).spec_events() == old(self).spec_events().push(
                modified_event(load_handle.id, version),
            ),
            final(self).spec_indirection() == old(self).spec_indirection(),
            final(self).spec_next_handle() == old(self).spec_next_handle(),
    {
        self.events.push(
            AssetEvent::Modified {
                handle: WeakHandle::new(LoadHandle::new_direct(load_handle.handle_id())),
                version,
            },
        );
        let state = match self.uncommitted.remove(load_handle.handle_id()) {
            Some(state) => state,
            None => vstd::pervasive::unreached(),
        };
        self.committed.insert(load_handle.handle_id(), state);
    }

    /// Commit if an uncommitted entry exists for the slot, reporting
    /// whether it did.  `false` means the two-phase contract was
    /// violated; the store is left untouched and the caller decides how
    /// loudly to fail.
    pub fn try_commit_asset_version(&mut self, load_handle: LoadHandle, version: u32) -> (r:
        bool)
        requires
            old(self).wf(),
            !load_handle.indirect,
        ensures
            final(self).wf(),
            r == old(self).spec_uncommitted().dom().contains(load_handle.id),
            r ==> final(self).spec_committed() == old(self).spec_committed().insert(
                load_handle.id,
                old(self).spec_uncommitted()[load_handle.id],
            ) && final(self).spec_uncommitted() == old(self).spec_uncommitted().remove(
                load_handle.id,
            ) && final(self).spec_events() == old(self).spec_events().push(
                modified_event(load_handle.id, version),
            ),
            !r ==> final(self).spec_committed() == old(self).spec_committed() && final(self).spec_uncommitted() == old(self).spec_uncommitted() && final(self).spec_events()
                == old(self).spec_events() && final(self).spec_committed_keys() == old(self).spec_committed_keys(),
            final(self).spec_indirection() == old(self).spec_indirection(),
            final(self).spec_next_handle() == old(self).spec_next_handle(),
    {
        if self.uncommitted.contains_key(load_handle.handle_id()) {
            self.commit_asset_version(load_handle, version);
            true
        } else {
            false
        }
    }

    /// Drop the entry for a slot, on either side, but only where it
    /// still holds exactly the version being freed: a mismatching
    /// version means a newer generation has superseded this free, which
    /// is the normal hot-reload race and is ignored silently.  Queues a
    /// `Removed` event only when a committed entry actually left.
    pub fn free(&mut self, load_handle: LoadHandle, version: u32)
        requires
            old(self).wf(),
            !load_handle.indirect,
        ensures
            final(self).wf(),
            final(self).spec_uncommitted() == if old(self).spec_uncommitted().dom().contains(
                load_handle.id,
            ) && old(self).spec_uncommitted()[load_handle.id].version == version {
                old(self).spec_uncommitted().remove(load_handle.id)
            } else {
                old(self).spec_uncommitted()
            },
            final(self).spec_committed() == if old(self).spec_committed().dom().contains(
                load_handle.id,
            ) && old(self).spec_committed()[load_handle.id].version == version {
                old(self).spec_committed().remove(load_handle.id)
            } else {
                old(self).spec_committed()
            },
            final(self).spec_events() == if old(self).spec_committed().dom().contains(
                load_handle.id,
            ) && old(self).spec_committed()[load_handle.id].version == version {
                old(self).spec_events().push(removed_event(load_handle.id, version))
            } else {
                old(self).spec_events()
            },
            final(self).spec_indirection() == old(self).spec_indirection(),
            final(self).spec_next_handle() == old(self).spec_next_handle(),
    {
        let id = load_handle.handle_id();
        let drop_uncommitted = match self.uncommitted.get(id) {
            Some(st) => st.version == version,
            None => false,
        };
        if drop_uncommitted {
            self.uncommitted.remove(id);
        }
        let drop_committed = match self.committed.get(id) {
            Some(st) => st.version == version,
            None => false,
        };
        if drop_committed {
            self.committed.remove(id);
            self.events.push(
                AssetEvent::Removed {
                    handle: WeakHandle::new(LoadHandle::new_direct(id)),
                    version,
                },
            );
        }
    }

    /// Borrow the committed asset a handle denotes mutably.  The borrow
    /// unconditionally queues a `Modified` event at the entry's current
    /// version: every mutable access marks the asset dirty, whether or
    /// not the caller ends up writing through it.
    pub fn get_mut<T: AssetHandle>(&mut self, handle: &T) -> (r: &mut A)
        requires
            old(self).wf(),
            old(self).spec_get(handle.spec_load_handle()) is Some,
        ensures
            final(self).wf(),
            old(self).spec_get(handle.spec_load_handle()) matches Some(st) ==> *r == st.asset,
            old(self).spec_resolve(handle.spec_load_handle()) matches Some(id) ==> final(self).spec_committed() == old(self).spec_committed().insert(
                id,
                (AssetState {
                    version: old(self).spec_committed()[id].version,
                    asset: *final(r),
                }),
            ) && final(self).spec_events() == old(self).spec_events().push(
                modified_event(id, old(self).spec_committed()[id].version),
            ),
            final(self).spec_uncommitted() == old(self).spec_uncommitted(),
            final(self).spec_indirection() == old(self).spec_indirection(),
            final(self).spec_next_handle() == old(self).spec_next_handle(),
    {
        let resolved = match self.resolve_handle(handle.load_handle()) {
            Some(h) => h,
            None => vstd::pervasive::unreached(),
        };
        let id = resolved.handle_id();
        let version = match self.committed.get(id) {
            Some(st) => st.version,
            None => vstd::pervasive::unreached(),
        };
        self.events.push(
            AssetEvent::Modified { handle: WeakHandle::new(LoadHandle::new_direct(id)), version },
        );
        let state = self.committed.get_mut(id);
        &mut state.asset
    }

    /// Take every queued event, oldest first, leaving the queue empty.
    /// This is the once-per-cycle drain into the host's event bus.
    pub fn drain_events(&mut self) -> (r: Vec<AssetEvent<A>>)
        requires
            old(self).wf(),
        ensures
            final(self).wf(),
            r@ == old(self).spec_events(),
            final(self).spec_events() == Seq::<AssetEvent<A>>::empty(),
            final(self).spec_committed() == old(self).spec_committed(),
            final(self).spec_uncommitted() == old(self).spec_uncommitted(),
            final(self).spec_indirection() == old(self).spec_indirection(),
            final(self).spec_next_handle() == old(self).spec_next_handle(),
            final(self).spec_committed_keys() == old(self).spec_committed_keys(),
    {
        let mut out: Vec<AssetEvent<A>> = Vec::new();
        core::mem::swap(&mut out, &mut self.events);
        out
    }

    /// Whether any event is queued; checked before draining so an empty
    /// cycle does not count as a change.
    pub fn has_events(&self) -> (r: bool)
        ensures
            r == (self.spec_events().len() > 0),
    {
        self.events.len() > 0
    }

    /// The weak handles of every committed slot, in insertion order.
    pub fn ids(&self) -> (r: Vec<WeakHandle<A>>)
        requires
            self.wf(),
        ensures
            r@.len() == self.spec_committed_keys().len(),
            forall|i: int|
                0 <= i < r@.len() ==> (#[trigger] r@[i]).load_handle == spec_direct(
                    self.spec_committed_keys()[i],
                ) && self.spec_committed().dom().contains(self.spec_committed_keys()[i]),
    {
        proof {
            self.committed.lemma_keys_describe_dom();
        }
        let n = self.committed.len();
        let mut out: Vec<WeakHandle<A>> = Vec::new();
        let mut i: usize = 0;
        while i < n
            invariant
                self.wf(),
                n == self.spec_committed_keys().len(),
                i <= n,
                out@.len() == i,
                forall|j: int|
                    0 <= j < i ==> (#[trigger] out@[j]).load_handle == spec_direct(
                        self.spec_committed_keys()[j],
                    ) && self.spec_committed().dom().contains(self.spec_committed_keys()[j]),
            decreases n - i,
        {
            let k = self.committed.key_at(i);
            out.push(WeakHandle::new(LoadHandle::new_direct(k)));
            i = i + 1;
        }
        out
    }

    /// Every committed slot with its asset, as weak-handle/value pairs,
    /// in insertion order.
    pub fn iter<'a>(&'a self) -> (r: Vec<(WeakHandle<A>, &'a A)>)
        requires
            self.wf(),
        ensures
            r@.len() == self.spec_committed_keys().len(),
            forall|i: int|
                0 <= i < r@.len() ==> (#[trigger] r@[i]).0.load_handle == spec_direct(
                    self.spec_committed_keys()[i],
                ) && self.spec_committed().dom().contains(self.spec_committed_keys()[i])
                    && *r@[i].1 == self.spec_committed()[self.spec_committed_keys()[i]].asset,
    {
        proof {
            self.committed.lemma_keys_describe_dom();
        }
        let n = self.committed.len();
        let mut out: Vec<(WeakHandle<A>, &'a A)> = Vec::new();
        let mut i: usize = 0;
        while i < n
            invariant
                self.wf(),
                n == self.spec_committed_keys().len(),
                i <= n,
                out@.len() == i,
                forall|j: int|
                    0 <= j < i ==> (#[trigger] out@[j]).0.load_handle == spec_direct(
                        self.spec_committed_keys()[j],
                    ) && self.spec_committed().dom().contains(self.spec_committed_keys()[j])
                        && *out@[j].1 == self.spec_committed()[self.spec_committed_keys()[
                        j
                    ]].asset,
            decreases n - i,
        {
            let k = self.committed.key_at(i);
            let st = self.committed.value_at(i);
            out.push((WeakHandle::new(LoadHandle::new_direct(k)), &st.asset));
            i = i + 1;
        }
        out
    }

    /// After `add(asset)` hands back the handle `r`, a `get` through `r`
    /// sees exactly `asset`, committed at version 0.  The premises are
    /// the postcondition of `add`.
    pub proof fn lemma_add_then_get(pre: Assets<A>, post: Assets<A>, asset: A, r: Handle<A>)
        requires
            r.load_handle == spec_direct(pre.spec_next_handle()),
            post.spec_committed() == pre.spec_committed().insert(
                pre.spec_next_handle(),
                (AssetState { version: 0, asset }),
            ),
        ensures
            post.spec_get(r.load_handle) == Some(AssetState { version: 0, asset }),
    {
    }

    /// Two-phase visibility: after `update_asset(Ok(asset), h, v)` the
    /// store still answers reads exactly as before — the uncommitted
    /// value is never visible — and after the matching
    /// `commit_asset_version(h, v)` a read through `h` sees the decoded
    /// value at version `v`.  The premises are the postconditions of the
    /// two calls.
    pub proof fn lemma_update_then_commit_visibility(
        pre: Assets<A>,
        mid: Assets<A>,
        post: Assets<A>,
        asset: A,
        h: LoadHandle,
        v: u32,
    )
        requires
            !h.indirect,
            mid.spec_uncommitted() == pre.spec_uncommitted().insert(
                h.id,
                (AssetState { version: v, asset }),
            ),
            mid.spec_committed() == pre.spec_committed(),
            mid.spec_indirection() == pre.spec_indirection(),
            post.spec_committed() == mid.spec_committed().insert(
                h.id,
                mid.spec_uncommitted()[h.id],
            ),
        ensures
            mid.spec_get(h) == pre.spec_get(h),
            post.spec_get(h) == Some(AssetState { version: v, asset }),
    {
    }

    /// A stale `free(h, v)` is ignored: where the stored version differs
    /// from `v`, the entry survives untouched, on both sides of the
    /// store.  The premises are the postcondition of `free`.
    pub proof fn lemma_free_stale_version_is_ignored(
        pre: Assets<A>,
        post: Assets<A>,
        h: LoadHandle,
        v: u32,
    )
        requires
            post.spec_uncommitted() == if pre.spec_uncommitted().dom().contains(h.id)
                && pre.spec_uncommitted()[h.id].version == v {
                pre.spec_uncommitted().remove(h.id)
            } else {
                pre.spec_uncommitted()
            },
            post.spec_committed() == if pre.spec_committed().dom().contains(h.id)
                && pre.spec_committed()[h.id].version == v {
                pre.spec_committed().remove(h.id)
            } else {
                pre.spec_committed()
            },
        ensures
            pre.spec_committed().dom().contains(h.id) && pre.spec_committed()[h.id].version != v
                ==> post.spec_committed() == pre.spec_committed() && post.spec_committed()[h.id]
                == pre.spec_committed()[h.id],
            pre.spec_uncommitted().dom().contains(h.id) && pre.spec_uncommitted()[h.id].version
                != v ==> post.spec_uncommitted() == pre.spec_uncommitted()
                && post.spec_uncommitted()[h.id] == pre.spec_uncommitted()[h.id],
    {
    }

    /// Indirection tracks the table: an indirect handle resolves to
    /// nothing while the table has no entry for it, to `d1` once the
    /// table maps it there, and to `d2` after the entry is repointed.
    /// The premises are the postconditions of two `set_indirection`
    /// calls.
    pub proof fn lemma_indirection_tracks_table(
        s0: Assets<A>,
        s1: Assets<A>,
        s2: Assets<A>,
        ind: LoadHandle,
        d1: LoadHandle,
        d2: LoadHandle,
    )
        requires
            ind.indirect,
            !s0.spec_indirection().dom().contains(ind.id),
            s1.spec_indirection() == s0.spec_indirection().insert(ind.id, d1.id),
            s2.spec_indirection() == s1.spec_indirection().insert(ind.id, d2.id),
        ensures
            s0.spec_resolve(ind) is None,
            s1.spec_resolve(ind) == Some(d1.id),
            s2.spec_resolve(ind) == Some(d2.id),
    {
    }

    /// Resolve a handle into a weak handle on the direct slot it
    /// currently denotes, if resolution succeeds.
    pub fn resolve<T: AssetHandle>(&self, handle: &T) -> (r: Option<WeakHandle<A>>)
        requires
            self.wf(),
        ensures
            match r {
                Some(w) => !w.load_handle.indirect && self.spec_resolve(
                    handle.spec_load_handle(),
                ) == Some(w.load_handle.id),
                None => self.spec_resolve(handle.spec_load_handle()) is None,
            },
    {
        match self.resolve_handle(handle.load_handle()) {
            Some(h) => Some(WeakHandle::new(h)),
            None => None,
        }
    }
}

/// The registry behind the type-erased dispatch layer: which asset types
/// the untyped driver may route `update`/`commit`/`free` calls to.  The
/// driver holds its per-type dispatch targets in a parallel list indexed
/// by [`AssetResources::index_of`]; a type id the registry does not know
/// is a host configuration bug and is treated as fatal by the driver,
/// not tolerated.
pub struct AssetResources {
    ids: Vec<AssetTypeId>,
}

impl AssetResources {
    /// The registered type ids, in registration order.
    pub closed spec fn spec_ids(&self) -> Seq<AssetTypeId> {
        self.ids@
    }

    /// No type id is registered twice.
    pub closed spec fn wf(&self) -> bool {
        self.ids@.no_duplicates()
    }

    /// An empty registry.
    pub fn new() -> (r: AssetResources)
        ensures
            r.wf(),
            r.spec_ids() == Seq::<AssetTypeId>::empty(),
    {
        AssetResources { ids: Vec::new() }
    }

    /// The position of a type id in the registry, if registered.
    pub fn index_of(&self, asset_type: AssetTypeId) -> (r: Option<usize>)
        requires
            self.wf(),
        ensures
            match r {
                Some(i) => i < self.spec_ids().len() && self.spec_ids()[i as int] == asset_type,
                None => !self.spec_ids().contains(asset_type),
            },
    {
        let n = self.ids.len();
        let mut i: usize = 0;
        while i < n
            invariant
                n == self.ids@.len(),
                i <= n,
                forall|j: int| 0 <= j < i ==> #[trigger] self.ids@[j] != asset_type,
            decreases n - i,
        {
            if self.ids[i].id == asset_type.id {
                return Some(i);
            }
            i = i + 1;
        }
        None
    }

    /// Whether a type id is registered.
    pub fn is_registered(&self, asset_type: AssetTypeId) -> (r: bool)
        requires
            self.wf(),
        ensures
            r == self.spec_ids().contains(asset_type),
    {
        match self.index_of(asset_type) {
            Some(_) => true,
            None => false,
        }
    }

    /// Register the asset type `B`.  Registering a type again is a
    /// no-op: the registry keeps one entry per type id.
    pub fn add<B: Asset>(&mut self)
        requires
            old(self).wf(),
        ensures
            final(self).wf(),
            old(self).spec_ids().contains((AssetTypeId { id: B::uuid_spec() })) ==> final(self).spec_ids() == old(self).spec_ids(),
            !old(self).spec_ids().contains((AssetTypeId { id: B::uuid_spec() })) ==> final(self).spec_ids() == old(self).spec_ids().push((AssetTypeId { id: B::uuid_spec() })),
    {
        let asset_type = AssetTypeId { id: B::type_uuid() };
        match self.index_of(asset_type) {
            Some(_) => {},
            None => {
                self.ids.push(asset_type);
                proof {
                    let s = old(self).ids@;
                    let t = self.ids@;
                    assert forall|a: int, b: int|
                        0 <= a < t.len() && 0 <= b < t.len() && a != b implies #[trigger] t[a]
                        != #[trigger] t[b] by {
                        if a < t.len() - 1 && b < t.len() - 1 {
                            assert(t[a] == s[a]);
                            assert(t[b] == s[b]);
                        } else if a == t.len() - 1 {
                            assert(t[b] == s[b]);
                            assert(!s.contains(asset_type));
                        } else {
                            assert(t[a] == s[a]);
                            assert(!s.contains(asset_type));
                        }
                    }
                }
            },
        }
    }

    /// The number of registered types.
    pub fn len(&self) -> (r: usize)
        ensures
            r == self.spec_ids().len(),
    {
        self.ids.len()
    }
}

} // verus!
