//! Load handles: opaque identifiers for tracked asset slots, and the
//! typed strong/weak handle wrappers around them.
//!
//! A strong [`Handle`] carries a lifecycle obligation: cloning it sends an
//! increment message over the ref-count queue and releasing it sends a
//! decrement, so the external consumer loop can tell when a slot has no
//! owners left.  A [`WeakHandle`] carries no obligation and is free to
//! copy.  [`HandleUntyped`] is the type-erased strong handle.

use vstd::prelude::*;

use crate::Asset;
use crate::refcount::RefOp;
use crate::refcount::RefOpChannel;

verus! {

/// An opaque, totally-ordered identifier for a tracked asset slot.
///
/// A direct handle names a storage slot itself; an indirect handle names
/// an entry of the indirection table and must be resolved to a direct
/// handle before every storage access.
#[derive(Clone, Copy, Debug, PartialEq, Eq, Structural, Hash, PartialOrd, Ord)]
pub struct LoadHandle {
    pub id: u64,
    pub indirect: bool,
}

impl LoadHandle {
    /// A direct handle with the given id.
    pub fn new_direct(id: u64) -> (r: LoadHandle)
        ensures
            r == (LoadHandle { id, indirect: false }),
    {
        LoadHandle { id, indirect: false }
    }

    /// An indirect handle with the given id.
    pub fn new_indirect(id: u64) -> (r: LoadHandle)
        ensures
            r == (LoadHandle { id, indirect: true }),
    {
        LoadHandle { id, indirect: true }
    }

    /// Whether this handle must go through the indirection table.
    pub fn is_indirect(&self) -> (r: bool)
        ensures
            r == self.indirect,
    {
        self.indirect
    }

    /// The numeric id, which orders handles totally.
    pub fn handle_id(&self) -> (r: u64)
        ensures
            r == self.id,
    {
        self.id
    }
}

/// Issues fresh direct load handles for assets inserted programmatically
/// rather than by the load pipeline.
pub struct HandleAllocator {
    next: u64,
}

impl HandleAllocator {
    /// The id the next allocation will return.
    pub closed spec fn spec_next(&self) -> u64 {
        self.next
    }

    /// An allocator whose first handle has the given id.
    pub fn new(first: u64) -> (r: HandleAllocator)
        ensures
            r.spec_next() == first,
    {
        HandleAllocator { next: first }
    }

    /// Issue a fresh direct handle.  Every handle issued is distinct from
    /// all earlier ones because the counter only grows.
    pub fn allocate(&mut self) -> (r: LoadHandle)
        requires
            old(self).spec_next() < u64::MAX,
        ensures
            r == (LoadHandle { id: old(self).spec_next(), indirect: false }),
            final(self).spec_next() == old(self).spec_next() + 1,
    {
        let id = self.next;
        self.next = self.next + 1;
        LoadHandle { id, indirect: false }
    }
}

/// Read access to the load handle inside any flavour of handle.
pub trait AssetHandle {
    /// The wrapped load handle as a mathematical value.
    spec fn spec_load_handle(&self) -> LoadHandle;

    /// The wrapped load handle.
    fn load_handle(&self) -> (r: LoadHandle)
        ensures
            r == self.spec_load_handle(),
    ;
}

/// A strong, typed handle to an asset slot.
///
/// Strong handles are reference counted through the ref-op queue rather
/// than a shared counter: cloning must go through [`Handle::clone_ref`],
/// which records an increment, and releasing through
/// [`Handle::drop_ref`], which records a decrement.
pub struct Handle<A: Asset> {
    pub load_handle: LoadHandle,
    pub marker: core::marker::PhantomData<A>,
}

impl<A: Asset> Handle<A> {
    /// A strong handle for the given slot.  Creation itself sends no
    /// ref-count traffic: the initial reference is accounted for by
    /// whoever produced the slot.
    pub fn new(load_handle: LoadHandle) -> (r: Handle<A>)
        ensures
            r.spec_load_handle() == load_handle,
    {
        Handle { load_handle, marker: core::marker::PhantomData }
    }

    /// A weak handle to the same slot, with no ref-count traffic.
    pub fn clone_weak(&self) -> (r: WeakHandle<A>)
        ensures
            r.spec_load_handle() == self.spec_load_handle(),
    {
        WeakHandle::new(self.load_handle)
    }

    /// Clone this strong handle, recording an increment on the queue.
    pub fn clone_ref(&self, chan: &mut RefOpChannel) -> (r: Handle<A>)
        ensures
            r.spec_load_handle() == self.spec_load_handle(),
            final(chan)@ == old(chan)@.push(RefOp::Increase(self.spec_load_handle())),
    {
        chan.send(RefOp::Increase(self.load_handle));
        Handle { load_handle: self.load_handle, marker: core::marker::PhantomData }
    }

    /// Release this strong handle, recording a decrement on the queue.
    pub fn drop_ref(self, chan: &mut RefOpChannel)
        ensures
            final(chan)@ == old(chan)@.push(RefOp::Decrease(self.spec_load_handle())),
    {
        chan.send(RefOp::Decrease(self.load_handle));
    }
}

impl<A: Asset> AssetHandle for Handle<A> {
    open spec fn spec_load_handle(&self) -> LoadHandle {
        self.load_handle
    }

    fn load_handle(&self) -> (r: LoadHandle) {
        self.load_handle
    }
}

impl<A: Asset> PartialEq for Handle<A> {
    fn eq(&self, other: &Self) -> (r: bool) {
        self.load_handle.id == other.load_handle.id
            && self.load_handle.indirect == other.load_handle.indirect
    }
}

impl<A: Asset> vstd::std_specs::cmp::PartialEqSpecImpl for Handle<A> {
    open spec fn obeys_eq_spec() -> bool {
        true
    }

    open spec fn eq_spec(&self, other: &Self) -> bool {
        self.spec_load_handle() == other.spec_load_handle()
    }
}

impl<A: Asset> Eq for Handle<A> {}

/// A non-owning handle: cheap to copy, no lifecycle obligation.
pub struct WeakHandle<A: Asset> {
    pub load_handle: LoadHandle,
    pub marker: core::marker::PhantomData<A>,
}

impl<A: Asset> WeakHandle<A> {
    /// A weak handle for the given slot.
    pub fn new(load_handle: LoadHandle) -> (r: WeakHandle<A>)
        ensures
            r.spec_load_handle() == load_handle,
    {
        WeakHandle { load_handle, marker: core::marker::PhantomData }
    }

    /// Turn this weak handle back into a strong one, recording the
    /// increment that the new owner's eventual release will balance.
    pub fn upgrade(self, chan: &mut RefOpChannel) -> (r: Handle<A>)
        ensures
            r.spec_load_handle() == self.spec_load_handle(),
            final(chan)@ == old(chan)@.push(RefOp::Increase(self.spec_load_handle())),
    {
        chan.send(RefOp::Increase(self.load_handle));
        Handle { load_handle: self.load_handle, marker: core::marker::PhantomData }
    }
}

impl<A: Asset> AssetHandle for WeakHandle<A> {
    open spec fn spec_load_handle(&self) -> LoadHandle {
        self.load_handle
    }

    fn load_handle(&self) -> (r: LoadHandle) {
        self.load_handle
    }
}

impl<A: Asset> Clone for WeakHandle<A> {
    fn clone(&self) -> (r: Self)
        ensures
            r == *self,
    {
        WeakHandle { load_handle: self.load_handle, marker: core::marker::PhantomData }
    }
}

impl<A: Asset> Copy for WeakHandle<A> {}

impl<A: Asset> PartialEq for WeakHandle<A> {
    fn eq(&self, other: &Self) -> (r: bool) {
        self.load_handle.id == other.load_handle.id
            && self.load_handle.indirect == other.load_handle.indirect
    }
}

impl<A: Asset> vstd::std_specs::cmp::PartialEqSpecImpl for WeakHandle<A> {
    open spec fn obeys_eq_spec() -> bool {
        true
    }

    open spec fn eq_spec(&self, other: &Self) -> bool {
        self.spec_load_handle() == other.spec_load_handle()
    }
}

impl<A: Asset> Eq for WeakHandle<A> {}

/// A type-erased strong handle, for slots whose concrete asset type is
/// chosen at runtime.
pub struct HandleUntyped {
    pub load_handle: LoadHandle,
}

impl HandleUntyped {
    /// A type-erased strong handle for the given slot.
    pub fn new(load_handle: LoadHandle) -> (r: HandleUntyped)
        ensures
            r.spec_load_handle() == load_handle,
    {
        HandleUntyped { load_handle }
    }

    /// Clone this strong handle, recording an increment on the queue.
    pub fn clone_ref(&self, chan: &mut RefOpChannel) -> (r: HandleUntyped)
        ensures
            r.spec_load_handle() == self.spec_load_handle(),
            final(chan)@ == old(chan)@.push(RefOp::Increase(self.spec_load_handle())),
    {
        chan.send(RefOp::Increase(self.load_handle));
        HandleUntyped { load_handle: self.load_handle }
    }

    /// Release this strong handle, recording a decrement on the queue.
    pub fn drop_ref(self, chan: &mut RefOpChannel)
        ensures
            final(chan)@ == old(chan)@.push(RefOp::Decrease(self.spec_load_handle())),
    {
        chan.send(RefOp::Decrease(self.load_handle));
    }
}

impl AssetHandle for HandleUntyped {
    open spec fn spec_load_handle(&self) -> LoadHandle {
        self.load_handle
    }

    fn load_handle(&self) -> (r: LoadHandle) {
        self.load_handle
    }
}

} // verus!
