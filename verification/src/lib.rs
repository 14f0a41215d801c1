//! A runtime cache for decoded assets.
//!
//! Each asset type gets one [`Assets`] store holding committed and
//! uncommitted versioned entries.  A background producer pushes decoded
//! versions through a two-phase commit protocol (`update_asset`, then
//! `commit_asset_version` or `free`), so that readers never observe a
//! half-loaded asset.  Consumers address entries through cheap,
//! reference-counted [`Handle`]s whose clone/drop traffic flows over an
//! explicit message queue, and through indirect (symbolic) handles that
//! are re-resolved on every lookup.  Every change to the committed state
//! emits an [`AssetEvent`] into a per-store queue that the host drains
//! once per cycle.

use vstd::prelude::*;

mod asset_path;
mod codec;
mod handle;
mod importer;
mod refcount;
mod storage;
mod table;
mod util;
mod uuid_calls;

pub use asset_path::AssetLoadRef;
pub use asset_path::IndirectIdentifier;
pub use asset_path::ParseAssetPathError;
pub use asset_path::last_index_of;
pub use asset_path::parse_asset_path;
pub use asset_path::parse_path_spec;
pub use asset_path::split_at_last;
pub use codec::bincode_text_payload;
pub use codec::ron_text;
pub use handle::AssetHandle;
pub use handle::Handle;
pub use handle::HandleAllocator;
pub use handle::HandleUntyped;
pub use handle::LoadHandle;
pub use handle::WeakHandle;
pub use importer::RonImporter;
pub use importer::Text;
pub use importer::TextImporter;
pub use refcount::RefCounts;
pub use refcount::RefOp;
pub use refcount::RefOpChannel;
pub use refcount::delta_of;
pub use refcount::lemma_ref_count_round_trip;
pub use refcount::net_delta;
pub use storage::AssetResources;
pub use storage::AssetState;
pub use storage::Assets;
pub use storage::DecodeError;
pub use storage::modified_event;
pub use storage::removed_event;
pub use storage::spec_direct;
pub use storage::spec_weak;
pub use table::SlotTable;
pub use util::AssetUuidImporterState;
pub use uuid_calls::uuid_parse;

verus! {

/// A 128-bit identifier naming one asset instance.
#[derive(Clone, Copy, Debug, PartialEq, Eq, Structural, Hash)]
pub struct AssetUuid {
    pub id: u128,
}

/// A 128-bit identifier naming one asset *type*, shared by all assets of
/// that type.
#[derive(Clone, Copy, Debug, PartialEq, Eq, Structural, Hash)]
pub struct AssetTypeId {
    pub id: u128,
}

/// A value that can live in an [`Assets`] store.  Every implementor names
/// its type with a stable 128-bit identifier, used by the type-erased
/// dispatch layer to route untyped update/commit/free calls.
pub trait Asset: Sized {
    /// The type identifier as a mathematical value.
    spec fn uuid_spec() -> u128;

    /// The type identifier of this asset type.
    fn type_uuid() -> (r: u128)
        ensures
            r == Self::uuid_spec(),
    ;
}

/// Object-safe access to an asset's type identifier, for code that holds
/// assets without static knowledge of their type.
pub trait AssetDynamic {
    /// The type identifier as a mathematical value.
    spec fn uuid_dyn_spec(&self) -> u128;

    /// The type identifier of this value's asset type.
    fn type_uuid_dynamic(&self) -> (r: u128)
        ensures
            r == self.uuid_dyn_spec(),
    ;
}

impl<T: Asset> AssetDynamic for T {
    open spec fn uuid_dyn_spec(&self) -> u128 {
        T::uuid_spec()
    }

    fn type_uuid_dynamic(&self) -> (r: u128) {
        T::type_uuid()
    }
}

/// A change notification for one asset slot of type `A`.
///
/// `Modified` is emitted when a slot is added, committed, or mutably
/// borrowed; `Removed` when an entry actually leaves the committed state.
/// Events are queued per store and drained once per cycle.
pub enum AssetEvent<A: Asset> {
    Modified { handle: WeakHandle<A>, version: u32 },
    Removed { handle: WeakHandle<A>, version: u32 },
}

impl<A: Asset> AssetEvent<A> {
    /// The handle of the slot this event is about.
    pub fn handle(&self) -> (r: &WeakHandle<A>)
        ensures
            *r == self.spec_handle(),
    {
        match self {
            AssetEvent::Modified { handle, .. } => handle,
            AssetEvent::Removed { handle, .. } => handle,
        }
    }

    /// The handle of the slot this event is about, as a mathematical value.
    pub open spec fn spec_handle(&self) -> WeakHandle<A> {
        match self {
            AssetEvent::Modified { handle, .. } => *handle,
            AssetEvent::Removed { handle, .. } => *handle,
        }
    }

    /// The version this event is about, as a mathematical value.
    pub open spec fn spec_version(&self) -> u32 {
        match self {
            AssetEvent::Modified { version, .. } => *version,
            AssetEvent::Removed { version, .. } => *version,
        }
    }

    /// The version this event is about.
    pub fn version(&self) -> (r: u32)
        ensures
            r == self.spec_version(),
    {
        match self {
            AssetEvent::Modified { version, .. } => *version,
            AssetEvent::Removed { version, .. } => *version,
        }
    }
}

} // verus!
