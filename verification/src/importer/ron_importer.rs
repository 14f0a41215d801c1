//! The RON importer: imports any asset type whose values can be read
//! from RON text.
//!
//! Decoding RON into an arbitrary asset type goes through its
//! serialization impl and is the host's side of the import; the
//! importer here carries the format version and the identifier
//! bookkeeping shared by all of its instantiations.

use vstd::prelude::*;

use crate::Asset;
use crate::AssetUuid;
use crate::util::AssetUuidImporterState;

verus! {

/// Imports assets of type `A` from RON source files.
pub struct RonImporter<A: Asset> {
    marker: core::marker::PhantomData<A>,
}

impl<A: Asset> RonImporter<A> {
    /// A RON importer for `A`.
    pub fn new() -> (r: RonImporter<A>) {
        RonImporter { marker: core::marker::PhantomData }
    }

    /// The importer format version, without an instance.
    pub fn version_static() -> (r: u32)
        ensures
            r == 1,
    {
        1
    }

    /// The importer format version.
    pub fn version(&self) -> (r: u32)
        ensures
            r == 1,
    {
        1
    }

    /// The identifier an import of this source will carry: the one
    /// pinned in (or freshly drawn into) the importer state.  The
    /// decoded value itself is produced by the host's RON decode and
    /// paired with this identifier.
    pub fn import_id(&self, state: &mut AssetUuidImporterState) -> (r: AssetUuid)
        ensures
            final(state).spec_id() == Some(r),
            old(state).spec_id() matches Some(u) ==> r == u,
    {
        state.id()
    }
}

} // verus!
