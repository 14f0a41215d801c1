//! Shared importer state.

use vstd::prelude::*;

use crate::AssetUuid;
use crate::uuid_calls::fresh_uuid;

verus! {

/// Importer state that pins the asset identifier of an imported source
/// file: the first import draws a fresh random identifier, and every
/// re-import of the same source reuses it, so hot reloads keep their
/// identity.
pub struct AssetUuidImporterState {
    id: Option<AssetUuid>,
}

impl AssetUuidImporterState {
    /// The pinned identifier, if one was drawn already.
    pub closed spec fn spec_id(&self) -> Option<AssetUuid> {
        self.id
    }

    /// State with no identifier drawn yet.
    pub fn new() -> (r: AssetUuidImporterState)
        ensures
            r.spec_id() is None,
    {
        AssetUuidImporterState { id: None }
    }

    /// The pinned identifier, drawing a fresh random one on first use.
    pub fn id(&mut self) -> (r: AssetUuid)
        ensures
            final(self).spec_id() == Some(r),
            old(self).spec_id() matches Some(u) ==> r == u,
    {
        match self.id {
            Some(u) => u,
            None => {
                let u = AssetUuid { id: fresh_uuid() };
                self.id = Some(u);
                u
            },
        }
    }
}

impl Default for AssetUuidImporterState {
    fn default() -> (r: AssetUuidImporterState)
        ensures
            r.spec_id() is None,
    {
        AssetUuidImporterState { id: None }
    }
}

} // verus!
