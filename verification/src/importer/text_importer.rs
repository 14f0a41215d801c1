//! The plain-text importer and its asset type.

use vstd::prelude::*;

use crate::Asset;
use crate::AssetUuid;
use crate::DecodeError;
use crate::codec::bincode_text_payload;
use crate::codec::decode_bincode_string;
use crate::codec::decode_ron_string;
use crate::codec::ron_text;
use crate::util::AssetUuidImporterState;

verus! {

/// Imports a source file verbatim as a [`Text`] asset.
#[derive(Debug, Default)]
pub struct TextImporter;

/// A text file's contents, held as an asset.
#[derive(Debug, PartialEq, Eq)]
pub struct Text(pub String);

impl Text {
    /// The contained text.
    pub fn as_str(&self) -> (r: &str)
        ensures
            r@ == self.0@,
    {
        self.0.as_str()
    }
}

impl Text {
    /// Decode a pipeline byte payload into a text asset.  This is the
    /// decode step of `update_asset` for this asset type; a failure
    /// carries the codec's message for the load operation's error sink.
    pub fn from_payload(data: &[u8]) -> (r: Result<Text, DecodeError>)
        ensures
            r matches Ok(t) ==> bincode_text_payload(data@) == Some(t.0@),
            r is Err ==> bincode_text_payload(data@) is None,
    {
        match decode_bincode_string(data) {
            Ok(s) => Ok(Text(s)),
            Err(message) => Err(DecodeError { message }),
        }
    }

    /// Decode RON source text into a text asset.
    pub fn from_ron(source: &str) -> (r: Result<Text, DecodeError>)
        ensures
            r matches Ok(t) ==> ron_text(source@) == Some(t.0@),
            r is Err ==> ron_text(source@) is None,
    {
        match decode_ron_string(source) {
            Ok(s) => Ok(Text(s)),
            Err(message) => Err(DecodeError { message }),
        }
    }
}

impl Asset for Text {
    open spec fn uuid_spec() -> u128 {
        0x7c877a39_ee66_4295_a123_eb12fd8e147e
    }

    fn type_uuid() -> (r: u128) {
        0x7c877a39_ee66_4295_a123_eb12fd8e147eu128
    }
}

impl TextImporter {
    /// The importer format version, without an instance.
    pub fn version_static() -> (r: u32)
        ensures
            r == 1,
    {
        1
    }

    /// The importer format version.
    pub fn version(&self) -> (r: u32)
        ensures
            r == 1,
    {
        1
    }

    /// Import a source file's text: the asset is the text itself, and
    /// the identifier is the one pinned in (or freshly drawn into) the
    /// importer state.
    pub fn import(&self, contents: String, state: &mut AssetUuidImporterState) -> (r: (
        AssetUuid,
        Text,
    ))
        ensures
            r.1.0@ == contents@,
            final(state).spec_id() == Some(r.0),
            old(state).spec_id() matches Some(u) ==> r.0 == u,
    {
        let id = state.id();
        (id, Text(contents))
    }
}

} // verus!
