//! Textual asset references and their grammar.
//!
//! A reference is either a bare UUID, naming an asset directly, or an
//! indirect identifier of the form `<path>['#'<tag>]['@'<type-uuid>]`,
//! resolved at runtime through the indirection machinery.  A `#tag`
//! without an accompanying `@type-uuid` is malformed and rejected at
//! parse time, never coerced.

use vstd::prelude::*;
use vstd::string::StrSliceExecFns;

use crate::AssetTypeId;
use crate::AssetUuid;
use crate::uuid_calls::parse_uuid_str;
use crate::uuid_calls::uuid_parse;

verus! {

/// A symbolic reference to an asset, resolved at runtime: a bare path,
/// a path with the asset type, or a path with a tag and the asset type.
#[derive(Debug, Clone, PartialEq, Eq)]
pub enum IndirectIdentifier {
    Path(String),
    PathWithType(String, AssetTypeId),
    PathWithTagAndType(String, String, AssetTypeId),
}

/// Why a textual asset path was rejected.
#[derive(Debug, Clone, Copy, PartialEq, Eq)]
pub enum ParseAssetPathError {
    /// A `#tag` was given without an `@type-uuid`.
    LabelWithoutAssetTypeId,
    /// The `@` part is not a well-formed type UUID.
    UUID,
}

/// A parsed asset reference: a direct UUID or an indirect identifier.
#[derive(Debug, Clone, PartialEq, Eq)]
pub enum AssetLoadRef {
    UUID(AssetUuid),
    Indirect(IndirectIdentifier),
}

/// The position of the last occurrence of `c` in `s`, if any.
pub open spec fn last_index_of(s: Seq<char>, c: char) -> Option<int>
    decreases s.len(),
{
    if s.len() == 0 {
        None
    } else if s.last() == c {
        Some(s.len() - 1)
    } else {
        last_index_of(s.drop_last(), c)
    }
}

/// `s` split at the last occurrence of `c`: the part before it, and the
/// part after it — absent when `c` does not occur at all.
pub open spec fn split_at_last(s: Seq<char>, c: char) -> (Seq<char>, Option<Seq<char>>) {
    match last_index_of(s, c) {
        Some(i) => (s.subrange(0, i), Some(s.subrange(i + 1, s.len() as int))),
        None => (s, None),
    }
}

/// The grammar `<path>['#'<tag>]['@'<type-uuid>]`, related to a parse
/// result: the text is split at its last `@`, the prefix at its last
/// `#`, the type part must read as a UUID, and a tag without a type is
/// rejected.
pub open spec fn parse_path_spec(
    s: Seq<char>,
    r: Result<IndirectIdentifier, ParseAssetPathError>,
) -> bool {
    let at = split_at_last(s, '@');
    let hash = split_at_last(at.0, '#');
    match at.1 {
        Some(t) => match uuid_parse(t) {
            None => r == Err::<IndirectIdentifier, _>(ParseAssetPathError::UUID),
            Some(u) => match hash.1 {
                Some(tag) => r matches Ok(IndirectIdentifier::PathWithTagAndType(p, g, ty))
                    && p@ == hash.0 && g@ == tag && ty == (AssetTypeId { id: u }),
                None => r matches Ok(IndirectIdentifier::PathWithType(p, ty)) && p@ == hash.0
                    && ty == (AssetTypeId { id: u }),
            },
        },
        None => match hash.1 {
            Some(_) => r == Err::<IndirectIdentifier, _>(
                ParseAssetPathError::LabelWithoutAssetTypeId,
            ),
            None => r matches Ok(IndirectIdentifier::Path(p)) && p@ == s,
        },
    }
}

proof fn lemma_last_index_of_found(s: Seq<char>, c: char, i: int)
    requires
        0 <= i < s.len(),
        s[i] == c,
        forall|j: int| i < j < s.len() ==> s[j] != c,
    ensures
        last_index_of(s, c) == Some(i),
    decreases s.len(),
{
    if i == s.len() - 1 {
    } else {
        assert(s.last() != c);
        assert forall|j: int| i < j < s.drop_last().len() implies s.drop_last()[j] != c by {
            assert(s.drop_last()[j] == s[j]);
        }
        assert(s.drop_last()[i] == s[i]);
        lemma_last_index_of_found(s.drop_last(), c, i);
    }
}

proof fn lemma_last_index_of_absent(s: Seq<char>, c: char)
    requires
        forall|j: int| 0 <= j < s.len() ==> s[j] != c,
    ensures
        last_index_of(s, c) is None,
    decreases s.len(),
{
    if s.len() == 0 {
    } else {
        assert(s.last() != c);
        assert forall|j: int| 0 <= j < s.drop_last().len() implies s.drop_last()[j] != c by {
            assert(s.drop_last()[j] == s[j]);
        }
        lemma_last_index_of_absent(s.drop_last(), c);
    }
}

/// The position of the last occurrence of `c` in `s`, if any.
fn find_last_char(s: &str, c: char) -> (r: Option<usize>)
    ensures
        match r {
            Some(i) => i < s@.len() && last_index_of(s@, c) == Some(i as int),
            None => last_index_of(s@, c) is None,
        },
{
    let n = s.unicode_len();
    let mut i: usize = n;
    while i > 0
        invariant
            i <= n,
            n == s@.len(),
            forall|j: int| i <= j < n ==> s@[j] != c,
        decreases i,
    {
        let ch = s.get_char(i - 1);
        if ch == c {
            proof {
                lemma_last_index_of_found(s@, c, i - 1);
            }
            return Some(i - 1);
        }
        i = i - 1;
    }
    proof {
        lemma_last_index_of_absent(s@, c);
    }
    None
}

/// Parse an indirect identifier of the form
/// `<path>['#'<tag>]['@'<type-uuid>]`.  A tag without a type UUID is
/// rejected, as is a type part that is not a UUID.
pub fn parse_asset_path(asset_path: &str) -> (r: Result<
    IndirectIdentifier,
    ParseAssetPathError,
>)
    ensures
        parse_path_spec(asset_path@, r),
{
    let n = asset_path.unicode_len();
    let (path_maybe_label, asset_type_str): (&str, Option<&str>) = match find_last_char(
        asset_path,
        '@',
    ) {
        Some(i) => (
            asset_path.substring_char(0, i),
            Some(asset_path.substring_char(i + 1, n)),
        ),
        None => (asset_path, None),
    };
    let m = path_maybe_label.unicode_len();
    let (path, tag): (&str, Option<&str>) = match find_last_char(path_maybe_label, '#') {
        Some(i) => (
            path_maybe_label.substring_char(0, i),
            Some(path_maybe_label.substring_char(i + 1, m)),
        ),
        None => (path_maybe_label, None),
    };
    let asset_type: Option<AssetTypeId> = match asset_type_str {
        Some(t) => match parse_uuid_str(t) {
            Some(u) => Some(AssetTypeId { id: u }),
            None => {
                return Err(ParseAssetPathError::UUID);
            },
        },
        None => None,
    };
    match (tag, asset_type) {
        (None, None) => Ok(IndirectIdentifier::Path(path.to_owned())),
        (None, Some(ty)) => Ok(IndirectIdentifier::PathWithType(path.to_owned(), ty)),
        (Some(_), None) => Err(ParseAssetPathError::LabelWithoutAssetTypeId),
        (Some(g), Some(ty)) => Ok(
            IndirectIdentifier::PathWithTagAndType(path.to_owned(), g.to_owned(), ty),
        ),
    }
}

impl AssetLoadRef {
    /// Parse a textual asset reference: a bare UUID names an asset
    /// directly; anything else must read as an indirect identifier.
    pub fn parse(s: &str) -> (r: Result<AssetLoadRef, ParseAssetPathError>)
        ensures
            uuid_parse(s@) matches Some(u) ==> r == Ok::<_, ParseAssetPathError>(
                AssetLoadRef::UUID((AssetUuid { id: u })),
            ),
            uuid_parse(s@) is None ==> match r {
                Ok(AssetLoadRef::Indirect(id)) => parse_path_spec(s@, Ok(id)),
                Ok(AssetLoadRef::UUID(_)) => false,
                Err(e) => parse_path_spec(s@, Err(e)),
            },
    {
        match parse_uuid_str(s) {
            Some(u) => Ok(AssetLoadRef::UUID(AssetUuid { id: u })),
            None => match parse_asset_path(s) {
                Ok(id) => Ok(AssetLoadRef::Indirect(id)),
                Err(e) => Err(e),
            },
        }
    }
}

impl From<AssetUuid> for AssetLoadRef {
    fn from(id: AssetUuid) -> (r: AssetLoadRef) {
        AssetLoadRef::UUID(id)
    }
}

impl vstd::std_specs::convert::FromSpecImpl<AssetUuid> for AssetLoadRef {
    open spec fn obeys_from_spec() -> bool {
        true
    }

    open spec fn from_spec(id: AssetUuid) -> AssetLoadRef {
        AssetLoadRef::UUID(id)
    }
}

impl From<IndirectIdentifier> for AssetLoadRef {
    fn from(id: IndirectIdentifier) -> (r: AssetLoadRef) {
        AssetLoadRef::Indirect(id)
    }
}

impl vstd::std_specs::convert::FromSpecImpl<IndirectIdentifier> for AssetLoadRef {
    open spec fn obeys_from_spec() -> bool {
        true
    }

    open spec fn from_spec(id: IndirectIdentifier) -> AssetLoadRef {
        AssetLoadRef::Indirect(id)
    }
}

impl core::str::FromStr for AssetLoadRef {
    type Err = ParseAssetPathError;

    fn from_str(s: &str) -> Result<AssetLoadRef, ParseAssetPathError> {
        AssetLoadRef::parse(s)
    }
}

} // verus!
