use asset_engine::AssetLoadRef;
use asset_engine::AssetTypeId;
use asset_engine::AssetUuid;
use asset_engine::IndirectIdentifier;
use asset_engine::ParseAssetPathError;
use asset_engine::parse_asset_path;

const MESH_TYPE: u128 = 0x80a27027_221a_4fb6_8456_fed18acd12d7;

#[test]
fn path_with_tag_and_type_splits_into_all_three_parts() {
    let parsed = parse_asset_path("scene.gltf#Mesh0@80a27027-221a-4fb6-8456-fed18acd12d7");
    match parsed {
        Ok(IndirectIdentifier::PathWithTagAndType(path, tag, ty)) => {
            assert_eq!(path, "scene.gltf");
            assert_eq!(tag, "Mesh0");
            assert_eq!(ty, AssetTypeId { id: MESH_TYPE });
        }
        other => panic!("unexpected parse result: {:?}", other),
    }
}

#[test]
fn tag_without_type_is_rejected() {
    let parsed = parse_asset_path("scene.gltf#Mesh0");
    assert_eq!(parsed, Err(ParseAssetPathError::LabelWithoutAssetTypeId));
}

#[test]
fn path_with_type_splits_into_two_parts() {
    let parsed = parse_asset_path("scene.gltf@80a27027-221a-4fb6-8456-fed18acd12d7");
    match parsed {
        Ok(IndirectIdentifier::PathWithType(path, ty)) => {
            assert_eq!(path, "scene.gltf");
            assert_eq!(ty, AssetTypeId { id: MESH_TYPE });
        }
        other => panic!("unexpected parse result: {:?}", other),
    }
}

#[test]
fn bare_path_stays_a_path() {
    let parsed = parse_asset_path("path.ron");
    assert_eq!(parsed, Ok(IndirectIdentifier::Path(String::from("path.ron"))));
}

#[test]
fn malformed_type_uuid_is_rejected() {
    let parsed = parse_asset_path("scene.gltf@not-a-uuid");
    assert_eq!(parsed, Err(ParseAssetPathError::UUID));
}

#[test]
fn splits_happen_at_the_last_separator() {
    let parsed = parse_asset_path("a#b#c@80a27027-221a-4fb6-8456-fed18acd12d7");
    match parsed {
        Ok(IndirectIdentifier::PathWithTagAndType(path, tag, ty)) => {
            assert_eq!(path, "a#b");
            assert_eq!(tag, "c");
            assert_eq!(ty, AssetTypeId { id: MESH_TYPE });
        }
        other => panic!("unexpected parse result: {:?}", other),
    }
}

#[test]
fn empty_path_is_allowed_by_the_grammar() {
    let parsed = parse_asset_path("");
    assert_eq!(parsed, Ok(IndirectIdentifier::Path(String::new())));
}

#[test]
fn bare_uuid_is_a_direct_reference_not_a_path() {
    let parsed = AssetLoadRef::parse("80a27027-221a-4fb6-8456-fed18acd12d7");
    assert_eq!(parsed, Ok(AssetLoadRef::UUID(AssetUuid { id: MESH_TYPE })));
}

#[test]
fn from_str_matches_parse() {
    let via_from_str: AssetLoadRef = "scene.gltf".parse().unwrap();
    assert_eq!(
        via_from_str,
        AssetLoadRef::Indirect(IndirectIdentifier::Path(String::from("scene.gltf")))
    );
    let err: Result<AssetLoadRef, ParseAssetPathError> = "x#y".parse();
    assert_eq!(err, Err(ParseAssetPathError::LabelWithoutAssetTypeId));
}

#[test]
fn textual_reference_parsing_reaches_the_real_uuid_reader() {
    // The simple (unhyphenated) form is accepted too, and both forms
    // must read back the exact same 128-bit value.
    let hyphenated = AssetLoadRef::parse("80a27027-221a-4fb6-8456-fed18acd12d7");
    let simple = AssetLoadRef::parse("80a27027221a4fb68456fed18acd12d7");
    assert_eq!(hyphenated, Ok(AssetLoadRef::UUID(AssetUuid { id: MESH_TYPE })));
    assert_eq!(simple, Ok(AssetLoadRef::UUID(AssetUuid { id: MESH_TYPE })));
}
