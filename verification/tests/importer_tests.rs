use asset_engine::Asset;
use asset_engine::AssetDynamic;
use asset_engine::AssetResources;
use asset_engine::AssetTypeId;
use asset_engine::AssetUuidImporterState;
use asset_engine::RonImporter;
use asset_engine::Text;
use asset_engine::TextImporter;

#[test]
fn importer_versions_are_stable() {
    assert_eq!(TextImporter::version_static(), 1);
    assert_eq!(TextImporter.version(), 1);
    assert_eq!(RonImporter::<Text>::version_static(), 1);
    assert_eq!(RonImporter::<Text>::new().version(), 1);
}

#[test]
fn text_import_keeps_the_contents_and_pins_the_id() {
    let importer = TextImporter;
    let mut state = AssetUuidImporterState::new();
    let (id, asset) = importer.import(String::from("file contents"), &mut state);
    assert_eq!(asset.as_str(), "file contents");

    // A re-import of the same source keeps its identity.
    let (id_again, _) = importer.import(String::from("edited contents"), &mut state);
    assert_eq!(id, id_again);
    assert_eq!(RonImporter::<Text>::new().import_id(&mut state), id);
}

#[test]
fn distinct_importer_states_draw_distinct_ids() {
    let mut first = AssetUuidImporterState::new();
    let mut second = AssetUuidImporterState::default();
    let a = first.id();
    let b = second.id();
    // Random identifiers: a collision would mean the generator handed
    // out the same 122 random bits twice.
    assert_ne!(a, b);
    // The RFC 9562 version and variant bits are set.
    assert_eq!(a.id & 0xF000_0000_0000_0000_0000, 0x4000_0000_0000_0000_0000);
    assert_eq!(a.id & 0xC000_0000_0000_0000, 0x8000_0000_0000_0000);
}

#[test]
fn text_asset_type_identifier_is_stable() {
    assert_eq!(Text::type_uuid(), 0x7c877a39_ee66_4295_a123_eb12fd8e147e);
    let value = Text(String::from("x"));
    assert_eq!(value.type_uuid_dynamic(), Text::type_uuid());
}

#[test]
fn registry_knows_exactly_the_registered_types() {
    let mut registry = AssetResources::new();
    let text_type = AssetTypeId { id: Text::type_uuid() };
    let unknown = AssetTypeId { id: 0xdead_beef };

    assert!(!registry.is_registered(text_type));
    registry.add::<Text>();
    assert!(registry.is_registered(text_type));
    assert_eq!(registry.index_of(text_type), Some(0));
    assert_eq!(registry.index_of(unknown), None);
    assert!(!registry.is_registered(unknown));

    // Registering again keeps one entry per type.
    registry.add::<Text>();
    assert_eq!(registry.len(), 1);
}
