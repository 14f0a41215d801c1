use asset_engine::Assets;
use asset_engine::LoadHandle;
use asset_engine::Text;
use asset_engine::WeakHandle;

#[test]
fn payload_decode_reads_the_pipeline_framing() {
    // The pipeline frames a string as an 8-byte little-endian length
    // followed by the UTF-8 bytes.
    let mut payload: Vec<u8> = vec![5, 0, 0, 0, 0, 0, 0, 0];
    payload.extend_from_slice(b"hello");
    let text = Text::from_payload(&payload).unwrap();
    assert_eq!(text.as_str(), "hello");
}

#[test]
fn trailing_bytes_after_the_payload_are_tolerated() {
    let mut payload: Vec<u8> = vec![2, 0, 0, 0, 0, 0, 0, 0];
    payload.extend_from_slice(b"okextra");
    let text = Text::from_payload(&payload).unwrap();
    assert_eq!(text.as_str(), "ok");
}

#[test]
fn truncated_payload_is_a_decode_error() {
    let err = Text::from_payload(&[1, 2, 3]).unwrap_err();
    assert!(!err.message.is_empty());
}

#[test]
fn ron_decode_reads_a_string_document() {
    let text = Text::from_ron("\"hello world\"").unwrap();
    assert_eq!(text.as_str(), "hello world");
    assert!(Text::from_ron("[1, 2]").is_err());
}

#[test]
fn decoded_payloads_flow_through_the_two_phase_protocol() {
    let mut payload: Vec<u8> = vec![7, 0, 0, 0, 0, 0, 0, 0];
    payload.extend_from_slice(b"decoded");

    let mut assets: Assets<Text> = Assets::new(1);
    let slot = LoadHandle::new_direct(4);
    let weak: WeakHandle<Text> = WeakHandle::new(slot);
    assert!(assets.update_asset(Text::from_payload(&payload), slot, 1).is_none());
    assets.commit_asset_version(slot, 1);
    assert_eq!(assets.get(&weak).map(|t| t.as_str()), Some("decoded"));
}
