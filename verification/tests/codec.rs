use openwhisk_wasm_runtime::decimal::decimal_digits;
use openwhisk_wasm_runtime::marshal::{export_error, guest_extent};
use openwhisk_wasm_runtime::outcome::{decode_outcome, encode_outcome, Outcome};
use openwhisk_wasm_runtime::types::{ActionCapabilities, HostError};

#[test]
fn encode_success_is_tagged_wire_form() {
    let o = Outcome::Success(b"{\"result\":9}".to_vec());
    let bytes = encode_outcome(&o);
    assert_eq!(bytes, b"{\"success\":{\"result\":9}}".to_vec());
}

#[test]
fn encode_failure_is_tagged_wire_form() {
    let o = Outcome::Failure(b"{\"error\":\"no\"}".to_vec());
    let bytes = encode_outcome(&o);
    assert_eq!(bytes, b"{\"failure\":{\"error\":\"no\"}}".to_vec());
}

#[test]
fn round_trip_success() {
    let o = Outcome::Success(b"{\"result\":9}".to_vec());
    let bytes = encode_outcome(&o);
    assert_eq!(decode_outcome(&bytes), Ok(o));
}

#[test]
fn round_trip_failure() {
    let o = Outcome::Failure(b"{\"error\":\"Expected param2.\"}".to_vec());
    let bytes = encode_outcome(&o);
    assert_eq!(decode_outcome(&bytes), Ok(o));
}

#[test]
fn round_trip_empty_payload() {
    let o = Outcome::Success(Vec::new());
    let bytes = encode_outcome(&o);
    assert_eq!(decode_outcome(&bytes), Ok(o));
}

#[test]
fn decode_reads_the_tag_not_the_payload() {
    let s = decode_outcome(&b"{\"success\":{\"error\":\"x\"}}".to_vec()).unwrap();
    assert!(matches!(s, Outcome::Success(_)));
    let f = decode_outcome(&b"{\"failure\":{\"result\":1}}".to_vec()).unwrap();
    assert!(matches!(f, Outcome::Failure(_)));
}

#[test]
fn decode_rejects_empty_bytes() {
    assert_eq!(decode_outcome(&Vec::new()), Err(HostError::Decode));
}

#[test]
fn decode_rejects_short_bytes() {
    assert_eq!(decode_outcome(&b"{\"success\"}".to_vec()), Err(HostError::Decode));
}

#[test]
fn decode_rejects_unknown_tag() {
    assert_eq!(decode_outcome(&b"{\"outcome\":{\"result\":9}}".to_vec()), Err(HostError::Decode));
}

#[test]
fn decode_rejects_missing_close_brace() {
    assert_eq!(decode_outcome(&b"{\"success\":{\"result\":9".to_vec()), Err(HostError::Decode));
}

#[test]
fn decode_frames_only_the_outer_tag() {
    // A truncated payload still decodes at the framing layer as long as the
    // outer frame closes; judging the payload's shape is not the codec's job.
    let r = decode_outcome(&b"{\"success\":{\"result\":9}".to_vec());
    assert_eq!(r, Ok(Outcome::Success(b"{\"result\":9".to_vec())));
}

#[test]
fn decimal_renders_zero() {
    assert_eq!(decimal_digits(0), b"0".to_vec());
}

#[test]
fn decimal_renders_single_digit() {
    assert_eq!(decimal_digits(7), b"7".to_vec());
}

#[test]
fn decimal_renders_multi_digit() {
    assert_eq!(decimal_digits(1234567890), b"1234567890".to_vec());
}

#[test]
fn decimal_renders_round_number_without_loss() {
    assert_eq!(decimal_digits(1000), b"1000".to_vec());
}

#[test]
fn extent_accepts_exact_fit() {
    assert_eq!(guest_extent(100, 28, 128), Some((100, 28)));
}

#[test]
fn extent_rejects_one_past_end() {
    assert_eq!(guest_extent(100, 29, 128), None);
}

#[test]
fn extent_rejects_negative_offset() {
    assert_eq!(guest_extent(-1, 4, 128), None);
}

#[test]
fn extent_rejects_negative_length() {
    assert_eq!(guest_extent(4, -1, 128), None);
}

#[test]
fn extent_accepts_empty_region_at_end() {
    assert_eq!(guest_extent(128, 0, 128), Some((128, 0)));
}

#[test]
fn missing_everything_reports_allocate_first() {
    let r = export_error(false, false, false, false, false);
    assert_eq!(r, Err(HostError::MissingAllocateSpace));
}

#[test]
fn each_missing_export_has_its_own_error() {
    assert_eq!(export_error(false, true, true, true, true), Err(HostError::MissingAllocateSpace));
    assert_eq!(export_error(true, false, true, true, true), Err(HostError::MissingBufferPointer));
    assert_eq!(export_error(true, true, false, true, true), Err(HostError::MissingBufferLen));
    assert_eq!(export_error(true, true, true, false, true), Err(HostError::MissingEntryPoint));
    assert_eq!(export_error(true, true, true, true, false), Err(HostError::MissingMemory));
}

#[test]
fn conforming_exports_raise_no_error() {
    assert_eq!(export_error(true, true, true, true, true), Ok(()));
}

#[test]
fn default_capabilities_declare_nothing() {
    let caps = ActionCapabilities::default();
    assert!(caps.dir.is_none());
}
