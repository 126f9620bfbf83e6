//! Tests of the stub-metadata stream parser.

use pyembed::tbd::{parse_str, record_version, scan_document_versions, ParseError, TBDVersion};

#[test]
fn test_parse_tagged_documents() {
    let data = "--- !tapi-tbd-v3\narchs: [ x86_64 ]\n--- !tapi-tbd\ntbd-version: 4\n";
    let records = parse_str(data).expect("valid stream");
    assert_eq!(records.len(), 2);
    assert!(matches!(record_version(&records[0]), TBDVersion::V3));
    assert!(matches!(record_version(&records[1]), TBDVersion::V4));
}

#[test]
fn test_parse_v2_tag() {
    let data = "--- !tapi-tbd-v2\narchs: [ arm64 ]\n";
    let records = parse_str(data).expect("valid stream");
    assert_eq!(records.len(), 1);
    assert!(matches!(record_version(&records[0]), TBDVersion::V2));
}

#[test]
fn test_parse_untagged_leading_document_is_v1() {
    let data = "archs: [ i386 ]\n--- !tapi-tbd-v2\narchs: [ x86_64 ]\n";
    let records = parse_str(data).expect("valid stream");
    assert_eq!(records.len(), 2);
    assert!(matches!(record_version(&records[0]), TBDVersion::V1));
    assert!(matches!(record_version(&records[1]), TBDVersion::V2));
}

#[test]
fn test_parse_bare_marker_is_v1() {
    let data = "---\narchs: [ x86_64 ]\n";
    let records = parse_str(data).expect("valid stream");
    assert_eq!(records.len(), 1);
    assert!(matches!(record_version(&records[0]), TBDVersion::V1));
}

#[test]
fn test_parse_invalid_yaml() {
    let data = "archs: [ x86_64\n";
    let err = parse_str(data).expect_err("invalid stream");
    assert!(matches!(err, ParseError::YamlError(_)));
}

#[test]
fn test_parse_empty_stream() {
    let records = parse_str("").expect("empty stream");
    assert!(records.is_empty());
}

#[test]
fn test_scan_orders_tags() {
    let versions =
        scan_document_versions("--- !tapi-tbd-v2\na: 1\n--- !tapi-tbd-v3\nb: 2\n---\nc: 3\n");
    assert_eq!(versions.len(), 3);
    assert!(matches!(versions[0], TBDVersion::V2));
    assert!(matches!(versions[1], TBDVersion::V3));
    assert!(matches!(versions[2], TBDVersion::V1));
}

#[test]
fn test_scan_base_tag_matches_later_versions() {
    // The version-4 tag is a prefix of nothing else; an unknown suffix on
    // the base tag still classifies as version 4, mirroring the tag
    // matching order.
    let versions = scan_document_versions("--- !tapi-tbd-v9\nx: 1\n");
    assert_eq!(versions.len(), 1);
    assert!(matches!(versions[0], TBDVersion::V4));
}

#[test]
fn test_document_count_mismatch() {
    // The key `---b` begins a content line with the marker characters
    // without starting a document, so one more tag is scanned than there
    // are documents, and the counts cannot be reconciled.
    let data = "---\na: 1\n---\n---b: 2\n";
    match parse_str(data) {
        Err(ParseError::DocumentCountMismatch) => {}
        other => panic!("expected a document count mismatch, got {:?}", other.map(|r| r.len())),
    }
}

#[test]
fn test_document_count_mismatch_message() {
    assert_eq!(
        ParseError::DocumentCountMismatch.message(),
        "mismatch in expected document count when parsing YAML"
    );
}
