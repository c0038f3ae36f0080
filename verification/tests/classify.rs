//! Classification of raw message texts: the valid shapes, and the full error
//! taxonomy.

use net_topo::ClassificationError;
use net_topo::JsonItem;
use net_topo::WireDoc;
use net_topo::classify_doc;
use net_topo::MessageType;
use net_topo::ScanResult;
use net_topo::classify_message;

#[test]
fn test_classify_message_valid_network_scan() {
    let msg = r#"{"type": "network_scan", "data": ["192.168.0.1", "192.168.0.2"]}"#;
    match classify_message(msg) {
        Ok(MessageType::NetworkScanResult(ScanResult::Hosts(hosts))) => {
            assert_eq!(hosts, vec!["192.168.0.1", "192.168.0.2"]);
        }
        _ => {
            panic!("Failed to classify a valid network scan message.")
        }
    }
}

#[test]
fn test_classify_message_valid_host_scan() {
    let msg = r#"{"type": "host_scan", "host": "192.168.0.1", "data": [80, 8080]}"#;
    match classify_message(msg) {
        Ok(MessageType::HostScanResult(ScanResult::Ports(host, ports))) => {
            assert_eq!(host, "192.168.0.1");
            assert_eq!(ports, vec![80, 8080]);
        }
        _ => panic!("Failed to classify a valid host scan message."),
    }
}

#[test]
fn test_classify_message_unknown_type() {
    let msg = r#"{"type": "unknown", "data": ["something"]}"#;
    match classify_message(msg) {
        Err(err) => {
            assert_eq!(err, ClassificationError::UnknownType);
        }
        _ => panic!("Failed to handle an unknown message type."),
    }
}

#[test]
fn test_classify_message_missing_type() {
    let msg = r#"{"data": ["192.168.0.1", "192.168.0.2"]}"#;
    match classify_message(msg) {
        Err(err) => {
            assert_eq!(err, ClassificationError::MissingType);
        }
        _ => panic!("Failed to handle a message with missing type."),
    }
}

#[test]
fn test_classify_message_invalid_json() {
    let msg = r#"{"type: "network_scan", "data": ["192.168.0.1", "192.168.0.2"]}"#; // missing quote
    match classify_message(msg) {
        Err(err) => {
            assert_eq!(err, ClassificationError::InvalidEncoding);
        }
        _ => panic!("Failed to handle invalid JSON."),
    }
}

#[test]
fn classify_unknown_type_empty_data() {
    let msg = r#"{"type":"bogus","data":[]}"#;
    assert_eq!(
        classify_message(msg),
        Err(ClassificationError::UnknownType)
    );
}

#[test]
fn classify_network_scan_skips_non_strings() {
    let msg = r#"{"type": "network_scan", "data": ["10.0.0.1", 42, null, true, ["x"], {"a": 1}, "10.0.0.2"]}"#;
    match classify_message(msg) {
        Ok(MessageType::NetworkScanResult(ScanResult::Hosts(hosts))) => {
            assert_eq!(hosts, vec!["10.0.0.1", "10.0.0.2"]);
        }
        other => panic!("unexpected classification: {:?}", other),
    }
}

#[test]
fn classify_network_scan_empty_data() {
    let msg = r#"{"type": "network_scan", "data": []}"#;
    match classify_message(msg) {
        Ok(MessageType::NetworkScanResult(ScanResult::Hosts(hosts))) => {
            assert_eq!(hosts, Vec::<String>::new());
        }
        other => panic!("unexpected classification: {:?}", other),
    }
}

#[test]
fn classify_network_scan_keeps_duplicates_in_order() {
    let msg = r#"{"type": "network_scan", "data": ["b", "a", "b"]}"#;
    match classify_message(msg) {
        Ok(MessageType::NetworkScanResult(ScanResult::Hosts(hosts))) => {
            assert_eq!(hosts, vec!["b", "a", "b"]);
        }
        other => panic!("unexpected classification: {:?}", other),
    }
}

#[test]
fn classify_host_scan_skips_out_of_range_and_non_integers() {
    let msg = r#"{"type": "host_scan", "host": "h", "data": [0, 65535, 65536, -1, 8.5, "80", null, 443]}"#;
    match classify_message(msg) {
        Ok(MessageType::HostScanResult(ScanResult::Ports(host, ports))) => {
            assert_eq!(host, "h");
            assert_eq!(ports, vec![0, 65535, 443]);
        }
        other => panic!("unexpected classification: {:?}", other),
    }
}

#[test]
fn classify_host_scan_missing_host() {
    let msg = r#"{"type": "host_scan", "data": [80]}"#;
    assert_eq!(
        classify_message(msg),
        Err(ClassificationError::MissingHost)
    );
}

#[test]
fn classify_host_scan_non_string_host() {
    let msg = r#"{"type": "host_scan", "host": 7, "data": [80]}"#;
    assert_eq!(
        classify_message(msg),
        Err(ClassificationError::MissingHost)
    );
}

#[test]
fn classify_missing_data_field() {
    let msg = r#"{"type": "network_scan"}"#;
    assert_eq!(
        classify_message(msg),
        Err(ClassificationError::InvalidData)
    );
}

#[test]
fn classify_non_array_data_field() {
    let msg = r#"{"type": "host_scan", "host": "h", "data": "80"}"#;
    assert_eq!(
        classify_message(msg),
        Err(ClassificationError::InvalidData)
    );
}

#[test]
fn classify_non_object_payload() {
    assert_eq!(
        classify_message("[1, 2]"),
        Err(ClassificationError::MissingType)
    );
}

#[test]
fn classify_non_string_type_field() {
    let msg = r#"{"type": 5, "data": []}"#;
    assert_eq!(
        classify_message(msg),
        Err(ClassificationError::MissingType)
    );
}

#[test]
fn classify_trailing_garbage_is_invalid_encoding() {
    let msg = r#"{"type":"network_scan","data":[]} {"#;
    assert_eq!(
        classify_message(msg),
        Err(ClassificationError::InvalidEncoding)
    );
}

#[test]
fn classify_same_message_twice_yields_equal_results() {
    let msg = r#"{"type": "host_scan", "host": "192.168.0.1", "data": [80, 8080]}"#;
    let first = classify_message(msg);
    let second = classify_message(msg);
    assert_eq!(first, second);
    assert!(first.is_ok());
}

#[test]
fn classify_doc_builds_message_from_projected_fields() {
    let doc = WireDoc {
        type_field: Some("host_scan".to_string()),
        host_field: Some("10.1.1.1".to_string()),
        data_field: Some(vec![
            JsonItem::Uint(22),
            JsonItem::Text("nope".to_string()),
            JsonItem::Uint(70000),
            JsonItem::Uint(443),
        ]),
    };
    match classify_doc(&doc) {
        Ok(MessageType::HostScanResult(ScanResult::Ports(host, ports))) => {
            assert_eq!(host, "10.1.1.1");
            assert_eq!(ports, vec![22, 443]);
        }
        other => panic!("unexpected classification: {:?}", other),
    }
}

#[test]
fn classify_doc_rejects_missing_fields_in_order() {
    let no_type = WireDoc { type_field: None, host_field: None, data_field: Some(Vec::new()) };
    assert_eq!(classify_doc(&no_type), Err(ClassificationError::MissingType));
    let no_data = WireDoc {
        type_field: Some("host_scan".to_string()),
        host_field: None,
        data_field: None,
    };
    assert_eq!(classify_doc(&no_data), Err(ClassificationError::InvalidData));
    let no_host = WireDoc {
        type_field: Some("host_scan".to_string()),
        host_field: None,
        data_field: Some(Vec::new()),
    };
    assert_eq!(classify_doc(&no_host), Err(ClassificationError::MissingHost));
}
