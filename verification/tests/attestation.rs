use zerotrace::WipeCertificate;
use zerotrace::canonical_string;
use zerotrace::generate_keypair;
use zerotrace::sign_certificate;
use zerotrace::verify_certificate;

fn signed_record() -> WipeCertificate {
    let keypair = generate_keypair();
    let cert = WipeCertificate::new("sda", "Null overwriting");
    sign_certificate(cert, &keypair)
}

#[test]
fn new_record_is_unsigned() {
    let cert = WipeCertificate::new("sda", "Null overwriting");
    assert_eq!(cert.device, "sda");
    assert_eq!(cert.method, "Null overwriting");
    assert_eq!(cert.status, "success");
    assert_eq!(cert.public_key, "");
    assert!(cert.signature.is_none());
    assert_eq!(cert.certificate_id.len(), 36);
}

#[test]
fn fresh_record_id_is_a_hyphenated_v4_uuid() {
    let cert = WipeCertificate::new("sda", "Null overwriting");
    let chars: Vec<char> = cert.certificate_id.chars().collect();
    assert_eq!(chars.len(), 36);
    assert_eq!(chars[8], '-');
    assert_eq!(chars[13], '-');
    assert_eq!(chars[18], '-');
    assert_eq!(chars[23], '-');
    assert_eq!(chars[14], '4');
    for (i, c) in chars.iter().enumerate() {
        if i != 8 && i != 13 && i != 18 && i != 23 {
            assert!(c.is_ascii_hexdigit() && !c.is_uppercase());
        }
    }
}

#[test]
fn fresh_record_timestamp_has_the_rfc3339_length() {
    let cert = WipeCertificate::new("sda", "Null overwriting");
    assert!(cert.timestamp.len() >= 25);
    assert!(cert.timestamp.contains('T'));
}

#[test]
fn fresh_records_get_distinct_ids() {
    let a = WipeCertificate::new("sda", "Null overwriting");
    let b = WipeCertificate::new("sda", "Null overwriting");
    assert_ne!(a.certificate_id, b.certificate_id);
}

#[test]
fn sign_then_verify() {
    let signed = signed_record();
    assert!(signed.signature.is_some());
    assert!(verify_certificate(&signed));
}

#[test]
fn embedded_key_is_base64_of_32_bytes() {
    let signed = signed_record();
    let engine = base64::engine::general_purpose::STANDARD;
    let pk = base64::Engine::decode(&engine, &signed.public_key).unwrap();
    assert_eq!(pk.len(), 32);
    let sig = base64::Engine::decode(&engine, signed.signature.as_ref().unwrap()).unwrap();
    assert_eq!(sig.len(), 64);
}

#[test]
fn mutated_certificate_id_fails_verification() {
    let mut signed = signed_record();
    signed.certificate_id = "00000000-0000-0000-0000-000000000000".to_string();
    assert!(!verify_certificate(&signed));
}

#[test]
fn mutated_device_fails_verification() {
    let mut signed = signed_record();
    signed.device = "sdb".to_string();
    assert!(!verify_certificate(&signed));
}

#[test]
fn mutated_method_fails_verification() {
    let mut signed = signed_record();
    signed.method = "Cryptographic erase".to_string();
    assert!(!verify_certificate(&signed));
}

#[test]
fn mutated_timestamp_fails_verification() {
    let mut signed = signed_record();
    signed.timestamp = "1970-01-01T00:00:00+00:00".to_string();
    assert!(!verify_certificate(&signed));
}

#[test]
fn mutated_status_fails_verification() {
    let mut signed = signed_record();
    signed.status = "failed".to_string();
    assert!(!verify_certificate(&signed));
}

#[test]
fn mutated_public_key_fails_verification() {
    let mut signed = signed_record();
    let engine = base64::engine::general_purpose::STANDARD;
    signed.public_key = base64::Engine::encode(&engine, [0u8; 32]);
    assert!(!verify_certificate(&signed));
}

#[test]
fn unsigned_record_never_verifies() {
    let cert = WipeCertificate::new("sda", "Null overwriting");
    assert!(!verify_certificate(&cert));
}

#[test]
fn malformed_base64_signature_is_false_not_a_crash() {
    let mut signed = signed_record();
    signed.signature = Some("%%% this is not base64 %%%".to_string());
    assert!(!verify_certificate(&signed));
}

#[test]
fn malformed_base64_key_is_false_not_a_crash() {
    let mut signed = signed_record();
    signed.public_key = "%%% this is not base64 %%%".to_string();
    assert!(!verify_certificate(&signed));
}

#[test]
fn wrong_length_key_and_signature_are_false_not_a_crash() {
    let engine = base64::engine::general_purpose::STANDARD;
    let mut signed = signed_record();
    signed.public_key = base64::Engine::encode(&engine, [1u8, 2u8, 3u8]);
    assert!(!verify_certificate(&signed));
    let mut signed = signed_record();
    signed.signature = Some(base64::Engine::encode(&engine, [9u8; 5]));
    assert!(!verify_certificate(&signed));
}

#[test]
fn garbage_bytes_of_right_length_are_false_not_a_crash() {
    let engine = base64::engine::general_purpose::STANDARD;
    let mut signed = signed_record();
    signed.signature = Some(base64::Engine::encode(&engine, [0xABu8; 64]));
    assert!(!verify_certificate(&signed));
    let mut signed = signed_record();
    signed.public_key = base64::Engine::encode(&engine, [0xFFu8; 32]);
    assert!(!verify_certificate(&signed));
}

#[test]
fn canonical_text_is_exact() {
    let cert = WipeCertificate {
        certificate_id: "abc".to_string(),
        device: "d\"ev".to_string(),
        method: "m\\1".to_string(),
        timestamp: "t".to_string(),
        status: "success".to_string(),
        public_key: "".to_string(),
        signature: None,
    };
    let expected = "{\"certificate_id\":\"abc\",\"device\":\"d\\\"ev\",\"method\":\"m\\\\1\",\"public_key\":\"\",\"status\":\"success\",\"timestamp\":\"t\"}";
    assert_eq!(canonical_string(&cert), expected);
}

#[test]
fn canonical_text_ignores_assignment_order_and_signature() {
    let a = WipeCertificate {
        certificate_id: "id-1".to_string(),
        device: "sda".to_string(),
        method: "Null overwriting".to_string(),
        timestamp: "2024-01-01T00:00:00+00:00".to_string(),
        status: "success".to_string(),
        public_key: "QUJD".to_string(),
        signature: None,
    };
    let mut b = WipeCertificate::new("placeholder", "placeholder");
    b.signature = Some("c2ln".to_string());
    b.status = "success".to_string();
    b.timestamp = "2024-01-01T00:00:00+00:00".to_string();
    b.public_key = "QUJD".to_string();
    b.method = "Null overwriting".to_string();
    b.device = "sda".to_string();
    b.certificate_id = "id-1".to_string();
    assert_eq!(canonical_string(&a), canonical_string(&b));
}

#[test]
fn canonical_text_agrees_with_a_key_sorting_serializer() {
    let cert = WipeCertificate {
        certificate_id: "id-1".to_string(),
        device: "sda".to_string(),
        method: "Null overwriting".to_string(),
        timestamp: "2024-01-01T00:00:00+00:00".to_string(),
        status: "success".to_string(),
        public_key: "QUJD".to_string(),
        signature: None,
    };
    let mut map = serde_json::Map::new();
    map.insert("timestamp".to_string(), serde_json::Value::String(cert.timestamp.clone()));
    map.insert("device".to_string(), serde_json::Value::String(cert.device.clone()));
    map.insert("status".to_string(), serde_json::Value::String(cert.status.clone()));
    map.insert("certificate_id".to_string(), serde_json::Value::String(cert.certificate_id.clone()));
    map.insert("public_key".to_string(), serde_json::Value::String(cert.public_key.clone()));
    map.insert("method".to_string(), serde_json::Value::String(cert.method.clone()));
    let rendered = serde_json::to_string(&serde_json::Value::Object(map)).unwrap();
    assert_eq!(canonical_string(&cert), rendered);
}

#[test]
fn signing_preserves_the_record_claims() {
    let keypair = generate_keypair();
    let cert = WipeCertificate::new("sda", "Null overwriting");
    let id = cert.certificate_id.clone();
    let timestamp = cert.timestamp.clone();
    let signed = sign_certificate(cert, &keypair);
    assert_eq!(signed.certificate_id, id);
    assert_eq!(signed.device, "sda");
    assert_eq!(signed.method, "Null overwriting");
    assert_eq!(signed.timestamp, timestamp);
    assert_eq!(signed.status, "success");
    assert_eq!(signed.public_key.len(), 44);
}
