use wasmbed::identity::{peer_identity, IdentityError, PublicKey};
use wasmbed::registry::{
    authorization_for, connect_outcome, DevicePhase, DeviceRecord, DeviceStatus, DeviceStatusUpdate,
    GatewayReference, RegistryError, Timestamp,
};
use wasmbed::server::AuthorizationResult;

const CERT: [u8; 209] = [
    0x30, 0x81, 0xce, 0x30, 0x81, 0x81, 0xa0, 0x03, 0x02, 0x01, 0x02, 0x02, 0x01, 0x01, 0x30, 0x05,
    0x06, 0x03, 0x2b, 0x65, 0x70, 0x30, 0x11, 0x31, 0x0f, 0x30, 0x0d, 0x06, 0x03, 0x55, 0x04, 0x03,
    0x0c, 0x06, 0x64, 0x65, 0x76, 0x69, 0x63, 0x65, 0x30, 0x1e, 0x17, 0x0d, 0x32, 0x35, 0x30, 0x31,
    0x30, 0x31, 0x30, 0x30, 0x30, 0x30, 0x30, 0x30, 0x5a, 0x17, 0x0d, 0x33, 0x35, 0x30, 0x31, 0x30,
    0x31, 0x30, 0x30, 0x30, 0x30, 0x30, 0x30, 0x5a, 0x30, 0x11, 0x31, 0x0f, 0x30, 0x0d, 0x06, 0x03,
    0x55, 0x04, 0x03, 0x0c, 0x06, 0x64, 0x65, 0x76, 0x69, 0x63, 0x65, 0x30, 0x2a, 0x30, 0x05, 0x06,
    0x03, 0x2b, 0x65, 0x70, 0x03, 0x21, 0x00, 0x03, 0xa1, 0x07, 0xbf, 0xf3, 0xce, 0x10, 0xbe, 0x1d,
    0x70, 0xdd, 0x18, 0xe7, 0x4b, 0xc0, 0x99, 0x67, 0xe4, 0xd6, 0x30, 0x9b, 0xa5, 0x0d, 0x5f, 0x1d,
    0xdc, 0x86, 0x64, 0x12, 0x55, 0x31, 0xb8, 0x30, 0x05, 0x06, 0x03, 0x2b, 0x65, 0x70, 0x03, 0x41,
    0x00, 0x3a, 0x1c, 0x09, 0x29, 0x57, 0xd6, 0x94, 0x82, 0x11, 0x79, 0x6c, 0xee, 0x6d, 0xf4, 0x34,
    0x0e, 0x17, 0x44, 0x2b, 0xe7, 0x50, 0x79, 0xc1, 0x9a, 0xda, 0x1e, 0x58, 0x89, 0x42, 0x2e, 0x05,
    0x28, 0xc0, 0xbb, 0xe6, 0x0f, 0xcc, 0x58, 0xa9, 0x18, 0x6b, 0xbc, 0xa5, 0xf4, 0x2a, 0x77, 0xe2,
    0x46, 0xa5, 0x99, 0x5c, 0x66, 0xf9, 0x6b, 0xe5, 0xd3, 0xc1, 0xd1, 0xbe, 0x00, 0xef, 0xc4, 0x92,
    0x06,
];

const SPKI: [u8; 44] = [
    0x30, 0x2a, 0x30, 0x05, 0x06, 0x03, 0x2b, 0x65, 0x70, 0x03, 0x21, 0x00, 0x03, 0xa1, 0x07, 0xbf,
    0xf3, 0xce, 0x10, 0xbe, 0x1d, 0x70, 0xdd, 0x18, 0xe7, 0x4b, 0xc0, 0x99, 0x67, 0xe4, 0xd6, 0x30,
    0x9b, 0xa5, 0x0d, 0x5f, 0x1d, 0xdc, 0x86, 0x64, 0x12, 0x55, 0x31, 0xb8,
];

const SPKI_TEXT: &str = "MCowBQYDK2VwAyEAA6EHv_POEL4dcN0Y50vAmWfk1jCbpQ1fHdyGZBJVMbg";

fn record(name: Option<&str>) -> DeviceRecord {
    DeviceRecord {
        name: name.map(|n| n.to_string()),
        public_key: PublicKey::from_slice(&SPKI),
        status: None,
    }
}

#[test]
fn identity_comes_from_first_certificate() {
    let k = PublicKey::from_certificate(&CERT).unwrap();
    assert_eq!(k.as_bytes(), &SPKI[..]);
    let chain = vec![CERT.to_vec(), vec![1, 2, 3]];
    assert_eq!(peer_identity(&chain).unwrap(), PublicKey::from_slice(&SPKI));
    assert_eq!(peer_identity(&vec![]), Err(IdentityError::IdentityExtractionFailed));
    assert_eq!(
        PublicKey::from_certificate(&[0x30, 0x03, 0x02, 0x01, 0x00]),
        Err(IdentityError::IdentityExtractionFailed)
    );
}

#[test]
fn identity_text_round_trip() {
    let k = PublicKey::from_slice(&SPKI);
    let text = k.to_base64();
    assert_eq!(text, SPKI_TEXT);
    assert_eq!(PublicKey::from_base64(&text), Ok(SPKI.to_vec()));
    assert_eq!(PublicKey::from_base64("a"), Err(IdentityError::InvalidBase64));
    assert_eq!(PublicKey::from_base64("AA=="), Err(IdentityError::InvalidBase64));
    assert_eq!(PublicKey::from_slice(&[0xfb, 0xff]).to_base64(), "-_8");
    assert_eq!(PublicKey::from_slice(&[]).to_base64(), "");
    for n in 0..10usize {
        let bytes: Vec<u8> = (0..n as u8).map(|b| b.wrapping_mul(97).wrapping_add(250)).collect();
        let text = PublicKey::from_slice(&bytes).to_base64();
        assert_eq!(text.len(), (4 * n + 2) / 3);
        assert!(text.chars().all(|c| c.is_ascii_alphanumeric() || c == '-' || c == '_'));
        assert_eq!(PublicKey::from_base64(&text), Ok(bytes));
    }
}

#[test]
fn lookup_decides_authorization() {
    assert_eq!(authorization_for(&Ok(Some(record(Some("d1"))))), AuthorizationResult::Authorized);
    assert_eq!(authorization_for(&Ok(None)), AuthorizationResult::Unauthorized);
    assert_eq!(authorization_for(&Err(RegistryError::TransientFailure)), AuthorizationResult::Unauthorized);
}

#[test]
fn status_patch_distinguishes_unchanged_from_cleared() {
    let gateway = GatewayReference::new("ns", "gw-0");
    let connected = DeviceStatusUpdate::new()
        .mark_connected(gateway, Timestamp { millis: 1_000 })
        .update_heartbeat(Timestamp { millis: 2_000 });
    let s = connected.patch(None);
    assert_eq!(s.phase, DevicePhase::Connected);
    assert_eq!(s.gateway.as_ref().unwrap().name, "gw-0");
    assert_eq!(s.gateway.as_ref().unwrap().namespace, "ns");
    assert_eq!(s.connected_since, Some(Timestamp { millis: 1_000 }));
    assert_eq!(s.last_heartbeat, Some(Timestamp { millis: 2_000 }));

    let d2 = DeviceStatusUpdate::default().mark_disconnected().patch(Some(s));
    assert_eq!(d2.phase, DevicePhase::Disconnected);
    assert!(d2.gateway.is_none());
    assert_eq!(d2.connected_since, None);
    assert_eq!(d2.last_heartbeat, Some(Timestamp { millis: 2_000 }));

    let d3 = DeviceStatusUpdate::new().patch(Some(DeviceStatus::initial()));
    assert_eq!(d3.phase, DevicePhase::Pending);
    assert_eq!(DevicePhase::default(), DevicePhase::Pending);
}

#[test]
fn apply_needs_a_name() {
    let r = DeviceStatusUpdate::new().phase(DevicePhase::Connected).apply(record(None));
    assert!(matches!(r, Err(RegistryError::Unnamed)));
    let d = DeviceStatusUpdate::new().phase(DevicePhase::Connected).apply(record(Some("d1"))).unwrap();
    assert_eq!(d.status.unwrap().phase, DevicePhase::Connected);
    assert_eq!(d.name.as_deref(), Some("d1"));
}

#[test]
fn connect_outcome_marks_found_devices_only() {
    let gw = GatewayReference::new("ns", "gw");
    let (answer, patch) = connect_outcome(&Ok(Some(record(Some("d1")))), gw.clone(), Timestamp { millis: 7 });
    assert_eq!(answer, AuthorizationResult::Authorized);
    let patch = patch.unwrap();
    assert_eq!(patch.phase, Some(DevicePhase::Connected));
    assert_eq!(patch.connected_since, Some(Some(Timestamp { millis: 7 })));
    assert_eq!(patch.gateway.unwrap().unwrap().name, "gw");
    assert!(patch.last_heartbeat.is_none());
    let (answer, patch) = connect_outcome(&Ok(None), gw.clone(), Timestamp { millis: 7 });
    assert_eq!(answer, AuthorizationResult::Unauthorized);
    assert!(patch.is_none());
    let (answer, patch) = connect_outcome(&Err(RegistryError::TransientFailure), gw, Timestamp { millis: 7 });
    assert_eq!(answer, AuthorizationResult::Unauthorized);
    assert!(patch.is_none());
}
