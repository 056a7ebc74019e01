use gateway_core::{
    add_session_in_progress, remove_session_in_progress, GatewaySessionInfo, JetConnectionMode,
    JetSessionTokenClaims, SessionRegistry, Timestamp,
};

fn claims(id: u128, protocol: &str) -> JetSessionTokenClaims {
    JetSessionTokenClaims {
        jet_aid: id,
        jet_ap: protocol.to_string(),
        dst_hst: Some("target.example:3389".to_string()),
        jet_cm: JetConnectionMode::Fwd,
        jet_rec: true,
    }
}

fn at(secs: i64) -> Timestamp {
    Timestamp { secs, nanos: 0 }
}

#[test]
fn session_from_claims_copies_fields() {
    let s = GatewaySessionInfo::from_claims_at(claims(42, "rdp"), at(77));
    assert_eq!(s.id(), 42);
    assert_eq!(s.application_protocol, "rdp");
    assert_eq!(s.destination_host.as_deref(), Some("target.example:3389"));
    assert_eq!(s.connection_mode, JetConnectionMode::Fwd);
    assert!(s.recording_policy);
    assert!(!s.filtering_policy);
    assert_eq!(s.start_timestamp, at(77));
    let now = GatewaySessionInfo::from_claims(claims(43, "ssh"));
    assert_eq!(now.association_id, 43);
    assert!(now.start_timestamp.secs > 1_600_000_000);
}

#[test]
fn default_session_is_unknown_with_random_v4_id() {
    let a = GatewaySessionInfo::default();
    let b = GatewaySessionInfo::default();
    assert_eq!(a.application_protocol, "unknown");
    assert!(a.destination_host.is_none());
    assert_eq!(a.connection_mode, JetConnectionMode::Rdv);
    assert!(!a.recording_policy && !a.filtering_policy);
    assert_eq!(uuid::Uuid::from_u128(a.id()).get_version_num(), 4);
    assert_eq!(uuid::Uuid::from_u128(a.id()).get_variant(), uuid::Variant::RFC4122);
    assert_ne!(a.id(), b.id());
}

#[test]
fn registry_add_replace_remove_snapshot() {
    let mut reg = SessionRegistry::new();
    add_session_in_progress(&mut reg, GatewaySessionInfo::from_claims_at(claims(1, "rdp"), at(10)));
    add_session_in_progress(&mut reg, GatewaySessionInfo::from_claims_at(claims(2, "ssh"), at(20)));
    assert_eq!(reg.len(), 2);
    assert!(reg.contains(1) && reg.contains(2));

    // Same identifier: the record is replaced, not duplicated.
    add_session_in_progress(&mut reg, GatewaySessionInfo::from_claims_at(claims(1, "vnc"), at(30)));
    assert_eq!(reg.len(), 2);
    assert_eq!(reg.get(1).unwrap().application_protocol, "vnc");

    let snap = reg.snapshot();
    assert_eq!(snap.len(), 2);
    assert_eq!(snap[0].association_id, 1);
    assert_eq!(snap[0].start_timestamp, at(30));
    assert_eq!(snap[1].association_id, 2);

    remove_session_in_progress(&mut reg, 1);
    assert!(!reg.contains(1));
    assert_eq!(reg.len(), 1);
    remove_session_in_progress(&mut reg, 99);
    assert_eq!(reg.len(), 1);
    assert!(reg.get(99).is_none());
}
