use opaque_flow::{parse_suite, Entity, OpaqueClient, OpaqueError, SuiteId};

#[test]
fn canonical_names_round_trip() {
    let suites = [
        SuiteId::Ristretto255Sha512,
        SuiteId::P256Sha256,
        SuiteId::P384Sha384,
        SuiteId::P521Sha512,
        SuiteId::MlKem768Ristretto255Sha512,
    ];
    for suite in suites {
        assert_eq!(SuiteId::from_str(suite.as_str()), Some(suite));
    }
}

#[test]
fn names_are_the_documented_ones() {
    assert_eq!(SuiteId::Ristretto255Sha512.as_str(), "ristretto255_sha512");
    assert_eq!(SuiteId::P256Sha256.as_str(), "p256_sha256");
    assert_eq!(SuiteId::P384Sha384.as_str(), "p384_sha384");
    assert_eq!(SuiteId::P521Sha512.as_str(), "p521_sha512");
    assert_eq!(
        SuiteId::MlKem768Ristretto255Sha512.as_str(),
        "ml_kem_768_ristretto255_sha512"
    );
}

#[test]
fn parsing_is_case_insensitive() {
    assert_eq!(
        SuiteId::from_str("RISTRETTO255_SHA512"),
        Some(SuiteId::Ristretto255Sha512)
    );
    assert_eq!(SuiteId::from_str("P256_Sha256"), Some(SuiteId::P256Sha256));
    assert_eq!(
        SuiteId::from_str("Ml_Kem_768_Ristretto255_Sha512"),
        Some(SuiteId::MlKem768Ristretto255Sha512)
    );
}

#[test]
fn unknown_names_are_rejected() {
    assert_eq!(SuiteId::from_str(""), None);
    assert_eq!(SuiteId::from_str("p999_sha999"), None);
    assert_eq!(SuiteId::from_str("ristretto255-sha512"), None);
}

#[test]
fn no_name_selects_the_default_suite() {
    assert_eq!(parse_suite(None), Ok(SuiteId::Ristretto255Sha512));
    assert_eq!(SuiteId::default(), SuiteId::Ristretto255Sha512);
}

#[test]
fn available_lists_the_catalog_in_order() {
    assert_eq!(
        SuiteId::available(),
        vec![
            "ristretto255_sha512",
            "p256_sha256",
            "p384_sha384",
            "p521_sha512",
            "ml_kem_768_ristretto255_sha512",
        ]
    );
}

#[test]
fn unsupported_suite_message_lists_the_catalog() {
    let err = parse_suite(Some("rot13_md5")).unwrap_err();
    assert_eq!(err, OpaqueError::UnsupportedSuite);
    let message = err.message();
    assert_eq!(
        message,
        "unsupported cipher suite (available: ristretto255_sha512, p256_sha256, p384_sha384, \
         p521_sha512, ml_kem_768_ristretto255_sha512)"
    );
    for name in SuiteId::available() {
        assert!(message.contains(name));
    }
    assert!(OpaqueClient::new(Some("rot13_md5")).is_err());
}

#[test]
fn parse_accepts_every_canonical_name() {
    for name in SuiteId::available() {
        let parsed = parse_suite(Some(name)).unwrap();
        assert_eq!(parsed.as_str(), name);
    }
}

#[test]
fn error_messages_name_the_entity() {
    assert_eq!(
        OpaqueError::SuiteMismatch {
            entity: Entity::ServerSetup
        }
        .message(),
        "ServerSetup does not match the requested cipher suite"
    );
    assert_eq!(
        OpaqueError::InvalidState {
            entity: Entity::ClientLoginState
        }
        .message(),
        "ClientLoginState has already been used"
    );
    assert_eq!(OpaqueError::ProtocolFailure.message(), "protocol failure");
    assert_eq!(
        OpaqueError::LoginFailure.message(),
        "server public key mismatch"
    );
    assert_eq!(
        OpaqueError::SerializationFailure.message(),
        "malformed serialized value"
    );
    assert_eq!(
        OpaqueError::UnsupportedKeyStretching.message(),
        "unsupported key stretching variant"
    );
}
