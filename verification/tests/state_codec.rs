use opaque_flow::{
    ClientLoginState, ClientRegistrationState, Entity, OpaqueError, ServerLoginState,
    ServerRegistration, ServerSetup, SuiteId,
};

#[test]
fn server_setup_round_trips() {
    let setup = ServerSetup::from_core(SuiteId::P384Sha384, vec![9, 8, 7, 6]);
    let blob = setup.serialize();
    let copy = ServerSetup::deserialize(&blob, Some("p384_sha384")).unwrap();
    assert_eq!(copy.suite_id(), SuiteId::P384Sha384);
    assert_eq!(copy.serialize(), blob);
}

#[test]
fn server_registration_round_trips() {
    let record = ServerRegistration::from_core(SuiteId::P256Sha256, vec![1, 2, 3]);
    let blob = record.serialize();
    let copy = ServerRegistration::deserialize(&blob, Some("p256_sha256")).unwrap();
    assert_eq!(copy.suite_id(), SuiteId::P256Sha256);
    assert_eq!(copy.serialize(), blob);
}

#[test]
fn ephemeral_states_round_trip() {
    let state = ClientRegistrationState::from_core(SuiteId::Ristretto255Sha512, vec![4, 5]);
    let blob = state.serialize().unwrap();
    let copy = ClientRegistrationState::deserialize(&blob, None).unwrap();
    assert_eq!(copy.suite_id(), SuiteId::Ristretto255Sha512);
    assert!(!copy.is_consumed());
    assert_eq!(copy.serialize().unwrap(), blob);

    let state = ClientLoginState::from_core(SuiteId::P521Sha512, vec![6]);
    let blob = state.serialize().unwrap();
    let copy = ClientLoginState::deserialize(&blob, Some("p521_sha512")).unwrap();
    assert_eq!(copy.serialize().unwrap(), blob);

    let state = ServerLoginState::from_core(SuiteId::MlKem768Ristretto255Sha512, vec![]);
    let blob = state.serialize().unwrap();
    let copy =
        ServerLoginState::deserialize(&blob, Some("ml_kem_768_ristretto255_sha512")).unwrap();
    assert_eq!(copy.serialize().unwrap(), blob);
}

#[test]
fn deserializing_under_the_wrong_suite_fails() {
    let setup = ServerSetup::from_core(SuiteId::P256Sha256, vec![1, 2, 3]);
    let blob = setup.serialize();
    assert_eq!(
        ServerSetup::deserialize(&blob, Some("p384_sha384")).unwrap_err(),
        OpaqueError::SerializationFailure
    );
    // The default suite is ristretto255_sha512, which the blob is not tagged
    // with either.
    assert_eq!(
        ServerSetup::deserialize(&blob, None).unwrap_err(),
        OpaqueError::SerializationFailure
    );
}

#[test]
fn malformed_bytes_are_rejected() {
    assert_eq!(
        ServerRegistration::deserialize(&[], None).unwrap_err(),
        OpaqueError::SerializationFailure
    );
    // 0 is not a suite tag.
    assert_eq!(
        ClientLoginState::deserialize(&[0, 1, 2], None).unwrap_err(),
        OpaqueError::SerializationFailure
    );
    assert_eq!(
        ServerLoginState::deserialize(&[200], None).unwrap_err(),
        OpaqueError::SerializationFailure
    );
}

#[test]
fn deserializing_under_an_unknown_suite_name_fails() {
    let blob = ServerSetup::from_core(SuiteId::P256Sha256, vec![1]).serialize();
    assert_eq!(
        ServerSetup::deserialize(&blob, Some("rot13_md5")).unwrap_err(),
        OpaqueError::UnsupportedSuite
    );
}

#[test]
fn consumed_states_cannot_be_taken_or_serialized_again() {
    let mut state = ClientRegistrationState::from_core(SuiteId::P256Sha256, vec![1, 2]);
    assert_eq!(state.take_payload().unwrap(), vec![1, 2]);
    assert_eq!(
        state.take_payload().unwrap_err(),
        OpaqueError::InvalidState {
            entity: Entity::ClientRegistrationState
        }
    );
    assert!(state.is_consumed());
    assert_eq!(
        state.serialize().unwrap_err(),
        OpaqueError::InvalidState {
            entity: Entity::ClientRegistrationState
        }
    );
}

#[test]
fn a_deserialized_copy_is_freshly_consumable() {
    let mut state = ServerLoginState::from_core(SuiteId::P384Sha384, vec![7, 7, 7]);
    let blob = state.serialize().unwrap();
    assert_eq!(state.take_payload().unwrap(), vec![7, 7, 7]);
    assert!(state.take_payload().is_err());

    // Deserializing the saved pre-finish blob resets the consumption
    // history of the copy.
    let mut copy = ServerLoginState::deserialize(&blob, Some("p384_sha384")).unwrap();
    assert_eq!(copy.take_payload().unwrap(), vec![7, 7, 7]);
    assert!(copy.take_payload().is_err());
}

#[test]
fn envelope_carries_the_suite_tag() {
    // The first byte of a serialized value is its suite tag; the rest is
    // the core's payload, unchanged.
    let blob = ServerSetup::from_core(SuiteId::Ristretto255Sha512, vec![10, 20]).serialize();
    assert_eq!(blob, vec![1, 10, 20]);
    let blob = ServerSetup::from_core(SuiteId::MlKem768Ristretto255Sha512, vec![]).serialize();
    assert_eq!(blob, vec![5]);
}
