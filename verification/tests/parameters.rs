use opaque_flow::{
    Argon2Params, ClientLoginFinishParameters, ClientRegistrationFinishParameters, Identifiers,
    KeyStretching, KsfVariant, OpaqueError, ServerLoginParameters,
};

#[test]
fn key_stretching_accepts_the_two_presets() {
    let ks = KeyStretching::new("memory_constrained", None).unwrap();
    assert_eq!(ks.variant, KsfVariant::MemoryConstrained);
    assert_eq!(ks.variant_name(), "memory_constrained");

    let ks = KeyStretching::new("rfc_recommended", None).unwrap();
    assert_eq!(ks.variant, KsfVariant::RfcRecommended);
    assert_eq!(ks.variant_name(), "rfc_recommended");
}

#[test]
fn key_stretching_names_match_case_insensitively() {
    let ks = KeyStretching::new("Memory_Constrained", None).unwrap();
    assert_eq!(ks.variant, KsfVariant::MemoryConstrained);
    let ks = KeyStretching::new("RFC_RECOMMENDED", None).unwrap();
    assert_eq!(ks.variant, KsfVariant::RfcRecommended);
}

#[test]
fn key_stretching_rejects_unknown_variants() {
    assert_eq!(
        KeyStretching::new("argon2d", None).unwrap_err(),
        OpaqueError::UnsupportedKeyStretching
    );
    assert_eq!(
        KeyStretching::new("", None).unwrap_err(),
        OpaqueError::UnsupportedKeyStretching
    );
}

#[test]
fn presets_resolve_to_their_documented_cost_tuples() {
    let ks = KeyStretching::new("memory_constrained", None).unwrap();
    assert_eq!(
        ks.resolve(),
        Argon2Params::new(1 << 16, 3, 4, None)
    );

    let ks = KeyStretching::new("rfc_recommended", None).unwrap();
    assert_eq!(
        ks.resolve(),
        Argon2Params::new((1 << 21) - 1, 1, 4, None)
    );
}

#[test]
fn explicit_params_override_the_preset() {
    let explicit = Argon2Params::new(8192, 2, 1, Some(64));
    let ks = KeyStretching::new("rfc_recommended", Some(explicit)).unwrap();
    assert_eq!(ks.resolve(), explicit);
    assert_eq!(ks.resolve().memory_cost_kib, 8192);
    assert_eq!(ks.resolve().time_cost, 2);
    assert_eq!(ks.resolve().parallelism, 1);
    assert_eq!(ks.resolve().output_length, Some(64));
}

#[test]
fn identifiers_keep_what_they_are_given() {
    let ids = Identifiers::new(Some(b"alice".to_vec()), Some(b"example.com".to_vec()));
    assert_eq!(ids.client.as_deref(), Some(b"alice".as_slice()));
    assert_eq!(ids.server.as_deref(), Some(b"example.com".as_slice()));

    let none = Identifiers::default();
    assert!(none.client.is_none() && none.server.is_none());
}

#[test]
fn parameter_bundles_keep_what_they_are_given() {
    let ids = Identifiers::new(Some(b"c".to_vec()), None);
    let ks = KeyStretching::new("memory_constrained", None).unwrap();
    let reg = ClientRegistrationFinishParameters::new(Some(ids), Some(ks));
    assert!(reg.identifiers.is_some());
    assert!(reg.key_stretching.is_some());

    let login = ClientLoginFinishParameters::new(
        Some(b"ctx".to_vec()),
        None,
        None,
        Some(b"pin".to_vec()),
    );
    assert_eq!(login.context.as_deref(), Some(b"ctx".as_slice()));
    assert!(login.identifiers.is_none());
    assert_eq!(login.server_s_pk.as_deref(), Some(b"pin".as_slice()));

    let server = ServerLoginParameters::new(Some(b"ctx".to_vec()), None);
    assert_eq!(server.context.as_deref(), Some(b"ctx".as_slice()));
    assert!(server.identifiers.is_none());
}
