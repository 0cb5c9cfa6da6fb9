//! Orchestration layer for the OPAQUE asymmetric password-authenticated key
//! exchange: the suite catalog, the four-step registration and login state
//! machines, single-use session-state discipline, and the suite-tagged codec
//! for long-lived state. The per-suite cryptography itself (OPRF evaluation,
//! the authenticated key exchange, password hardening) is an external
//! collaborator: each protocol step here is split into a function that
//! performs every suite and state check and describes the exact core call to
//! make, and a function that takes the core's reply and produces the
//! caller-facing result.

mod bytes;
mod client;
mod crypto_core;
mod encoding;
mod errors;
mod login;
mod registration;
mod server;
mod state;
mod suite;
mod types;

pub use bytes::bytes_eq;
pub use client::OpaqueClient;
pub use server::OpaqueServer;
pub use crypto_core::CoreFault;
pub use crypto_core::CoreLoginFinished;
pub use crypto_core::CoreRecord;
pub use crypto_core::CoreRegistrationFinished;
pub use crypto_core::CoreResponse;
pub use crypto_core::CoreSessionKey;
pub use crypto_core::CoreStarted;
pub use encoding::decode_b64;
pub use encoding::encode_b64;
pub use errors::Entity;
pub use errors::OpaqueError;
pub use login::ClientLoginFinish;
pub use login::ClientLoginFinishCall;
pub use login::ClientLoginStartCall;
pub use login::ServerLoginFinishCall;
pub use login::ServerLoginStartCall;
pub use login::client_finish_login;
pub use login::client_finish_login_accept;
pub use login::client_start_login;
pub use login::client_start_login_accept;
pub use login::server_finish_login;
pub use login::server_finish_login_accept;
pub use login::server_start_login;
pub use login::server_start_login_accept;
pub use registration::ClientRegistrationFinishCall;
pub use registration::ClientRegistrationStartCall;
pub use registration::ServerRegistrationFinishCall;
pub use registration::ServerRegistrationStartCall;
pub use registration::client_finish_registration;
pub use registration::client_finish_registration_accept;
pub use registration::client_start_registration;
pub use registration::client_start_registration_accept;
pub use registration::server_finish_registration;
pub use registration::server_finish_registration_accept;
pub use registration::server_start_registration;
pub use registration::server_start_registration_accept;
pub use state::ClientLoginState;
pub use state::ClientRegistrationState;
pub use state::lemma_envelope_round_trip;
pub use state::spec_envelope;
pub use state::spec_open_envelope;
pub use state::spec_suite_code;
pub use state::spec_suite_of_code;
pub use state::EphemeralView;
pub use state::RecordView;
pub use state::ServerLoginState;
pub use state::ServerRegistration;
pub use state::ServerSetup;
pub use suite::check_requested_suite;
pub use suite::ensure_suite;
pub use suite::spec_check_requested;
pub use suite::spec_ensure_suite;
pub use suite::spec_lower_char;
pub use suite::spec_lower_chars;
pub use suite::spec_opt_name;
pub use suite::spec_parse_suite;
pub use suite::spec_suite_name;
pub use suite::spec_suite_of_name;
pub use suite::lemma_suite_name_round_trip;
pub use suite::parse_suite;
pub use suite::SuiteId;
pub use suite::ML_KEM_768_RISTRETTO255_SHA512;
pub use suite::P256_SHA256;
pub use suite::P384_SHA384;
pub use suite::P521_SHA512;
pub use suite::RISTRETTO255_SHA512;
pub use encoding::spec_b64_std_decode;
pub use encoding::spec_b64_url_decode;
pub use encoding::spec_b64_url_encode;
pub use encoding::spec_trimmed;
pub use errors::spec_entity_label;
pub use errors::spec_error_message;
pub use types::spec_ksf_variant_name;
pub use types::spec_ksf_variant_of_name;
pub use types::spec_memory_constrained_params;
pub use types::spec_resolve_ksf;
pub use types::spec_resolved_identifiers;
pub use types::spec_resolved_ksf;
pub use types::spec_rfc_recommended_params;
pub use types::Argon2Params;
pub use types::ClientLoginFinishParameters;
pub use types::ClientRegistrationFinishParameters;
pub use types::Identifiers;
pub use types::KeyStretching;
pub use types::KsfVariant;
pub use types::ServerLoginParameters;
