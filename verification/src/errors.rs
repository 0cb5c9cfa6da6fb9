//! The error taxonomy of the library. Every failure of a protocol step is
//! one of these terminal errors; there is no internal retry.

use vstd::prelude::*;
use vstd::string::StringExecFns;

verus! {

/// A suite-tagged value named by a `SuiteMismatch` or `InvalidState` error.
#[derive(Clone, Copy, Debug, PartialEq, Eq, Structural)]
pub enum Entity {
    ServerSetup,
    ServerRegistration,
    ClientRegistrationState,
    ClientLoginState,
    ServerLoginState,
}

/// The terminal errors of the library.
///
/// `ProtocolFailure` is deliberately non-specific: every cryptographic
/// verification failure of the external core (malformed message, failed
/// proof, wrong group element, wrong password) is reported in this one
/// shape, so that the error itself leaks nothing about which check failed.
/// `LoginFailure` is kept distinct because a server-public-key pin mismatch
/// signals possible impersonation, a different threat class.
#[derive(Clone, Copy, Debug, PartialEq, Eq, Structural)]
pub enum OpaqueError {
    /// A requested suite name is not in the catalog.
    UnsupportedSuite,
    /// Suite-tagged values participating in one call disagree; names the
    /// offending entity.
    SuiteMismatch { entity: Entity },
    /// An ephemeral state was already consumed; names the entity.
    InvalidState { entity: Entity },
    /// The external cryptographic core rejected the step.
    ProtocolFailure,
    /// The server public key returned by login differs from the pinned one.
    LoginFailure,
    /// Malformed bytes handed to a deserializer, including bytes tagged
    /// with a different suite than the one requested.
    SerializationFailure,
    /// A requested key-stretching variant name is not recognised.
    UnsupportedKeyStretching,
}

/// The display label of an entity.
pub open spec fn spec_entity_label(e: Entity) -> Seq<char> {
    match e {
        Entity::ServerSetup => "ServerSetup"@,
        Entity::ServerRegistration => "ServerRegistration"@,
        Entity::ClientRegistrationState => "ClientRegistrationState"@,
        Entity::ClientLoginState => "ClientLoginState"@,
        Entity::ServerLoginState => "ServerLoginState"@,
    }
}

impl Entity {
    /// The display label of this entity.
    pub fn label(self) -> (r: &'static str)
        ensures
            r@ == spec_entity_label(self),
    {
        match self {
            Entity::ServerSetup => "ServerSetup",
            Entity::ServerRegistration => "ServerRegistration",
            Entity::ClientRegistrationState => "ClientRegistrationState",
            Entity::ClientLoginState => "ClientLoginState",
            Entity::ServerLoginState => "ServerLoginState",
        }
    }
}

/// The human-readable description of an error. The unsupported-suite
/// message lists exactly the catalog's canonical names.
pub open spec fn spec_error_message(e: OpaqueError) -> Seq<char> {
    match e {
        OpaqueError::UnsupportedSuite =>
            "unsupported cipher suite (available: ristretto255_sha512, p256_sha256, p384_sha384, p521_sha512, ml_kem_768_ristretto255_sha512)"@,
        OpaqueError::SuiteMismatch { entity } =>
            spec_entity_label(entity) + " does not match the requested cipher suite"@,
        OpaqueError::InvalidState { entity } =>
            spec_entity_label(entity) + " has already been used"@,
        OpaqueError::ProtocolFailure => "protocol failure"@,
        OpaqueError::LoginFailure => "server public key mismatch"@,
        OpaqueError::SerializationFailure => "malformed serialized value"@,
        OpaqueError::UnsupportedKeyStretching => "unsupported key stretching variant"@,
    }
}

impl OpaqueError {
    /// Renders the error as text; the unsupported-suite message lists
    /// exactly the catalog's canonical names.
    pub fn message(&self) -> (r: String)
        ensures
            r@ == spec_error_message(*self),
    {
        match self {
            OpaqueError::UnsupportedSuite => String::from_str(
                "unsupported cipher suite (available: ristretto255_sha512, p256_sha256, p384_sha384, p521_sha512, ml_kem_768_ristretto255_sha512)",
            ),
            OpaqueError::SuiteMismatch { entity } => {
                let mut m = String::from_str(entity.label());
                m.append(" does not match the requested cipher suite");
                m
            }
            OpaqueError::InvalidState { entity } => {
                let mut m = String::from_str(entity.label());
                m.append(" has already been used");
                m
            }
            OpaqueError::ProtocolFailure => String::from_str("protocol failure"),
            OpaqueError::LoginFailure => String::from_str("server public key mismatch"),
            OpaqueError::SerializationFailure => String::from_str("malformed serialized value"),
            OpaqueError::UnsupportedKeyStretching => String::from_str(
                "unsupported key stretching variant",
            ),
        }
    }
}

} // verus!
