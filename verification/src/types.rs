//! Optional per-call configuration: identity bindings, key-stretching
//! selection, an authentication context string, and an expected-server-key
//! pin. These are plain data; the flows resolve them into the exact values
//! the external core must be invoked with.

use vstd::prelude::*;

use crate::errors::OpaqueError;
use crate::suite::{spec_lower_chars, spec_suite_of_name};

verus! {

/// Optional client and server identity strings bound into the transcript.
/// An absent identity falls back to the core's default binding (the public
/// key material itself).
#[derive(Debug)]
pub struct Identifiers {
    pub client: Option<Vec<u8>>,
    pub server: Option<Vec<u8>>,
}

impl Identifiers {
    /// Binds the given identities.
    pub fn new(client: Option<Vec<u8>>, server: Option<Vec<u8>>) -> (r: Self)
        ensures
            r.client == client,
            r.server == server,
    {
        Identifiers { client, server }
    }
}

impl Default for Identifiers {
    /// No identity bindings: the core's defaults stand.
    fn default() -> (r: Self)
        ensures
            r.client is None,
            r.server is None,
    {
        Identifiers { client: None, server: None }
    }
}

/// An explicit key-stretching parameterization: the cost tuple handed to the
/// core's password-hardening function. Validation of the tuple is the
/// core's.
#[derive(Clone, Copy, Debug, PartialEq, Eq, Structural)]
pub struct Argon2Params {
    pub memory_cost_kib: u32,
    pub time_cost: u32,
    pub parallelism: u32,
    pub output_length: Option<usize>,
}

impl Argon2Params {
    /// Bundles an explicit cost tuple.
    pub fn new(
        memory_cost_kib: u32,
        time_cost: u32,
        parallelism: u32,
        output_length: Option<usize>,
    ) -> (r: Self)
        ensures
            r == (Argon2Params { memory_cost_kib, time_cost, parallelism, output_length }),
    {
        Argon2Params { memory_cost_kib, time_cost, parallelism, output_length }
    }
}

/// The two named key-stretching presets.
#[derive(Clone, Copy, Debug, PartialEq, Eq, Structural)]
pub enum KsfVariant {
    /// A preset for memory-constrained environments.
    MemoryConstrained,
    /// The parameterization the protocol specification recommends.
    RfcRecommended,
}

/// The canonical name of a preset.
pub open spec fn spec_ksf_variant_name(v: KsfVariant) -> Seq<char> {
    match v {
        KsfVariant::MemoryConstrained => "memory_constrained"@,
        KsfVariant::RfcRecommended => "rfc_recommended"@,
    }
}

/// Case-insensitive preset lookup by name.
pub open spec fn spec_ksf_variant_of_name(name: Seq<char>) -> Option<KsfVariant> {
    if spec_lower_chars(name) == spec_ksf_variant_name(KsfVariant::MemoryConstrained) {
        Some(KsfVariant::MemoryConstrained)
    } else if spec_lower_chars(name) == spec_ksf_variant_name(KsfVariant::RfcRecommended) {
        Some(KsfVariant::RfcRecommended)
    } else {
        None
    }
}

/// A key-stretching selection: a named preset, optionally overridden by an
/// explicit cost tuple.
#[derive(Clone, Copy, Debug, PartialEq, Eq, Structural)]
pub struct KeyStretching {
    pub variant: KsfVariant,
    pub params: Option<Argon2Params>,
}

/// The cost tuple of the memory-constrained preset.
pub open spec fn spec_memory_constrained_params() -> Argon2Params {
    Argon2Params { memory_cost_kib: 65536, time_cost: 3, parallelism: 4, output_length: None }
}

/// The cost tuple of the specification-recommended preset.
pub open spec fn spec_rfc_recommended_params() -> Argon2Params {
    Argon2Params { memory_cost_kib: 2097151, time_cost: 1, parallelism: 4, output_length: None }
}

/// The cost tuple a selection resolves to: the explicit tuple when one was
/// given, otherwise the preset's.
pub open spec fn spec_resolve_ksf(k: KeyStretching) -> Argon2Params {
    match k.params {
        Some(p) => p,
        None => match k.variant {
            KsfVariant::MemoryConstrained => spec_memory_constrained_params(),
            KsfVariant::RfcRecommended => spec_rfc_recommended_params(),
        },
    }
}

impl KeyStretching {
    /// Selects a preset by name, matched case-insensitively, optionally
    /// overridden by an explicit cost tuple. An unknown name is rejected.
    pub fn new(variant: &str, params: Option<Argon2Params>) -> (r: Result<Self, OpaqueError>)
        ensures
            match spec_ksf_variant_of_name(variant@) {
                Some(v) => r == Ok::<KeyStretching, OpaqueError>(
                    KeyStretching { variant: v, params },
                ),
                None => r == Err::<KeyStretching, OpaqueError>(
                    OpaqueError::UnsupportedKeyStretching,
                ),
            },
    {
        match Self::variant_from_str(variant) {
            Some(v) => Ok(KeyStretching { variant: v, params }),
            None => Err(OpaqueError::UnsupportedKeyStretching),
        }
    }

    /// Looks a preset up by name, matching case-insensitively.
    pub fn variant_from_str(name: &str) -> (r: Option<KsfVariant>)
        ensures
            r == spec_ksf_variant_of_name(name@),
    {
        if crate::suite::eq_lower(name, "memory_constrained") {
            Some(KsfVariant::MemoryConstrained)
        } else if crate::suite::eq_lower(name, "rfc_recommended") {
            Some(KsfVariant::RfcRecommended)
        } else {
            None
        }
    }

    /// The canonical name of the selected preset.
    pub fn variant_name(&self) -> (r: &'static str)
        ensures
            r@ == spec_ksf_variant_name(self.variant),
    {
        match self.variant {
            KsfVariant::MemoryConstrained => "memory_constrained",
            KsfVariant::RfcRecommended => "rfc_recommended",
        }
    }

    /// The cost tuple this selection stands for.
    pub fn resolve(&self) -> (r: Argon2Params)
        ensures
            r == spec_resolve_ksf(*self),
    {
        match self.params {
            Some(p) => p,
            None => match self.variant {
                KsfVariant::MemoryConstrained => Argon2Params {
                    memory_cost_kib: 65536,
                    time_cost: 3,
                    parallelism: 4,
                    output_length: None,
                },
                KsfVariant::RfcRecommended => Argon2Params {
                    memory_cost_kib: 2097151,
                    time_cost: 1,
                    parallelism: 4,
                    output_length: None,
                },
            },
        }
    }
}

/// Optional configuration for the client's registration-finish step.
#[derive(Debug)]
pub struct ClientRegistrationFinishParameters {
    pub identifiers: Option<Identifiers>,
    pub key_stretching: Option<KeyStretching>,
}

impl ClientRegistrationFinishParameters {
    /// Bundles the given options.
    pub fn new(
        identifiers: Option<Identifiers>,
        key_stretching: Option<KeyStretching>,
    ) -> (r: Self)
        ensures
            r.identifiers == identifiers,
            r.key_stretching == key_stretching,
    {
        ClientRegistrationFinishParameters { identifiers, key_stretching }
    }
}

/// Optional configuration for the server's login steps.
#[derive(Debug)]
pub struct ServerLoginParameters {
    pub context: Option<Vec<u8>>,
    pub identifiers: Option<Identifiers>,
}

impl ServerLoginParameters {
    /// Bundles the given options.
    pub fn new(context: Option<Vec<u8>>, identifiers: Option<Identifiers>) -> (r: Self)
        ensures
            r.context == context,
            r.identifiers == identifiers,
    {
        ServerLoginParameters { context, identifiers }
    }
}

/// Optional configuration for the client's login-finish step, including the
/// expected-server-key pin.
#[derive(Debug)]
pub struct ClientLoginFinishParameters {
    pub context: Option<Vec<u8>>,
    pub identifiers: Option<Identifiers>,
    pub key_stretching: Option<KeyStretching>,
    pub server_s_pk: Option<Vec<u8>>,
}

impl ClientLoginFinishParameters {
    /// Bundles the given options.
    pub fn new(
        context: Option<Vec<u8>>,
        identifiers: Option<Identifiers>,
        key_stretching: Option<KeyStretching>,
        server_s_pk: Option<Vec<u8>>,
    ) -> (r: Self)
        ensures
            r.context == context,
            r.identifiers == identifiers,
            r.key_stretching == key_stretching,
            r.server_s_pk == server_s_pk,
    {
        ClientLoginFinishParameters { context, identifiers, key_stretching, server_s_pk }
    }
}

/// The identity bindings a parameter bundle resolves to: the given ones, or
/// none.
pub open spec fn spec_resolved_identifiers(identifiers: Option<Identifiers>) -> Identifiers {
    match identifiers {
        Some(ids) => ids,
        None => Identifiers { client: None, server: None },
    }
}

/// The cost tuple a parameter bundle resolves to: the selection's tuple, or
/// the core's own default when none was selected.
pub open spec fn spec_resolved_ksf(key_stretching: Option<KeyStretching>) -> Option<Argon2Params> {
    match key_stretching {
        Some(k) => Some(spec_resolve_ksf(k)),
        None => None,
    }
}

/// Resolves optional identity bindings.
pub(crate) fn resolve_identifiers(identifiers: Option<Identifiers>) -> (r: Identifiers)
    ensures
        r == spec_resolved_identifiers(identifiers),
{
    match identifiers {
        Some(ids) => ids,
        None => Identifiers { client: None, server: None },
    }
}

/// Resolves an optional key-stretching selection to its cost tuple.
pub(crate) fn resolve_ksf(key_stretching: Option<KeyStretching>) -> (r: Option<Argon2Params>)
    ensures
        r == spec_resolved_ksf(key_stretching),
{
    match key_stretching {
        Some(k) => Some(k.resolve()),
        None => None,
    }
}

} // verus!
