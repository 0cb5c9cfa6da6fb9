//! The five long-lived state and record types, their suite-tagged byte
//! codec, and the single-use discipline of the ephemeral states.
//!
//! Every value holds the external core's serialized payload together with an
//! explicit `SuiteId` tag fixed at creation. The codec frames the payload in
//! an envelope that carries the tag, so deserializing under the wrong suite
//! fails deterministically rather than handing garbage state to the core.
//! The three ephemeral types (`ClientRegistrationState`, `ClientLoginState`,
//! `ServerLoginState`) are consumable: their payload is taken exactly once
//! by the matching finish step, and a second take reports `InvalidState`.
//! Deserializing a saved pre-finish blob yields a fresh consumable copy.

use vstd::prelude::*;
use vstd::slice::{slice_index_get, slice_subrange, slice_to_vec};

use crate::errors::{Entity, OpaqueError};
use crate::suite::{parse_suite, spec_opt_name, spec_parse_suite, SuiteId};

verus! {

/// The envelope tag byte of a suite.
pub open spec fn spec_suite_code(s: SuiteId) -> u8 {
    match s {
        SuiteId::Ristretto255Sha512 => 1,
        SuiteId::P256Sha256 => 2,
        SuiteId::P384Sha384 => 3,
        SuiteId::P521Sha512 => 4,
        SuiteId::MlKem768Ristretto255Sha512 => 5,
    }
}

/// The suite a tag byte stands for, if any.
pub open spec fn spec_suite_of_code(c: u8) -> Option<SuiteId> {
    if c == 1 {
        Some(SuiteId::Ristretto255Sha512)
    } else if c == 2 {
        Some(SuiteId::P256Sha256)
    } else if c == 3 {
        Some(SuiteId::P384Sha384)
    } else if c == 4 {
        Some(SuiteId::P521Sha512)
    } else if c == 5 {
        Some(SuiteId::MlKem768Ristretto255Sha512)
    } else {
        None
    }
}

/// The serialized form of a suite-tagged value: one tag byte, then the
/// core's payload.
pub open spec fn spec_envelope(suite: SuiteId, payload: Seq<u8>) -> Seq<u8> {
    seq![spec_suite_code(suite)] + payload
}

/// Reading an envelope back: the tag byte names the suite, the rest is the
/// payload. Empty input and unknown tag bytes are malformed.
pub open spec fn spec_open_envelope(data: Seq<u8>) -> Option<(SuiteId, Seq<u8>)> {
    if data.len() == 0 {
        None
    } else {
        match spec_suite_of_code(data[0]) {
            Some(suite) => Some((suite, data.subrange(1, data.len() as int))),
            None => None,
        }
    }
}

/// Round-trip law of the codec: an envelope sealed under a suite opens to
/// exactly that suite and payload.
pub proof fn lemma_envelope_round_trip(suite: SuiteId, payload: Seq<u8>)
    ensures
        spec_open_envelope(spec_envelope(suite, payload)) == Some((suite, payload)),
{
    let data = spec_envelope(suite, payload);
    assert(data[0] == spec_suite_code(suite));
    assert(data.subrange(1, data.len() as int) =~= payload);
}

fn suite_code(s: SuiteId) -> (r: u8)
    ensures
        r == spec_suite_code(s),
{
    match s {
        SuiteId::Ristretto255Sha512 => 1,
        SuiteId::P256Sha256 => 2,
        SuiteId::P384Sha384 => 3,
        SuiteId::P521Sha512 => 4,
        SuiteId::MlKem768Ristretto255Sha512 => 5,
    }
}

fn suite_of_code(c: u8) -> (r: Option<SuiteId>)
    ensures
        r == spec_suite_of_code(c),
{
    if c == 1 {
        Some(SuiteId::Ristretto255Sha512)
    } else if c == 2 {
        Some(SuiteId::P256Sha256)
    } else if c == 3 {
        Some(SuiteId::P384Sha384)
    } else if c == 4 {
        Some(SuiteId::P521Sha512)
    } else if c == 5 {
        Some(SuiteId::MlKem768Ristretto255Sha512)
    } else {
        None
    }
}

fn seal_envelope(suite: SuiteId, payload: &[u8]) -> (r: Vec<u8>)
    ensures
        r@ == spec_envelope(suite, payload@),
{
    let mut out: Vec<u8> = Vec::new();
    out.push(suite_code(suite));
    out.extend_from_slice(payload);
    assert(out@ =~= spec_envelope(suite, payload@));
    out
}

fn open_envelope(data: &[u8], expected: SuiteId) -> (r: Result<Vec<u8>, OpaqueError>)
    ensures
        match spec_open_envelope(data@) {
            Some(tagged) => if tagged.0 == expected {
                r matches Ok(p) && p@ == tagged.1
            } else {
                r == Err::<Vec<u8>, OpaqueError>(OpaqueError::SerializationFailure)
            },
            None => r == Err::<Vec<u8>, OpaqueError>(OpaqueError::SerializationFailure),
        },
{
    if data.len() == 0 {
        return Err(OpaqueError::SerializationFailure);
    }
    let tag = *slice_index_get(data, 0);
    match suite_of_code(tag) {
        None => Err(OpaqueError::SerializationFailure),
        Some(suite) => {
            if suite == expected {
                let payload = slice_to_vec(slice_subrange(data, 1, data.len()));
                Ok(payload)
            } else {
                Err(OpaqueError::SerializationFailure)
            }
        }
    }
}

/// What a permanent suite-tagged record holds: its suite and the core's
/// payload for it.
pub struct RecordView {
    pub suite: SuiteId,
    pub payload: Seq<u8>,
}

/// What an ephemeral suite-tagged state holds: its suite and, until it has
/// been consumed, the core's payload for it.
pub struct EphemeralView {
    pub suite: SuiteId,
    pub payload: Option<Seq<u8>>,
}

/// The server's long-lived secret material for one suite: its private key
/// and OPRF seed, as the core serializes them. Created once per deployment,
/// never transmitted, immutable after creation.
#[derive(Debug)]
pub struct ServerSetup {
    suite: SuiteId,
    payload: Vec<u8>,
}

impl View for ServerSetup {
    type V = RecordView;

    closed spec fn view(&self) -> RecordView {
        RecordView { suite: self.suite, payload: self.payload@ }
    }
}

impl ServerSetup {
    /// The core's payload, for building a core call description.
    pub(crate) fn payload_slice(&self) -> (r: &[u8])
        ensures
            r@ == self@.payload,
    {
        self.payload.as_slice()
    }

    /// Wraps the setup material the core generated under `suite`.
    pub fn from_core(suite: SuiteId, payload: Vec<u8>) -> (r: Self)
        ensures
            r@ == (RecordView { suite, payload: payload@ }),
    {
        ServerSetup { suite, payload }
    }

    /// The suite this setup was created under.
    pub fn suite_id(&self) -> (r: SuiteId)
        ensures
            r == self@.suite,
    {
        self.suite
    }

    /// Serializes the setup, tagged with its suite.
    pub fn serialize(&self) -> (r: Vec<u8>)
        ensures
            r@ == spec_envelope(self@.suite, self@.payload),
    {
        seal_envelope(self.suite, self.payload.as_slice())
    }

    /// Deserializes a setup under the requested (or default) suite. Bytes
    /// sealed under any other suite are rejected as malformed.
    pub fn deserialize(data: &[u8], suite: Option<&str>) -> (r: Result<Self, OpaqueError>)
        ensures
            match spec_parse_suite(spec_opt_name(suite)) {
                None => r == Err::<ServerSetup, OpaqueError>(OpaqueError::UnsupportedSuite),
                Some(id) => match spec_open_envelope(data@) {
                    Some(tagged) => if tagged.0 == id {
                        r matches Ok(v) && v@ == (RecordView { suite: id, payload: tagged.1 })
                    } else {
                        r == Err::<ServerSetup, OpaqueError>(OpaqueError::SerializationFailure)
                    },
                    None => r == Err::<ServerSetup, OpaqueError>(
                        OpaqueError::SerializationFailure,
                    ),
                },
            },
    {
        let id = match parse_suite(suite) {
            Ok(id) => id,
            Err(e) => {
                return Err(e);
            }
        };
        let payload = match open_envelope(data, id) {
            Ok(p) => p,
            Err(e) => {
                return Err(e);
            }
        };
        Ok(ServerSetup { suite: id, payload })
    }
}

/// The server's per-account password file: the record produced by a
/// finished registration, forever bound to the suite it was finished under.
#[derive(Debug)]
pub struct ServerRegistration {
    suite: SuiteId,
    payload: Vec<u8>,
}

impl View for ServerRegistration {
    type V = RecordView;

    closed spec fn view(&self) -> RecordView {
        RecordView { suite: self.suite, payload: self.payload@ }
    }
}

impl ServerRegistration {
    /// The core's payload, for building a core call description.
    pub(crate) fn payload_slice(&self) -> (r: &[u8])
        ensures
            r@ == self@.payload,
    {
        self.payload.as_slice()
    }

    /// Wraps the password file the core produced under `suite`.
    pub fn from_core(suite: SuiteId, payload: Vec<u8>) -> (r: Self)
        ensures
            r@ == (RecordView { suite, payload: payload@ }),
    {
        ServerRegistration { suite, payload }
    }

    /// The suite this record is bound to.
    pub fn suite_id(&self) -> (r: SuiteId)
        ensures
            r == self@.suite,
    {
        self.suite
    }

    /// Serializes the record, tagged with its suite.
    pub fn serialize(&self) -> (r: Vec<u8>)
        ensures
            r@ == spec_envelope(self@.suite, self@.payload),
    {
        seal_envelope(self.suite, self.payload.as_slice())
    }

    /// Deserializes a record under the requested (or default) suite. Bytes
    /// sealed under any other suite are rejected as malformed.
    pub fn deserialize(data: &[u8], suite: Option<&str>) -> (r: Result<Self, OpaqueError>)
        ensures
            match spec_parse_suite(spec_opt_name(suite)) {
                None => r == Err::<ServerRegistration, OpaqueError>(
                    OpaqueError::UnsupportedSuite,
                ),
                Some(id) => match spec_open_envelope(data@) {
                    Some(tagged) => if tagged.0 == id {
                        r matches Ok(v) && v@ == (RecordView { suite: id, payload: tagged.1 })
                    } else {
                        r == Err::<ServerRegistration, OpaqueError>(
                            OpaqueError::SerializationFailure,
                        )
                    },
                    None => r == Err::<ServerRegistration, OpaqueError>(
                        OpaqueError::SerializationFailure,
                    ),
                },
            },
    {
        let id = match parse_suite(suite) {
            Ok(id) => id,
            Err(e) => {
                return Err(e);
            }
        };
        let payload = match open_envelope(data, id) {
            Ok(p) => p,
            Err(e) => {
                return Err(e);
            }
        };
        Ok(ServerRegistration { suite: id, payload })
    }
}

/// The client's ephemeral secret between registration start and finish.
/// Consumed exactly once by the finish step.
#[derive(Debug)]
pub struct ClientRegistrationState {
    suite: SuiteId,
    payload: Option<Vec<u8>>,
}

impl View for ClientRegistrationState {
    type V = EphemeralView;

    closed spec fn view(&self) -> EphemeralView {
        EphemeralView {
            suite: self.suite,
            payload: match self.payload {
                Some(p) => Some(p@),
                None => None,
            },
        }
    }
}

impl ClientRegistrationState {
    /// Wraps the fresh state the core produced under `suite`.
    pub fn from_core(suite: SuiteId, payload: Vec<u8>) -> (r: Self)
        ensures
            r@ == (EphemeralView { suite, payload: Some(payload@) }),
    {
        ClientRegistrationState { suite, payload: Some(payload) }
    }

    /// The suite this state was started under.
    pub fn suite_id(&self) -> (r: SuiteId)
        ensures
            r == self@.suite,
    {
        self.suite
    }

    /// Whether the state has already been consumed by a finish step.
    pub fn is_consumed(&self) -> (r: bool)
        ensures
            r == (self@.payload is None),
    {
        self.payload.is_none()
    }

    /// Moves the payload out, consuming the state; a second take reports
    /// `InvalidState`.
    pub fn take_payload(&mut self) -> (r: Result<Vec<u8>, OpaqueError>)
        ensures
            match old(self)@.payload {
                Some(p) => {
                    &&& r matches Ok(v) && v@ == p
                    &&& final(self)@ == (EphemeralView { suite: old(self)@.suite, payload: None })
                },
                None => {
                    &&& r == Err::<Vec<u8>, OpaqueError>(OpaqueError::InvalidState {
                        entity: Entity::ClientRegistrationState,
                    })
                    &&& final(self)@ == old(self)@
                },
            },
    {
        match self.payload.take() {
            Some(p) => Ok(p),
            None => Err(OpaqueError::InvalidState { entity: Entity::ClientRegistrationState }),
        }
    }

    /// Serializes the not-yet-consumed state, tagged with its suite; a
    /// consumed state reports `InvalidState`.
    pub fn serialize(&self) -> (r: Result<Vec<u8>, OpaqueError>)
        ensures
            match self@.payload {
                Some(p) => r matches Ok(v) && v@ == spec_envelope(self@.suite, p),
                None => r == Err::<Vec<u8>, OpaqueError>(OpaqueError::InvalidState {
                    entity: Entity::ClientRegistrationState,
                }),
            },
    {
        match &self.payload {
            Some(p) => Ok(seal_envelope(self.suite, p.as_slice())),
            None => Err(OpaqueError::InvalidState { entity: Entity::ClientRegistrationState }),
        }
    }

    /// Deserializes a state under the requested (or default) suite. The
    /// copy is fresh: its payload is consumable once, exactly like a newly
    /// started state's.
    pub fn deserialize(data: &[u8], suite: Option<&str>) -> (r: Result<Self, OpaqueError>)
        ensures
            match spec_parse_suite(spec_opt_name(suite)) {
                None => r == Err::<ClientRegistrationState, OpaqueError>(
                    OpaqueError::UnsupportedSuite,
                ),
                Some(id) => match spec_open_envelope(data@) {
                    Some(tagged) => if tagged.0 == id {
                        r matches Ok(v) && v@ == (EphemeralView {
                            suite: id,
                            payload: Some(tagged.1),
                        })
                    } else {
                        r == Err::<ClientRegistrationState, OpaqueError>(
                            OpaqueError::SerializationFailure,
                        )
                    },
                    None => r == Err::<ClientRegistrationState, OpaqueError>(
                        OpaqueError::SerializationFailure,
                    ),
                },
            },
    {
        let id = match parse_suite(suite) {
            Ok(id) => id,
            Err(e) => {
                return Err(e);
            }
        };
        let payload = match open_envelope(data, id) {
            Ok(p) => p,
            Err(e) => {
                return Err(e);
            }
        };
        Ok(ClientRegistrationState { suite: id, payload: Some(payload) })
    }
}

/// The client's ephemeral secret between login start and finish. Consumed
/// exactly once by the finish step.
#[derive(Debug)]
pub struct ClientLoginState {
    suite: SuiteId,
    payload: Option<Vec<u8>>,
}

impl View for ClientLoginState {
    type V = EphemeralView;

    closed spec fn view(&self) -> EphemeralView {
        EphemeralView {
            suite: self.suite,
            payload: match self.payload {
                Some(p) => Some(p@),
                None => None,
            },
        }
    }
}

impl ClientLoginState {
    /// Wraps the fresh state the core produced under `suite`.
    pub fn from_core(suite: SuiteId, payload: Vec<u8>) -> (r: Self)
        ensures
            r@ == (EphemeralView { suite, payload: Some(payload@) }),
    {
        ClientLoginState { suite, payload: Some(payload) }
    }

    /// The suite this state was started under.
    pub fn suite_id(&self) -> (r: SuiteId)
        ensures
            r == self@.suite,
    {
        self.suite
    }

    /// Whether the state has already been consumed by a finish step.
    pub fn is_consumed(&self) -> (r: bool)
        ensures
            r == (self@.payload is None),
    {
        self.payload.is_none()
    }

    /// Moves the payload out, consuming the state; a second take reports
    /// `InvalidState`.
    pub fn take_payload(&mut self) -> (r: Result<Vec<u8>, OpaqueError>)
        ensures
            match old(self)@.payload {
                Some(p) => {
                    &&& r matches Ok(v) && v@ == p
                    &&& final(self)@ == (EphemeralView { suite: old(self)@.suite, payload: None })
                },
                None => {
                    &&& r == Err::<Vec<u8>, OpaqueError>(OpaqueError::InvalidState {
                        entity: Entity::ClientLoginState,
                    })
                    &&& final(self)@ == old(self)@
                },
            },
    {
        match self.payload.take() {
            Some(p) => Ok(p),
            None => Err(OpaqueError::InvalidState { entity: Entity::ClientLoginState }),
        }
    }

    /// Serializes the not-yet-consumed state, tagged with its suite; a
    /// consumed state reports `InvalidState`.
    pub fn serialize(&self) -> (r: Result<Vec<u8>, OpaqueError>)
        ensures
            match self@.payload {
                Some(p) => r matches Ok(v) && v@ == spec_envelope(self@.suite, p),
                None => r == Err::<Vec<u8>, OpaqueError>(OpaqueError::InvalidState {
                    entity: Entity::ClientLoginState,
                }),
            },
    {
        match &self.payload {
            Some(p) => Ok(seal_envelope(self.suite, p.as_slice())),
            None => Err(OpaqueError::InvalidState { entity: Entity::ClientLoginState }),
        }
    }

    /// Deserializes a state under the requested (or default) suite. The
    /// copy is fresh: its payload is consumable once, exactly like a newly
    /// started state's.
    pub fn deserialize(data: &[u8], suite: Option<&str>) -> (r: Result<Self, OpaqueError>)
        ensures
            match spec_parse_suite(spec_opt_name(suite)) {
                None => r == Err::<ClientLoginState, OpaqueError>(OpaqueError::UnsupportedSuite),
                Some(id) => match spec_open_envelope(data@) {
                    Some(tagged) => if tagged.0 == id {
                        r matches Ok(v) && v@ == (EphemeralView {
                            suite: id,
                            payload: Some(tagged.1),
                        })
                    } else {
                        r == Err::<ClientLoginState, OpaqueError>(
                            OpaqueError::SerializationFailure,
                        )
                    },
                    None => r == Err::<ClientLoginState, OpaqueError>(
                        OpaqueError::SerializationFailure,
                    ),
                },
            },
    {
        let id = match parse_suite(suite) {
            Ok(id) => id,
            Err(e) => {
                return Err(e);
            }
        };
        let payload = match open_envelope(data, id) {
            Ok(p) => p,
            Err(e) => {
                return Err(e);
            }
        };
        Ok(ClientLoginState { suite: id, payload: Some(payload) })
    }
}

/// The server's ephemeral secret between login start and finish. Consumed
/// exactly once by the finish step.
#[derive(Debug)]
pub struct ServerLoginState {
    suite: SuiteId,
    payload: Option<Vec<u8>>,
}

impl View for ServerLoginState {
    type V = EphemeralView;

    closed spec fn view(&self) -> EphemeralView {
        EphemeralView {
            suite: self.suite,
            payload: match self.payload {
                Some(p) => Some(p@),
                None => None,
            },
        }
    }
}

impl ServerLoginState {
    /// Wraps the fresh state the core produced under `suite`.
    pub fn from_core(suite: SuiteId, payload: Vec<u8>) -> (r: Self)
        ensures
            r@ == (EphemeralView { suite, payload: Some(payload@) }),
    {
        ServerLoginState { suite, payload: Some(payload) }
    }

    /// The suite this state was started under.
    pub fn suite_id(&self) -> (r: SuiteId)
        ensures
            r == self@.suite,
    {
        self.suite
    }

    /// Whether the state has already been consumed by a finish step.
    pub fn is_consumed(&self) -> (r: bool)
        ensures
            r == (self@.payload is None),
    {
        self.payload.is_none()
    }

    /// Moves the payload out, consuming the state; a second take reports
    /// `InvalidState`.
    pub fn take_payload(&mut self) -> (r: Result<Vec<u8>, OpaqueError>)
        ensures
            match old(self)@.payload {
                Some(p) => {
                    &&& r matches Ok(v) && v@ == p
                    &&& final(self)@ == (EphemeralView { suite: old(self)@.suite, payload: None })
                },
                None => {
                    &&& r == Err::<Vec<u8>, OpaqueError>(OpaqueError::InvalidState {
                        entity: Entity::ServerLoginState,
                    })
                    &&& final(self)@ == old(self)@
                },
            },
    {
        match self.payload.take() {
            Some(p) => Ok(p),
            None => Err(OpaqueError::InvalidState { entity: Entity::ServerLoginState }),
        }
    }

    /// Serializes the not-yet-consumed state, tagged with its suite; a
    /// consumed state reports `InvalidState`.
    pub fn serialize(&self) -> (r: Result<Vec<u8>, OpaqueError>)
        ensures
            match self@.payload {
                Some(p) => r matches Ok(v) && v@ == spec_envelope(self@.suite, p),
                None => r == Err::<Vec<u8>, OpaqueError>(OpaqueError::InvalidState {
                    entity: Entity::ServerLoginState,
                }),
            },
    {
        match &self.payload {
            Some(p) => Ok(seal_envelope(self.suite, p.as_slice())),
            None => Err(OpaqueError::InvalidState { entity: Entity::ServerLoginState }),
        }
    }

    /// Deserializes a state under the requested (or default) suite. The
    /// copy is fresh: its payload is consumable once, exactly like a newly
    /// started state's.
    pub fn deserialize(data: &[u8], suite: Option<&str>) -> (r: Result<Self, OpaqueError>)
        ensures
            match spec_parse_suite(spec_opt_name(suite)) {
                None => r == Err::<ServerLoginState, OpaqueError>(OpaqueError::UnsupportedSuite),
                Some(id) => match spec_open_envelope(data@) {
                    Some(tagged) => if tagged.0 == id {
                        r matches Ok(v) && v@ == (EphemeralView {
                            suite: id,
                            payload: Some(tagged.1),
                        })
                    } else {
                        r == Err::<ServerLoginState, OpaqueError>(
                            OpaqueError::SerializationFailure,
                        )
                    },
                    None => r == Err::<ServerLoginState, OpaqueError>(
                        OpaqueError::SerializationFailure,
                    ),
                },
            },
    {
        let id = match parse_suite(suite) {
            Ok(id) => id,
            Err(e) => {
                return Err(e);
            }
        };
        let payload = match open_envelope(data, id) {
            Ok(p) => p,
            Err(e) => {
                return Err(e);
            }
        };
        Ok(ServerLoginState { suite: id, payload: Some(payload) })
    }
}

} // verus!
