//! The four-step registration flow: password in, server-held password file
//! out.
//!
//! Each step is a pair. The step function itself performs every suite and
//! state check and, on success, returns a call description: the exact inputs
//! the external core must be invoked with. The matching `*_accept` function
//! takes the core's reply and produces the caller-facing result, mapping a
//! core fault to the deliberately non-specific `ProtocolFailure`. No check
//! ever runs after the cryptography: a call description exists only once
//! every check has passed.

use vstd::prelude::*;
use vstd::slice::slice_to_vec;

use crate::crypto_core::{CoreFault, CoreRecord, CoreRegistrationFinished, CoreResponse,
    CoreStarted};
use crate::errors::{Entity, OpaqueError};
use crate::state::{ClientRegistrationState, EphemeralView, RecordView, ServerRegistration,
    ServerSetup};
use crate::suite::{check_requested_suite, parse_suite, spec_check_requested, spec_opt_name,
    spec_parse_suite, SuiteId};
use crate::types::{resolve_identifiers, resolve_ksf, spec_resolved_identifiers,
    spec_resolved_ksf, Argon2Params, ClientRegistrationFinishParameters, Identifiers};

verus! {

/// The core call that begins a registration: evaluate the blinded OPRF
/// request for `password` under `suite`.
#[derive(Debug)]
pub struct ClientRegistrationStartCall {
    pub suite: SuiteId,
    pub password: Vec<u8>,
}

/// Begins a registration for a password. Resolves the optional suite name
/// (default suite when none is given) and describes the core call to make.
pub fn client_start_registration(
    password: Vec<u8>,
    suite: Option<&str>,
) -> (r: Result<ClientRegistrationStartCall, OpaqueError>)
    ensures
        match spec_parse_suite(spec_opt_name(suite)) {
            Some(id) => {
                &&& r matches Ok(call)
                &&& call.suite == id
                &&& call.password@ == password@
            },
            None => r == Err::<ClientRegistrationStartCall, OpaqueError>(
                OpaqueError::UnsupportedSuite,
            ),
        },
{
    let id = match parse_suite(suite) {
        Ok(id) => id,
        Err(e) => {
            return Err(e);
        }
    };
    Ok(ClientRegistrationStartCall { suite: id, password })
}

/// Takes the core's reply to a registration start: the request message to
/// send to the server, and the ephemeral state for the finish step, tagged
/// with the call's suite. A core fault is a `ProtocolFailure`.
pub fn client_start_registration_accept(
    call: &ClientRegistrationStartCall,
    outcome: Result<CoreStarted, CoreFault>,
) -> (r: Result<(Vec<u8>, ClientRegistrationState), OpaqueError>)
    ensures
        match outcome {
            Ok(started) => {
                &&& r matches Ok(out)
                &&& out.0@ == started.message@
                &&& out.1@ == (EphemeralView { suite: call.suite, payload: Some(started.state@) })
            },
            Err(_) => r == Err::<(Vec<u8>, ClientRegistrationState), OpaqueError>(
                OpaqueError::ProtocolFailure,
            ),
        },
{
    match outcome {
        Ok(started) => Ok((
            started.message,
            ClientRegistrationState::from_core(call.suite, started.state),
        )),
        Err(_) => Err(OpaqueError::ProtocolFailure),
    }
}

/// The core call that answers a registration request: evaluate the OPRF
/// under the server's setup, binding the record to `credential_identifier`.
#[derive(Debug)]
pub struct ServerRegistrationStartCall {
    pub suite: SuiteId,
    pub setup: Vec<u8>,
    pub request: Vec<u8>,
    pub credential_identifier: Vec<u8>,
}

/// Answers a client's registration request under the server's setup. A
/// requested suite name, when given, must match the setup's suite; the
/// check runs before any cryptographic work.
pub fn server_start_registration(
    setup: &ServerSetup,
    request: Vec<u8>,
    credential_identifier: Vec<u8>,
    suite: Option<&str>,
) -> (r: Result<ServerRegistrationStartCall, OpaqueError>)
    ensures
        match spec_check_requested(spec_opt_name(suite), setup@.suite, Entity::ServerSetup) {
            Err(e) => r == Err::<ServerRegistrationStartCall, OpaqueError>(e),
            Ok(_) => {
                &&& r matches Ok(call)
                &&& call.suite == setup@.suite
                &&& call.setup@ == setup@.payload
                &&& call.request@ == request@
                &&& call.credential_identifier@ == credential_identifier@
            },
        },
{
    match check_requested_suite(suite, setup.suite_id(), Entity::ServerSetup) {
        Ok(_) => {}
        Err(e) => {
            return Err(e);
        }
    }
    Ok(ServerRegistrationStartCall {
        suite: setup.suite_id(),
        setup: slice_to_vec(setup.payload_slice()),
        request,
        credential_identifier,
    })
}

/// Takes the core's reply to a server registration start: the registration
/// response message for the client. A core fault is a `ProtocolFailure`.
pub fn server_start_registration_accept(
    outcome: Result<CoreResponse, CoreFault>,
) -> (r: Result<Vec<u8>, OpaqueError>)
    ensures
        match outcome {
            Ok(response) => r matches Ok(m) && m@ == response.message@,
            Err(_) => r == Err::<Vec<u8>, OpaqueError>(OpaqueError::ProtocolFailure),
        },
{
    match outcome {
        Ok(response) => Ok(response.message),
        Err(_) => Err(OpaqueError::ProtocolFailure),
    }
}

/// The core call that finishes a registration on the client: unblind the
/// response, run the key-stretching function, and seal the envelope under
/// the resolved identity bindings.
#[derive(Debug)]
pub struct ClientRegistrationFinishCall {
    pub suite: SuiteId,
    pub state: Vec<u8>,
    pub password: Vec<u8>,
    pub response: Vec<u8>,
    pub identifiers: Identifiers,
    pub key_stretching: Option<Argon2Params>,
}

/// Finishes a registration on the client, consuming the ephemeral state.
/// A requested suite name, when given, must match the state's suite; a
/// state that was already consumed reports `InvalidState` and nothing else
/// changes. On success the state is consumed and the call description
/// carries the resolved identity bindings and key-stretching tuple.
pub fn client_finish_registration(
    state: &mut ClientRegistrationState,
    password: Vec<u8>,
    response: Vec<u8>,
    params: Option<ClientRegistrationFinishParameters>,
    suite: Option<&str>,
) -> (r: Result<ClientRegistrationFinishCall, OpaqueError>)
    ensures
        match spec_check_requested(
            spec_opt_name(suite),
            old(state)@.suite,
            Entity::ClientRegistrationState,
        ) {
            Err(e) => {
                &&& r == Err::<ClientRegistrationFinishCall, OpaqueError>(e)
                &&& final(state)@ == old(state)@
            },
            Ok(_) => match old(state)@.payload {
                None => {
                    &&& r == Err::<ClientRegistrationFinishCall, OpaqueError>(
                        OpaqueError::InvalidState { entity: Entity::ClientRegistrationState },
                    )
                    &&& final(state)@ == old(state)@
                },
                Some(p) => {
                    &&& final(state)@ == (EphemeralView {
                        suite: old(state)@.suite,
                        payload: None,
                    })
                    &&& r matches Ok(call)
                    &&& call.suite == old(state)@.suite
                    &&& call.state@ == p
                    &&& call.password@ == password@
                    &&& call.response@ == response@
                    &&& call.identifiers == spec_resolved_identifiers(match params {
                        Some(ps) => ps.identifiers,
                        None => None,
                    })
                    &&& call.key_stretching == spec_resolved_ksf(match params {
                        Some(ps) => ps.key_stretching,
                        None => None,
                    })
                },
            },
        },
{
    match check_requested_suite(suite, state.suite_id(), Entity::ClientRegistrationState) {
        Ok(_) => {}
        Err(e) => {
            return Err(e);
        }
    }
    let (identifiers_opt, ksf_opt) = match params {
        Some(p) => (p.identifiers, p.key_stretching),
        None => (None, None),
    };
    let identifiers = resolve_identifiers(identifiers_opt);
    let key_stretching = resolve_ksf(ksf_opt);
    let suite_id = state.suite_id();
    let payload = match state.take_payload() {
        Ok(p) => p,
        Err(e) => {
            return Err(e);
        }
    };
    Ok(ClientRegistrationFinishCall {
        suite: suite_id,
        state: payload,
        password,
        response,
        identifiers,
        key_stretching,
    })
}

/// Takes the core's reply to a client registration finish: the upload
/// message for the server, and the export key. A core fault is a
/// `ProtocolFailure`; the consumed state stays consumed either way.
pub fn client_finish_registration_accept(
    outcome: Result<CoreRegistrationFinished, CoreFault>,
) -> (r: Result<(Vec<u8>, Vec<u8>), OpaqueError>)
    ensures
        match outcome {
            Ok(finished) => {
                &&& r matches Ok(out)
                &&& out.0@ == finished.upload@
                &&& out.1@ == finished.export_key@
            },
            Err(_) => r == Err::<(Vec<u8>, Vec<u8>), OpaqueError>(OpaqueError::ProtocolFailure),
        },
{
    match outcome {
        Ok(finished) => Ok((finished.upload, finished.export_key)),
        Err(_) => Err(OpaqueError::ProtocolFailure),
    }
}

/// The core call that finishes a registration on the server: deserialize
/// the upload under `suite` and derive the per-account record.
#[derive(Debug)]
pub struct ServerRegistrationFinishCall {
    pub suite: SuiteId,
    pub upload: Vec<u8>,
}

/// Finishes a registration on the server. Resolves the optional suite name
/// (default suite when none is given); the record will be bound to it.
pub fn server_finish_registration(
    upload: Vec<u8>,
    suite: Option<&str>,
) -> (r: Result<ServerRegistrationFinishCall, OpaqueError>)
    ensures
        match spec_parse_suite(spec_opt_name(suite)) {
            Some(id) => {
                &&& r matches Ok(call)
                &&& call.suite == id
                &&& call.upload@ == upload@
            },
            None => r == Err::<ServerRegistrationFinishCall, OpaqueError>(
                OpaqueError::UnsupportedSuite,
            ),
        },
{
    let id = match parse_suite(suite) {
        Ok(id) => id,
        Err(e) => {
            return Err(e);
        }
    };
    Ok(ServerRegistrationFinishCall { suite: id, upload })
}

/// Takes the core's reply to a server registration finish: the password
/// file, bound forever to the call's suite. A core fault is a
/// `ProtocolFailure`.
pub fn server_finish_registration_accept(
    call: &ServerRegistrationFinishCall,
    outcome: Result<CoreRecord, CoreFault>,
) -> (r: Result<ServerRegistration, OpaqueError>)
    ensures
        match outcome {
            Ok(rec) => r matches Ok(v) && v@ == (RecordView {
                suite: call.suite,
                payload: rec.record@,
            }),
            Err(_) => r == Err::<ServerRegistration, OpaqueError>(OpaqueError::ProtocolFailure),
        },
{
    match outcome {
        Ok(rec) => Ok(ServerRegistration::from_core(call.suite, rec.record)),
        Err(_) => Err(OpaqueError::ProtocolFailure),
    }
}

} // verus!
