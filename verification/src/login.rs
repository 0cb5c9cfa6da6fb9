//! The four-step login flow: password plus password file in, shared session
//! key out.
//!
//! The shape mirrors the registration flow: each step is a checking
//! function that yields a core call description, and an `*_accept` function
//! that takes the core's reply. The server start step additionally enforces
//! the cross-suite invariant — the setup and the password file must carry
//! one suite — before any cryptographic work, and the client finish step
//! performs the optional server-public-key pin check, whose failure is a
//! `LoginFailure` distinct from `ProtocolFailure`.

use vstd::prelude::*;
use vstd::slice::slice_to_vec;

use crate::bytes::bytes_eq;
use crate::crypto_core::{CoreFault, CoreLoginFinished, CoreSessionKey, CoreStarted};
use crate::errors::{Entity, OpaqueError};
use crate::state::{ClientLoginState, EphemeralView, ServerLoginState, ServerRegistration,
    ServerSetup};
use crate::suite::{check_requested_suite, parse_suite, spec_check_requested, spec_opt_name,
    spec_parse_suite, SuiteId};
use crate::types::{resolve_identifiers, resolve_ksf, spec_resolved_identifiers,
    spec_resolved_ksf, Argon2Params, ClientLoginFinishParameters, Identifiers,
    ServerLoginParameters};

verus! {

/// The core call that begins a login: evaluate the blinded OPRF request for
/// `password` under `suite`.
#[derive(Debug)]
pub struct ClientLoginStartCall {
    pub suite: SuiteId,
    pub password: Vec<u8>,
}

/// Begins a login attempt for a password. Resolves the optional suite name
/// (default suite when none is given) and describes the core call to make.
pub fn client_start_login(
    password: Vec<u8>,
    suite: Option<&str>,
) -> (r: Result<ClientLoginStartCall, OpaqueError>)
    ensures
        match spec_parse_suite(spec_opt_name(suite)) {
            Some(id) => {
                &&& r matches Ok(call)
                &&& call.suite == id
                &&& call.password@ == password@
            },
            None => r == Err::<ClientLoginStartCall, OpaqueError>(OpaqueError::UnsupportedSuite),
        },
{
    let id = match parse_suite(suite) {
        Ok(id) => id,
        Err(e) => {
            return Err(e);
        }
    };
    Ok(ClientLoginStartCall { suite: id, password })
}

/// Takes the core's reply to a login start: the credential request message
/// for the server, and the ephemeral state for the finish step, tagged with
/// the call's suite. A core fault is a `ProtocolFailure`.
pub fn client_start_login_accept(
    call: &ClientLoginStartCall,
    outcome: Result<CoreStarted, CoreFault>,
) -> (r: Result<(Vec<u8>, ClientLoginState), OpaqueError>)
    ensures
        match outcome {
            Ok(started) => {
                &&& r matches Ok(out)
                &&& out.0@ == started.message@
                &&& out.1@ == (EphemeralView { suite: call.suite, payload: Some(started.state@) })
            },
            Err(_) => r == Err::<(Vec<u8>, ClientLoginState), OpaqueError>(
                OpaqueError::ProtocolFailure,
            ),
        },
{
    match outcome {
        Ok(started) => Ok((started.message, ClientLoginState::from_core(call.suite, started.state))),
        Err(_) => Err(OpaqueError::ProtocolFailure),
    }
}

/// The core call that answers a credential request: run the server side of
/// the key exchange under the setup, against the account's password file
/// when one exists (an absent file supports the fake-record countermeasure
/// against account enumeration).
#[derive(Debug)]
pub struct ServerLoginStartCall {
    pub suite: SuiteId,
    pub setup: Vec<u8>,
    pub record: Option<Vec<u8>>,
    pub request: Vec<u8>,
    pub credential_identifier: Vec<u8>,
    pub context: Option<Vec<u8>>,
    pub identifiers: Identifiers,
}

/// Answers a client's credential request under the server's setup and the
/// account's password file. The setup and the password file must carry one
/// suite — a disagreement is a `SuiteMismatch` naming the password file,
/// reported before any cryptographic work — and a requested suite name,
/// when given, must match the setup's.
pub fn server_start_login(
    setup: &ServerSetup,
    password_file: Option<&ServerRegistration>,
    request: Vec<u8>,
    credential_identifier: Vec<u8>,
    params: Option<ServerLoginParameters>,
    suite: Option<&str>,
) -> (r: Result<ServerLoginStartCall, OpaqueError>)
    ensures
        (match password_file {
            Some(file) => file@.suite != setup@.suite,
            None => false,
        }) ==> r == Err::<ServerLoginStartCall, OpaqueError>(OpaqueError::SuiteMismatch {
            entity: Entity::ServerRegistration,
        }),
        (match password_file {
            Some(file) => file@.suite == setup@.suite,
            None => true,
        }) ==> match spec_check_requested(spec_opt_name(suite), setup@.suite, Entity::ServerSetup) {
            Err(e) => r == Err::<ServerLoginStartCall, OpaqueError>(e),
            Ok(_) => {
                &&& r matches Ok(call)
                &&& call.suite == setup@.suite
                &&& call.setup@ == setup@.payload
                &&& (match (call.record, password_file) {
                    (Some(rec), Some(file)) => rec@ == file@.payload,
                    (None, None) => true,
                    _ => false,
                })
                &&& call.request@ == request@
                &&& call.credential_identifier@ == credential_identifier@
                &&& call.context == (match params {
                    Some(ps) => ps.context,
                    None => None::<Vec<u8>>,
                })
                &&& call.identifiers == spec_resolved_identifiers(match params {
                    Some(ps) => ps.identifiers,
                    None => None,
                })
            },
        },
{
    let record: Option<Vec<u8>> = match password_file {
        Some(file) => {
            if file.suite_id() != setup.suite_id() {
                return Err(OpaqueError::SuiteMismatch { entity: Entity::ServerRegistration });
            }
            Some(slice_to_vec(file.payload_slice()))
        }
        None => None,
    };
    match check_requested_suite(suite, setup.suite_id(), Entity::ServerSetup) {
        Ok(_) => {}
        Err(e) => {
            return Err(e);
        }
    }
    let (context, identifiers_opt) = match params {
        Some(ps) => (ps.context, ps.identifiers),
        None => (None, None),
    };
    let identifiers = resolve_identifiers(identifiers_opt);
    Ok(ServerLoginStartCall {
        suite: setup.suite_id(),
        setup: slice_to_vec(setup.payload_slice()),
        record,
        request,
        credential_identifier,
        context,
        identifiers,
    })
}

/// Takes the core's reply to a server login start: the credential response
/// message for the client, and the server's ephemeral state for the finish
/// step, tagged with the call's suite. A core fault is a
/// `ProtocolFailure`.
pub fn server_start_login_accept(
    call: &ServerLoginStartCall,
    outcome: Result<CoreStarted, CoreFault>,
) -> (r: Result<(Vec<u8>, ServerLoginState), OpaqueError>)
    ensures
        match outcome {
            Ok(started) => {
                &&& r matches Ok(out)
                &&& out.0@ == started.message@
                &&& out.1@ == (EphemeralView { suite: call.suite, payload: Some(started.state@) })
            },
            Err(_) => r == Err::<(Vec<u8>, ServerLoginState), OpaqueError>(
                OpaqueError::ProtocolFailure,
            ),
        },
{
    match outcome {
        Ok(started) => Ok((started.message, ServerLoginState::from_core(call.suite, started.state))),
        Err(_) => Err(OpaqueError::ProtocolFailure),
    }
}

/// The core call that finishes a login on the client: unblind the response,
/// run the key-stretching function, open the envelope and derive the
/// session key under the resolved context and identity bindings.
#[derive(Debug)]
pub struct ClientLoginFinishCall {
    pub suite: SuiteId,
    pub state: Vec<u8>,
    pub password: Vec<u8>,
    pub response: Vec<u8>,
    pub context: Option<Vec<u8>>,
    pub identifiers: Identifiers,
    pub key_stretching: Option<Argon2Params>,
    pub expected_server_public_key: Option<Vec<u8>>,
}

/// Finishes a login on the client, consuming the ephemeral state. A
/// requested suite name, when given, must match the state's suite; a state
/// that was already consumed reports `InvalidState` and nothing else
/// changes. On success the state is consumed and the call description
/// carries the resolved options, including the expected-server-key pin for
/// the accept step.
pub fn client_finish_login(
    state: &mut ClientLoginState,
    password: Vec<u8>,
    response: Vec<u8>,
    params: Option<ClientLoginFinishParameters>,
    suite: Option<&str>,
) -> (r: Result<ClientLoginFinishCall, OpaqueError>)
    ensures
        match spec_check_requested(
            spec_opt_name(suite),
            old(state)@.suite,
            Entity::ClientLoginState,
        ) {
            Err(e) => {
                &&& r == Err::<ClientLoginFinishCall, OpaqueError>(e)
                &&& final(state)@ == old(state)@
            },
            Ok(_) => match old(state)@.payload {
                None => {
                    &&& r == Err::<ClientLoginFinishCall, OpaqueError>(OpaqueError::InvalidState {
                        entity: Entity::ClientLoginState,
                    })
                    &&& final(state)@ == old(state)@
                },
                Some(p) => {
                    &&& final(state)@ == (EphemeralView {
                        suite: old(state)@.suite,
                        payload: None,
                    })
                    &&& r matches Ok(call)
                    &&& call.suite == old(state)@.suite
                    &&& call.state@ == p
                    &&& call.password@ == password@
                    &&& call.response@ == response@
                    &&& call.context == (match params {
                        Some(ps) => ps.context,
                        None => None::<Vec<u8>>,
                    })
                    &&& call.identifiers == spec_resolved_identifiers(match params {
                        Some(ps) => ps.identifiers,
                        None => None,
                    })
                    &&& call.key_stretching == spec_resolved_ksf(match params {
                        Some(ps) => ps.key_stretching,
                        None => None,
                    })
                    &&& call.expected_server_public_key == (match params {
                        Some(ps) => ps.server_s_pk,
                        None => None::<Vec<u8>>,
                    })
                },
            },
        },
{
    match check_requested_suite(suite, state.suite_id(), Entity::ClientLoginState) {
        Ok(_) => {}
        Err(e) => {
            return Err(e);
        }
    }
    let (context, identifiers_opt, ksf_opt, expected_server_public_key) = match params {
        Some(ps) => (ps.context, ps.identifiers, ps.key_stretching, ps.server_s_pk),
        None => (None, None, None, None),
    };
    let identifiers = resolve_identifiers(identifiers_opt);
    let key_stretching = resolve_ksf(ksf_opt);
    let suite_id = state.suite_id();
    let payload = match state.take_payload() {
        Ok(p) => p,
        Err(e) => {
            return Err(e);
        }
    };
    Ok(ClientLoginFinishCall {
        suite: suite_id,
        state: payload,
        password,
        response,
        context,
        identifiers,
        key_stretching,
        expected_server_public_key,
    })
}

/// What a finished client login hands the caller: the finalization message
/// for the server, the shared session key, the export key, and the server's
/// public key.
#[derive(Debug)]
pub struct ClientLoginFinish {
    pub message: Vec<u8>,
    pub session_key: Vec<u8>,
    pub export_key: Vec<u8>,
    pub server_public_key: Vec<u8>,
}

/// Takes the core's reply to a client login finish. A core fault is a
/// `ProtocolFailure`. When the call pinned an expected server public key,
/// the returned key is compared byte for byte: a mismatch is a
/// `LoginFailure`, distinct from `ProtocolFailure` because it signals
/// possible server impersonation rather than a bad password or message.
pub fn client_finish_login_accept(
    call: &ClientLoginFinishCall,
    outcome: Result<CoreLoginFinished, CoreFault>,
) -> (r: Result<ClientLoginFinish, OpaqueError>)
    ensures
        match outcome {
            Ok(finished) => match call.expected_server_public_key {
                Some(pin) => if pin@ == finished.server_public_key@ {
                    r matches Ok(out) && out.message@ == finished.message@ && out.session_key@
                        == finished.session_key@ && out.export_key@ == finished.export_key@
                        && out.server_public_key@ == finished.server_public_key@
                } else {
                    r == Err::<ClientLoginFinish, OpaqueError>(OpaqueError::LoginFailure)
                },
                None => r matches Ok(out) && out.message@ == finished.message@
                    && out.session_key@ == finished.session_key@ && out.export_key@
                    == finished.export_key@ && out.server_public_key@
                    == finished.server_public_key@,
            },
            Err(_) => r == Err::<ClientLoginFinish, OpaqueError>(OpaqueError::ProtocolFailure),
        },
{
    let finished = match outcome {
        Ok(f) => f,
        Err(_) => {
            return Err(OpaqueError::ProtocolFailure);
        }
    };
    if let Some(pin) = &call.expected_server_public_key {
        if !bytes_eq(pin.as_slice(), finished.server_public_key.as_slice()) {
            return Err(OpaqueError::LoginFailure);
        }
    }
    Ok(ClientLoginFinish {
        message: finished.message,
        session_key: finished.session_key,
        export_key: finished.export_key,
        server_public_key: finished.server_public_key,
    })
}

/// The core call that finishes a login on the server: verify the client's
/// finalization message and release the session key.
#[derive(Debug)]
pub struct ServerLoginFinishCall {
    pub suite: SuiteId,
    pub state: Vec<u8>,
    pub finalization: Vec<u8>,
    pub context: Option<Vec<u8>>,
    pub identifiers: Identifiers,
}

/// Finishes a login on the server, consuming the ephemeral state. A
/// requested suite name, when given, must match the state's suite; a state
/// that was already consumed reports `InvalidState` and nothing else
/// changes.
pub fn server_finish_login(
    state: &mut ServerLoginState,
    finalization: Vec<u8>,
    params: Option<ServerLoginParameters>,
    suite: Option<&str>,
) -> (r: Result<ServerLoginFinishCall, OpaqueError>)
    ensures
        match spec_check_requested(
            spec_opt_name(suite),
            old(state)@.suite,
            Entity::ServerLoginState,
        ) {
            Err(e) => {
                &&& r == Err::<ServerLoginFinishCall, OpaqueError>(e)
                &&& final(state)@ == old(state)@
            },
            Ok(_) => match old(state)@.payload {
                None => {
                    &&& r == Err::<ServerLoginFinishCall, OpaqueError>(OpaqueError::InvalidState {
                        entity: Entity::ServerLoginState,
                    })
                    &&& final(state)@ == old(state)@
                },
                Some(p) => {
                    &&& final(state)@ == (EphemeralView {
                        suite: old(state)@.suite,
                        payload: None,
                    })
                    &&& r matches Ok(call)
                    &&& call.suite == old(state)@.suite
                    &&& call.state@ == p
                    &&& call.finalization@ == finalization@
                    &&& call.context == (match params {
                        Some(ps) => ps.context,
                        None => None::<Vec<u8>>,
                    })
                    &&& call.identifiers == spec_resolved_identifiers(match params {
                        Some(ps) => ps.identifiers,
                        None => None,
                    })
                },
            },
        },
{
    match check_requested_suite(suite, state.suite_id(), Entity::ServerLoginState) {
        Ok(_) => {}
        Err(e) => {
            return Err(e);
        }
    }
    let (context, identifiers_opt) = match params {
        Some(ps) => (ps.context, ps.identifiers),
        None => (None, None),
    };
    let identifiers = resolve_identifiers(identifiers_opt);
    let suite_id = state.suite_id();
    let payload = match state.take_payload() {
        Ok(p) => p,
        Err(e) => {
            return Err(e);
        }
    };
    Ok(ServerLoginFinishCall {
        suite: suite_id,
        state: payload,
        finalization,
        context,
        identifiers,
    })
}

/// Takes the core's reply to a server login finish: the shared session key.
/// A core fault — including a finalization that does not verify, as with a
/// wrong password — is a `ProtocolFailure`.
pub fn server_finish_login_accept(
    outcome: Result<CoreSessionKey, CoreFault>,
) -> (r: Result<Vec<u8>, OpaqueError>)
    ensures
        match outcome {
            Ok(finished) => r matches Ok(k) && k@ == finished.session_key@,
            Err(_) => r == Err::<Vec<u8>, OpaqueError>(OpaqueError::ProtocolFailure),
        },
{
    match outcome {
        Ok(finished) => Ok(finished.session_key),
        Err(_) => Err(OpaqueError::ProtocolFailure),
    }
}

} // verus!
