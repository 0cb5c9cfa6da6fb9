//! A client handle bound to one suite. Its methods mirror the free flow
//! functions, with every suite resolved once at construction: a state handed
//! to this client must carry the client's own suite.

use vstd::prelude::*;

use crate::bytes::bytes_eq;
use crate::errors::{Entity, OpaqueError};
use crate::login::{client_finish_login, ClientLoginFinishCall, ClientLoginStartCall};
use crate::registration::{client_finish_registration, ClientRegistrationFinishCall,
    ClientRegistrationStartCall};
use crate::state::{ClientLoginState, ClientRegistrationState, EphemeralView};
use crate::suite::{ensure_suite, parse_suite, spec_opt_name, spec_parse_suite, SuiteId};
use crate::types::{spec_resolved_identifiers, spec_resolved_ksf, ClientLoginFinishParameters,
    ClientRegistrationFinishParameters};

verus! {

/// A client of one suite, fixed at construction.
pub struct OpaqueClient {
    pub suite: SuiteId,
}

impl OpaqueClient {
    /// Creates a client under the requested (or default) suite.
    pub fn new(suite: Option<&str>) -> (r: Result<Self, OpaqueError>)
        ensures
            match spec_parse_suite(spec_opt_name(suite)) {
                Some(id) => r matches Ok(c) && c.suite == id,
                None => r == Err::<OpaqueClient, OpaqueError>(OpaqueError::UnsupportedSuite),
            },
    {
        let id = match parse_suite(suite) {
            Ok(id) => id,
            Err(e) => {
                return Err(e);
            }
        };
        Ok(OpaqueClient { suite: id })
    }

    /// Begins a registration for a password under this client's suite.
    pub fn start_registration(&self, password: Vec<u8>) -> (r: ClientRegistrationStartCall)
        ensures
            r.suite == self.suite,
            r.password@ == password@,
    {
        ClientRegistrationStartCall { suite: self.suite, password }
    }

    /// Finishes a registration, consuming the state, which must carry this
    /// client's suite.
    pub fn finish_registration(
        &self,
        state: &mut ClientRegistrationState,
        password: Vec<u8>,
        response: Vec<u8>,
        params: Option<ClientRegistrationFinishParameters>,
    ) -> (r: Result<ClientRegistrationFinishCall, OpaqueError>)
        ensures
            old(state)@.suite != self.suite ==> {
                &&& r == Err::<ClientRegistrationFinishCall, OpaqueError>(
                    OpaqueError::SuiteMismatch { entity: Entity::ClientRegistrationState },
                )
                &&& final(state)@ == old(state)@
            },
            old(state)@.suite == self.suite ==> match old(state)@.payload {
                None => {
                    &&& r == Err::<ClientRegistrationFinishCall, OpaqueError>(
                        OpaqueError::InvalidState { entity: Entity::ClientRegistrationState },
                    )
                    &&& final(state)@ == old(state)@
                },
                Some(p) => {
                    &&& final(state)@ == (EphemeralView { suite: self.suite, payload: None })
                    &&& r matches Ok(call)
                    &&& call.suite == self.suite
                    &&& call.state@ == p
                    &&& call.password@ == password@
                    &&& call.response@ == response@
                    &&& call.identifiers == spec_resolved_identifiers(match params {
                        Some(ps) => ps.identifiers,
                        None => None,
                    })
                    &&& call.key_stretching == spec_resolved_ksf(match params {
                        Some(ps) => ps.key_stretching,
                        None => None,
                    })
                },
            },
    {
        match ensure_suite(self.suite, state.suite_id(), Entity::ClientRegistrationState) {
            Ok(_) => {}
            Err(e) => {
                return Err(e);
            }
        }
        client_finish_registration(state, password, response, params, None)
    }

    /// Begins a login attempt for a password under this client's suite.
    pub fn start_login(&self, password: Vec<u8>) -> (r: ClientLoginStartCall)
        ensures
            r.suite == self.suite,
            r.password@ == password@,
    {
        ClientLoginStartCall { suite: self.suite, password }
    }

    /// Finishes a login, consuming the state, which must carry this
    /// client's suite.
    pub fn finish_login(
        &self,
        state: &mut ClientLoginState,
        password: Vec<u8>,
        response: Vec<u8>,
        params: Option<ClientLoginFinishParameters>,
    ) -> (r: Result<ClientLoginFinishCall, OpaqueError>)
        ensures
            old(state)@.suite != self.suite ==> {
                &&& r == Err::<ClientLoginFinishCall, OpaqueError>(
                    OpaqueError::SuiteMismatch { entity: Entity::ClientLoginState },
                )
                &&& final(state)@ == old(state)@
            },
            old(state)@.suite == self.suite ==> match old(state)@.payload {
                None => {
                    &&& r == Err::<ClientLoginFinishCall, OpaqueError>(OpaqueError::InvalidState {
                        entity: Entity::ClientLoginState,
                    })
                    &&& final(state)@ == old(state)@
                },
                Some(p) => {
                    &&& final(state)@ == (EphemeralView { suite: self.suite, payload: None })
                    &&& r matches Ok(call)
                    &&& call.suite == self.suite
                    &&& call.state@ == p
                    &&& call.password@ == password@
                    &&& call.response@ == response@
                    &&& call.context == (match params {
                        Some(ps) => ps.context,
                        None => None::<Vec<u8>>,
                    })
                    &&& call.identifiers == spec_resolved_identifiers(match params {
                        Some(ps) => ps.identifiers,
                        None => None,
                    })
                    &&& call.key_stretching == spec_resolved_ksf(match params {
                        Some(ps) => ps.key_stretching,
                        None => None,
                    })
                    &&& call.expected_server_public_key == (match params {
                        Some(ps) => ps.server_s_pk,
                        None => None::<Vec<u8>>,
                    })
                },
            },
    {
        match ensure_suite(self.suite, state.suite_id(), Entity::ClientLoginState) {
            Ok(_) => {}
            Err(e) => {
                return Err(e);
            }
        }
        client_finish_login(state, password, response, params, None)
    }

    /// The pin check as a standalone operation: success exactly when the
    /// two keys are byte-for-byte equal; a mismatch is a `LoginFailure`.
    pub fn verify_server_public_key(
        &self,
        expected: &[u8],
        actual: &[u8],
    ) -> (r: Result<(), OpaqueError>)
        ensures
            expected@ == actual@ ==> r == Ok::<(), OpaqueError>(()),
            expected@ != actual@ ==> r == Err::<(), OpaqueError>(OpaqueError::LoginFailure),
    {
        if bytes_eq(expected, actual) {
            Ok(())
        } else {
            Err(OpaqueError::LoginFailure)
        }
    }
}

} // verus!
