//! A server handle bound to one suite. Its methods mirror the free flow
//! functions, with every suite resolved once at construction: the setup,
//! password file and login state handed to this server must all carry the
//! server's own suite.

use vstd::prelude::*;

use crate::errors::{Entity, OpaqueError};
use crate::login::{server_finish_login, server_start_login, ServerLoginFinishCall,
    ServerLoginStartCall};
use crate::registration::{server_start_registration, ServerRegistrationFinishCall,
    ServerRegistrationStartCall};
use crate::state::{EphemeralView, ServerLoginState, ServerRegistration, ServerSetup};
use crate::suite::{ensure_suite, parse_suite, spec_opt_name, spec_parse_suite, SuiteId};
use crate::types::{spec_resolved_identifiers, ServerLoginParameters};

verus! {

/// A server of one suite, fixed at construction.
pub struct OpaqueServer {
    pub suite: SuiteId,
}

impl OpaqueServer {
    /// Creates a server under the requested (or default) suite.
    pub fn new(suite: Option<&str>) -> (r: Result<Self, OpaqueError>)
        ensures
            match spec_parse_suite(spec_opt_name(suite)) {
                Some(id) => r matches Ok(s) && s.suite == id,
                None => r == Err::<OpaqueServer, OpaqueError>(OpaqueError::UnsupportedSuite),
            },
    {
        let id = match parse_suite(suite) {
            Ok(id) => id,
            Err(e) => {
                return Err(e);
            }
        };
        Ok(OpaqueServer { suite: id })
    }

    /// Answers a registration request under a setup, which must carry this
    /// server's suite.
    pub fn start_registration(
        &self,
        setup: &ServerSetup,
        request: Vec<u8>,
        credential_identifier: Vec<u8>,
    ) -> (r: Result<ServerRegistrationStartCall, OpaqueError>)
        ensures
            setup@.suite != self.suite ==> r == Err::<ServerRegistrationStartCall, OpaqueError>(
                OpaqueError::SuiteMismatch { entity: Entity::ServerSetup },
            ),
            setup@.suite == self.suite ==> {
                &&& r matches Ok(call)
                &&& call.suite == self.suite
                &&& call.setup@ == setup@.payload
                &&& call.request@ == request@
                &&& call.credential_identifier@ == credential_identifier@
            },
    {
        match ensure_suite(self.suite, setup.suite_id(), Entity::ServerSetup) {
            Ok(_) => {}
            Err(e) => {
                return Err(e);
            }
        }
        server_start_registration(setup, request, credential_identifier, None)
    }

    /// Finishes a registration under this server's suite; the record will
    /// be bound to it.
    pub fn finish_registration(&self, upload: Vec<u8>) -> (r: ServerRegistrationFinishCall)
        ensures
            r.suite == self.suite,
            r.upload@ == upload@,
    {
        ServerRegistrationFinishCall { suite: self.suite, upload }
    }

    /// Answers a credential request under a setup and password file, both
    /// of which must carry this server's suite.
    pub fn start_login(
        &self,
        setup: &ServerSetup,
        password_file: Option<&ServerRegistration>,
        request: Vec<u8>,
        credential_identifier: Vec<u8>,
        params: Option<ServerLoginParameters>,
    ) -> (r: Result<ServerLoginStartCall, OpaqueError>)
        ensures
            setup@.suite != self.suite ==> r == Err::<ServerLoginStartCall, OpaqueError>(
                OpaqueError::SuiteMismatch { entity: Entity::ServerSetup },
            ),
            setup@.suite == self.suite && (match password_file {
                Some(file) => file@.suite != self.suite,
                None => false,
            }) ==> r == Err::<ServerLoginStartCall, OpaqueError>(OpaqueError::SuiteMismatch {
                entity: Entity::ServerRegistration,
            }),
            setup@.suite == self.suite && (match password_file {
                Some(file) => file@.suite == self.suite,
                None => true,
            }) ==> {
                &&& r matches Ok(call)
                &&& call.suite == self.suite
                &&& call.setup@ == setup@.payload
                &&& (match (call.record, password_file) {
                    (Some(rec), Some(file)) => rec@ == file@.payload,
                    (None, None) => true,
                    _ => false,
                })
                &&& call.request@ == request@
                &&& call.credential_identifier@ == credential_identifier@
                &&& call.context == (match params {
                    Some(ps) => ps.context,
                    None => None::<Vec<u8>>,
                })
                &&& call.identifiers == spec_resolved_identifiers(match params {
                    Some(ps) => ps.identifiers,
                    None => None,
                })
            },
    {
        match ensure_suite(self.suite, setup.suite_id(), Entity::ServerSetup) {
            Ok(_) => {}
            Err(e) => {
                return Err(e);
            }
        }
        if let Some(file) = password_file {
            match ensure_suite(self.suite, file.suite_id(), Entity::ServerRegistration) {
                Ok(_) => {}
                Err(e) => {
                    return Err(e);
                }
            }
        }
        server_start_login(setup, password_file, request, credential_identifier, params, None)
    }

    /// Finishes a login, consuming the state, which must carry this
    /// server's suite.
    pub fn finish_login(
        &self,
        state: &mut ServerLoginState,
        finalization: Vec<u8>,
        params: Option<ServerLoginParameters>,
    ) -> (r: Result<ServerLoginFinishCall, OpaqueError>)
        ensures
            old(state)@.suite != self.suite ==> {
                &&& r == Err::<ServerLoginFinishCall, OpaqueError>(
                    OpaqueError::SuiteMismatch { entity: Entity::ServerLoginState },
                )
                &&& final(state)@ == old(state)@
            },
            old(state)@.suite == self.suite ==> match old(state)@.payload {
                None => {
                    &&& r == Err::<ServerLoginFinishCall, OpaqueError>(OpaqueError::InvalidState {
                        entity: Entity::ServerLoginState,
                    })
                    &&& final(state)@ == old(state)@
                },
                Some(p) => {
                    &&& final(state)@ == (EphemeralView { suite: self.suite, payload: None })
                    &&& r matches Ok(call)
                    &&& call.suite == self.suite
                    &&& call.state@ == p
                    &&& call.finalization@ == finalization@
                    &&& call.context == (match params {
                        Some(ps) => ps.context,
                        None => None::<Vec<u8>>,
                    })
                    &&& call.identifiers == spec_resolved_identifiers(match params {
                        Some(ps) => ps.identifiers,
                        None => None,
                    })
                },
            },
    {
        match ensure_suite(self.suite, state.suite_id(), Entity::ServerLoginState) {
            Ok(_) => {}
            Err(e) => {
                return Err(e);
            }
        }
        server_finish_login(state, finalization, params, None)
    }
}

} // verus!
