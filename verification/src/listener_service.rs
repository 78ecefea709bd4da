//! Use-cases of the configuration of proxy listeners.
//!
//! The service validates the port, checks that the profile exists and keeps the
//! rule that a running listener cannot be reconfigured: a change of port or
//! profile applies to a stopped listener only, or the state of the application
//! would stop matching its configuration.
//!
//! State changes go through [`ListenerRuntimeState`]: the service owns the
//! rules, the proxy runtime owns the fact of running. Starting and stopping are
//! signals, not waits, so the application never blocks on network work.

use vstd::prelude::*;

use crate::entities::{ipc_id_result, ProfileId};
use crate::error::EgressError;
use crate::listener::{proxy_port_error, Listener, ListenerDraft, ListenerId, ProxyPort};
use crate::policy_service::require_found;
use crate::ports::ListenerRepository;

verus! {

/// The state of listeners as the proxy runtime knows it.
pub trait ListenerRuntimeState {
    /// Whether the listener accepts connections or is starting.
    fn is_active(&self, id: &ListenerId) -> bool;

    /// Asks the runtime to start the listener with its configuration.
    ///
    /// The whole listener is handed over, so that the runtime needs no access
    /// to the storage. Idempotent and non-blocking.
    fn request_start(&self, listener: &Listener);

    /// Asks the runtime to stop the listener. Idempotent and non-blocking.
    fn request_stop(&self, id: &ListenerId);
}

/// The error of an attempt to reconfigure a running listener.
pub open spec fn running_listener_error() -> EgressError {
    EgressError::Validation { field: "listener_id", reason: "listener must be stopped before reconfiguration" }
}

/// A running listener cannot be reconfigured.
pub fn check_reconfigurable(active: bool) -> (result: Result<(), EgressError>)
    ensures
        active ==> result == Err::<(), EgressError>(running_listener_error()),
        !active ==> result is Ok,
{
    if active {
        return Err(EgressError::validation("listener_id", "listener must be stopped before reconfiguration"));
    }
    Ok(())
}

/// The draft of a listener once the profile is known to exist or not: a missing
/// profile is reported before an invalid port.
pub fn listener_draft(port: u16, profile_id: ProfileId, profile_exists: bool) -> (result: Result<ListenerDraft, EgressError>)
    ensures
        !profile_exists ==> result == Err::<ListenerDraft, EgressError>(EgressError::NotFound { entity: "profile" }),
        profile_exists && port < 1024 ==> result == Err::<ListenerDraft, EgressError>(proxy_port_error()),
        profile_exists && port >= 1024 ==> (result matches Ok(draft)
            && draft.port@ == port && draft.profile_id@ == profile_id@),
{
    if !profile_exists {
        return Err(EgressError::not_found("profile"));
    }
    match ProxyPort::parse(port) {
        Ok(port) => Ok(ListenerDraft { port, profile_id }),
        Err(error) => Err(error),
    }
}

/// What the runtime is asked to do when a listener is turned on or off.
#[derive(Debug, Clone, Copy, PartialEq, Eq)]
pub enum RuntimeRequest {
    /// Start the listener with its configuration.
    Start,
    /// Stop the listener.
    Stop,
}

/// The request that turning a listener on or off sends to the runtime: on
/// starts it, off stops it.
pub fn runtime_request(enabled: bool) -> (request: RuntimeRequest)
    ensures
        enabled ==> request == RuntimeRequest::Start,
        !enabled ==> request == RuntimeRequest::Stop,
{
    if enabled {
        RuntimeRequest::Start
    } else {
        RuntimeRequest::Stop
    }
}

/// Use-cases of the configuration of listeners.
#[derive(Debug)]
pub struct ListenerService<R, S> {
    repository: R,
    runtime: S,
}

impl<R: ListenerRepository, S: ListenerRuntimeState> ListenerService<R, S> {
    /// Creates the service on top of the storage and the runtime.
    pub fn new(repository: R, runtime: S) -> (service: Self)
        ensures
            service.repository() == repository,
            service.runtime() == runtime,
    {
        ListenerService { repository, runtime }
    }

    /// The storage the service works on.
    pub closed spec fn repository(&self) -> R {
        self.repository
    }

    /// The runtime the service signals.
    pub closed spec fn runtime(&self) -> S {
        self.runtime
    }

    /// All listeners in the order of creation.
    ///
    /// # Errors
    ///
    /// Returns the storage error when the data cannot be read.
    pub fn list(&self) -> (result: Result<Vec<Listener>, EgressError>) {
        self.repository.list_listeners()
    }

    /// Creates a listener.
    ///
    /// # Errors
    ///
    /// Returns a validation error for an invalid identifier or port or a port
    /// that is taken, and a not-found error when the profile does not exist.
    pub fn create(&self, port: u16, profile_id: &str) -> (result: Result<Listener, EgressError>)
        ensures
            ipc_id_result(profile_id@, "profile_id") matches Err(e) ==> result matches Err(error) && error == e,
            result matches Ok(listener) ==> (listener.port@ == port && port >= 1024 && !listener.enabled
                && (ipc_id_result(profile_id@, "profile_id") matches Ok(id) && listener.profile_id@ == id)),
    {
        let draft = match self.draft(port, profile_id) {
            Ok(draft) => draft,
            Err(error) => return Err(error),
        };
        self.repository.create_listener(&draft)
    }

    /// Changes the configuration of a listener.
    ///
    /// Existence is checked before the state rule: a missing listener is
    /// reported as missing, not as running.
    ///
    /// # Errors
    ///
    /// Returns a not-found error when the listener or the profile is missing,
    /// and a validation error for an invalid port or a running listener.
    pub fn update(&self, listener_id: &str, port: u16, profile_id: &str) -> (result: Result<Listener, EgressError>)
        ensures
            ipc_id_result(listener_id@, "listener_id") matches Err(e) ==> result matches Err(error) && error == e,
            result matches Ok(listener) ==> (listener.port@ == port && port >= 1024
                && (ipc_id_result(listener_id@, "listener_id") matches Ok(id) && listener.id@ == id)
                && (ipc_id_result(profile_id@, "profile_id") matches Ok(id) && listener.profile_id@ == id)),
    {
        let id = match ListenerId::parse(listener_id) {
            Ok(id) => id,
            Err(error) => return Err(error),
        };
        let found = match self.repository.find_listener(&id) {
            Ok(found) => found,
            Err(error) => return Err(error),
        };
        match require_found(found, "listener") {
            Ok(_) => {},
            Err(error) => return Err(error),
        }
        match check_reconfigurable(self.runtime.is_active(&id)) {
            Ok(()) => {},
            Err(error) => return Err(error),
        }
        let draft = match self.draft(port, profile_id) {
            Ok(draft) => draft,
            Err(error) => return Err(error),
        };
        self.repository.update_listener(&id, &draft)
    }

    /// Turns a listener on or off and signals the runtime accordingly.
    ///
    /// The flag is the intention of the user; the actual state comes from the
    /// runtime and may differ, for instance when the port is taken.
    ///
    /// # Errors
    ///
    /// Returns a not-found error when the listener is missing.
    pub fn set_enabled(&self, listener_id: &str, enabled: bool) -> (result: Result<Listener, EgressError>)
        ensures
            ipc_id_result(listener_id@, "listener_id") matches Err(e) ==> result matches Err(error) && error == e,
            result matches Ok(listener) ==> (listener.enabled == enabled
                && (ipc_id_result(listener_id@, "listener_id") matches Ok(id) && listener.id@ == id)),
    {
        let id = match ListenerId::parse(listener_id) {
            Ok(id) => id,
            Err(error) => return Err(error),
        };
        let listener = match self.repository.set_listener_enabled(&id, enabled) {
            Ok(listener) => listener,
            Err(error) => return Err(error),
        };
        match runtime_request(enabled) {
            RuntimeRequest::Start => self.runtime.request_start(&listener),
            RuntimeRequest::Stop => self.runtime.request_stop(&id),
        }
        Ok(listener)
    }

    /// Deletes a listener after stopping it, so that the runtime is never left
    /// with a listener that the storage no longer has.
    ///
    /// # Errors
    ///
    /// Returns a not-found error when the listener is missing.
    pub fn delete(&self, listener_id: &str) -> (result: Result<(), EgressError>)
        ensures
            ipc_id_result(listener_id@, "listener_id") matches Err(e) ==> result matches Err(error) && error == e,
    {
        let id = match ListenerId::parse(listener_id) {
            Ok(id) => id,
            Err(error) => return Err(error),
        };
        let found = match self.repository.find_listener(&id) {
            Ok(found) => found,
            Err(error) => return Err(error),
        };
        match require_found(found, "listener") {
            Ok(_) => {},
            Err(error) => return Err(error),
        }
        self.runtime.request_stop(&id);
        self.repository.delete_listener(&id)
    }

    /// Checks the port and the profile and assembles the data of a listener.
    fn draft(&self, port: u16, profile_id: &str) -> (result: Result<ListenerDraft, EgressError>)
        ensures
            ipc_id_result(profile_id@, "profile_id") matches Err(e) ==> result matches Err(error) && error == e,
            result matches Ok(draft) ==> (draft.port@ == port && port >= 1024
                && (ipc_id_result(profile_id@, "profile_id") matches Ok(id) && draft.profile_id@ == id)),
    {
        let profile_id = match ProfileId::parse(profile_id) {
            Ok(id) => id,
            Err(error) => return Err(error),
        };
        let exists = match self.repository.profile_exists(&profile_id) {
            Ok(exists) => exists,
            Err(error) => return Err(error),
        };
        listener_draft(port, profile_id, exists)
    }
}

} // verus!
