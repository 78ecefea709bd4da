//! Configuration of a proxy listener.
//!
//! A listener is described by the port it listens on and the policy profile it
//! applies. The port is limited to the unprivileged range: the application must
//! not need administrator rights, and it binds to the loopback address only.

use vstd::prelude::*;

use crate::entities::{parse_ipc_id, parse_stored_id, ipc_id_result, stored_id_result, is_id_text, new_uuid_text, ProfileId};
use crate::error::EgressError;

verus! {

/// Smallest port a listener may use.
pub const MIN_PROXY_PORT: u16 = 1024;

/// Largest port a listener may use.
pub const MAX_PROXY_PORT: u16 = 65535;

/// The error of a listener port outside the unprivileged range.
pub open spec fn proxy_port_error() -> EgressError {
    EgressError::Validation { field: "port", reason: "must be between 1024 and 65535" }
}

/// A listening port that passed the check.
#[derive(Debug, Clone, Copy, PartialEq, Eq, Hash)]
pub struct ProxyPort(u16);

impl View for ProxyPort {
    type V = u16;

    closed spec fn view(&self) -> u16 {
        self.0
    }
}

impl ProxyPort {
    /// A listening port is never a privileged one.
    #[verifier::type_invariant]
    spec fn unprivileged(self) -> bool {
        MIN_PROXY_PORT <= self.0
    }

    /// Checks and creates a listening port.
    ///
    /// # Errors
    ///
    /// Returns a validation error of the field `port` when the port lies outside
    /// the unprivileged range.
    pub fn parse(port: u16) -> (result: Result<Self, EgressError>)
        ensures
            MIN_PROXY_PORT <= port ==> (result matches Ok(p) && p@ == port),
            port < MIN_PROXY_PORT ==> result == Err::<ProxyPort, EgressError>(proxy_port_error()),
    {
        if !(MIN_PROXY_PORT <= port && port <= MAX_PROXY_PORT) {
            return Err(EgressError::validation("port", "must be between 1024 and 65535"));
        }
        Ok(ProxyPort(port))
    }

    /// Restores a port from storage.
    ///
    /// # Errors
    ///
    /// Returns a storage error: an invalid port in the database means corrupted data.
    pub fn from_stored(port: i64) -> (result: Result<Self, EgressError>)
        ensures
            (MIN_PROXY_PORT <= port <= MAX_PROXY_PORT) ==> (result matches Ok(p) && p@ == port),
            !(MIN_PROXY_PORT <= port <= MAX_PROXY_PORT) ==> (result matches Err(e)
                && crate::error::is_storage(e, "stored listener has an invalid port"@)),
    {
        if 0 <= port && port <= 65535 {
            let narrow: u16 = port as u16;
            if let Ok(checked) = ProxyPort::parse(narrow) {
                return Ok(checked);
            }
        }
        Err(EgressError::storage_message("stored listener has an invalid port"))
    }

    /// Numeric value of the port, always in the unprivileged range.
    pub fn get(self) -> (port: u16)
        ensures
            port == self@,
            MIN_PROXY_PORT <= port,
    {
        proof {
            use_type_invariant(&self);
        }
        self.0
    }
}

/// Identifier of a listener.
#[derive(Debug, PartialEq, Eq, Hash)]
pub struct ListenerId(String);

impl View for ListenerId {
    type V = Seq<char>;

    closed spec fn view(&self) -> Seq<char> {
        self.0@
    }
}

impl Clone for ListenerId {
    fn clone(&self) -> (copy: Self)
        ensures
            copy@ == self@,
    {
        proof {
            use_type_invariant(self);
        }
        ListenerId(self.0.clone())
    }
}

impl ListenerId {
    /// The text of an identifier is always a canonical UUID.
    #[verifier::type_invariant]
    spec fn canonical(self) -> bool {
        is_id_text(self.0@)
    }

    /// Creates a new random identifier.
    pub fn new() -> (id: Self)
        ensures
            is_id_text(id@),
    {
        ListenerId(new_uuid_text())
    }

    /// Parses an identifier that arrived through IPC.
    ///
    /// # Errors
    ///
    /// Returns a validation error of the field `listener_id` when the value is not a UUID.
    pub fn parse(input: &str) -> (result: Result<Self, EgressError>)
        ensures
            match ipc_id_result(input@, "listener_id") {
                Ok(v) => result matches Ok(id) && id@ == v,
                Err(e) => result matches Err(error) && error == e,
            },
    {
        match parse_ipc_id(input, "listener_id") {
            Ok(text) => Ok(ListenerId(text)),
            Err(error) => Err(error),
        }
    }

    /// Restores an identifier from storage.
    ///
    /// # Errors
    ///
    /// Returns a storage error when the stored data is corrupted.
    pub fn from_stored(input: &str) -> (result: Result<Self, EgressError>)
        ensures
            match stored_id_result(input@, "listener"@) {
                Ok(v) => result matches Ok(id) && id@ == v,
                Err(text) => result matches Err(error) && crate::error::is_storage(error, text),
            },
    {
        match parse_stored_id(input, "listener") {
            Ok(text) => Ok(ListenerId(text)),
            Err(error) => Err(error),
        }
    }

    /// Text of the identifier, always a canonical UUID.
    pub fn as_str(&self) -> (text: &str)
        ensures
            text@ == self@,
            is_id_text(text@),
    {
        proof {
            use_type_invariant(self);
        }
        self.0.as_str()
    }
}

impl Default for ListenerId {
    fn default() -> (id: Self)
        ensures
            is_id_text(id@),
    {
        ListenerId::new()
    }
}

/// A proxy listener.
#[derive(Debug, PartialEq, Eq)]
pub struct Listener {
    /// Identifier of the listener.
    pub id: ListenerId,
    /// Listening port.
    pub port: ProxyPort,
    /// Policy profile applied to connections.
    pub profile_id: ProfileId,
    /// Whether the user wants the listener on.
    ///
    /// The actual state (whether the listener accepts connections) lives in the
    /// proxy runtime and may differ, for instance when the port is taken.
    pub enabled: bool,
    /// Creation time in milliseconds of the Unix epoch.
    pub created_at_unix_ms: i64,
    /// Time of the last change in milliseconds of the Unix epoch.
    pub updated_at_unix_ms: i64,
}

/// The model of a listener.
pub struct ListenerView {
    pub id: Seq<char>,
    pub port: u16,
    pub profile_id: Seq<char>,
    pub enabled: bool,
    pub created_at_unix_ms: i64,
    pub updated_at_unix_ms: i64,
}

impl View for Listener {
    type V = ListenerView;

    open spec fn view(&self) -> ListenerView {
        ListenerView {
            id: self.id@,
            port: self.port@,
            profile_id: self.profile_id@,
            enabled: self.enabled,
            created_at_unix_ms: self.created_at_unix_ms,
            updated_at_unix_ms: self.updated_at_unix_ms,
        }
    }
}

impl Clone for Listener {
    fn clone(&self) -> (copy: Self)
        ensures
            copy@ == self@,
    {
        Listener {
            id: self.id.clone(),
            port: self.port,
            profile_id: self.profile_id.clone(),
            enabled: self.enabled,
            created_at_unix_ms: self.created_at_unix_ms,
            updated_at_unix_ms: self.updated_at_unix_ms,
        }
    }
}

/// Checked data of a listener to create or change.
#[derive(Debug, PartialEq, Eq)]
pub struct ListenerDraft {
    /// Listening port.
    pub port: ProxyPort,
    /// Policy profile.
    pub profile_id: ProfileId,
}

impl Clone for ListenerDraft {
    fn clone(&self) -> (copy: Self)
        ensures
            copy.port@ == self.port@,
            copy.profile_id@ == self.profile_id@,
    {
        ListenerDraft { port: self.port, profile_id: self.profile_id.clone() }
    }
}

} // verus!
