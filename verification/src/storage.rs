//! The storage format: how entities are written to table rows and read back.
//!
//! Rows that come back from the database are checked like any other input:
//! invalid values there mean corrupted data and are reported as storage errors,
//! never as user errors. Every entity the core builds reads back unchanged from
//! the columns it is written to.

use vstd::prelude::*;

use crate::action::{lemma_action_text_round_trip, Action};
use crate::entities::{is_canonical_uuid, stored_id_result, Profile, ProfileId, ProfileView, Rule, RuleId, RuleView};
use crate::error::{is_storage, EgressError};
use crate::host::{matcher_result, HostKind, HostMatcher};
use crate::host_laws::{is_built_matcher, lemma_matcher_rebuilds_from_parts};
use crate::listener::{Listener, ListenerId, ListenerView, ProxyPort};
use crate::port::PortSpec;
use crate::text::str_equal;

verus! {

/// Shift of positions before a reorder.
///
/// `UNIQUE(profile_id, position)` forbids reordering in place, so within one
/// transaction the positions are first moved to a free range and then
/// assigned anew.
pub const POSITION_SHIFT: i64 = 1000000;

/// Upper bound of ordinary rule positions.
///
/// The schema allows `POSITION_SHIFT + POSITION_LIMIT`: during a reorder the
/// positions leave the ordinary range for a while. A profile that reached this
/// bound takes no more rules, or reordering would stop working.
pub const POSITION_LIMIT: i64 = 1000000;

/// Name of the database file in the state directory.
pub const DATABASE_FILE_NAME: &'static str = "egresskeeper.sqlite3";

/// Name of the profile created on the first start.
pub const DEFAULT_PROFILE_NAME: &'static str = "По умолчанию";

/// Columns of the profile table, in the order of [`RawProfile`].
pub const PROFILE_COLUMNS: &'static str = "id, name, default_action, created_at_unix_ms, updated_at_unix_ms";

/// Columns of the rule table, in the order of [`RawRule`].
pub const RULE_COLUMNS: &'static str = "id, profile_id, position, action, matcher_kind, matcher_value, port_kind, port_start, port_end";

/// Columns of the listener table, in the order of [`RawListener`].
pub const LISTENER_COLUMNS: &'static str = "id, port, profile_id, enabled, created_at_unix_ms, updated_at_unix_ms";

// ---------------------------------------------------------------------------
// Profiles.
// ---------------------------------------------------------------------------

/// A row of the profile table before validation.
#[derive(Debug, PartialEq, Eq)]
pub struct RawProfile {
    pub id: String,
    pub name: String,
    pub default_action: String,
    pub created_at_unix_ms: i64,
    pub updated_at_unix_ms: i64,
}

/// The profile a row stands for, or the text of the storage error.
pub open spec fn profile_row_result(
    id: Seq<char>,
    name: Seq<char>,
    default_action: Seq<char>,
    created_at_unix_ms: i64,
    updated_at_unix_ms: i64,
) -> Result<ProfileView, Seq<char>> {
    match Action::spec_parse(default_action) {
        None => Err("stored profile has an invalid action"@),
        Some(action) => match stored_id_result(id, "profile"@) {
            Err(text) => Err(text),
            Ok(canonical) => Ok(ProfileView {
                id: canonical,
                name,
                default_action: action,
                created_at_unix_ms,
                updated_at_unix_ms,
            }),
        },
    }
}

impl RawProfile {
    /// Converts the row into a profile.
    ///
    /// # Errors
    ///
    /// Returns a storage error for an invalid action or identifier.
    pub fn into_profile(self) -> (result: Result<Profile, EgressError>)
        ensures
            match profile_row_result(self.id@, self.name@, self.default_action@, self.created_at_unix_ms, self.updated_at_unix_ms) {
                Ok(v) => result matches Ok(profile) && profile@ == v,
                Err(text) => result matches Err(error) && is_storage(error, text),
            },
    {
        let default_action = match Action::parse(self.default_action.as_str()) {
            Ok(action) => action,
            Err(_) => return Err(EgressError::storage_message("stored profile has an invalid action")),
        };
        let id = match ProfileId::from_stored(self.id.as_str()) {
            Ok(id) => id,
            Err(error) => return Err(error),
        };
        Ok(Profile {
            id,
            name: self.name,
            default_action,
            created_at_unix_ms: self.created_at_unix_ms,
            updated_at_unix_ms: self.updated_at_unix_ms,
        })
    }
}

/// A profile read back from the columns it is written to is the same profile.
pub proof fn lemma_profile_row_round_trip(profile: ProfileView)
    requires
        is_canonical_uuid(profile.id),
    ensures
        profile_row_result(
            profile.id,
            profile.name,
            profile.default_action.spec_text(),
            profile.created_at_unix_ms,
            profile.updated_at_unix_ms,
        ) == Ok::<ProfileView, Seq<char>>(profile),
{
    lemma_action_text_round_trip(profile.default_action);
}

// ---------------------------------------------------------------------------
// Rules.
// ---------------------------------------------------------------------------

/// A row of the rule table before validation.
#[derive(Debug, PartialEq, Eq)]
pub struct RawRule {
    pub id: String,
    pub profile_id: String,
    pub position: i64,
    pub action: String,
    pub matcher_kind: String,
    pub matcher_value: String,
    pub port_kind: String,
    pub port_start: Option<i64>,
    pub port_end: Option<i64>,
}

/// The model of a rule row.
pub struct RawRuleView {
    pub id: Seq<char>,
    pub profile_id: Seq<char>,
    pub position: i64,
    pub action: Seq<char>,
    pub matcher_kind: Seq<char>,
    pub matcher_value: Seq<char>,
    pub port_kind: Seq<char>,
    pub port_start: Option<i64>,
    pub port_end: Option<i64>,
}

impl View for RawRule {
    type V = RawRuleView;

    open spec fn view(&self) -> RawRuleView {
        RawRuleView {
            id: self.id@,
            profile_id: self.profile_id@,
            position: self.position,
            action: self.action@,
            matcher_kind: self.matcher_kind@,
            matcher_value: self.matcher_value@,
            port_kind: self.port_kind@,
            port_start: self.port_start,
            port_end: self.port_end,
        }
    }
}

/// The error text of a stored port that is missing or out of range.
pub open spec fn invalid_port_text() -> Seq<char> {
    "stored rule has an invalid port"@
}

/// A stored port as a `u16`, or the error text.
pub open spec fn stored_port_result(value: Option<i64>) -> Result<u16, Seq<char>> {
    match value {
        Some(raw) => if 0 <= raw <= 65535 { Ok(raw as u16) } else { Err(invalid_port_text()) },
        None => Err(invalid_port_text()),
    }
}

/// The host kind a stored kind names.
pub open spec fn stored_host_kind(kind: Seq<char>) -> Option<HostKind> {
    if kind == "exact"@ {
        Some(HostKind::Exact)
    } else if kind == "subdomains"@ {
        Some(HostKind::Subdomains)
    } else {
        None
    }
}

/// The stored name of a host kind.
pub open spec fn host_kind_text(kind: HostKind) -> Seq<char> {
    match kind {
        HostKind::Exact => "exact"@,
        HostKind::Subdomains => "subdomains"@,
    }
}

/// The port restriction stored columns stand for, or the error text.
pub open spec fn stored_port_spec(kind: Seq<char>, start: Option<i64>, end: Option<i64>) -> Result<PortSpec, Seq<char>> {
    if kind == "any"@ {
        Ok(PortSpec::Any)
    } else if kind == "exactly"@ {
        match stored_port_result(start) {
            Err(text) => Err(text),
            Ok(port) => if port == 0 { Err(invalid_port_text()) } else { Ok(PortSpec::Exactly { port }) },
        }
    } else if kind == "range"@ {
        match stored_port_result(start) {
            Err(text) => Err(text),
            Ok(first) => match stored_port_result(end) {
                Err(text) => Err(text),
                Ok(last) => if first == 0 || first > last {
                    Err("stored rule has an invalid port range"@)
                } else {
                    Ok(PortSpec::Range { start: first, end: last })
                },
            },
        }
    } else {
        Err("stored rule has an unknown port kind"@)
    }
}

/// The rule a row stands for, or the text of the storage error. The columns
/// are checked in order: matcher kind and value, port, action, identifiers and
/// position.
pub open spec fn rule_row_result(row: RawRuleView) -> Result<RuleView, Seq<char>> {
    match stored_host_kind(row.matcher_kind) {
        None => Err("stored rule has an unknown host matcher kind"@),
        Some(kind) => match matcher_result(kind, row.matcher_value) {
            Err(_) => Err("stored rule has an invalid host matcher"@),
            Ok(matcher) => match stored_port_spec(row.port_kind, row.port_start, row.port_end) {
                Err(text) => Err(text),
                Ok(port) => match Action::spec_parse(row.action) {
                    None => Err("stored rule has an invalid action"@),
                    Some(action) => match stored_id_result(row.id, "rule"@) {
                        Err(text) => Err(text),
                        Ok(id) => match stored_id_result(row.profile_id, "profile"@) {
                            Err(text) => Err(text),
                            Ok(profile_id) => if 0 <= row.position <= u32::MAX {
                                Ok(RuleView { id, profile_id, position: row.position as u32, action, host: matcher, port })
                            } else {
                                Err("stored rule has an invalid position"@)
                            },
                        },
                    },
                },
            },
        },
    }
}

/// Converts a stored port into a `u16`.
///
/// # Errors
///
/// Returns a storage error when the port is missing or out of range.
pub fn stored_port(value: Option<i64>) -> (result: Result<u16, EgressError>)
    ensures
        match stored_port_result(value) {
            Ok(port) => result == Ok::<u16, EgressError>(port),
            Err(text) => result matches Err(error) && is_storage(error, text),
        },
{
    match value {
        Some(raw) => if 0 <= raw && raw <= 65535 {
            Ok(raw as u16)
        } else {
            Err(EgressError::storage_message("stored rule has an invalid port"))
        },
        None => Err(EgressError::storage_message("stored rule has an invalid port")),
    }
}

/// Reads the port restriction of a row.
fn stored_port_restriction(kind: &str, start: Option<i64>, end: Option<i64>) -> (result: Result<PortSpec, EgressError>)
    ensures
        match stored_port_spec(kind@, start, end) {
            Ok(port) => result == Ok::<PortSpec, EgressError>(port),
            Err(text) => result matches Err(error) && is_storage(error, text),
        },
{
    if str_equal(kind, "any") {
        Ok(PortSpec::any())
    } else if str_equal(kind, "exactly") {
        let port = match stored_port(start) {
            Ok(port) => port,
            Err(error) => return Err(error),
        };
        match PortSpec::exactly(port) {
            Ok(spec) => Ok(spec),
            Err(_) => Err(EgressError::storage_message("stored rule has an invalid port")),
        }
    } else if str_equal(kind, "range") {
        let first = match stored_port(start) {
            Ok(port) => port,
            Err(error) => return Err(error),
        };
        let last = match stored_port(end) {
            Ok(port) => port,
            Err(error) => return Err(error),
        };
        match PortSpec::range(first, last) {
            Ok(spec) => Ok(spec),
            Err(_) => Err(EgressError::storage_message("stored rule has an invalid port range")),
        }
    } else {
        Err(EgressError::storage_message("stored rule has an unknown port kind"))
    }
}

impl RawRule {
    /// Converts the row into a rule.
    ///
    /// # Errors
    ///
    /// Returns a storage error for any invalid column.
    pub fn into_rule(self) -> (result: Result<Rule, EgressError>)
        ensures
            match rule_row_result(self@) {
                Ok(v) => result matches Ok(rule) && rule@ == v,
                Err(text) => result matches Err(error) && is_storage(error, text),
            },
    {
        let host_kind = if str_equal(self.matcher_kind.as_str(), "exact") {
            HostKind::Exact
        } else if str_equal(self.matcher_kind.as_str(), "subdomains") {
            HostKind::Subdomains
        } else {
            return Err(EgressError::storage_message("stored rule has an unknown host matcher kind"));
        };
        let host = match HostMatcher::from_parts(host_kind, self.matcher_value.as_str()) {
            Ok(host) => host,
            Err(_) => return Err(EgressError::storage_message("stored rule has an invalid host matcher")),
        };
        let port = match stored_port_restriction(self.port_kind.as_str(), self.port_start, self.port_end) {
            Ok(port) => port,
            Err(error) => return Err(error),
        };
        let action = match Action::parse(self.action.as_str()) {
            Ok(action) => action,
            Err(_) => return Err(EgressError::storage_message("stored rule has an invalid action")),
        };
        let id = match RuleId::from_stored(self.id.as_str()) {
            Ok(id) => id,
            Err(error) => return Err(error),
        };
        let profile_id = match ProfileId::from_stored(self.profile_id.as_str()) {
            Ok(id) => id,
            Err(error) => return Err(error),
        };
        if !(0 <= self.position && self.position <= 4294967295) {
            return Err(EgressError::storage_message("stored rule has an invalid position"));
        }
        let position: u32 = self.position as u32;
        Ok(Rule { id, profile_id, position, action, host, port })
    }
}

/// The stored columns of a port restriction: kind, start and end.
pub open spec fn port_columns_of(port: PortSpec) -> (Seq<char>, Option<i64>, Option<i64>) {
    match port {
        PortSpec::Any => ("any"@, None, None),
        PortSpec::Exactly { port } => ("exactly"@, Some(port as i64), None),
        PortSpec::Range { start, end } => ("range"@, Some(start as i64), Some(end as i64)),
    }
}

/// Splits a matcher into the columns of the schema: kind and value.
pub fn matcher_columns(host: &HostMatcher) -> (columns: (&'static str, &str))
    ensures
        columns.0@ == host_kind_text(host@.0),
        columns.1@ == host@.1,
{
    match host {
        HostMatcher::Exact(value) => ("exact", value.as_str()),
        HostMatcher::Subdomains(value) => ("subdomains", value.as_str()),
    }
}

/// Splits a port restriction into the columns of the schema: kind, start and end.
pub fn port_columns(port: PortSpec) -> (columns: (&'static str, Option<i64>, Option<i64>))
    ensures
        (columns.0@, columns.1, columns.2) == port_columns_of(port),
{
    match port {
        PortSpec::Any => ("any", None, None),
        PortSpec::Exactly { port } => ("exactly", Some(port as i64), None),
        PortSpec::Range { start, end } => ("range", Some(start as i64), Some(end as i64)),
    }
}

/// The row a rule is written to.
pub open spec fn rule_row_of(rule: RuleView) -> RawRuleView {
    let (port_kind, port_start, port_end) = port_columns_of(rule.port);
    RawRuleView {
        id: rule.id,
        profile_id: rule.profile_id,
        position: rule.position as i64,
        action: rule.action.spec_text(),
        matcher_kind: host_kind_text(rule.host.0),
        matcher_value: rule.host.1,
        port_kind,
        port_start,
        port_end,
    }
}

/// A rule read back from the row it is written to is the same rule, for every
/// rule the core can build: canonical identifiers, a matcher that a
/// constructor made, and a valid port restriction.
pub proof fn lemma_rule_row_round_trip(rule: RuleView)
    requires
        is_canonical_uuid(rule.id),
        is_canonical_uuid(rule.profile_id),
        is_built_matcher(rule.host.0, rule.host.1),
        rule.port.valid(),
    ensures
        rule_row_result(rule_row_of(rule)) == Ok::<RuleView, Seq<char>>(rule),
{
    reveal_strlit("exact");
    reveal_strlit("subdomains");
    reveal_strlit("any");
    reveal_strlit("exactly");
    reveal_strlit("range");
    assert("exact"@ != "subdomains"@) by {
        assert("exact"@.len() != "subdomains"@.len());
    }
    assert("any"@ != "exactly"@ && "any"@ != "range"@ && "exactly"@ != "range"@) by {
        assert("any"@.len() != "exactly"@.len());
        assert("any"@[0] != "range"@[0]);
        assert("exactly"@.len() != "range"@.len());
    }
    lemma_matcher_rebuilds_from_parts(rule.host.0, rule.host.1);
    lemma_action_text_round_trip(rule.action);
}

// ---------------------------------------------------------------------------
// Listeners.
// ---------------------------------------------------------------------------

/// A row of the listener table before validation.
#[derive(Debug, PartialEq, Eq)]
pub struct RawListener {
    pub id: String,
    pub port: i64,
    pub profile_id: String,
    pub enabled: i64,
    pub created_at_unix_ms: i64,
    pub updated_at_unix_ms: i64,
}

/// The listener a row stands for, or the text of the storage error.
pub open spec fn listener_row_result(
    id: Seq<char>,
    port: i64,
    profile_id: Seq<char>,
    enabled: i64,
    created_at_unix_ms: i64,
    updated_at_unix_ms: i64,
) -> Result<ListenerView, Seq<char>> {
    match stored_id_result(id, "listener"@) {
        Err(text) => Err(text),
        Ok(canonical) => if !(1024 <= port <= 65535) {
            Err("stored listener has an invalid port"@)
        } else {
            match stored_id_result(profile_id, "profile"@) {
                Err(text) => Err(text),
                Ok(profile) => Ok(ListenerView {
                    id: canonical,
                    port: port as u16,
                    profile_id: profile,
                    enabled: enabled != 0,
                    created_at_unix_ms,
                    updated_at_unix_ms,
                }),
            }
        },
    }
}

impl RawListener {
    /// Converts the row into a listener.
    ///
    /// # Errors
    ///
    /// Returns a storage error for an invalid identifier or port.
    pub fn into_listener(self) -> (result: Result<Listener, EgressError>)
        ensures
            match listener_row_result(self.id@, self.port, self.profile_id@, self.enabled, self.created_at_unix_ms, self.updated_at_unix_ms) {
                Ok(v) => result matches Ok(listener) && listener@ == v,
                Err(text) => result matches Err(error) && is_storage(error, text),
            },
    {
        let id = match ListenerId::from_stored(self.id.as_str()) {
            Ok(id) => id,
            Err(error) => return Err(error),
        };
        let port = match ProxyPort::from_stored(self.port) {
            Ok(port) => port,
            Err(error) => return Err(error),
        };
        let profile_id = match ProfileId::from_stored(self.profile_id.as_str()) {
            Ok(id) => id,
            Err(error) => return Err(error),
        };
        Ok(Listener {
            id,
            port,
            profile_id,
            enabled: self.enabled != 0,
            created_at_unix_ms: self.created_at_unix_ms,
            updated_at_unix_ms: self.updated_at_unix_ms,
        })
    }
}

/// A listener read back from the columns it is written to is the same
/// listener; the flag is stored as `1` or `0`.
pub proof fn lemma_listener_row_round_trip(listener: ListenerView)
    requires
        is_canonical_uuid(listener.id),
        is_canonical_uuid(listener.profile_id),
        listener.port >= 1024,
    ensures
        listener_row_result(
            listener.id,
            listener.port as i64,
            listener.profile_id,
            if listener.enabled { 1 } else { 0 },
            listener.created_at_unix_ms,
            listener.updated_at_unix_ms,
        ) == Ok::<ListenerView, Seq<char>>(listener),
{
}

// ---------------------------------------------------------------------------
// Decisions of the storage operations.
// ---------------------------------------------------------------------------

/// A storage error with the context of the failed operation and the text of
/// its cause.
pub fn storage_error(context: &str, source: &str) -> (error: EgressError)
    ensures
        is_storage(error, context@ + ": "@ + source@),
{
    EgressError::storage(String::from_str(context).concat(": ").concat(source))
}

/// The error of a profile write: a violated uniqueness is a taken name, any
/// other failure a storage error.
pub fn profile_write_error(unique_violation: bool, context: &str, source: &str) -> (error: EgressError)
    ensures
        unique_violation ==> error == (EgressError::Validation { field: "name", reason: "must be unique" }),
        !unique_violation ==> is_storage(error, context@ + ": "@ + source@),
{
    if unique_violation {
        EgressError::validation("name", "must be unique")
    } else {
        storage_error(context, source)
    }
}

/// The error of a listener write: a violated uniqueness is a taken port, any
/// other failure a storage error.
pub fn listener_write_error(unique_violation: bool, context: &str, source: &str) -> (error: EgressError)
    ensures
        unique_violation ==> error == (EgressError::Validation { field: "port", reason: "is already used by another listener" }),
        !unique_violation ==> is_storage(error, context@ + ": "@ + source@),
{
    if unique_violation {
        EgressError::validation("port", "is already used by another listener")
    } else {
        storage_error(context, source)
    }
}

/// An update or delete that touched no row met a missing entity.
pub fn require_affected(affected: usize, entity: &'static str) -> (result: Result<(), EgressError>)
    ensures
        affected == 0 ==> result == Err::<(), EgressError>(EgressError::NotFound { entity }),
        affected > 0 ==> result is Ok,
{
    if affected == 0 {
        return Err(EgressError::not_found(entity));
    }
    Ok(())
}

/// The number of profiles from a `COUNT(*)`.
pub fn profile_count(count: i64) -> (result: Result<u64, EgressError>)
    ensures
        count >= 0 ==> result == Ok::<u64, EgressError>(count as u64),
        count < 0 ==> (result matches Err(error) && is_storage(error, "profile count is invalid"@)),
{
    if count < 0 {
        return Err(EgressError::storage_message("profile count is invalid"));
    }
    Ok(count as u64)
}

/// The number of rules from a `COUNT(*)`.
pub fn rule_count(count: i64) -> (result: Result<u32, EgressError>)
    ensures
        0 <= count <= u32::MAX ==> result == Ok::<u32, EgressError>(count as u32),
        !(0 <= count <= u32::MAX) ==> (result matches Err(error) && is_storage(error, "rule count is invalid"@)),
{
    if !(0 <= count && count <= 4294967295) {
        return Err(EgressError::storage_message("rule count is invalid"));
    }
    Ok(count as u32)
}

/// The error of a profile that holds as many rules as it may.
pub open spec fn full_profile_error() -> EgressError {
    EgressError::Validation { field: "profile_id", reason: "profile cannot hold more rules" }
}

/// Checks the position a new rule gets: the next after the last one. A
/// profile whose positions reached the limit takes no more rules.
pub fn check_next_position(next: i64) -> (result: Result<(), EgressError>)
    ensures
        next >= POSITION_LIMIT ==> result == Err::<(), EgressError>(full_profile_error()),
        next < POSITION_LIMIT ==> result is Ok,
{
    if next >= POSITION_LIMIT {
        return Err(EgressError::validation("profile_id", "profile cannot hold more rules"));
    }
    Ok(())
}

/// The position of a new rule as the rule carries it.
pub fn new_rule_position(position: i64) -> (result: Result<u32, EgressError>)
    ensures
        0 <= position <= u32::MAX ==> result == Ok::<u32, EgressError>(position as u32),
        !(0 <= position <= u32::MAX) ==> (result matches Err(error) && is_storage(error, "rule position is invalid"@)),
{
    if !(0 <= position && position <= 4294967295) {
        return Err(EgressError::storage_message("rule position is invalid"));
    }
    Ok(position as u32)
}

/// The error of a reorder request that does not match the stored rules.
pub open spec fn reorder_mismatch_error() -> EgressError {
    EgressError::Validation { field: "rule_ids", reason: "must list exactly the rules of the profile" }
}

/// The error of a reorder request too long to number.
pub open spec fn reorder_too_long_error() -> EgressError {
    EgressError::Validation { field: "rule_ids", reason: "is too long" }
}

/// Checks that a reorder request names as many rules as the profile has.
pub fn check_reorder_count(existing: i64, requested: usize) -> (result: Result<(), EgressError>)
    ensures
        requested > i64::MAX ==> result == Err::<(), EgressError>(reorder_too_long_error()),
        requested <= i64::MAX && existing != requested ==> result == Err::<(), EgressError>(reorder_mismatch_error()),
        requested <= i64::MAX && existing == requested ==> result is Ok,
{
    if (requested as u64) > 9223372036854775807u64 {
        return Err(EgressError::validation("rule_ids", "is too long"));
    }
    let requested: i64 = requested as i64;
    if existing != requested {
        return Err(EgressError::validation("rule_ids", "must list exactly the rules of the profile"));
    }
    Ok(())
}

/// The position assigned to the rule at `index` of a reorder request.
pub fn reorder_position(index: usize) -> (result: Result<i64, EgressError>)
    ensures
        index <= i64::MAX ==> result == Ok::<i64, EgressError>(index as i64),
        index > i64::MAX ==> result == Err::<i64, EgressError>(reorder_too_long_error()),
{
    if (index as u64) > 9223372036854775807u64 {
        return Err(EgressError::validation("rule_ids", "is too long"));
    }
    Ok(index as i64)
}

/// A reorder step that touched no row met a rule of another profile or a
/// missing rule.
pub fn check_assigned(affected: usize) -> (result: Result<(), EgressError>)
    ensures
        affected == 0 ==> result == Err::<(), EgressError>(reorder_mismatch_error()),
        affected > 0 ==> result is Ok,
{
    if affected == 0 {
        return Err(EgressError::validation("rule_ids", "must list exactly the rules of the profile"));
    }
    Ok(())
}

/// The default profile is created once, on a store without profiles:
/// initializing again must not bring back what the user deleted.
pub fn should_seed_default_profile(existing_profiles: i64) -> (seed: bool)
    ensures
        seed == (existing_profiles <= 0),
{
    existing_profiles <= 0
}

// ---------------------------------------------------------------------------
// Schema migrations.
// ---------------------------------------------------------------------------

/// A migration of the schema.
#[derive(Debug, Clone, Copy, PartialEq, Eq)]
pub struct Migration {
    /// The version the migration brings the schema to.
    pub version: i64,
    /// Short description for the logs.
    pub description: &'static str,
    /// SQL of the migration.
    pub sql: &'static str,
}

/// The initial schema: policy profiles and their rules.
pub const SCHEMA_V1: &'static str = "
CREATE TABLE profiles (
    id                 TEXT    PRIMARY KEY NOT NULL,
    name               TEXT    NOT NULL,
    name_folded        TEXT    NOT NULL UNIQUE,
    default_action     TEXT    NOT NULL CHECK (default_action IN ('allow', 'deny')),
    created_at_unix_ms INTEGER NOT NULL,
    updated_at_unix_ms INTEGER NOT NULL
);

CREATE TABLE rules (
    id            TEXT    PRIMARY KEY NOT NULL,
    profile_id    TEXT    NOT NULL REFERENCES profiles (id) ON DELETE CASCADE,
    -- The upper bound covers the temporary shift of positions during a reorder:
    -- see POSITION_SHIFT and POSITION_LIMIT.
    position      INTEGER NOT NULL CHECK (position >= 0 AND position < 2000000),
    action        TEXT    NOT NULL CHECK (action IN ('allow', 'deny')),
    matcher_kind  TEXT    NOT NULL CHECK (matcher_kind IN ('exact', 'subdomains')),
    matcher_value TEXT    NOT NULL,
    port_kind     TEXT    NOT NULL CHECK (port_kind IN ('any', 'exactly', 'range')),
    port_start    INTEGER,
    port_end      INTEGER,
    -- The `IS NOT NULL` checks are needed: in SQL a comparison with NULL gives
    -- NULL, not FALSE, and a CHECK with a NULL result counts as satisfied.
    CHECK (
        (port_kind = 'any' AND port_start IS NULL AND port_end IS NULL)
        OR (
            port_kind = 'exactly'
            AND port_start IS NOT NULL
            AND port_start BETWEEN 1 AND 65535
            AND port_end IS NULL
        )
        OR (
            port_kind = 'range'
            AND port_start IS NOT NULL
            AND port_end IS NOT NULL
            AND port_start BETWEEN 1 AND 65535
            AND port_end >= port_start
        )
    ),
    UNIQUE (profile_id, position)
);
";

/// Configuration of proxy listeners.
pub const SCHEMA_V2: &'static str = "
CREATE TABLE listeners (
    id                 TEXT    PRIMARY KEY NOT NULL,
    port               INTEGER NOT NULL CHECK (port >= 1024 AND port <= 65535),
    profile_id         TEXT    NOT NULL REFERENCES profiles (id) ON DELETE CASCADE,
    enabled            INTEGER NOT NULL CHECK (enabled IN (0, 1)),
    created_at_unix_ms INTEGER NOT NULL,
    updated_at_unix_ms INTEGER NOT NULL,
    UNIQUE (port)
);
";

/// Settings of the application as key and value pairs.
///
/// No column per setting is needed: the set of settings grows without a new
/// migration, and defaults live in the code.
pub const SCHEMA_V3: &'static str = "
CREATE TABLE settings (
    key                TEXT    PRIMARY KEY NOT NULL,
    value              TEXT    NOT NULL,
    updated_at_unix_ms INTEGER NOT NULL
);
";

/// The versions of all migrations in the order of application.
pub open spec fn migration_versions() -> Seq<i64> {
    seq![1i64, 2i64, 3i64]
}

/// The versions of the migrations a schema of version `current` still lacks.
pub open spec fn pending_versions(current: i64) -> Seq<i64> {
    migration_versions().filter(|version: i64| version > current)
}

/// All migrations of the schema in the order of application.
pub fn migrations() -> (all: Vec<Migration>)
    ensures
        all@.map_values(|m: Migration| m.version) == migration_versions(),
{
    let mut all: Vec<Migration> = Vec::new();
    all.push(Migration { version: 1, description: "policies: profiles and rules", sql: SCHEMA_V1 });
    all.push(Migration { version: 2, description: "proxy: listeners", sql: SCHEMA_V2 });
    all.push(Migration { version: 3, description: "shell: application settings", sql: SCHEMA_V3 });
    assert(all@.map_values(|m: Migration| m.version) =~= migration_versions());
    all
}

/// The latest known version of the schema.
pub fn latest_version() -> (version: i64)
    ensures
        version == migration_versions().last(),
{
    let all = migrations();
    let count = all.len();
    proof {
        assert(all@.map_values(|m: Migration| m.version).len() == 3);
    }
    if count == 0 {
        return 0;
    }
    let last = all[count - 1].version;
    proof {
        assert(all@.map_values(|m: Migration| m.version)[count - 1] == last);
    }
    last
}

/// The migrations that a schema of version `current` still lacks, in the
/// order of application.
pub fn pending_migrations(current: i64) -> (pending: Vec<Migration>)
    ensures
        pending@.map_values(|m: Migration| m.version) == pending_versions(current),
{
    let all = migrations();
    let ghost versions = all@.map_values(|m: Migration| m.version);
    let mut pending: Vec<Migration> = Vec::new();
    let mut i: usize = 0;
    while i < all.len()
        invariant
            i <= all.len(),
            versions == all@.map_values(|m: Migration| m.version),
            versions == migration_versions(),
            pending@.map_values(|m: Migration| m.version) == versions.take(i as int).filter(|version: i64| version > current),
        decreases all.len() - i,
    {
        let migration = all[i];
        proof {
            assert(versions.take(i + 1).drop_last() =~= versions.take(i as int));
            assert(versions.take(i + 1).last() == migration.version);
            reveal(Seq::filter);
        }
        if migration.version > current {
            let ghost before = pending@;
            pending.push(migration);
            assert(pending@.map_values(|m: Migration| m.version)
                =~= before.map_values(|m: Migration| m.version).push(migration.version));
        }
        i += 1;
    }
    assert(versions.take(all.len() as int) =~= versions);
    pending
}

/// The versions of the migrations rise strictly, so that applying the pending
/// ones in order leaves the schema at the latest version.
pub proof fn lemma_pending_migrations_reach_latest(current: i64)
    requires
        current < migration_versions().last(),
    ensures
        pending_versions(current).len() > 0,
        pending_versions(current).last() == migration_versions().last(),
        forall|i: int, j: int| 0 <= i < j < pending_versions(current).len()
            ==> pending_versions(current)[i] < pending_versions(current)[j],
{
    let versions = migration_versions();
    let pending = pending_versions(current);
    reveal_with_fuel(Seq::filter, 4);
    assert(versions.drop_last().drop_last().drop_last() =~= Seq::<i64>::empty());
    if current < 1 {
        assert(pending =~= seq![1i64, 2i64, 3i64]);
    } else if current < 2 {
        assert(pending =~= seq![2i64, 3i64]);
    } else {
        assert(pending =~= seq![3i64]);
    }
}

/// A schema at the latest version or above has nothing pending.
pub proof fn lemma_nothing_pending_at_latest(current: i64)
    requires
        current >= migration_versions().last(),
    ensures
        pending_versions(current).len() == 0,
{
    let versions = migration_versions();
    reveal_with_fuel(Seq::filter, 4);
    assert(versions.drop_last().drop_last().drop_last() =~= Seq::<i64>::empty());
    assert(pending_versions(current) =~= Seq::<i64>::empty());
}

} // verus!
