//! Ports that the application declares for the infrastructure.
//!
//! What an implementation decides (whether an entity exists, what the storage
//! holds) is left open; what every implementation of a port owes its caller
//! about the value it hands back is stated on the method. The storage of the
//! application and the stores of the tests meet these contracts; nothing here
//! checks them.

use vstd::prelude::*;

use crate::action::Action;
use crate::decision::rule_views;
use crate::decision_laws::strictly_sorted;
use crate::entities::{draft_view, Profile, ProfileDraft, ProfileId, Rule, RuleDraft, RuleId};
use crate::error::EgressError;
use crate::listener::{Listener, ListenerDraft, ListenerId};
use crate::outcome::PolicySnapshot;
use crate::policy_service::{distinct_ids, id_texts, rule_ids_of};

verus! {

/// Access to the application state directory.
///
/// The directory is resolved outside the core (the composition root passes the
/// path that is right for the platform); the core only prepares and checks it.
pub trait StateDirectory {
    /// Makes sure that the state directory exists and returns its path.
    ///
    /// # Errors
    ///
    /// Returns a state directory error when the directory cannot be prepared,
    /// and a validation error when no path is set.
    ///
    /// A path that is returned is not empty.
    fn ensure(&self) -> (result: Result<String, EgressError>)
        ensures
            result matches Ok(path) ==> path@.len() > 0;
}

/// Storage of policies.
///
/// Identifiers and timestamps of entities are made by the implementation, which
/// owns identity and the monotonicity of time, as a database does. Input is
/// validated before the port is called, so the methods take a checked
/// [`ProfileDraft`] and [`RuleDraft`].
///
/// Methods that change an existing entity return a not-found error when the
/// entity is missing.
pub trait PolicyRepository {
    /// All profiles in the order of creation: no profile comes before one
    /// created earlier.
    fn list_profiles(&self) -> (result: Result<Vec<Profile>, EgressError>)
        ensures
            result matches Ok(profiles) ==> forall|i: int, j: int| 0 <= i < j < profiles.len()
                ==> (#[trigger] profiles@[i]).created_at_unix_ms <= (#[trigger] profiles@[j]).created_at_unix_ms;

    /// Finds a profile by identifier; a profile found has that identifier.
    /// A failure to read is a storage error.
    fn find_profile(&self, id: &ProfileId) -> (result: Result<Option<Profile>, EgressError>)
        ensures
            result matches Ok(Some(profile)) ==> profile.id@ == id@,
            result matches Err(error) ==> error is Storage;

    /// Finds a profile by name, ignoring case.
    fn find_profile_by_name(&self, name: &str) -> Result<Option<Profile>, EgressError>;

    /// Number of profiles.
    fn count_profiles(&self) -> Result<u64, EgressError>;

    /// Creates a profile; a name that is taken is a validation error. The
    /// profile created has the name and the default action of the draft.
    fn create_profile(&self, draft: &ProfileDraft) -> (result: Result<Profile, EgressError>)
        ensures
            result matches Ok(profile) ==> profile.name@ == draft.name@
                && profile.default_action == draft.default_action;

    /// Renames a profile and returns it under its new name.
    fn rename_profile(&self, id: &ProfileId, name: &str) -> (result: Result<Profile, EgressError>)
        ensures
            result matches Ok(profile) ==> profile.id@ == id@ && profile.name@ == name@;

    /// Changes the default action of a profile and returns the profile.
    fn set_default_action(&self, id: &ProfileId, action: Action) -> (result: Result<Profile, EgressError>)
        ensures
            result matches Ok(profile) ==> profile.id@ == id@ && profile.default_action == action;

    /// Deletes a profile with its rules.
    fn delete_profile(&self, id: &ProfileId) -> Result<(), EgressError>;

    /// Rules of a profile in the order in which they apply: all of that
    /// profile, at distinct positions in rising order.
    fn list_rules(&self, profile_id: &ProfileId) -> (result: Result<Vec<Rule>, EgressError>)
        ensures
            result matches Ok(rules) ==> (strictly_sorted(rule_views(rules@))
                && forall|i: int| 0 <= i < rules.len() ==> (#[trigger] rules@[i]).profile_id@ == profile_id@);

    /// Number of rules of a profile.
    fn count_rules(&self, profile_id: &ProfileId) -> Result<u32, EgressError>;

    /// Appends a rule to a profile; the position is assigned by the
    /// implementation, the rest of the rule is the draft.
    fn add_rule(&self, profile_id: &ProfileId, draft: &RuleDraft) -> (result: Result<Rule, EgressError>)
        ensures
            result matches Ok(rule) ==> rule.profile_id@ == profile_id@
                && (rule.action, rule.host@, rule.port) == draft_view(draft);

    /// Changes a rule to the draft and keeps its position.
    fn update_rule(&self, id: &RuleId, draft: &RuleDraft) -> (result: Result<Rule, EgressError>)
        ensures
            result matches Ok(rule) ==> rule.id@ == id@
                && (rule.action, rule.host@, rule.port) == draft_view(draft);

    /// Deletes a rule.
    fn delete_rule(&self, id: &RuleId) -> Result<(), EgressError>;

    /// Replaces the order of the rules of a profile; on failure the order
    /// stays. For a list without repeats, the rules come back in the order
    /// requested, at positions `0..n`.
    fn reorder_rules(&self, profile_id: &ProfileId, ordered: &[RuleId]) -> (result: Result<Vec<Rule>, EgressError>)
        ensures
            result matches Ok(rules) ==> (distinct_ids(id_texts(ordered@)) ==> (
                rule_ids_of(rule_views(rules@)) == id_texts(ordered@)
                && forall|i: int| 0 <= i < rules.len() ==> (#[trigger] rules@[i]).position == i));
}

/// Storage of the configuration of proxy listeners.
pub trait ListenerRepository {
    /// All listeners in the order of creation.
    fn list_listeners(&self) -> Result<Vec<Listener>, EgressError>;

    /// Finds a listener by identifier.
    fn find_listener(&self, id: &ListenerId) -> Result<Option<Listener>, EgressError>;

    /// Whether the profile exists.
    fn profile_exists(&self, id: &ProfileId) -> Result<bool, EgressError>;

    /// Creates a listener, turned off; a port that is taken is a validation error.
    fn create_listener(&self, draft: &ListenerDraft) -> (result: Result<Listener, EgressError>)
        ensures
            result matches Ok(listener) ==> listener.port@ == draft.port@
                && listener.profile_id@ == draft.profile_id@ && !listener.enabled;

    /// Changes the configuration of a listener to the draft.
    fn update_listener(&self, id: &ListenerId, draft: &ListenerDraft) -> (result: Result<Listener, EgressError>)
        ensures
            result matches Ok(listener) ==> listener.id@ == id@ && listener.port@ == draft.port@
                && listener.profile_id@ == draft.profile_id@;

    /// Turns a listener on or off and returns it.
    fn set_listener_enabled(&self, id: &ListenerId, enabled: bool) -> (result: Result<Listener, EgressError>)
        ensures
            result matches Ok(listener) ==> listener.id@ == id@ && listener.enabled == enabled;

    /// Deletes a listener.
    fn delete_listener(&self, id: &ListenerId) -> Result<(), EgressError>;
}

/// Storage of application settings as key and value pairs.
///
/// A missing key means the default value, which the settings service knows.
pub trait SettingsRepository {
    /// The stored value of a setting.
    fn get_setting(&self, key: &str) -> Result<Option<String>, EgressError>;

    /// Stores the value of a setting, replacing the previous one.
    fn set_setting(&self, key: &str, value: &str) -> Result<(), EgressError>;
}

/// Source of policies for the proxy runtime.
///
/// A missing profile and a read failure both mean that there is nothing to
/// apply: the proxy then refuses the connection.
pub trait PolicySource {
    /// Snapshot of the policy of a profile.
    fn snapshot(&self, profile_id: &ProfileId) -> Result<Option<PolicySnapshot>, EgressError>;
}

} // verus!
