//! Use-cases of policy management.
//!
//! The service validates input, keeps the invariants that need knowledge of
//! several entities (unique names, the last profile stays, a reorder is a full
//! permutation) and assembles the policy for an evaluation.

use vstd::prelude::*;

use crate::action::Action;
use crate::decision::{evaluate_rules, rule_views, sort_by_position, Decision, EvaluationTarget, Policy, target_result};
use crate::entities::{ipc_id_result, name_result, Profile, ProfileDraft, ProfileId, ProfileView, Rule, RuleDraft, RuleId, RuleView, draft_view};
use crate::decision_laws::{decided_by_first_admitting_rule, strictly_sorted};
use crate::error::EgressError;
use crate::host::{matcher_result, HostKind, HostMatcher};
use crate::port::PortSpec;
use crate::ports::PolicyRepository;
use crate::text::str_equal;

verus! {

/// A profile with the number of its rules.
#[derive(Debug, PartialEq, Eq)]
pub struct ProfileSummary {
    /// The profile.
    pub profile: Profile,
    /// Number of rules of the profile.
    pub rule_count: u32,
}

/// A profile with its rules.
#[derive(Debug, PartialEq, Eq)]
pub struct ProfileDetail {
    /// The profile.
    pub profile: Profile,
    /// Rules in the order in which they apply.
    pub rules: Vec<Rule>,
}

/// Input of a rule as it comes from the user interface.
///
/// The values are checked on conversion into a [`RuleDraft`], so the type
/// itself may hold invalid data.
#[derive(Debug, PartialEq, Eq)]
pub struct RuleInput {
    /// Action of the rule.
    pub action: Action,
    /// Kind of host matching.
    pub host_kind: HostKind,
    /// Value of the host.
    pub host: String,
    /// Port restriction.
    pub port: PortSpec,
}

/// The checked form of a port restriction, or its validation error.
pub open spec fn port_result(port: PortSpec) -> Result<PortSpec, EgressError> {
    match port {
        PortSpec::Any => Ok(PortSpec::Any),
        PortSpec::Exactly { port } => if port == 0 {
            Err(EgressError::Validation { field: "port", reason: "must be between 1 and 65535" })
        } else {
            Ok(PortSpec::Exactly { port })
        },
        PortSpec::Range { start, end } => if start == 0 {
            Err(EgressError::Validation { field: "port_start", reason: "must be between 1 and 65535" })
        } else if start > end {
            Err(EgressError::Validation { field: "port_end", reason: "must not be less than the range start" })
        } else {
            Ok(PortSpec::Range { start, end })
        },
    }
}

/// The draft that a rule input gives, as action, matcher and port restriction,
/// or the first validation error: the host is checked before the port.
pub open spec fn rule_input_result(
    action: Action,
    host_kind: HostKind,
    host: Seq<char>,
    port: PortSpec,
) -> Result<(Action, (HostKind, Seq<char>), PortSpec), EgressError> {
    match matcher_result(host_kind, host) {
        Err(error) => Err(error),
        Ok(matcher) => match port_result(port) {
            Err(error) => Err(error),
            Ok(checked) => Ok((action, matcher, checked)),
        },
    }
}

impl RuleInput {
    /// Checks the input and converts it into the data of a rule.
    ///
    /// # Errors
    ///
    /// Returns a validation error of the field `host` or of a port field.
    pub fn into_draft(self) -> (result: Result<RuleDraft, EgressError>)
        ensures
            match rule_input_result(self.action, self.host_kind, self.host@, self.port) {
                Ok(v) => result matches Ok(draft) && draft_view(&draft) == v,
                Err(e) => result matches Err(error) && error == e,
            },
    {
        let host = match HostMatcher::from_parts(self.host_kind, self.host.as_str()) {
            Ok(host) => host,
            Err(error) => return Err(error),
        };
        let port = match self.port {
            PortSpec::Any => PortSpec::any(),
            PortSpec::Exactly { port } => match PortSpec::exactly(port) {
                Ok(port) => port,
                Err(error) => return Err(error),
            },
            PortSpec::Range { start, end } => match PortSpec::range(start, end) {
                Ok(port) => port,
                Err(error) => return Err(error),
            },
        };
        Ok(RuleDraft { action: self.action, host, port })
    }
}

/// The value found, or the not-found error of `entity` when there is none.
pub fn require_found<T>(found: Option<T>, entity: &'static str) -> (result: Result<T, EgressError>)
    ensures
        match found {
            Some(value) => result == Ok::<T, EgressError>(value),
            None => result == Err::<T, EgressError>(EgressError::NotFound { entity }),
        },
{
    match found {
        Some(value) => Ok(value),
        None => Err(EgressError::not_found(entity)),
    }
}

/// The error of a name that another profile already has.
pub open spec fn taken_name_error() -> EgressError {
    EgressError::Validation { field: "name", reason: "must be unique" }
}

/// A profile found under a name blocks that name, unless it is the profile
/// being renamed.
pub fn check_free_name(existing: Option<&Profile>, except: Option<&ProfileId>) -> (result: Result<(), EgressError>)
    ensures
        match existing {
            None => result is Ok,
            Some(profile) => match except {
                Some(id) => if profile.id@ == id@ { result is Ok } else { result == Err::<(), EgressError>(taken_name_error()) },
                None => result == Err::<(), EgressError>(taken_name_error()),
            },
        },
{
    match existing {
        None => Ok(()),
        Some(profile) => match except {
            Some(id) => if profile.id.same_as(id) {
                Ok(())
            } else {
                Err(EgressError::validation("name", "must be unique"))
            },
            None => Err(EgressError::validation("name", "must be unique")),
        },
    }
}

/// The error of an attempt to delete the last profile.
pub open spec fn last_profile_error() -> EgressError {
    EgressError::Validation { field: "profile_id", reason: "the last profile cannot be deleted" }
}

/// The last profile cannot be deleted: the system must not be left without a
/// policy.
pub fn check_not_last_profile(profile_count: u64) -> (result: Result<(), EgressError>)
    ensures
        profile_count <= 1 ==> result == Err::<(), EgressError>(last_profile_error()),
        profile_count > 1 ==> result is Ok,
{
    if profile_count <= 1 {
        return Err(EgressError::validation("profile_id", "the last profile cannot be deleted"));
    }
    Ok(())
}

/// The error of a reorder list with repeated rules.
pub open spec fn duplicate_rules_error() -> EgressError {
    EgressError::Validation { field: "rule_ids", reason: "must not contain duplicates" }
}

/// The error of a reorder list that does not name exactly the rules of the profile.
pub open spec fn incomplete_rules_error() -> EgressError {
    EgressError::Validation { field: "rule_ids", reason: "must list exactly the rules of the profile" }
}

/// No identifier occurs twice in `ids`.
pub open spec fn distinct_ids(ids: Seq<Seq<char>>) -> bool {
    forall|i: int, j: int| 0 <= i < j < ids.len() ==> ids[i] != ids[j]
}

/// The identifiers of a sequence of rules.
pub open spec fn rule_ids_of(rules: Seq<RuleView>) -> Seq<Seq<char>> {
    rules.map_values(|rule: RuleView| rule.id)
}

/// The identifiers in a sequence of rule identifiers.
pub open spec fn id_texts(ids: Seq<RuleId>) -> Seq<Seq<char>> {
    ids.map_values(|id: RuleId| id@)
}

/// The verdict on a requested order of rules: duplicates are refused first,
/// then a list whose set of identifiers differs from that of the profile.
pub open spec fn reorder_result(current: Seq<Seq<char>>, ordered: Seq<Seq<char>>) -> Result<(), EgressError> {
    if !distinct_ids(ordered) {
        Err(duplicate_rules_error())
    } else if ordered.to_set() != current.to_set() {
        Err(incomplete_rules_error())
    } else {
        Ok(())
    }
}

/// Whether `id` occurs among the identifiers of `rules`.
fn contains_rule_id(rules: &[Rule], id: &RuleId) -> (found: bool)
    ensures
        found == rule_ids_of(rule_views(rules@)).contains(id@),
{
    let ghost ids = rule_ids_of(rule_views(rules@));
    let mut i: usize = 0;
    while i < rules.len()
        invariant
            i <= rules.len(),
            ids == rule_ids_of(rule_views(rules@)),
            forall|j: int| 0 <= j < i ==> ids[j] != id@,
        decreases rules.len() - i,
    {
        if str_equal(rules[i].id.as_str(), id.as_str()) {
            assert(ids[i as int] == id@);
            return true;
        }
        i += 1;
    }
    proof {
        if ids.contains(id@) {
            let k = choose|k: int| 0 <= k < ids.len() && ids[k] == id@;
            assert(ids[k] != id@);
        }
    }
    false
}

/// Whether `id` occurs among `ids`.
fn contains_id(ids: &[RuleId], id: &str) -> (found: bool)
    ensures
        found == id_texts(ids@).contains(id@),
{
    let ghost texts = id_texts(ids@);
    let mut i: usize = 0;
    while i < ids.len()
        invariant
            i <= ids.len(),
            texts == id_texts(ids@),
            forall|j: int| 0 <= j < i ==> texts[j] != id@,
        decreases ids.len() - i,
    {
        if str_equal(ids[i].as_str(), id) {
            assert(texts[i as int] == id@);
            return true;
        }
        i += 1;
    }
    proof {
        if texts.contains(id@) {
            let k = choose|k: int| 0 <= k < texts.len() && texts[k] == id@;
            assert(texts[k] != id@);
        }
    }
    false
}

/// Checks that a requested order names each rule of the profile exactly once.
pub fn check_reorder(current: &[Rule], ordered: &[RuleId]) -> (result: Result<(), EgressError>)
    ensures
        result == reorder_result(rule_ids_of(rule_views(current@)), id_texts(ordered@)),
{
    let ghost cur = rule_ids_of(rule_views(current@));
    let ghost ord = id_texts(ordered@);
    // Duplicates.
    let mut i: usize = 0;
    while i < ordered.len()
        invariant
            i <= ordered.len(),
            ord == id_texts(ordered@),
            forall|a: int, b: int| 0 <= a < b < ord.len() && a < i ==> ord[a] != ord[b],
        decreases ordered.len() - i,
    {
        let mut j: usize = i + 1;
        while j < ordered.len()
            invariant
                i < j <= ordered.len(),
                i < ordered.len(),
                ord == id_texts(ordered@),
                forall|a: int, b: int| 0 <= a < b < ord.len() && a < i ==> ord[a] != ord[b],
                forall|b: int| i < b < j ==> ord[i as int] != ord[b],
            decreases ordered.len() - j,
        {
            if str_equal(ordered[i].as_str(), ordered[j].as_str()) {
                assert(ord[i as int] == ord[j as int]);
                assert(!distinct_ids(ord));
                return Err(EgressError::validation("rule_ids", "must not contain duplicates"));
            }
            j += 1;
        }
        i += 1;
    }
    assert(distinct_ids(ord));
    // Every requested rule belongs to the profile.
    let mut k: usize = 0;
    while k < ordered.len()
        invariant
            k <= ordered.len(),
            ord == id_texts(ordered@),
            cur == rule_ids_of(rule_views(current@)),
            distinct_ids(ord),
            forall|a: int| 0 <= a < k ==> cur.contains(#[trigger] ord[a]),
        decreases ordered.len() - k,
    {
        if !contains_rule_id(current, &ordered[k]) {
            proof {
                assert(ordered@[k as int]@ == ord[k as int]);
                assert(ord.contains(ord[k as int]));
                assert(ord.to_set().contains(ord[k as int]));
                assert(!cur.to_set().contains(ord[k as int]));
                assert(ord.to_set() != cur.to_set());
            }
            return Err(EgressError::validation("rule_ids", "must list exactly the rules of the profile"));
        }
        k += 1;
    }
    // Every rule of the profile is requested.
    let mut m: usize = 0;
    while m < current.len()
        invariant
            m <= current.len(),
            ord == id_texts(ordered@),
            cur == rule_ids_of(rule_views(current@)),
            distinct_ids(ord),
            forall|a: int| 0 <= a < ord.len() ==> cur.contains(#[trigger] ord[a]),
            forall|a: int| 0 <= a < m ==> ord.contains(#[trigger] cur[a]),
        decreases current.len() - m,
    {
        if !contains_id(ordered, current[m].id.as_str()) {
            proof {
                assert(cur[m as int] == current@[m as int].id@);
                assert(cur.contains(cur[m as int]));
                assert(cur.to_set().contains(cur[m as int]));
                assert(!ord.to_set().contains(cur[m as int]));
                assert(ord.to_set() != cur.to_set());
            }
            return Err(EgressError::validation("rule_ids", "must list exactly the rules of the profile"));
        }
        m += 1;
    }
    proof {
        assert forall|x: Seq<char>| ord.to_set().contains(x) <==> cur.to_set().contains(x) by {
            if ord.to_set().contains(x) {
                let a = choose|a: int| 0 <= a < ord.len() && ord[a] == x;
                assert(cur.contains(ord[a]));
            }
            if cur.to_set().contains(x) {
                let a = choose|a: int| 0 <= a < cur.len() && cur[a] == x;
                assert(ord.contains(cur[a]));
            }
        }
        assert(ord.to_set() =~= cur.to_set());
    }
    Ok(())
}

/// The identifiers of a reorder request, parsed in order; the first invalid one
/// gives its error.
pub open spec fn parse_ids_result(raw: Seq<Seq<char>>) -> Result<Seq<Seq<char>>, EgressError>
    decreases raw.len(),
{
    if raw.len() == 0 {
        Ok(Seq::<Seq<char>>::empty())
    } else {
        match parse_ids_result(raw.drop_last()) {
            Err(error) => Err(error),
            Ok(parsed) => match ipc_id_result(raw.last(), "rule_id") {
                Err(error) => Err(error),
                Ok(id) => Ok(parsed.push(id)),
            },
        }
    }
}

/// The texts of a slice of strings.
pub open spec fn texts(raw: Seq<String>) -> Seq<Seq<char>> {
    raw.map_values(|s: String| s@)
}

/// Parses the identifiers of a reorder request.
pub fn parse_rule_ids(raw: &[String]) -> (result: Result<Vec<RuleId>, EgressError>)
    ensures
        match parse_ids_result(texts(raw@)) {
            Ok(v) => result matches Ok(ids) && id_texts(ids@) == v,
            Err(e) => result matches Err(error) && error == e,
        },
{
    let ghost all = texts(raw@);
    let mut ids: Vec<RuleId> = Vec::new();
    let mut i: usize = 0;
    assert(all.take(0) =~= Seq::<Seq<char>>::empty());
    assert(id_texts(ids@) =~= Seq::<Seq<char>>::empty());
    while i < raw.len()
        invariant
            i <= raw.len(),
            all == texts(raw@),
            parse_ids_result(all.take(i as int)) == Ok::<Seq<Seq<char>>, EgressError>(id_texts(ids@)),
        decreases raw.len() - i,
    {
        proof {
            assert(all.take(i + 1).drop_last() =~= all.take(i as int));
            assert(all.take(i + 1).last() == raw@[i as int]@);
        }
        match RuleId::parse(raw[i].as_str()) {
            Ok(id) => {
                let ghost before = ids@;
                ids.push(id);
                assert(id_texts(ids@) =~= id_texts(before).push(ids@.last()@));
            },
            Err(error) => {
                proof {
                    assert(parse_ids_result(all.take(i + 1)) == Err::<Seq<Seq<char>>, EgressError>(error));
                    lemma_parse_ids_prefix_error(all, i as int + 1);
                }
                return Err(error);
            },
        }
        i += 1;
    }
    assert(all.take(raw.len() as int) =~= all);
    Ok(ids)
}

/// An error in a prefix of a reorder request is the error of the whole request.
proof fn lemma_parse_ids_prefix_error(raw: Seq<Seq<char>>, k: int)
    requires
        0 <= k <= raw.len(),
        parse_ids_result(raw.take(k)) is Err,
    ensures
        parse_ids_result(raw) == parse_ids_result(raw.take(k)),
    decreases raw.len() - k,
{
    if k < raw.len() {
        assert(raw.take(k + 1).drop_last() =~= raw.take(k));
        lemma_parse_ids_prefix_error(raw, k + 1);
    } else {
        assert(raw.take(k) =~= raw);
    }
}

/// A requested order is accepted exactly when it names every rule of the
/// profile once and no other rule: it is then as long as the list of rules.
pub proof fn lemma_accepted_reorder_is_permutation(current: Seq<Seq<char>>, ordered: Seq<Seq<char>>)
    requires
        distinct_ids(current),
        reorder_result(current, ordered) is Ok,
    ensures
        ordered.len() == current.len(),
        forall|i: int| 0 <= i < current.len() ==> ordered.contains(#[trigger] current[i]),
        forall|i: int| 0 <= i < ordered.len() ==> current.contains(#[trigger] ordered[i]),
{
    assert(distinct_ids(ordered));
    assert(ordered.to_set() == current.to_set());
    lemma_distinct_len(current);
    lemma_distinct_len(ordered);
    assert forall|i: int| 0 <= i < current.len() implies ordered.contains(#[trigger] current[i]) by {
        assert(current.to_set().contains(current[i]));
    }
    assert forall|i: int| 0 <= i < ordered.len() implies current.contains(#[trigger] ordered[i]) by {
        assert(ordered.to_set().contains(ordered[i]));
    }
}

/// A sequence without repeats has as many elements as its set.
proof fn lemma_distinct_len(s: Seq<Seq<char>>)
    requires
        distinct_ids(s),
    ensures
        s.to_set().len() == s.len(),
{
    assert(s.no_duplicates()) by {
        assert forall|i: int, j: int| 0 <= i < s.len() && 0 <= j < s.len() && i != j implies s[i] != s[j] by {
            if i < j {
                assert(s[i] != s[j]);
            } else {
                assert(s[j] != s[i]);
            }
        }
    }
    s.unique_seq_to_set();
}

/// The draft of a new profile: a new profile denies what no rule allows.
fn denying_draft(name: String) -> (draft: ProfileDraft)
    ensures
        draft.name == name,
        draft.default_action == Action::Deny,
{
    ProfileDraft { name, default_action: Action::Deny }
}

/// Use-cases of profiles and rules.
#[derive(Debug)]
pub struct PolicyService<R: PolicyRepository> {
    repository: R,
}

/// Pairs each profile with the rule count at the same place.
pub fn summaries(profiles: &[Profile], counts: &[u32]) -> (v: Vec<ProfileSummary>)
    requires
        profiles.len() == counts.len(),
    ensures
        v.len() == profiles.len(),
        forall|i: int| 0 <= i < v.len() ==> (#[trigger] v@[i]).profile@ == profiles@[i]@
            && v@[i].rule_count == counts@[i],
{
    let mut v: Vec<ProfileSummary> = Vec::new();
    let mut i: usize = 0;
    while i < profiles.len()
        invariant
            i <= profiles.len(),
            profiles.len() == counts.len(),
            v.len() == i,
            forall|j: int| 0 <= j < i ==> (#[trigger] v@[j]).profile@ == profiles@[j]@
                && v@[j].rule_count == counts@[j],
        decreases profiles.len() - i,
    {
        v.push(ProfileSummary { profile: profiles[i].clone(), rule_count: counts[i] });
        i += 1;
    }
    v
}

impl<R: PolicyRepository> PolicyService<R> {
    /// Creates the service on top of an implementation of the port.
    pub fn new(repository: R) -> (service: Self)
        ensures
            service.repository() == repository,
    {
        PolicyService { repository }
    }

    /// The storage the service works on.
    pub closed spec fn repository(&self) -> R {
        self.repository
    }

    /// Profiles with the number of their rules, in the order in which the
    /// storage lists the profiles.
    ///
    /// Which profiles and counts the storage answers is its own state; the
    /// summaries are built from them by [`summaries`].
    ///
    /// # Errors
    ///
    /// Returns the storage error when the data cannot be read.
    pub fn list_profiles(&self) -> (result: Result<Vec<ProfileSummary>, EgressError>)
        ensures
            result matches Ok(v) ==> forall|i: int, j: int| 0 <= i < j < v.len()
                ==> (#[trigger] v@[i]).profile.created_at_unix_ms <= (#[trigger] v@[j]).profile.created_at_unix_ms,
    {
        let profiles = match self.repository.list_profiles() {
            Ok(profiles) => profiles,
            Err(error) => return Err(error),
        };
        let mut counts: Vec<u32> = Vec::new();
        let mut i: usize = 0;
        while i < profiles.len()
            invariant
                i <= profiles.len(),
                counts.len() == i,
            decreases profiles.len() - i,
        {
            let count = match self.repository.count_rules(&profiles[i].id) {
                Ok(count) => count,
                Err(error) => return Err(error),
            };
            counts.push(count);
            i += 1;
        }
        let v = summaries(profiles.as_slice(), counts.as_slice());
        assert forall|a: int, b: int| 0 <= a < b < v.len()
            implies (#[trigger] v@[a]).profile.created_at_unix_ms <= (#[trigger] v@[b]).profile.created_at_unix_ms by {
            assert(v@[a].profile@ == profiles@[a]@);
            assert(v@[b].profile@ == profiles@[b]@);
        }
        Ok(v)
    }

    /// A profile with its rules.
    ///
    /// # Errors
    ///
    /// Returns a validation error for an invalid identifier and a not-found
    /// error when the profile is missing.
    pub fn profile_detail(&self, profile_id: &str) -> (result: Result<ProfileDetail, EgressError>)
        ensures
            ipc_id_result(profile_id@, "profile_id") matches Err(e) ==> result matches Err(error) && error == e,
            result matches Ok(detail) ==> (ipc_id_result(profile_id@, "profile_id") matches Ok(id)
                && detail.profile.id@ == id
                && strictly_sorted(rule_views(detail.rules@))
                && forall|i: int| 0 <= i < detail.rules.len() ==> (#[trigger] detail.rules@[i]).profile_id@ == id),
    {
        let id = match ProfileId::parse(profile_id) {
            Ok(id) => id,
            Err(error) => return Err(error),
        };
        let profile = match self.require_profile(&id) {
            Ok(profile) => profile,
            Err(error) => return Err(error),
        };
        let rules = match self.repository.list_rules(&id) {
            Ok(rules) => rules,
            Err(error) => return Err(error),
        };
        Ok(ProfileDetail { profile, rules })
    }

    /// Creates a profile whose default action denies.
    ///
    /// # Errors
    ///
    /// Returns a validation error when the name is empty, too long, holds
    /// control characters or is taken.
    pub fn create_profile(&self, name: &str) -> (result: Result<Profile, EgressError>)
        ensures
            name_result(name@) matches Err(e) ==> result matches Err(error) && error == e,
            result matches Ok(profile) ==> (name_result(name@) matches Ok(checked)
                && profile.name@ == checked && profile.default_action == Action::Deny),
    {
        let name = match Profile::validate_name(name) {
            Ok(name) => name,
            Err(error) => return Err(error),
        };
        match self.require_free_name(name.as_str(), None) {
            Ok(()) => {},
            Err(error) => return Err(error),
        }
        self.repository.create_profile(&denying_draft(name))
    }

    /// Renames a profile.
    ///
    /// # Errors
    ///
    /// Returns a validation error when the identifier or the name is invalid or
    /// the name belongs to another profile, and a not-found error when the
    /// profile is missing.
    pub fn rename_profile(&self, profile_id: &str, name: &str) -> (result: Result<Profile, EgressError>)
        ensures
            ipc_id_result(profile_id@, "profile_id") matches Err(e) ==> result matches Err(error) && error == e,
            ipc_id_result(profile_id@, "profile_id") is Ok ==> (name_result(name@) matches Err(e) ==> result matches Err(error) && error == e),
            result matches Ok(profile) ==> (ipc_id_result(profile_id@, "profile_id") matches Ok(id) && profile.id@ == id
                && (name_result(name@) matches Ok(checked) && profile.name@ == checked)),
    {
        let id = match ProfileId::parse(profile_id) {
            Ok(id) => id,
            Err(error) => return Err(error),
        };
        let name = match Profile::validate_name(name) {
            Ok(name) => name,
            Err(error) => return Err(error),
        };
        match self.require_free_name(name.as_str(), Some(&id)) {
            Ok(()) => {},
            Err(error) => return Err(error),
        }
        self.repository.rename_profile(&id, name.as_str())
    }

    /// Changes the default action of a profile.
    ///
    /// # Errors
    ///
    /// Returns a validation error for an invalid identifier and a not-found
    /// error when the profile is missing.
    pub fn set_default_action(&self, profile_id: &str, action: Action) -> (result: Result<Profile, EgressError>)
        ensures
            ipc_id_result(profile_id@, "profile_id") matches Err(e) ==> result matches Err(error) && error == e,
            result matches Ok(profile) ==> (ipc_id_result(profile_id@, "profile_id") matches Ok(id)
                && profile.id@ == id && profile.default_action == action),
    {
        let id = match ProfileId::parse(profile_id) {
            Ok(id) => id,
            Err(error) => return Err(error),
        };
        self.repository.set_default_action(&id, action)
    }

    /// Deletes a profile with its rules. The last profile cannot be deleted.
    ///
    /// # Errors
    ///
    /// Returns a validation error for an invalid identifier or the last
    /// profile, and a not-found error when the profile is missing.
    pub fn delete_profile(&self, profile_id: &str) -> (result: Result<(), EgressError>)
        ensures
            ipc_id_result(profile_id@, "profile_id") matches Err(e) ==> result matches Err(error) && error == e,
    {
        let id = match ProfileId::parse(profile_id) {
            Ok(id) => id,
            Err(error) => return Err(error),
        };
        match self.require_profile(&id) {
            Ok(_) => {},
            Err(error) => return Err(error),
        }
        let count = match self.repository.count_profiles() {
            Ok(count) => count,
            Err(error) => return Err(error),
        };
        match check_not_last_profile(count) {
            Ok(()) => {},
            Err(error) => return Err(error),
        }
        self.repository.delete_profile(&id)
    }

    /// Appends a rule to a profile.
    ///
    /// # Errors
    ///
    /// Returns a validation error for invalid input and a not-found error when
    /// the profile is missing. The profile is looked up first, so invalid input
    /// for a missing profile gives the not-found error.
    pub fn add_rule(&self, profile_id: &str, input: RuleInput) -> (result: Result<Rule, EgressError>)
        ensures
            ipc_id_result(profile_id@, "profile_id") matches Err(e) ==> result matches Err(error) && error == e,
            ipc_id_result(profile_id@, "profile_id") is Ok ==> (
                rule_input_result(input.action, input.host_kind, input.host@, input.port) matches Err(e)
                    ==> result matches Err(error) && (error == e || error is Storage
                        || error == (EgressError::NotFound { entity: "profile" }))),
            result matches Ok(rule) ==> (ipc_id_result(profile_id@, "profile_id") matches Ok(id)
                && rule.profile_id@ == id
                && (rule_input_result(input.action, input.host_kind, input.host@, input.port) matches Ok(v)
                    && (rule.action, rule.host@, rule.port) == v)),
    {
        let id = match ProfileId::parse(profile_id) {
            Ok(id) => id,
            Err(error) => return Err(error),
        };
        match self.require_profile(&id) {
            Ok(_) => {},
            Err(error) => return Err(error),
        }
        let draft = match input.into_draft() {
            Ok(draft) => draft,
            Err(error) => return Err(error),
        };
        self.repository.add_rule(&id, &draft)
    }

    /// Changes a rule and keeps its position.
    ///
    /// # Errors
    ///
    /// Returns a validation error for invalid input and a not-found error when
    /// the rule is missing.
    pub fn update_rule(&self, rule_id: &str, input: RuleInput) -> (result: Result<Rule, EgressError>)
        ensures
            ipc_id_result(rule_id@, "rule_id") matches Err(e) ==> result matches Err(error) && error == e,
            ipc_id_result(rule_id@, "rule_id") is Ok ==> (
                rule_input_result(input.action, input.host_kind, input.host@, input.port) matches Err(e)
                    ==> result matches Err(error) && error == e),
            result matches Ok(rule) ==> (ipc_id_result(rule_id@, "rule_id") matches Ok(id)
                && rule.id@ == id
                && (rule_input_result(input.action, input.host_kind, input.host@, input.port) matches Ok(v)
                    && (rule.action, rule.host@, rule.port) == v)),
    {
        let id = match RuleId::parse(rule_id) {
            Ok(id) => id,
            Err(error) => return Err(error),
        };
        let draft = match input.into_draft() {
            Ok(draft) => draft,
            Err(error) => return Err(error),
        };
        self.repository.update_rule(&id, &draft)
    }

    /// Deletes a rule.
    ///
    /// # Errors
    ///
    /// Returns a validation error for an invalid identifier and a not-found
    /// error when the rule is missing.
    pub fn delete_rule(&self, rule_id: &str) -> (result: Result<(), EgressError>)
        ensures
            ipc_id_result(rule_id@, "rule_id") matches Err(e) ==> result matches Err(error) && error == e,
    {
        let id = match RuleId::parse(rule_id) {
            Ok(id) => id,
            Err(error) => return Err(error),
        };
        self.repository.delete_rule(&id)
    }

    /// Changes the order of the rules of a profile.
    ///
    /// The order is handed to the storage only when it names every rule of the
    /// profile exactly once.
    ///
    /// # Errors
    ///
    /// Returns a validation error when the list is not a permutation of the
    /// rules of the profile without repeats, and a not-found error when the
    /// profile is missing.
    pub fn reorder_rules(&self, profile_id: &str, rule_ids: &[String]) -> (result: Result<Vec<Rule>, EgressError>)
        ensures
            ipc_id_result(profile_id@, "profile_id") matches Err(e) ==> result matches Err(error) && error == e,
            result matches Ok(rules) ==> (parse_ids_result(texts(rule_ids@)) matches Ok(ids)
                && distinct_ids(ids)
                && rule_ids_of(rule_views(rules@)) == ids
                && forall|i: int| 0 <= i < rules.len() ==> (#[trigger] rules@[i]).position == i),
    {
        let id = match ProfileId::parse(profile_id) {
            Ok(id) => id,
            Err(error) => return Err(error),
        };
        match self.require_profile(&id) {
            Ok(_) => {},
            Err(error) => return Err(error),
        }
        let current = match self.repository.list_rules(&id) {
            Ok(current) => current,
            Err(error) => return Err(error),
        };
        let ordered = match parse_rule_ids(rule_ids) {
            Ok(ordered) => ordered,
            Err(error) => return Err(error),
        };
        match check_reorder(current.as_slice(), ordered.as_slice()) {
            Ok(()) => {},
            Err(error) => return Err(error),
        }
        self.repository.reorder_rules(&id, ordered.as_slice())
    }

    /// Evaluates a connection against the policy of a profile.
    ///
    /// The operation only reads: an evaluation changes neither profiles nor rules.
    ///
    /// # Errors
    ///
    /// Returns a validation error for an invalid host, port or identifier, and
    /// a not-found error when the profile is missing.
    pub fn evaluate(&self, profile_id: &str, host: &str, port: u16) -> (result: Result<Decision, EgressError>)
        ensures
            target_result(host@, port) matches Err(e) ==> result matches Err(error) && error == e,
            target_result(host@, port) is Ok ==> (
                ipc_id_result(profile_id@, "profile_id") matches Err(e) ==> result matches Err(error) && error == e),
            result matches Ok(decision) ==> (target_result(host@, port) matches Ok(t)
                && ipc_id_result(profile_id@, "profile_id") matches Ok(id)
                && exists|profile: ProfileView, rules: Seq<RuleView>|
                    profile.id == id && strictly_sorted(rules)
                    && (forall|i: int| 0 <= i < rules.len() ==> (#[trigger] rules[i]).profile_id == id)
                    && decision@ == evaluate_rules(profile, sort_by_position(rules), t.0, t.1)
                    && decided_by_first_admitting_rule(profile, sort_by_position(rules), t.0, t.1, decision@)),
    {
        let target = match EvaluationTarget::parse(host, port) {
            Ok(target) => target,
            Err(error) => return Err(error),
        };
        let id = match ProfileId::parse(profile_id) {
            Ok(id) => id,
            Err(error) => return Err(error),
        };
        let profile = match self.require_profile(&id) {
            Ok(profile) => profile,
            Err(error) => return Err(error),
        };
        let rules = match self.repository.list_rules(&id) {
            Ok(rules) => rules,
            Err(error) => return Err(error),
        };
        let decision = Policy::new(&profile, rules.as_slice()).evaluate(&target);
        assert(decision@ == evaluate_rules(profile@, sort_by_position(rule_views(rules@)), target@.0, target@.1));
        assert(forall|i: int| 0 <= i < rule_views(rules@).len() ==> (#[trigger] rule_views(rules@)[i]).profile_id == rules@[i].profile_id@);
        Ok(decision)
    }

    /// The profile, or the not-found error.
    fn require_profile(&self, id: &ProfileId) -> (result: Result<Profile, EgressError>)
        ensures
            result matches Ok(profile) ==> profile.id@ == id@,
            result matches Err(error) ==> error is Storage || error == (EgressError::NotFound { entity: "profile" }),
    {
        match self.repository.find_profile(id) {
            Ok(found) => require_found(found, "profile"),
            Err(error) => Err(error),
        }
    }

    /// Checks that a profile name is free; when renaming, the profile itself
    /// may hold the name.
    fn require_free_name(&self, name: &str, except: Option<&ProfileId>) -> (result: Result<(), EgressError>) {
        match self.repository.find_profile_by_name(name) {
            Ok(existing) => match &existing {
                Some(profile) => check_free_name(Some(profile), except),
                None => check_free_name(None, except),
            },
            Err(error) => Err(error),
        }
    }
}

} // verus!
