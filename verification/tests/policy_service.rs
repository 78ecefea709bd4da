use std::sync::Mutex;

use egresskeeper_core::action::Action;
use egresskeeper_core::decision::DecisionReason;
use egresskeeper_core::entities::{Profile, ProfileDraft, ProfileId, Rule, RuleDraft, RuleId};
use egresskeeper_core::error::{EgressError, ErrorCode};
use egresskeeper_core::host::HostKind;
use egresskeeper_core::policy_service::{summaries, PolicyService, RuleInput};
use egresskeeper_core::port::PortSpec;
use egresskeeper_core::ports::PolicyRepository;

/// Storage of policies in memory.
#[derive(Debug, Default)]
pub struct InMemoryPolicyRepository {
    state: Mutex<State>,
}

#[derive(Debug, Default)]
struct State {
    profiles: Vec<Profile>,
    rules: Vec<Rule>,
    clock: i64,
}

impl InMemoryPolicyRepository {
    /// Creates an empty storage.
    pub fn new() -> Self {
        Self::default()
    }

    /// The next timestamp of the internal clock.
    fn tick(&self, state: &mut State) -> i64 {
        state.clock += 1;
        state.clock
    }
}

impl PolicyRepository for InMemoryPolicyRepository {
    fn list_profiles(&self) -> Result<Vec<Profile>, EgressError> {
        let state = self.lock()?;
        Ok(state.profiles.clone())
    }

    fn find_profile(&self, id: &ProfileId) -> Result<Option<Profile>, EgressError> {
        let state = self.lock()?;
        Ok(state
            .profiles
            .iter()
            .find(|profile| &profile.id == id)
            .cloned())
    }

    fn find_profile_by_name(&self, name: &str) -> Result<Option<Profile>, EgressError> {
        let state = self.lock()?;
        Ok(state
            .profiles
            .iter()
            .find(|profile| Profile::fold_name(&profile.name) == Profile::fold_name(name))
            .cloned())
    }

    fn count_profiles(&self) -> Result<u64, EgressError> {
        let state = self.lock()?;
        Ok(state.profiles.len() as u64)
    }

    fn create_profile(&self, draft: &ProfileDraft) -> Result<Profile, EgressError> {
        let mut state = self.lock()?;

        if state
            .profiles
            .iter()
            .any(|profile| Profile::fold_name(&profile.name) == Profile::fold_name(&draft.name))
        {
            return Err(EgressError::validation("name", "must be unique"));
        }

        let now = self.tick(&mut state);
        let profile = Profile {
            id: ProfileId::new(),
            name: draft.name.clone(),
            default_action: draft.default_action,
            created_at_unix_ms: now,
            updated_at_unix_ms: now,
        };
        state.profiles.push(profile.clone());

        Ok(profile)
    }

    fn rename_profile(&self, id: &ProfileId, name: &str) -> Result<Profile, EgressError> {
        let mut state = self.lock()?;

        if state.profiles.iter().any(|profile| {
            &profile.id != id && Profile::fold_name(&profile.name) == Profile::fold_name(name)
        }) {
            return Err(EgressError::validation("name", "must be unique"));
        }

        let now = self.tick(&mut state);
        let profile = state
            .profiles
            .iter_mut()
            .find(|profile| &profile.id == id)
            .ok_or_else(|| EgressError::not_found("profile"))?;

        profile.name = name.to_owned();
        profile.updated_at_unix_ms = now;

        Ok(profile.clone())
    }

    fn set_default_action(&self, id: &ProfileId, action: Action) -> Result<Profile, EgressError> {
        let mut state = self.lock()?;
        let now = self.tick(&mut state);
        let profile = state
            .profiles
            .iter_mut()
            .find(|profile| &profile.id == id)
            .ok_or_else(|| EgressError::not_found("profile"))?;

        profile.default_action = action;
        profile.updated_at_unix_ms = now;

        Ok(profile.clone())
    }

    fn delete_profile(&self, id: &ProfileId) -> Result<(), EgressError> {
        let mut state = self.lock()?;

        let before = state.profiles.len();
        state.profiles.retain(|profile| &profile.id != id);

        if state.profiles.len() == before {
            return Err(EgressError::not_found("profile"));
        }

        state.rules.retain(|rule| &rule.profile_id != id);

        Ok(())
    }

    fn list_rules(&self, profile_id: &ProfileId) -> Result<Vec<Rule>, EgressError> {
        let state = self.lock()?;
        let mut rules: Vec<Rule> = state
            .rules
            .iter()
            .filter(|rule| &rule.profile_id == profile_id)
            .cloned()
            .collect();
        rules.sort_by_key(|rule| rule.position);

        Ok(rules)
    }

    fn count_rules(&self, profile_id: &ProfileId) -> Result<u32, EgressError> {
        let state = self.lock()?;
        Ok(state
            .rules
            .iter()
            .filter(|rule| &rule.profile_id == profile_id)
            .count() as u32)
    }

    fn add_rule(&self, profile_id: &ProfileId, draft: &RuleDraft) -> Result<Rule, EgressError> {
        let mut state = self.lock()?;

        if !state
            .profiles
            .iter()
            .any(|profile| &profile.id == profile_id)
        {
            return Err(EgressError::not_found("profile"));
        }

        let next = state
            .rules
            .iter()
            .filter(|rule| &rule.profile_id == profile_id)
            .map(|rule| rule.position + 1)
            .max()
            .unwrap_or(0);

        let rule = Rule {
            id: RuleId::new(),
            profile_id: profile_id.clone(),
            position: next,
            action: draft.action,
            host: draft.host.clone(),
            port: draft.port,
        };
        state.rules.push(rule.clone());

        Ok(rule)
    }

    fn update_rule(&self, id: &RuleId, draft: &RuleDraft) -> Result<Rule, EgressError> {
        let mut state = self.lock()?;
        let rule = state
            .rules
            .iter_mut()
            .find(|rule| &rule.id == id)
            .ok_or_else(|| EgressError::not_found("rule"))?;

        rule.action = draft.action;
        rule.host = draft.host.clone();
        rule.port = draft.port;

        Ok(rule.clone())
    }

    fn delete_rule(&self, id: &RuleId) -> Result<(), EgressError> {
        let mut state = self.lock()?;
        let before = state.rules.len();
        state.rules.retain(|rule| &rule.id != id);

        if state.rules.len() == before {
            return Err(EgressError::not_found("rule"));
        }

        Ok(())
    }

    fn reorder_rules(
        &self,
        profile_id: &ProfileId,
        ordered: &[RuleId],
    ) -> Result<Vec<Rule>, EgressError> {
        let mut state = self.lock()?;

        let current: Vec<RuleId> = state
            .rules
            .iter()
            .filter(|rule| &rule.profile_id == profile_id)
            .map(|rule| rule.id.clone())
            .collect();

        if current.len() != ordered.len()
            || ordered.iter().any(|id| !current.contains(id))
            || ordered
                .iter()
                .enumerate()
                .any(|(index, id)| ordered[index + 1..].contains(id))
        {
            return Err(EgressError::validation(
                "rule_ids",
                "must list exactly the rules of the profile",
            ));
        }

        for (index, rule_id) in ordered.iter().enumerate() {
            if let Some(rule) = state.rules.iter_mut().find(|rule| &rule.id == rule_id) {
                rule.position = index as u32;
            }
        }

        let mut rules: Vec<Rule> = state
            .rules
            .iter()
            .filter(|rule| &rule.profile_id == profile_id)
            .cloned()
            .collect();
        rules.sort_by_key(|rule| rule.position);

        Ok(rules)
    }
}

impl InMemoryPolicyRepository {
    /// Locks the state.
    fn lock(&self) -> Result<std::sync::MutexGuard<'_, State>, EgressError> {
        self.state
            .lock()
            .map_err(|_| EgressError::storage_message("in-memory repository lock is poisoned"))
    }
}

fn service() -> PolicyService<InMemoryPolicyRepository> {
    PolicyService::new(InMemoryPolicyRepository::new())
}

fn allow_rule(host: &str, port: PortSpec) -> RuleInput {
    RuleInput {
        action: Action::Allow,
        host_kind: HostKind::Exact,
        host: host.to_owned(),
        port,
    }
}

#[test]
fn profile_is_created_with_denying_default_action() {
    let service = service();

    let profile = service
        .create_profile("Работа")
        .expect("profile is created");

    assert_eq!(profile.name, "Работа");
    assert_eq!(profile.default_action, Action::Deny);

    let profiles = service.list_profiles().expect("profiles");
    assert_eq!(profiles.len(), 1);
    assert_eq!(profiles[0].rule_count, 0);
}

#[test]
fn profile_name_must_be_unique_ignoring_case() {
    let service = service();
    service.create_profile("Работа").expect("profile");

    let error = service
        .create_profile("работа")
        .expect_err("duplicate name");

    assert_eq!(error.code(), ErrorCode::Validation);
    assert_eq!(error.invalid_field(), Some("name"));
}

#[test]
fn profile_name_must_not_be_empty() {
    let service = service();

    let error = service.create_profile("   ").expect_err("empty name");

    assert_eq!(error.invalid_field(), Some("name"));
}

#[test]
fn profile_can_be_renamed() {
    let service = service();
    let profile = service.create_profile("Работа").expect("profile");

    let renamed = service
        .rename_profile(profile.id.as_str(), "Личное")
        .expect("renamed");

    assert_eq!(renamed.name, "Личное");
    assert_eq!(renamed.id, profile.id);
}

#[test]
fn rename_rejects_name_of_another_profile() {
    let service = service();
    service.create_profile("Работа").expect("first");
    let second = service.create_profile("Личное").expect("second");

    let error = service
        .rename_profile(second.id.as_str(), "работа")
        .expect_err("duplicate name");

    assert_eq!(error.invalid_field(), Some("name"));
}

#[test]
fn rename_of_unknown_profile_reports_not_found() {
    let service = service();
    let unknown = ProfileId::new();

    let error = service
        .rename_profile(unknown.as_str(), "Куда-то")
        .expect_err("unknown profile");

    assert_eq!(error.code(), ErrorCode::NotFound);
}

#[test]
fn default_action_can_be_changed() {
    let service = service();
    let profile = service.create_profile("Работа").expect("profile");

    let updated = service
        .set_default_action(profile.id.as_str(), Action::Allow)
        .expect("updated");

    assert_eq!(updated.default_action, Action::Allow);
}

#[test]
fn invalid_profile_id_is_rejected_with_validation_error() {
    let service = service();

    let error = service
        .set_default_action("not-a-uuid", Action::Allow)
        .expect_err("invalid id");

    assert_eq!(error.code(), ErrorCode::Validation);
    assert_eq!(error.invalid_field(), Some("profile_id"));
}

#[test]
fn the_last_profile_cannot_be_deleted() {
    let service = service();
    let first = service.create_profile("Работа").expect("first");

    let error = service
        .delete_profile(first.id.as_str())
        .expect_err("last profile");

    assert_eq!(error.code(), ErrorCode::Validation);
    assert_eq!(error.invalid_field(), Some("profile_id"));
    assert_eq!(service.list_profiles().expect("profiles").len(), 1);
}

#[test]
fn deleting_a_profile_removes_its_rules() {
    let service = service();
    let first = service.create_profile("Работа").expect("first");
    let second = service.create_profile("Личное").expect("second");

    service
        .add_rule(
            first.id.as_str(),
            allow_rule("api.example.com", PortSpec::any()),
        )
        .expect("rule for first");
    service
        .add_rule(
            second.id.as_str(),
            allow_rule("api.example.com", PortSpec::any()),
        )
        .expect("rule for second");

    service.delete_profile(first.id.as_str()).expect("deleted");

    let profiles = service.list_profiles().expect("profiles");
    assert_eq!(profiles.len(), 1);
    assert_eq!(profiles[0].profile.id, second.id);
    assert_eq!(profiles[0].rule_count, 1);
}

#[test]
fn rules_are_appended_in_order() {
    let service = service();
    let profile = service.create_profile("Работа").expect("profile");

    let first = service
        .add_rule(
            profile.id.as_str(),
            allow_rule("a.example.com", PortSpec::any()),
        )
        .expect("first rule");
    let second = service
        .add_rule(
            profile.id.as_str(),
            allow_rule("b.example.com", PortSpec::any()),
        )
        .expect("second rule");

    assert_eq!(first.position, 0);
    assert_eq!(second.position, 1);

    let detail = service.profile_detail(profile.id.as_str()).expect("detail");
    assert_eq!(detail.rules.len(), 2);
    assert_eq!(detail.rules[0].position, 0);
}

#[test]
fn rule_input_is_validated() {
    let service = service();
    let profile = service.create_profile("Работа").expect("profile");

    let bad_host = service
        .add_rule(
            profile.id.as_str(),
            allow_rule("evil..example.com", PortSpec::any()),
        )
        .expect_err("invalid host");
    assert_eq!(bad_host.invalid_field(), Some("host"));

    let bad_port = service
        .add_rule(
            profile.id.as_str(),
            allow_rule("api.example.com", PortSpec::Exactly { port: 0 }),
        )
        .expect_err("invalid port");
    assert_eq!(bad_port.invalid_field(), Some("port"));

    assert_eq!(
        service
            .profile_detail(profile.id.as_str())
            .expect("detail")
            .rules
            .len(),
        0
    );
}

#[test]
fn policy_service_adding_a_rule_to_unknown_profile_reports_not_found() {
    let service = service();
    let unknown = ProfileId::new();

    let error = service
        .add_rule(
            unknown.as_str(),
            allow_rule("api.example.com", PortSpec::any()),
        )
        .expect_err("unknown profile");

    assert_eq!(error.code(), ErrorCode::NotFound);
}

#[test]
fn rule_can_be_updated_and_keeps_its_position() {
    let service = service();
    let profile = service.create_profile("Работа").expect("profile");
    let rule = service
        .add_rule(
            profile.id.as_str(),
            allow_rule("api.example.com", PortSpec::any()),
        )
        .expect("rule");

    let updated = service
        .update_rule(
            rule.id.as_str(),
            RuleInput {
                action: Action::Deny,
                host_kind: HostKind::Subdomains,
                host: "example.com".to_owned(),
                port: PortSpec::exactly(443).expect("port"),
            },
        )
        .expect("updated");

    assert_eq!(updated.position, rule.position);
    assert_eq!(updated.action, Action::Deny);
    assert_eq!(updated.host.value(), "example.com");
}

#[test]
fn updating_unknown_rule_reports_not_found() {
    let service = service();
    let unknown = RuleId::new();

    let error = service
        .update_rule(
            unknown.as_str(),
            allow_rule("api.example.com", PortSpec::any()),
        )
        .expect_err("unknown rule");

    assert_eq!(error.code(), ErrorCode::NotFound);
}

#[test]
fn rule_can_be_deleted() {
    let service = service();
    let profile = service.create_profile("Работа").expect("profile");
    let rule = service
        .add_rule(
            profile.id.as_str(),
            allow_rule("api.example.com", PortSpec::any()),
        )
        .expect("rule");

    service.delete_rule(rule.id.as_str()).expect("deleted");

    assert!(
        service
            .profile_detail(profile.id.as_str())
            .expect("detail")
            .rules
            .is_empty()
    );

    let error = service
        .delete_rule(rule.id.as_str())
        .expect_err("already deleted");
    assert_eq!(error.code(), ErrorCode::NotFound);
}

#[test]
fn rules_can_be_reordered() {
    let service = service();
    let profile = service.create_profile("Работа").expect("profile");
    let first = service
        .add_rule(
            profile.id.as_str(),
            allow_rule("a.example.com", PortSpec::any()),
        )
        .expect("first");
    let second = service
        .add_rule(
            profile.id.as_str(),
            allow_rule("b.example.com", PortSpec::any()),
        )
        .expect("second");

    let reordered = service
        .reorder_rules(
            profile.id.as_str(),
            &[second.id.as_str().to_owned(), first.id.as_str().to_owned()],
        )
        .expect("reordered");

    assert_eq!(reordered[0].id, second.id);
    assert_eq!(reordered[0].position, 0);
    assert_eq!(reordered[1].id, first.id);
    assert_eq!(reordered[1].position, 1);
}

#[test]
fn reorder_rejects_incomplete_or_duplicated_lists() {
    let service = service();
    let profile = service.create_profile("Работа").expect("profile");
    let first = service
        .add_rule(
            profile.id.as_str(),
            allow_rule("a.example.com", PortSpec::any()),
        )
        .expect("first");
    let second = service
        .add_rule(
            profile.id.as_str(),
            allow_rule("b.example.com", PortSpec::any()),
        )
        .expect("second");

    let duplicated = service
        .reorder_rules(
            profile.id.as_str(),
            &[first.id.as_str().to_owned(), first.id.as_str().to_owned()],
        )
        .expect_err("duplicates");
    assert_eq!(duplicated.invalid_field(), Some("rule_ids"));

    let incomplete = service
        .reorder_rules(profile.id.as_str(), &[first.id.as_str().to_owned()])
        .expect_err("incomplete");
    assert_eq!(incomplete.invalid_field(), Some("rule_ids"));

    let unknown = service
        .reorder_rules(
            profile.id.as_str(),
            &[
                first.id.as_str().to_owned(),
                RuleId::new().as_str().to_owned(),
            ],
        )
        .expect_err("unknown rule");
    assert_eq!(unknown.invalid_field(), Some("rule_ids"));

    let detail = service.profile_detail(profile.id.as_str()).expect("detail");
    assert_eq!(detail.rules[0].id, first.id);
    assert_eq!(detail.rules[1].id, second.id);
}

#[test]
fn evaluation_reports_the_matching_rule() {
    let service = service();
    let profile = service.create_profile("Работа").expect("profile");
    let rule = service
        .add_rule(
            profile.id.as_str(),
            allow_rule("api.example.com", PortSpec::exactly(443).expect("port")),
        )
        .expect("rule");

    let decision = service
        .evaluate(profile.id.as_str(), "API.example.com.", 443)
        .expect("decision");

    assert_eq!(decision.action, Action::Allow);
    assert_eq!(
        decision.reason,
        DecisionReason::MatchedRule {
            rule_id: rule.id,
            position: 0
        }
    );
}

#[test]
fn evaluation_falls_back_to_default_action() {
    let service = service();
    let profile = service.create_profile("Работа").expect("profile");
    service
        .add_rule(
            profile.id.as_str(),
            allow_rule("api.example.com", PortSpec::any()),
        )
        .expect("rule");

    let decision = service
        .evaluate(profile.id.as_str(), "other.example.com", 443)
        .expect("decision");

    assert_eq!(decision.action, Action::Deny);
    assert_eq!(
        decision.reason,
        DecisionReason::DefaultAction {
            profile_id: profile.id.clone(),
            action: Action::Deny
        }
    );
}

#[test]
fn evaluation_validates_target() {
    let service = service();
    let profile = service.create_profile("Работа").expect("profile");

    let bad_host = service
        .evaluate(profile.id.as_str(), "bad host", 443)
        .expect_err("invalid host");
    assert_eq!(bad_host.invalid_field(), Some("host"));

    let bad_port = service
        .evaluate(profile.id.as_str(), "api.example.com", 0)
        .expect_err("invalid port");
    assert_eq!(bad_port.invalid_field(), Some("port"));
}

#[test]
fn evaluation_of_unknown_profile_reports_not_found() {
    let service = service();
    let unknown = ProfileId::new();

    let error = service
        .evaluate(unknown.as_str(), "api.example.com", 443)
        .expect_err("unknown profile");

    assert_eq!(error.code(), ErrorCode::NotFound);
}

#[test]
fn evaluation_does_not_modify_the_policy() {
    let service = service();
    let profile = service.create_profile("Работа").expect("profile");
    service
        .add_rule(
            profile.id.as_str(),
            allow_rule("api.example.com", PortSpec::any()),
        )
        .expect("rule");

    let before = service.profile_detail(profile.id.as_str()).expect("before");
    service
        .evaluate(profile.id.as_str(), "api.example.com", 443)
        .expect("decision");
    service
        .evaluate(profile.id.as_str(), "blocked.example.com", 443)
        .expect("decision");
    let after = service.profile_detail(profile.id.as_str()).expect("after");

    assert_eq!(before, after);
}

#[test]
fn reordering_rules_of_unknown_profile_reports_not_found() {
    let service = service();

    let error = service
        .reorder_rules(ProfileId::new().as_str(), &[])
        .expect_err("unknown profile");

    assert_eq!(error.code(), ErrorCode::NotFound);
}

#[test]
fn created_profile_carries_the_checked_name_and_denies() {
    let service = service();

    let profile = service.create_profile("  Дом  ").expect("profile");

    assert_eq!(profile.name, "Дом");
    assert_eq!(profile.default_action, Action::Deny);
    let renamed = service.rename_profile(profile.id.as_str(), " ДОМ ").expect("own name");
    assert_eq!(renamed.name, "ДОМ");
    assert_eq!(renamed.id, profile.id);
}

fn stored_profile(name: &str, created_at_unix_ms: i64) -> Profile {
    Profile {
        id: ProfileId::new(),
        name: name.to_owned(),
        default_action: Action::Deny,
        created_at_unix_ms,
        updated_at_unix_ms: created_at_unix_ms,
    }
}

#[test]
fn summaries_pair_each_profile_with_its_count() {
    let first = stored_profile("A", 1);
    let second = stored_profile("B", 2);

    let built = summaries(&[first.clone(), second.clone()], &[3, 0]);

    assert_eq!(built.len(), 2);
    assert_eq!(built[0].profile, first);
    assert_eq!(built[0].rule_count, 3);
    assert_eq!(built[1].profile, second);
    assert_eq!(built[1].rule_count, 0);
    assert!(summaries(&[], &[]).is_empty());
}

#[test]
fn profiles_are_listed_in_order_of_creation_with_their_counts() {
    let service = service();
    let first = service.create_profile("Первый").expect("first");
    let second = service.create_profile("Второй").expect("second");
    service
        .add_rule(second.id.as_str(), allow_rule("a.example.com", PortSpec::any()))
        .expect("rule");
    service
        .add_rule(second.id.as_str(), allow_rule("b.example.com", PortSpec::any()))
        .expect("rule");

    let listed = service.list_profiles().expect("profiles");

    assert_eq!(listed.len(), 2);
    assert_eq!(listed[0].profile.id, first.id);
    assert_eq!(listed[0].rule_count, 0);
    assert_eq!(listed[1].profile.id, second.id);
    assert_eq!(listed[1].rule_count, 2);
    assert!(listed[0].profile.created_at_unix_ms <= listed[1].profile.created_at_unix_ms);
}

#[test]
fn invalid_rule_for_unknown_profile_reports_the_missing_profile() {
    let service = service();
    let unknown = ProfileId::new();

    let error = service
        .add_rule(unknown.as_str(), allow_rule("", PortSpec::any()))
        .expect_err("unknown profile");
    assert_eq!(error.code(), ErrorCode::NotFound);

    let profile = service.create_profile("Есть").expect("profile");
    let error = service
        .add_rule(profile.id.as_str(), allow_rule("", PortSpec::any()))
        .expect_err("invalid host");
    assert_eq!(error.code(), ErrorCode::Validation);
    assert_eq!(error.invalid_field(), Some("host"));
}
