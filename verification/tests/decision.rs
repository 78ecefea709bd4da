use egresskeeper_core::action::Action;
use egresskeeper_core::decision::{DecisionReason, EvaluationTarget, Policy};
use egresskeeper_core::entities::{Profile, ProfileId, Rule, RuleId};
use egresskeeper_core::error::ErrorCode;
use egresskeeper_core::host::HostMatcher;
use egresskeeper_core::port::PortSpec;

fn profile(default_action: Action) -> Profile {
    Profile {
        id: ProfileId::new(),
        name: "Тест".to_owned(),
        default_action,
        created_at_unix_ms: 0,
        updated_at_unix_ms: 0,
    }
}

fn rule(profile: &Profile, position: u32, action: Action, host: &str, port: PortSpec) -> Rule {
    Rule {
        id: RuleId::new(),
        profile_id: profile.id.clone(),
        position,
        action,
        host: HostMatcher::exact(host).expect("host"),
        port,
    }
}

fn target(host: &str, port: u16) -> EvaluationTarget {
    EvaluationTarget::parse(host, port).expect("target")
}

#[test]
fn target_normalizes_host_and_rejects_zero_port() {
    assert_eq!(
        target("API.Example.com.", 443).host().as_str(),
        "api.example.com"
    );

    let error = EvaluationTarget::parse("api.example.com", 0).expect_err("zero port");
    assert_eq!(error.code(), ErrorCode::Validation);
    assert_eq!(error.invalid_field(), Some("port"));
}

#[test]
fn matching_rule_decides() {
    let profile = profile(Action::Deny);
    let allow = rule(&profile, 0, Action::Allow, "api.example.com", PortSpec::any());
    let policy = Policy::new(&profile, std::slice::from_ref(&allow));

    let decision = policy.evaluate(&target("api.example.com", 443));

    assert_eq!(decision.action, Action::Allow);
    assert_eq!(
        decision.reason,
        DecisionReason::MatchedRule {
            rule_id: allow.id,
            position: 0
        }
    );
}

#[test]
fn first_matching_rule_wins() {
    let profile = profile(Action::Deny);
    let deny = rule(&profile, 0, Action::Deny, "api.example.com", PortSpec::any());
    let allow = rule(&profile, 1, Action::Allow, "api.example.com", PortSpec::any());
    let policy = Policy::new(&profile, &[allow, deny.clone()]);

    let decision = policy.evaluate(&target("api.example.com", 443));

    assert_eq!(decision.action, Action::Deny);
    assert_eq!(
        decision.reason,
        DecisionReason::MatchedRule {
            rule_id: deny.id,
            position: 0
        }
    );
}

#[test]
fn rule_order_is_applied_regardless_of_input_order() {
    let profile = profile(Action::Deny);
    let allow = rule(&profile, 1, Action::Allow, "api.example.com", PortSpec::any());
    let deny = rule(&profile, 0, Action::Deny, "api.example.com", PortSpec::any());

    let policy = Policy::new(&profile, &[allow, deny]);

    assert_eq!(policy.rules()[0].position, 0);
    assert_eq!(
        policy.evaluate(&target("api.example.com", 443)).action,
        Action::Deny
    );
}

#[test]
fn changing_order_changes_decision() {
    let profile = profile(Action::Deny);
    let mut allow = rule(&profile, 0, Action::Allow, "api.example.com", PortSpec::any());
    let mut deny = rule(&profile, 1, Action::Deny, "api.example.com", PortSpec::any());

    let before = Policy::new(&profile, &[allow.clone(), deny.clone()])
        .evaluate(&target("api.example.com", 443))
        .action;
    assert_eq!(before, Action::Allow);

    allow.position = 1;
    deny.position = 0;

    let after = Policy::new(&profile, &[allow, deny])
        .evaluate(&target("api.example.com", 443))
        .action;
    assert_eq!(after, Action::Deny);
}

#[test]
fn default_action_applies_when_nothing_matches() {
    let profile = profile(Action::Allow);
    let rule = rule(&profile, 0, Action::Deny, "api.example.com", PortSpec::any());
    let policy = Policy::new(&profile, &[rule]);

    let decision = policy.evaluate(&target("other.example.com", 443));

    assert_eq!(decision.action, Action::Allow);
    assert_eq!(
        decision.reason,
        DecisionReason::DefaultAction {
            profile_id: profile.id.clone(),
            action: Action::Allow
        }
    );
}

#[test]
fn port_restriction_is_respected() {
    let profile = profile(Action::Deny);
    let rule = rule(
        &profile,
        0,
        Action::Allow,
        "api.example.com",
        PortSpec::exactly(443).expect("port"),
    );
    let policy = Policy::new(&profile, &[rule]);

    assert_eq!(
        policy.evaluate(&target("api.example.com", 443)).action,
        Action::Allow
    );
    assert_eq!(
        policy.evaluate(&target("api.example.com", 8443)).action,
        Action::Deny
    );
}

#[test]
fn subdomains_rule_does_not_allow_the_apex_domain() {
    let profile = profile(Action::Deny);
    let rule = Rule {
        id: RuleId::new(),
        profile_id: profile.id.clone(),
        position: 0,
        action: Action::Allow,
        host: HostMatcher::subdomains("example.com").expect("host"),
        port: PortSpec::any(),
    };
    let policy = Policy::new(&profile, &[rule]);

    assert_eq!(
        policy.evaluate(&target("api.example.com", 443)).action,
        Action::Allow
    );
    assert_eq!(
        policy.evaluate(&target("example.com", 443)).action,
        Action::Deny
    );
    assert_eq!(
        policy.evaluate(&target("evil-example.com", 443)).action,
        Action::Deny
    );
}

#[test]
fn rules_come_out_sorted_and_stable_for_equal_positions() {
    let profile = profile(Action::Deny);
    let third = rule(&profile, 7, Action::Allow, "c.example.com", PortSpec::any());
    let first = rule(&profile, 2, Action::Allow, "a.example.com", PortSpec::any());
    let tie_one = rule(&profile, 5, Action::Allow, "b.example.com", PortSpec::any());
    let tie_two = rule(&profile, 5, Action::Deny, "b.example.com", PortSpec::any());

    let policy = Policy::new(
        &profile,
        &[third.clone(), tie_one.clone(), first.clone(), tie_two.clone()],
    );
    let ordered: Vec<&RuleId> = policy.rules().iter().map(|rule| &rule.id).collect();

    assert_eq!(ordered, vec![&first.id, &tie_one.id, &tie_two.id, &third.id]);
    assert_eq!(
        policy.evaluate(&target("b.example.com", 80)).action,
        Action::Allow
    );
}

#[test]
fn same_rules_in_another_order_decide_the_same() {
    let profile = profile(Action::Allow);
    let deny = rule(&profile, 0, Action::Deny, "api.example.com", PortSpec::range(400, 500).expect("range"));
    let allow = rule(&profile, 1, Action::Allow, "api.example.com", PortSpec::any());
    let one = Policy::new(&profile, &[deny.clone(), allow.clone()]);
    let two = Policy::new(&profile, &[allow, deny]);

    for port in [80u16, 443, 500, 501] {
        let t = target("api.example.com", port);
        assert_eq!(one.evaluate(&t), two.evaluate(&t));
    }
    assert_eq!(one.evaluate(&target("api.example.com", 443)).action, Action::Deny);
    assert_eq!(one.evaluate(&target("api.example.com", 501)).action, Action::Allow);
}
