//! Evaluation of a connection against the policy of a profile.
//!
//! The first matching rule in the order of the profile decides; when no rule
//! matches, the default action of the profile applies. A decision always carries
//! its reason, so that the user sees which rule fired.

use vstd::prelude::*;

use crate::action::Action;
use crate::entities::{Profile, ProfileView, Rule, RuleId, RuleView, ProfileId};
use crate::error::EgressError;
use crate::decision_laws::{decided_by_first_admitting_rule, lemma_evaluation_decides_by_first_admitting_rule};
use crate::host::{matcher_matches, normalize, NormalizedHost};

verus! {

/// Target of an evaluation: a normalized host and a destination port.
#[derive(Debug, PartialEq, Eq)]
pub struct EvaluationTarget {
    host: NormalizedHost,
    port: u16,
}

impl View for EvaluationTarget {
    type V = (Seq<char>, u16);

    closed spec fn view(&self) -> (Seq<char>, u16) {
        (self.host@, self.port)
    }
}

impl Clone for EvaluationTarget {
    fn clone(&self) -> (copy: Self)
        ensures
            copy@ == self@,
    {
        EvaluationTarget { host: self.host.clone(), port: self.port }
    }
}

/// The view of the target of `host` and `port`, or the validation error.
pub open spec fn target_result(host: Seq<char>, port: u16) -> Result<(Seq<char>, u16), EgressError> {
    if port == 0 {
        Err(EgressError::Validation { field: "port", reason: "must be between 1 and 65535" })
    } else {
        match normalize(host) {
            Ok(h) => Ok((h, port)),
            Err(e) => Err(e),
        }
    }
}

impl EvaluationTarget {
    /// Checks and normalizes the target of an evaluation.
    ///
    /// # Errors
    ///
    /// Returns a validation error of the field `port` for port zero, and of the
    /// field `host` for an invalid host.
    pub fn parse(host: &str, port: u16) -> (result: Result<Self, EgressError>)
        ensures
            match target_result(host@, port) {
                Ok(v) => result matches Ok(target) && target@ == v,
                Err(e) => result matches Err(error) && error == e,
            },
    {
        if port == 0 {
            return Err(EgressError::validation("port", "must be between 1 and 65535"));
        }
        match NormalizedHost::parse(host) {
            Ok(host) => Ok(EvaluationTarget { host, port }),
            Err(error) => Err(error),
        }
    }

    /// The normalized host.
    pub fn host(&self) -> (host: &NormalizedHost)
        ensures
            host@ == self@.0,
    {
        &self.host
    }

    /// The destination port.
    pub fn port(&self) -> (port: u16)
        ensures
            port == self@.1,
    {
        self.port
    }
}

/// Reason of a decision.
#[derive(Debug, PartialEq, Eq)]
pub enum DecisionReason {
    /// A rule of the profile decided.
    MatchedRule {
        /// Identifier of the rule that fired.
        rule_id: RuleId,
        /// Position of the rule that fired.
        position: u32,
    },
    /// No rule matched; the default action of the profile applied.
    DefaultAction {
        /// Identifier of the profile.
        profile_id: ProfileId,
        /// The default action.
        action: Action,
    },
}

/// The model of a decision reason.
pub enum DecisionReasonView {
    MatchedRule { rule_id: Seq<char>, position: u32 },
    DefaultAction { profile_id: Seq<char>, action: Action },
}

impl View for DecisionReason {
    type V = DecisionReasonView;

    open spec fn view(&self) -> DecisionReasonView {
        match self {
            DecisionReason::MatchedRule { rule_id, position } => DecisionReasonView::MatchedRule {
                rule_id: rule_id@,
                position: *position,
            },
            DecisionReason::DefaultAction { profile_id, action } => DecisionReasonView::DefaultAction {
                profile_id: profile_id@,
                action: *action,
            },
        }
    }
}

impl Clone for DecisionReason {
    fn clone(&self) -> (copy: Self)
        ensures
            copy@ == self@,
    {
        match self {
            DecisionReason::MatchedRule { rule_id, position } => DecisionReason::MatchedRule {
                rule_id: rule_id.clone(),
                position: *position,
            },
            DecisionReason::DefaultAction { profile_id, action } => DecisionReason::DefaultAction {
                profile_id: profile_id.clone(),
                action: *action,
            },
        }
    }
}

/// Decision about a connection.
#[derive(Debug, PartialEq, Eq)]
pub struct Decision {
    /// The resulting action.
    pub action: Action,
    /// Reason of the decision.
    pub reason: DecisionReason,
}

/// The model of a decision.
pub struct DecisionView {
    pub action: Action,
    pub reason: DecisionReasonView,
}

impl View for Decision {
    type V = DecisionView;

    open spec fn view(&self) -> DecisionView {
        DecisionView { action: self.action, reason: self.reason@ }
    }
}

impl Clone for Decision {
    fn clone(&self) -> (copy: Self)
        ensures
            copy@ == self@,
    {
        Decision { action: self.action, reason: self.reason.clone() }
    }
}

// ---------------------------------------------------------------------------
// The model of evaluation.
// ---------------------------------------------------------------------------

/// A rule applies to a connection to `host` on `port`.
pub open spec fn rule_matches(rule: RuleView, host: Seq<char>, port: u16) -> bool {
    matcher_matches(rule.host, host) && rule.port.spec_matches(port)
}

/// `rules` with `rule` inserted after every rule whose position is not above
/// its own: the step of a stable sort by position.
pub open spec fn insert_by_position(sorted: Seq<RuleView>, rule: RuleView) -> Seq<RuleView>
    decreases sorted.len(),
{
    if sorted.len() == 0 {
        seq![rule]
    } else if sorted.last().position <= rule.position {
        sorted.push(rule)
    } else {
        insert_by_position(sorted.drop_last(), rule).push(sorted.last())
    }
}

/// `rules` sorted by position; rules with equal positions keep their input order.
pub open spec fn sort_by_position(rules: Seq<RuleView>) -> Seq<RuleView>
    decreases rules.len(),
{
    if rules.len() == 0 {
        Seq::<RuleView>::empty()
    } else {
        insert_by_position(sort_by_position(rules.drop_last()), rules.last())
    }
}

/// The decision of the first rule of `rules` that applies, or of the default
/// action of `profile` when none does.
pub open spec fn evaluate_rules(profile: ProfileView, rules: Seq<RuleView>, host: Seq<char>, port: u16) -> DecisionView
    decreases rules.len(),
{
    if rules.len() == 0 {
        DecisionView {
            action: profile.default_action,
            reason: DecisionReasonView::DefaultAction { profile_id: profile.id, action: profile.default_action },
        }
    } else if rule_matches(rules[0], host, port) {
        DecisionView {
            action: rules[0].action,
            reason: DecisionReasonView::MatchedRule { rule_id: rules[0].id, position: rules[0].position },
        }
    } else {
        evaluate_rules(profile, rules.drop_first(), host, port)
    }
}

/// The models of a sequence of rules.
pub open spec fn rule_views(rules: Seq<Rule>) -> Seq<RuleView> {
    rules.map_values(|rule: Rule| rule@)
}

proof fn lemma_insert_by_position(sorted: Seq<RuleView>, rule: RuleView, k: int)
    requires
        0 <= k <= sorted.len(),
        forall|j: int| k <= j < sorted.len() ==> #[trigger] sorted[j].position > rule.position,
        k == 0 || sorted[k - 1].position <= rule.position,
    ensures
        insert_by_position(sorted, rule) == sorted.insert(k, rule),
    decreases sorted.len(),
{
    if sorted.len() == 0 {
        assert(sorted.insert(0, rule) =~= seq![rule]);
    } else if sorted.last().position <= rule.position {
        assert(k == sorted.len());
        assert(sorted.insert(k, rule) =~= sorted.push(rule));
    } else {
        assert(k < sorted.len());
        let init = sorted.drop_last();
        lemma_insert_by_position(init, rule, k);
        assert(sorted.insert(k, rule) =~= init.insert(k, rule).push(sorted.last()));
    }
}

/// Policy of a profile: the profile with its rules.
///
/// The rules are ordered on construction, so a decision does not depend on the
/// order of the input slice.
#[derive(Debug)]
pub struct Policy<'a> {
    profile: &'a Profile,
    rules: Vec<Rule>,
}

impl<'a> View for Policy<'a> {
    type V = (ProfileView, Seq<RuleView>);

    closed spec fn view(&self) -> (ProfileView, Seq<RuleView>) {
        (self.profile@, rule_views(self.rules@))
    }
}

impl<'a> Policy<'a> {
    /// Builds the policy of a profile from its rules.
    pub fn new(profile: &'a Profile, rules: &[Rule]) -> (policy: Self)
        ensures
            policy@.0 == profile@,
            policy@.1 == sort_by_position(rule_views(rules@)),
    {
        let mut ordered: Vec<Rule> = Vec::new();
        let mut i: usize = 0;
        while i < rules.len()
            invariant
                i <= rules.len(),
                rule_views(ordered@) == sort_by_position(rule_views(rules@.take(i as int))),
            decreases rules.len() - i,
        {
            let rule = rules[i].clone();
            let ghost before = rule_views(ordered@);
            let mut k: usize = ordered.len();
            while k > 0 && ordered[k - 1].position > rule.position
                invariant
                    k <= ordered.len(),
                    before == rule_views(ordered@),
                    forall|j: int| k <= j < ordered.len() ==> #[trigger] ordered@[j].position > rule.position,
                decreases k,
            {
                k -= 1;
            }
            proof {
                lemma_insert_by_position(before, rule@, k as int);
                assert(rules@.take(i + 1).drop_last() == rules@.take(i as int));
                assert(rule_views(rules@.take(i + 1)).drop_last() == rule_views(rules@.take(i as int)));
                assert(rule_views(rules@.take(i + 1)).last() == rule@);
            }
            ordered.insert(k, rule);
            assert(rule_views(ordered@) =~= before.insert(k as int, rule@));
            i += 1;
        }
        assert(rules@.take(rules.len() as int) == rules@);
        Policy { profile, rules: ordered }
    }

    /// Evaluates a connection and returns the decision with its reason: the
    /// first rule by position whose host matcher and port restriction both
    /// admit the connection decides, else the default action of the profile.
    pub fn evaluate(&self, target: &EvaluationTarget) -> (decision: Decision)
        ensures
            decision@ == evaluate_rules(self@.0, self@.1, target@.0, target@.1),
            decided_by_first_admitting_rule(self@.0, self@.1, target@.0, target@.1, decision@),
    {
        proof {
            lemma_evaluation_decides_by_first_admitting_rule(self@.0, self@.1, target@.0, target@.1);
        }
        let mut i: usize = 0;
        assert(self@.1.skip(0) =~= self@.1);
        while i < self.rules.len()
            invariant
                i <= self.rules.len(),
                self@.1 == rule_views(self.rules@),
                decided_by_first_admitting_rule(self@.0, self@.1, target@.0, target@.1,
                    evaluate_rules(self@.0, self@.1, target@.0, target@.1)),
                evaluate_rules(self@.0, self@.1, target@.0, target@.1)
                    == evaluate_rules(self@.0, self@.1.skip(i as int), target@.0, target@.1),
            decreases self.rules.len() - i,
        {
            let rule = &self.rules[i];
            let ghost rest = self@.1.skip(i as int);
            assert(rest[0] == rule@);
            assert(rest.drop_first() =~= self@.1.skip(i + 1));
            if rule.host.matches(target.host()) && rule.port.matches(target.port()) {
                return Decision {
                    action: rule.action,
                    reason: DecisionReason::MatchedRule { rule_id: rule.id.clone(), position: rule.position },
                };
            }
            i += 1;
        }
        Decision {
            action: self.profile.default_action,
            reason: DecisionReason::DefaultAction {
                profile_id: self.profile.id.clone(),
                action: self.profile.default_action,
            },
        }
    }

    /// The rules of the policy in the order in which they apply.
    pub fn rules(&self) -> (rules: &[Rule])
        ensures
            rule_views(rules@) == self@.1,
    {
        self.rules.as_slice()
    }
}

} // verus!
