//! Decisions of the proxy.
//!
//! A policy decision describes the verdict of a rule. The proxy also refuses
//! connections that no rule describes (the policy could not be read, or the
//! connection targets the listener itself), so it has a decision type of its own
//! with a wider set of reasons.

use vstd::prelude::*;

use crate::action::Action;
use crate::decision::{evaluate_rules, rule_views, sort_by_position, DecisionReason, DecisionReasonView, EvaluationTarget, Policy};
use crate::entities::{Profile, ProfileView, Rule, RuleView};
use crate::host::NormalizedHost;
use crate::listener::ListenerId;
use crate::text::{chars_of, has_prefix, starts_with, str_equal};
use crate::time::now_unix_ms;

verus! {

/// Reason of a proxy decision.
#[derive(Debug, PartialEq, Eq)]
pub enum ProxyDecisionReason {
    /// The policy of the profile decided.
    Policy {
        /// The verdict of the policy: the rule that fired or the default action.
        decision: DecisionReason,
    },
    /// The policy of the profile could not be read: the connection is refused.
    PolicyUnavailable,
    /// The connection targets the listener itself: the connection is refused.
    LoopbackTarget,
}

/// The model of a proxy decision reason.
pub enum ProxyDecisionReasonView {
    Policy { decision: DecisionReasonView },
    PolicyUnavailable,
    LoopbackTarget,
}

impl View for ProxyDecisionReason {
    type V = ProxyDecisionReasonView;

    open spec fn view(&self) -> ProxyDecisionReasonView {
        match self {
            ProxyDecisionReason::Policy { decision } => ProxyDecisionReasonView::Policy { decision: decision@ },
            ProxyDecisionReason::PolicyUnavailable => ProxyDecisionReasonView::PolicyUnavailable,
            ProxyDecisionReason::LoopbackTarget => ProxyDecisionReasonView::LoopbackTarget,
        }
    }
}

impl Clone for ProxyDecisionReason {
    fn clone(&self) -> (copy: Self)
        ensures
            copy@ == self@,
    {
        match self {
            ProxyDecisionReason::Policy { decision } => ProxyDecisionReason::Policy { decision: decision.clone() },
            ProxyDecisionReason::PolicyUnavailable => ProxyDecisionReason::PolicyUnavailable,
            ProxyDecisionReason::LoopbackTarget => ProxyDecisionReason::LoopbackTarget,
        }
    }
}

/// Snapshot of the policy of a profile, as the proxy applies it.
///
/// The snapshot is taken when a connection is set up and applies to the whole
/// connection: changes of the policy affect new connections.
#[derive(Debug, PartialEq, Eq)]
pub enum PolicySnapshot {
    /// The policy was read and is ready to apply.
    Loaded {
        /// Profile of the policy.
        profile: Profile,
        /// Rules of the profile.
        rules: Vec<Rule>,
    },
    /// The policy could not be read or the profile is missing.
    Unavailable,
}

impl View for PolicySnapshot {
    type V = Option<(ProfileView, Seq<RuleView>)>;

    open spec fn view(&self) -> Option<(ProfileView, Seq<RuleView>)> {
        match self {
            PolicySnapshot::Loaded { profile, rules } => Some((profile@, rule_views(rules@))),
            PolicySnapshot::Unavailable => None,
        }
    }
}

impl Clone for PolicySnapshot {
    fn clone(&self) -> (copy: Self)
        ensures
            copy@ == self@,
    {
        match self {
            PolicySnapshot::Loaded { profile, rules } => {
                let mut copied: Vec<Rule> = Vec::new();
                let mut i: usize = 0;
                while i < rules.len()
                    invariant
                        i <= rules.len(),
                        rule_views(copied@) == rule_views(rules@.take(i as int)),
                    decreases rules.len() - i,
                {
                    let rule = rules[i].clone();
                    let ghost before = copied@;
                    copied.push(rule);
                    assert(rule_views(copied@) =~= rule_views(before).push(rules@[i as int]@));
                    assert(rule_views(rules@.take(i + 1)) =~= rule_views(rules@.take(i as int)).push(rules@[i as int]@));
                    i += 1;
                }
                assert(rules@.take(rules.len() as int) == rules@);
                PolicySnapshot::Loaded { profile: profile.clone(), rules: copied }
            },
            PolicySnapshot::Unavailable => PolicySnapshot::Unavailable,
        }
    }
}

/// Decision of the proxy about one connection.
#[derive(Debug, PartialEq, Eq)]
pub struct ProxyDecision {
    /// Listener that accepted the connection.
    pub listener_id: ListenerId,
    /// Normalized host of the target.
    pub host: String,
    /// Port of the target.
    pub port: u16,
    /// The resulting action.
    pub action: Action,
    /// Reason of the decision.
    pub reason: ProxyDecisionReason,
    /// Time of the decision in milliseconds of the Unix epoch.
    pub at_unix_ms: i64,
}

/// The model of a proxy decision.
pub struct ProxyDecisionView {
    pub listener_id: Seq<char>,
    pub host: Seq<char>,
    pub port: u16,
    pub action: Action,
    pub reason: ProxyDecisionReasonView,
    pub at_unix_ms: i64,
}

impl View for ProxyDecision {
    type V = ProxyDecisionView;

    open spec fn view(&self) -> ProxyDecisionView {
        ProxyDecisionView {
            listener_id: self.listener_id@,
            host: self.host@,
            port: self.port,
            action: self.action,
            reason: self.reason@,
            at_unix_ms: self.at_unix_ms,
        }
    }
}

impl Clone for ProxyDecision {
    fn clone(&self) -> (copy: Self)
        ensures
            copy@ == self@,
    {
        ProxyDecision {
            listener_id: self.listener_id.clone(),
            host: self.host.clone(),
            port: self.port,
            action: self.action,
            reason: self.reason.clone(),
            at_unix_ms: self.at_unix_ms,
        }
    }
}

impl ProxyDecision {
    /// Whether the connection is refused.
    pub fn is_denied(&self) -> (denied: bool)
        ensures
            denied == (self.action == Action::Deny),
    {
        !self.action.allows()
    }
}

// ---------------------------------------------------------------------------
// The model of a proxy decision.
// ---------------------------------------------------------------------------

/// `host` is written as a loopback address: `localhost`, `[::1]`, `0.0.0.0`,
/// `[::]` or an address of `127.0.0.0/8`. Names that resolve to loopback through
/// DNS are not recognized.
pub open spec fn is_loopback_text(host: Seq<char>) -> bool {
    ||| host == "localhost"@
    ||| host == "[::1]"@
    ||| host == "0.0.0.0"@
    ||| host == "[::]"@
    ||| has_prefix(host, "127."@)
}

/// A connection to `host` on `port` targets the listener on `listener_port` itself.
pub open spec fn is_self_target(host: Seq<char>, port: u16, listener_port: u16) -> bool {
    port == listener_port && is_loopback_text(host)
}

/// Action and reason of the proxy for a connection to `host` on `port`,
/// accepted by the listener on `listener_port` with the policy `snapshot`.
///
/// The loop check comes before the policy; an unavailable policy denies.
pub open spec fn proxy_outcome(
    listener_port: u16,
    snapshot: Option<(ProfileView, Seq<RuleView>)>,
    host: Seq<char>,
    port: u16,
) -> (Action, ProxyDecisionReasonView) {
    if is_self_target(host, port, listener_port) {
        (Action::Deny, ProxyDecisionReasonView::LoopbackTarget)
    } else {
        match snapshot {
            Some((profile, rules)) => {
                let decision = evaluate_rules(profile, sort_by_position(rules), host, port);
                (decision.action, ProxyDecisionReasonView::Policy { decision: decision.reason })
            },
            None => (Action::Deny, ProxyDecisionReasonView::PolicyUnavailable),
        }
    }
}

/// The decision of the proxy, taken at `at_unix_ms`.
pub open spec fn proxy_decision(
    listener_id: Seq<char>,
    listener_port: u16,
    snapshot: Option<(ProfileView, Seq<RuleView>)>,
    host: Seq<char>,
    port: u16,
    at_unix_ms: i64,
) -> ProxyDecisionView {
    let (action, reason) = proxy_outcome(listener_port, snapshot, host, port);
    ProxyDecisionView { listener_id, host, port, action, reason, at_unix_ms }
}

/// Takes the decision about a connection, stamped with the time `at_unix_ms`.
///
/// The loop check runs before the policy is consulted: a connection that
/// targets the listener itself is refused whatever the rules say.
pub fn decide_at(
    listener_id: &ListenerId,
    listener_port: u16,
    snapshot: &PolicySnapshot,
    target: &EvaluationTarget,
    at_unix_ms: i64,
) -> (decision: ProxyDecision)
    ensures
        decision@ == proxy_decision(listener_id@, listener_port, snapshot@, target@.0, target@.1, at_unix_ms),
{
    let outcome: (Action, ProxyDecisionReason) = if is_loopback_target(target.host(), target.port(), listener_port) {
        (Action::Deny, ProxyDecisionReason::LoopbackTarget)
    } else {
        match snapshot {
            PolicySnapshot::Loaded { profile, rules } => {
                let decision = Policy::new(profile, rules.as_slice()).evaluate(target);
                (decision.action, ProxyDecisionReason::Policy { decision: decision.reason })
            },
            PolicySnapshot::Unavailable => (Action::Deny, ProxyDecisionReason::PolicyUnavailable),
        }
    };
    let (action, reason) = outcome;
    ProxyDecision {
        listener_id: listener_id.clone(),
        host: target.host().as_str().to_owned(),
        port: target.port(),
        action,
        reason,
        at_unix_ms,
    }
}

/// Takes the decision about a connection, stamped with the current time.
///
/// When the clock cannot be read the decision is stamped with `i64::MAX`.
pub fn decide(
    listener_id: &ListenerId,
    listener_port: u16,
    snapshot: &PolicySnapshot,
    target: &EvaluationTarget,
) -> (decision: ProxyDecision)
    ensures
        decision@ == proxy_decision(listener_id@, listener_port, snapshot@, target@.0, target@.1, decision.at_unix_ms),
        decision.at_unix_ms >= 0,
{
    let at_unix_ms: i64 = match now_unix_ms() {
        Ok(ms) => ms,
        Err(_) => i64::MAX,
    };
    decide_at(listener_id, listener_port, snapshot, target, at_unix_ms)
}

/// Whether the connection targets the listener itself.
///
/// A loop needs the target port to be the listener's port: a connection to
/// another local service is an ordinary development scenario and must not be
/// refused. The host check is textual: loopback literals are recognized, a name
/// that resolves to loopback through DNS is not.
pub fn is_loopback_target(host: &NormalizedHost, target_port: u16, listener_port: u16) -> (looped: bool)
    ensures
        looped == is_self_target(host@, target_port, listener_port),
{
    target_port == listener_port && is_loopback_host(host)
}

/// Whether the host is written as a loopback address.
fn is_loopback_host(host: &NormalizedHost) -> (loopback: bool)
    ensures
        loopback == is_loopback_text(host@),
{
    let text = host.as_str();
    if str_equal(text, "localhost") || str_equal(text, "[::1]") || str_equal(text, "0.0.0.0") || str_equal(text, "[::]") {
        return true;
    }
    let chars = chars_of(text);
    let prefix = chars_of("127.");
    starts_with(chars.as_slice(), prefix.as_slice())
}

/// A connection that targets the listener itself is refused, whatever the
/// policy of the profile and whether or not it could be read.
pub proof fn lemma_self_target_is_denied(
    listener_port: u16,
    snapshot: Option<(ProfileView, Seq<RuleView>)>,
    host: Seq<char>,
    port: u16,
)
    requires
        is_self_target(host, port, listener_port),
    ensures
        proxy_outcome(listener_port, snapshot, host, port) == (Action::Deny, ProxyDecisionReasonView::LoopbackTarget),
{
}

/// Fail-closed: when the policy is unavailable, every connection is refused.
pub proof fn lemma_unavailable_policy_denies(listener_port: u16, host: Seq<char>, port: u16)
    ensures
        proxy_outcome(listener_port, None, host, port).0 == Action::Deny,
{
}

/// A loopback host on a port other than the listener's is no loop: the policy
/// decides it like any other target.
pub proof fn lemma_other_port_is_decided_by_policy(
    listener_port: u16,
    profile: ProfileView,
    rules: Seq<RuleView>,
    host: Seq<char>,
    port: u16,
)
    requires
        port != listener_port,
    ensures
        proxy_outcome(listener_port, Some((profile, rules)), host, port).0
            == evaluate_rules(profile, sort_by_position(rules), host, port).action,
{
}

} // verus!
