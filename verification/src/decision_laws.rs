//! Laws of policy evaluation.
//!
//! A policy applies its rules in the order of their positions, whatever order
//! they were handed over in; the first rule that applies decides, and the
//! default action of the profile decides when none does.

use vstd::prelude::*;

use crate::decision::{evaluate_rules, insert_by_position, rule_matches, sort_by_position, DecisionReasonView, DecisionView};
use crate::entities::{ProfileView, RuleView};
use crate::host::HostKind;
use crate::port::PortSpec;

verus! {

/// The positions of `rules` never decrease.
pub open spec fn sorted_by_position(rules: Seq<RuleView>) -> bool {
    forall|i: int, j: int| 0 <= i < j < rules.len() ==> rules[i].position <= rules[j].position
}

/// No two rules of `rules` share a position, as in a profile of the storage.
pub open spec fn distinct_positions(rules: Seq<RuleView>) -> bool {
    forall|i: int, j: int| 0 <= i < j < rules.len() ==> rules[i].position != rules[j].position
}

/// The positions of `rules` rise strictly.
pub open spec fn strictly_sorted(rules: Seq<RuleView>) -> bool {
    forall|i: int, j: int| 0 <= i < j < rules.len() ==> rules[i].position < rules[j].position
}

/// A rule that is in a sequence has a position no higher than the last one
/// of a sorted sequence.
proof fn lemma_member_below_last(rules: Seq<RuleView>, rule: RuleView)
    requires
        sorted_by_position(rules),
        rules.contains(rule),
    ensures
        rule.position <= rules.last().position,
{
    let k = choose|k: int| 0 <= k < rules.len() && rules[k] == rule;
    if k < rules.len() - 1 {
        assert(rules[k].position <= rules[rules.len() - 1].position);
    }
}

/// Inserting a rule into a sorted sequence keeps it sorted and adds exactly
/// that rule; into a strictly sorted one, a rule of a new position keeps it
/// strictly sorted.
proof fn lemma_insert_by_position_sorted(sorted: Seq<RuleView>, rule: RuleView)
    requires
        sorted_by_position(sorted),
    ensures
        sorted_by_position(insert_by_position(sorted, rule)),
        insert_by_position(sorted, rule).to_multiset() == sorted.to_multiset().insert(rule),
        strictly_sorted(sorted) && (forall|i: int| 0 <= i < sorted.len() ==> #[trigger] sorted[i].position != rule.position)
            ==> strictly_sorted(insert_by_position(sorted, rule)),
    decreases sorted.len(),
{
    broadcast use vstd::seq_lib::group_to_multiset_ensures;

    if sorted.len() == 0 {
        assert(seq![rule] == Seq::<RuleView>::empty().push(rule));
    } else if sorted.last().position <= rule.position {
    } else {
        let init = sorted.drop_last();
        let last = sorted.last();
        assert(sorted_by_position(init));
        lemma_insert_by_position_sorted(init, rule);
        let inserted = insert_by_position(init, rule);
        assert forall|x: RuleView| inserted.contains(x) implies x.position <= last.position by {
            assert(inserted.to_multiset().count(x) > 0);
            if x != rule {
                assert(init.to_multiset().count(x) > 0);
                assert(init.contains(x));
                let k = choose|k: int| 0 <= k < init.len() && init[k] == x;
                assert(sorted[k] == x);
            }
        }
        assert forall|i: int, j: int| 0 <= i < j < inserted.push(last).len()
            implies inserted.push(last)[i].position <= inserted.push(last)[j].position by {
            if j == inserted.len() {
                assert(inserted.contains(inserted[i]));
            }
        }
        assert(sorted == init.push(last));
        if strictly_sorted(sorted) && (forall|i: int| 0 <= i < sorted.len() ==> #[trigger] sorted[i].position != rule.position) {
            assert(strictly_sorted(init));
            assert(forall|i: int| 0 <= i < init.len() ==> #[trigger] init[i].position != rule.position) by {
                assert forall|i: int| 0 <= i < init.len() implies #[trigger] init[i].position != rule.position by {
                    assert(sorted[i] == init[i]);
                }
            }
            assert forall|x: RuleView| inserted.contains(x) implies x.position < last.position by {
                assert(inserted.to_multiset().count(x) > 0);
                if x != rule {
                    assert(init.to_multiset().count(x) > 0);
                    assert(init.contains(x));
                    let k = choose|k: int| 0 <= k < init.len() && init[k] == x;
                    assert(sorted[k] == x);
                }
            }
            assert forall|i: int, j: int| 0 <= i < j < inserted.push(last).len()
                implies inserted.push(last)[i].position < inserted.push(last)[j].position by {
                if j == inserted.len() {
                    assert(inserted.contains(inserted[i]));
                }
            }
        }
    }
}

/// The rules of a policy are ordered by position and are exactly the rules it
/// was built from; rules of distinct positions come out strictly ordered.
pub proof fn lemma_sort_by_position(rules: Seq<RuleView>)
    ensures
        sorted_by_position(sort_by_position(rules)),
        sort_by_position(rules).to_multiset() == rules.to_multiset(),
        distinct_positions(rules) ==> strictly_sorted(sort_by_position(rules)),
    decreases rules.len(),
{
    broadcast use vstd::seq_lib::group_to_multiset_ensures;

    if rules.len() > 0 {
        let init = rules.drop_last();
        let last = rules.last();
        lemma_sort_by_position(init);
        let sorted = sort_by_position(init);
        lemma_insert_by_position_sorted(sorted, last);
        assert(rules == init.push(last));
        if distinct_positions(rules) {
            assert(distinct_positions(init));
            assert forall|i: int| 0 <= i < sorted.len() implies #[trigger] sorted[i].position != last.position by {
                assert(sorted.contains(sorted[i]));
                assert(sorted.to_multiset().count(sorted[i]) > 0);
                assert(init.contains(sorted[i]));
                let k = choose|k: int| 0 <= k < init.len() && init[k] == sorted[i];
                assert(rules[k] == init[k]);
                assert(rules[k].position != rules[rules.len() - 1].position);
            }
        }
    } else {
        assert(rules.to_multiset() =~= sort_by_position(rules).to_multiset()) by {
            assert(rules =~= Seq::<RuleView>::empty());
        }
    }
}

/// Two strictly sorted sequences of the same rules are equal.
proof fn lemma_strictly_sorted_unique(a: Seq<RuleView>, b: Seq<RuleView>)
    requires
        strictly_sorted(a),
        strictly_sorted(b),
        a.to_multiset() == b.to_multiset(),
    ensures
        a == b,
    decreases a.len(),
{
    broadcast use vstd::seq_lib::group_to_multiset_ensures;

    assert(a.len() == a.to_multiset().len());
    assert(b.len() == b.to_multiset().len());
    if a.len() == 0 {
        assert(a =~= b);
    } else {
        let n = a.len() - 1;
        assert(a.to_multiset().count(a.last()) > 0);
        assert(b.contains(a.last()));
        assert(b.to_multiset().count(b.last()) > 0);
        assert(a.contains(b.last()));
        assert(sorted_by_position(a));
        assert(sorted_by_position(b));
        lemma_member_below_last(b, a.last());
        lemma_member_below_last(a, b.last());
        let k = choose|k: int| 0 <= k < b.len() && b[k] == a.last();
        assert(k == n) by {
            if k < n {
                assert(b[k].position < b[n].position);
            }
        }
        assert(a.remove(n) =~= a.drop_last());
        assert(b.remove(n) =~= b.drop_last());
        assert(a.drop_last().to_multiset() == b.drop_last().to_multiset());
        lemma_strictly_sorted_unique(a.drop_last(), b.drop_last());
        assert(a =~= a.drop_last().push(a.last()));
        assert(b =~= b.drop_last().push(b.last()));
    }
}

/// The decision of a policy does not depend on the order in which its rules
/// were handed over: rules with distinct positions (as a profile stores them)
/// are applied by position, so any permutation gives the same decision.
pub proof fn lemma_evaluation_ignores_input_order(
    profile: ProfileView,
    first: Seq<RuleView>,
    second: Seq<RuleView>,
    host: Seq<char>,
    port: u16,
)
    requires
        first.to_multiset() == second.to_multiset(),
        distinct_positions(first),
        distinct_positions(second),
    ensures
        evaluate_rules(profile, sort_by_position(first), host, port)
            == evaluate_rules(profile, sort_by_position(second), host, port),
{
    lemma_sort_by_position(first);
    lemma_sort_by_position(second);
    lemma_strictly_sorted_unique(sort_by_position(first), sort_by_position(second));
}

/// The first rule that applies decides: when the rule at `index` applies and
/// no rule before it does, the decision is that rule's action with the rule
/// as its reason.
pub proof fn lemma_first_matching_rule_decides(
    profile: ProfileView,
    rules: Seq<RuleView>,
    host: Seq<char>,
    port: u16,
    index: int,
)
    requires
        0 <= index < rules.len(),
        rule_matches(rules[index], host, port),
        forall|j: int| 0 <= j < index ==> !rule_matches(#[trigger] rules[j], host, port),
    ensures
        evaluate_rules(profile, rules, host, port) == (DecisionView {
            action: rules[index].action,
            reason: DecisionReasonView::MatchedRule { rule_id: rules[index].id, position: rules[index].position },
        }),
    decreases index,
{
    if index > 0 {
        assert(!rule_matches(rules[0], host, port));
        assert forall|j: int| 0 <= j < index - 1 implies !rule_matches(#[trigger] rules.drop_first()[j], host, port) by {
            assert(rules.drop_first()[j] == rules[j + 1]);
        }
        lemma_first_matching_rule_decides(profile, rules.drop_first(), host, port, index - 1);
    }
}

/// When no rule applies, the default action of the profile decides and the
/// profile is the reason.
pub proof fn lemma_default_action_when_nothing_matches(
    profile: ProfileView,
    rules: Seq<RuleView>,
    host: Seq<char>,
    port: u16,
)
    requires
        forall|j: int| 0 <= j < rules.len() ==> !rule_matches(#[trigger] rules[j], host, port),
    ensures
        evaluate_rules(profile, rules, host, port) == (DecisionView {
            action: profile.default_action,
            reason: DecisionReasonView::DefaultAction { profile_id: profile.id, action: profile.default_action },
        }),
    decreases rules.len(),
{
    if rules.len() > 0 {
        assert(!rule_matches(rules[0], host, port));
        assert forall|j: int| 0 <= j < rules.len() - 1 implies !rule_matches(#[trigger] rules.drop_first()[j], host, port) by {
            assert(rules.drop_first()[j] == rules[j + 1]);
        }
        lemma_default_action_when_nothing_matches(profile, rules.drop_first(), host, port);
    }
}

/// A decision is always either the verdict of one of the rules, which applies
/// to the connection, or the default action of the profile.
pub proof fn lemma_decision_comes_from_a_rule_or_the_default(
    profile: ProfileView,
    rules: Seq<RuleView>,
    host: Seq<char>,
    port: u16,
)
    ensures
        ({
            let decision = evaluate_rules(profile, rules, host, port);
            ||| (decision.action == profile.default_action && decision.reason == (DecisionReasonView::DefaultAction {
                    profile_id: profile.id,
                    action: profile.default_action,
                }))
            ||| exists|i: int| 0 <= i < rules.len() && rule_matches(#[trigger] rules[i], host, port)
                    && decision.action == rules[i].action
                    && decision.reason == (DecisionReasonView::MatchedRule { rule_id: rules[i].id, position: rules[i].position })
        }),
    decreases rules.len(),
{
    if rules.len() > 0 && !rule_matches(rules[0], host, port) {
        lemma_decision_comes_from_a_rule_or_the_default(profile, rules.drop_first(), host, port);
        let decision = evaluate_rules(profile, rules, host, port);
        if exists|i: int| 0 <= i < rules.drop_first().len() && rule_matches(#[trigger] rules.drop_first()[i], host, port)
            && decision.action == rules.drop_first()[i].action
            && decision.reason == (DecisionReasonView::MatchedRule { rule_id: rules.drop_first()[i].id, position: rules.drop_first()[i].position }) {
            let i = choose|i: int| 0 <= i < rules.drop_first().len() && rule_matches(#[trigger] rules.drop_first()[i], host, port)
                && decision.action == rules.drop_first()[i].action
                && decision.reason == (DecisionReasonView::MatchedRule { rule_id: rules.drop_first()[i].id, position: rules.drop_first()[i].position });
            assert(rules[i + 1] == rules.drop_first()[i]);
        }
    } else if rules.len() > 0 {
        assert(rule_matches(rules[0], host, port));
    }
}

/// A port restriction admits a destination port: any port but zero, exactly
/// the one port, or a port of the inclusive range.
pub open spec fn port_admits(restriction: PortSpec, port: u16) -> bool {
    match restriction {
        PortSpec::Any => port != 0,
        PortSpec::Exactly { port: only } => port == only,
        PortSpec::Range { start, end } => start <= port && port <= end,
    }
}

/// A host matcher admits a host: the same host for an exact matcher; for a
/// subdomain matcher, a host that ends with a dot followed by the domain.
pub open spec fn host_admits(matcher: (HostKind, Seq<char>), host: Seq<char>) -> bool {
    match matcher.0 {
        HostKind::Exact => host == matcher.1,
        HostKind::Subdomains => host.len() > matcher.1.len()
            && host.subrange(host.len() - matcher.1.len() - 1, host.len() as int) == seq!['.'] + matcher.1,
    }
}

/// A rule admits a connection when both its host matcher and its port
/// restriction admit it.
pub open spec fn rule_admits(rule: RuleView, host: Seq<char>, port: u16) -> bool {
    host_admits(rule.host, host) && port_admits(rule.port, port)
}

/// `decision` is the one the rules give in their order: the first rule that
/// admits the connection, with its action; or, when no rule admits it, the
/// default action of the profile.
pub open spec fn decided_by_first_admitting_rule(
    profile: ProfileView,
    rules: Seq<RuleView>,
    host: Seq<char>,
    port: u16,
    decision: DecisionView,
) -> bool {
    match decision.reason {
        DecisionReasonView::MatchedRule { rule_id, position } => exists|i: int| {
            &&& 0 <= i < rules.len()
            &&& #[trigger] rule_admits(rules[i], host, port)
            &&& rules[i].id == rule_id
            &&& rules[i].position == position
            &&& decision.action == rules[i].action
            &&& forall|j: int| 0 <= j < i ==> !rule_admits(#[trigger] rules[j], host, port)
        },
        DecisionReasonView::DefaultAction { profile_id, action } => {
            &&& profile_id == profile.id
            &&& action == profile.default_action
            &&& decision.action == profile.default_action
            &&& forall|j: int| 0 <= j < rules.len() ==> !rule_admits(#[trigger] rules[j], host, port)
        },
    }
}

/// A rule applies exactly when its host matcher and its port restriction both
/// admit the connection, whatever the kind of the matcher.
pub proof fn lemma_rule_applies_when_host_and_port_admit(rule: RuleView, host: Seq<char>, port: u16)
    ensures
        rule_matches(rule, host, port) == rule_admits(rule, host, port),
{
    let domain = rule.host.1;
    if rule.host.0 == HostKind::Subdomains && host.len() > domain.len() {
        let tail = host.subrange(host.len() - domain.len() - 1, host.len() as int);
        assert(host.skip(host.len() - domain.len()) =~= tail.drop_first());
        if tail == seq!['.'] + domain {
            assert(tail.drop_first() =~= domain);
            assert(tail[0] == host[host.len() - domain.len() - 1]);
        }
        if host.skip(host.len() - domain.len()) == domain && host[host.len() - domain.len() - 1] == '.' {
            assert(tail =~= seq!['.'] + domain);
        }
    }
}

/// Evaluation decides by the first rule, in order, whose host matcher and port
/// restriction both admit the connection, and by the default action of the
/// profile when no rule admits it. A rule whose port restriction does not
/// admit the port never decides, whatever its host matcher.
pub proof fn lemma_evaluation_decides_by_first_admitting_rule(
    profile: ProfileView,
    rules: Seq<RuleView>,
    host: Seq<char>,
    port: u16,
)
    ensures
        decided_by_first_admitting_rule(profile, rules, host, port, evaluate_rules(profile, rules, host, port)),
    decreases rules.len(),
{
    if rules.len() > 0 {
        lemma_rule_applies_when_host_and_port_admit(rules[0], host, port);
        if !rule_matches(rules[0], host, port) {
            let rest = rules.drop_first();
            lemma_evaluation_decides_by_first_admitting_rule(profile, rest, host, port);
            let decision = evaluate_rules(profile, rules, host, port);
            assert(decision == evaluate_rules(profile, rest, host, port));
            match decision.reason {
                DecisionReasonView::MatchedRule { rule_id, position } => {
                    let i = choose|i: int| {
                        &&& 0 <= i < rest.len()
                        &&& #[trigger] rule_admits(rest[i], host, port)
                        &&& rest[i].id == rule_id
                        &&& rest[i].position == position
                        &&& decision.action == rest[i].action
                        &&& forall|j: int| 0 <= j < i ==> !rule_admits(#[trigger] rest[j], host, port)
                    };
                    assert(rules[i + 1] == rest[i]);
                    assert forall|j: int| 0 <= j < i + 1 implies !rule_admits(#[trigger] rules[j], host, port) by {
                        if j > 0 {
                            assert(rules[j] == rest[j - 1]);
                        }
                    }
                    assert(rule_admits(rules[i + 1], host, port));
                },
                DecisionReasonView::DefaultAction { .. } => {
                    assert forall|j: int| 0 <= j < rules.len() implies !rule_admits(#[trigger] rules[j], host, port) by {
                        if j > 0 {
                            assert(rules[j] == rest[j - 1]);
                        }
                    }
                },
            }
        } else {
            assert(rule_admits(rules[0], host, port));
        }
    }
}

} // verus!
