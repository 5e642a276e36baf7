//! Matching a normalized signal against rules.

use crate::message::{Message, MessageKind, NormalizedSignal, Signal, normalized};
use crate::pattern::pattern_is_match;
use crate::rule::{InternalEventHandler, Rule, RuleSet};
use regex::Regex;
use vstd::prelude::*;

verus! {

/// Whether a negation flag is set: an absent flag negates nothing.
pub open spec fn negated(flag: Option<bool>) -> bool {
    flag == Some(true)
}

/// Whether one condition of a rule is satisfied by a text. Without a pattern
/// it always is; with one, the outcome of the search is inverted where the
/// flag is set.
pub open spec fn condition_holds(
    pattern: Option<Set<Seq<char>>>,
    flag: Option<bool>,
    text: Seq<char>,
) -> bool {
    match pattern {
        None => true,
        Some(language) => negated(flag) != language.contains(text),
    }
}

impl Rule {
    /// A rule matches a signal when its path, member and data conditions all
    /// hold.
    pub open spec fn matches(self, signal: Signal) -> bool {
        &&& condition_holds(self.path, self.path_not, signal.path)
        &&& condition_holds(self.member, self.member_not, signal.member)
        &&& condition_holds(self.data, self.data_not, signal.data)
    }
}

/// The positions of the rules that match the signal, in rising order.
pub open spec fn matching(rules: Seq<Rule>, signal: Signal) -> Seq<int>
    decreases rules.len(),
{
    if rules.len() == 0 {
        Seq::empty()
    } else {
        let before = matching(rules.drop_last(), signal);
        if rules.last().matches(signal) {
            before.push(rules.len() - 1)
        } else {
            before
        }
    }
}

/// The positions a vector of indexes stands for.
pub open spec fn positions(indexes: Seq<usize>) -> Seq<int> {
    Seq::new(indexes.len(), |i: int| indexes[i] as int)
}

fn condition_met(pattern: &Option<Regex>, flag: Option<bool>, text: &str) -> (met: bool)
    ensures
        met == condition_holds(crate::rule::language_view(*pattern), flag, text@),
{
    match pattern {
        None => true,
        Some(re) => {
            let found = pattern_is_match(re, text);
            let negate = match flag {
                Some(b) => b,
                None => false,
            };
            negate ^ found
        },
    }
}

/// Whether the rule matches the signal.
pub fn matches_config_rule(signal: &NormalizedSignal, handler: &InternalEventHandler) -> (m: bool)
    ensures
        m == handler@.matches(signal@),
{
    condition_met(&handler.path, handler.path_not, signal.path.as_str()) && condition_met(
        &handler.member,
        handler.member_not,
        signal.member.as_str(),
    ) && condition_met(&handler.data, handler.data_not, signal.data.as_str())
}

/// The indexes of the rules that match the signal, in the order of the set.
pub fn matching_rules(rules: &RuleSet, signal: &NormalizedSignal) -> (found: Vec<usize>)
    ensures
        positions(found@) == matching(rules@, signal@),
{
    let mut found: Vec<usize> = Vec::new();
    let mut i: usize = 0;
    while i < rules.rules.len()
        invariant
            i <= rules.rules.len(),
            positions(found@) == matching(rules@.take(i as int), signal@),
        decreases rules.rules.len() - i,
    {
        proof {
            assert(rules@.take(i + 1).drop_last() =~= rules@.take(i as int));
        }
        if matches_config_rule(signal, &rules.rules[i]) {
            found.push(i);
        }
        i += 1;
    }
    proof {
        assert(rules@.take(i as int) =~= rules@);
    }
    found
}

/// Every position listed by [`matching`] is that of a rule that matches.
pub proof fn lemma_matching_sound(rules: Seq<Rule>, signal: Signal, k: int)
    requires
        0 <= k < matching(rules, signal).len(),
    ensures
        0 <= matching(rules, signal)[k] < rules.len(),
        rules[matching(rules, signal)[k]].matches(signal),
    decreases rules.len(),
{
    if rules.len() > 0 {
        let before = matching(rules.drop_last(), signal);
        if k < before.len() {
            lemma_matching_sound(rules.drop_last(), signal, k);
        }
    }
}

/// Every rule that matches is listed by [`matching`].
pub proof fn lemma_matching_complete(rules: Seq<Rule>, signal: Signal, at: int)
    requires
        0 <= at < rules.len(),
        rules[at].matches(signal),
    ensures
        matching(rules, signal).contains(at),
    decreases rules.len(),
{
    let before = matching(rules.drop_last(), signal);
    if at == rules.len() - 1 {
        assert(matching(rules, signal).last() == at);
    } else {
        lemma_matching_complete(rules.drop_last(), signal, at);
        let k = choose|k: int| 0 <= k < before.len() && before[k] == at;
        assert(matching(rules, signal)[k] == at);
    }
}

/// The positions listed by [`matching`] rise strictly: the order of the rule
/// set is kept and no rule is listed twice.
pub proof fn lemma_matching_ordered(rules: Seq<Rule>, signal: Signal, j: int, k: int)
    requires
        0 <= j < k < matching(rules, signal).len(),
    ensures
        matching(rules, signal)[j] < matching(rules, signal)[k],
    decreases rules.len(),
{
    if rules.len() > 0 {
        let before = matching(rules.drop_last(), signal);
        if k < before.len() {
            lemma_matching_ordered(rules.drop_last(), signal, j, k);
        } else {
            lemma_matching_sound(rules.drop_last(), signal, j);
        }
    }
}

/// A condition without a pattern holds of every text, and a rule without
/// any pattern matches every signal.
pub proof fn lemma_absent_pattern_always_holds(rule: Rule, signal: Signal, text: Seq<char>)
    ensures
        condition_holds(None, rule.path_not, text),
        rule.path is None ==> condition_holds(rule.path, rule.path_not, signal.path),
        rule.member is None ==> condition_holds(rule.member, rule.member_not, signal.member),
        rule.data is None ==> condition_holds(rule.data, rule.data_not, signal.data),
        rule.path is None && rule.member is None && rule.data is None ==> rule.matches(signal),
{
}

/// Negation inverts exactly the condition it belongs to. For a fixed pattern
/// and text the negated condition holds exactly when the plain one does not;
/// so two rules that differ only in the negation of one present pattern, and
/// whose other two conditions hold, never both match and never both fail.
pub proof fn lemma_negation_inverts(
    rule: Rule,
    signal: Signal,
    pattern: Set<Seq<char>>,
    text: Seq<char>,
)
    ensures
        condition_holds(Some(pattern), Some(true), text) == !condition_holds(
            Some(pattern),
            Some(false),
            text,
        ),
        condition_holds(Some(pattern), Some(false), text) == condition_holds(
            Some(pattern),
            None,
            text,
        ),
        rule.path is Some && condition_holds(rule.member, rule.member_not, signal.member)
            && condition_holds(rule.data, rule.data_not, signal.data) ==> (Rule {
            path_not: Some(true),
            ..rule
        }).matches(signal) == !(Rule { path_not: Some(false), ..rule }).matches(signal),
        rule.member is Some && condition_holds(rule.path, rule.path_not, signal.path)
            && condition_holds(rule.data, rule.data_not, signal.data) ==> (Rule {
            member_not: Some(true),
            ..rule
        }).matches(signal) == !(Rule { member_not: Some(false), ..rule }).matches(signal),
        rule.data is Some && condition_holds(rule.path, rule.path_not, signal.path)
            && condition_holds(rule.member, rule.member_not, signal.member) ==> (Rule {
            data_not: Some(true),
            ..rule
        }).matches(signal) == !(Rule { data_not: Some(false), ..rule }).matches(signal),
{
}

/// A signal whose body did not decode has empty data. A rule with a plain
/// data pattern then matches it only if that pattern matches the empty text,
/// and one with a negated data pattern only if it does not.
pub proof fn lemma_undecodable_body_has_empty_data(rule: Rule, msg: Message)
    requires
        msg.kind == MessageKind::Signal,
        msg.path is Some,
        msg.member is Some,
        msg.body is None,
        rule.data is Some,
    ensures
        normalized(msg) is Ok,
        normalized(msg)->Ok_0 is Some,
        normalized(msg)->Ok_0->Some_0.data == Seq::<char>::empty(),
        rule.matches(normalized(msg)->Ok_0->Some_0) ==> (negated(rule.data_not)
            != rule.data->Some_0.contains(Seq::empty())),
{
}

} // verus!
