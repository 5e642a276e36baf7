//! From matched rules to the actions the router owes, in their order.

use crate::matcher::matches_config_rule;
use crate::message::{
    BusMessage, Message, MessageKind, MessageShapeError, NormalizedSignal, Signal, normalized,
    parse_signal,
};
use crate::rule::{InternalEventHandler, Rule, RuleSet};
use vstd::prelude::*;

verus! {

/// One effect owed for a matched rule.
#[derive(Debug)]
pub enum Action {
    /// Look up `process` by its exact name and send it the realtime signal
    /// that lies `signal` above the base.
    Notify { rule: String, process: String, signal: u32 },
    /// Run `command` through the shell, without waiting for it.
    Exec { rule: String, command: String },
}

/// An action with every text as a sequence of characters.
pub enum Effect {
    Notify { rule: Seq<char>, process: Seq<char>, signal: u32 },
    Exec { rule: Seq<char>, command: Seq<char> },
}

impl View for Action {
    type V = Effect;

    open spec fn view(&self) -> Effect {
        match *self {
            Action::Notify { rule, process, signal } => Effect::Notify {
                rule: rule@,
                process: process@,
                signal,
            },
            Action::Exec { rule, command } => Effect::Exec { rule: rule@, command: command@ },
        }
    }
}

/// The effects a list of actions stands for.
pub open spec fn effects(actions: Seq<Action>) -> Seq<Effect> {
    Seq::new(actions.len(), |i: int| actions[i]@)
}

impl Rule {
    /// The notification a rule owes on a match: one where it has a signal
    /// number and names a target process.
    pub open spec fn notification(self) -> Option<Effect> {
        if self.signal is Some && self.signal_process is Some {
            Some(
                Effect::Notify {
                    rule: self.name,
                    process: self.signal_process->Some_0,
                    signal: self.signal->Some_0,
                },
            )
        } else {
            None
        }
    }

    /// The command a rule owes on a match.
    pub open spec fn command(self) -> Option<Effect> {
        match self.exec_command {
            Some(c) => Some(Effect::Exec { rule: self.name, command: c }),
            None => None,
        }
    }

    /// What a rule owes on a match: its notification first, then its
    /// command, each where it is configured.
    pub open spec fn effects(self) -> Seq<Effect> {
        let first = match self.notification() {
            Some(e) => seq![e],
            None => Seq::empty(),
        };
        match self.command() {
            Some(e) => first.push(e),
            None => first,
        }
    }
}

/// What the rules owe for a signal: the effects of each rule that matches,
/// rule after rule in the order of the set.
pub open spec fn planned(rules: Seq<Rule>, signal: Signal) -> Seq<Effect>
    decreases rules.len(),
{
    if rules.len() == 0 {
        Seq::empty()
    } else {
        let before = planned(rules.drop_last(), signal);
        if rules.last().matches(signal) {
            before + rules.last().effects()
        } else {
            before
        }
    }
}

/// What the rules owe for a message: nothing unless it is a signal, the
/// plan for its normal form if it is one, and the error of a signal that
/// has no normal form.
pub open spec fn routed(rules: Seq<Rule>, msg: Message) -> Result<Seq<Effect>, MessageShapeError> {
    match normalized(msg) {
        Ok(Some(signal)) => Ok(planned(rules, signal)),
        Ok(None) => Ok(Seq::empty()),
        Err(e) => Err(e),
    }
}

/// The notification of a rule whose signal number is `signal`.
pub fn send_signal(handler: &InternalEventHandler, signal: u32) -> (action: Option<Action>)
    ensures
        match action {
            Some(a) => handler.signal_process is Some && a@ == (Effect::Notify {
                rule: handler@.name,
                process: handler@.signal_process->Some_0,
                signal,
            }),
            None => handler.signal_process is None,
        },
{
    match &handler.signal_process {
        Some(process) => Some(
            Action::Notify { rule: handler.name.clone(), process: process.clone(), signal },
        ),
        None => None,
    }
}

/// Appends to `plan` what the rule owes on a match.
pub fn push_actions(handler: &InternalEventHandler, plan: &mut Vec<Action>)
    ensures
        effects(final(plan)@) == effects(old(plan)@) + handler@.effects(),
{
    let ghost before = effects(plan@);
    if let Some(signal) = handler.signal {
        if let Some(action) = send_signal(handler, signal) {
            plan.push(action);
        }
    }
    let ghost middle = effects(plan@);
    assert(middle =~= before + match handler@.notification() {
        Some(e) => seq![e],
        None => Seq::empty(),
    });
    if let Some(command) = &handler.exec_command {
        plan.push(Action::Exec { rule: handler.name.clone(), command: command.clone() });
    }
}

/// The actions owed for a signal, in the order in which they are owed.
pub fn plan_dispatch(rules: &RuleSet, signal: &NormalizedSignal) -> (plan: Vec<Action>)
    ensures
        effects(plan@) == planned(rules@, signal@),
{
    let mut plan: Vec<Action> = Vec::new();
    let mut i: usize = 0;
    while i < rules.rules.len()
        invariant
            i <= rules.rules.len(),
            effects(plan@) == planned(rules@.take(i as int), signal@),
        decreases rules.rules.len() - i,
    {
        proof {
            assert(rules@.take(i + 1).drop_last() =~= rules@.take(i as int));
        }
        if matches_config_rule(signal, &rules.rules[i]) {
            push_actions(&rules.rules[i], &mut plan);
        }
        i += 1;
    }
    proof {
        assert(rules@.take(i as int) =~= rules@);
    }
    plan
}

/// The actions owed for one incoming message. See [`routed`].
pub fn handle_events(rules: &RuleSet, msg: &BusMessage) -> (r: Result<Vec<Action>, MessageShapeError>)
    ensures
        match r {
            Ok(plan) => routed(rules@, msg@) == Ok::<Seq<Effect>, MessageShapeError>(
                effects(plan@),
            ),
            Err(e) => routed(rules@, msg@) == Err::<Seq<Effect>, MessageShapeError>(e),
        },
        msg.kind != MessageKind::Signal ==> r is Ok && r->Ok_0@.len() == 0,
{
    match parse_signal(msg) {
        Ok(Some(signal)) => Ok(plan_dispatch(rules, &signal)),
        Ok(None) => {
            let plan: Vec<Action> = Vec::new();
            assert(effects(plan@) =~= Seq::<Effect>::empty());
            Ok(plan)
        },
        Err(e) => Err(e),
    }
}

/// A message that is no signal owes nothing, whatever the rules are.
pub proof fn lemma_only_signals_dispatch(rules: Seq<Rule>, msg: Message)
    requires
        msg.kind != MessageKind::Signal,
    ensures
        routed(rules, msg) == Ok::<Seq<Effect>, MessageShapeError>(Seq::empty()),
{
}

/// A rule that names the target of its signal, as every loaded rule does,
/// owes a notification whenever it has a signal number, and it comes first
/// among what the rule owes.
pub proof fn lemma_coupled_rule_notifies(rule: Rule)
    requires
        rule.coupled(),
        rule.signal is Some,
    ensures
        rule.notification() is Some,
        rule.effects().len() > 0,
        rule.effects()[0] == rule.notification()->Some_0,
{
}

/// Where two rules follow one another and both match, the first rule's
/// effects come before the second's.
pub proof fn lemma_earlier_rule_fires_first(first: Rule, second: Rule, signal: Signal)
    requires
        first.matches(signal),
        second.matches(signal),
    ensures
        planned(seq![first, second], signal) == first.effects() + second.effects(),
{
    reveal_with_fuel(planned, 3);
}

/// The plan is the effects of the matching rules, one rule after another in
/// the order in which [`crate::matcher::matching`] lists them.
pub proof fn lemma_plan_follows_matching(rules: Seq<Rule>, signal: Signal)
    ensures
        planned(rules, signal) == gathered(rules, crate::matcher::matching(rules, signal)),
    decreases rules.len(),
{
    if rules.len() > 0 {
        let head = rules.drop_last();
        lemma_plan_follows_matching(head, signal);
        let listed = crate::matcher::matching(head, signal);
        assert forall|k: int| 0 <= k < listed.len() implies 0 <= #[trigger] listed[k] < head.len() by {
            crate::matcher::lemma_matching_sound(head, signal, k);
        }
        lemma_gathered_prefix(rules, listed);
        if rules.last().matches(signal) {
            assert(listed.push(rules.len() - 1).drop_last() =~= listed);
        }
    }
}

/// The effects of the rules at the listed positions, in the list's order.
pub open spec fn gathered(rules: Seq<Rule>, listed: Seq<int>) -> Seq<Effect>
    decreases listed.len(),
{
    if listed.len() == 0 {
        Seq::empty()
    } else {
        gathered(rules, listed.drop_last()) + rules[listed.last()].effects()
    }
}

proof fn lemma_gathered_prefix(rules: Seq<Rule>, listed: Seq<int>)
    requires
        rules.len() > 0,
        forall|k: int| 0 <= k < listed.len() ==> 0 <= #[trigger] listed[k] < rules.len() - 1,
    ensures
        gathered(rules, listed) == gathered(rules.drop_last(), listed),
    decreases listed.len(),
{
    if listed.len() > 0 {
        lemma_gathered_prefix(rules, listed.drop_last());
    }
}

} // verus!
