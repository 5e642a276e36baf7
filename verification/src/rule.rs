//! Routing rules: their declaration, their compiled form and the rule set.

use crate::pattern::{accepted, compile_pattern, regex_language};
use regex::Regex;
use vstd::prelude::*;

verus! {

/// One rule as the configuration declares it, patterns still as text.
#[derive(Debug)]
pub struct EventHandler {
    pub path: Option<String>,
    pub path_not: Option<bool>,
    pub member: Option<String>,
    pub member_not: Option<bool>,
    pub data: Option<String>,
    pub data_not: Option<bool>,
    pub exec_command: Option<String>,
    pub signal: Option<u32>,
    pub signal_process: Option<String>,
}

/// One rule ready for matching: every pattern it has is compiled.
#[derive(Debug)]
pub struct InternalEventHandler {
    pub name: String,
    pub path: Option<Regex>,
    pub path_not: Option<bool>,
    pub member: Option<Regex>,
    pub member_not: Option<bool>,
    pub data: Option<Regex>,
    pub data_not: Option<bool>,
    pub exec_command: Option<String>,
    pub signal: Option<u32>,
    pub signal_process: Option<String>,
}

/// What a declaration says, with every text as a sequence of characters.
pub struct Declaration {
    pub path: Option<Seq<char>>,
    pub path_not: Option<bool>,
    pub member: Option<Seq<char>>,
    pub member_not: Option<bool>,
    pub data: Option<Seq<char>>,
    pub data_not: Option<bool>,
    pub exec_command: Option<Seq<char>>,
    pub signal: Option<u32>,
    pub signal_process: Option<Seq<char>>,
}

/// What a compiled rule says. A pattern stands for the set of the texts in
/// which it finds a match; every other text is a sequence of characters.
pub struct Rule {
    pub name: Seq<char>,
    pub path: Option<Set<Seq<char>>>,
    pub path_not: Option<bool>,
    pub member: Option<Set<Seq<char>>>,
    pub member_not: Option<bool>,
    pub data: Option<Set<Seq<char>>>,
    pub data_not: Option<bool>,
    pub exec_command: Option<Seq<char>>,
    pub signal: Option<u32>,
    pub signal_process: Option<Seq<char>>,
}

/// The field of a rule that a configuration error is about.
#[derive(Clone, Copy, Debug, PartialEq, Eq, Structural)]
pub enum RuleField {
    Path,
    Member,
    Data,
    SignalProcess,
}

/// A rule that cannot be loaded: one of its patterns does not compile, or it
/// asks for a signal without naming the process to send it to.
#[derive(Debug)]
pub struct ConfigError {
    pub rule: String,
    pub field: RuleField,
}

impl RuleField {
    /// What is wrong with a rule whose fault lies in this field.
    pub open spec fn fault_text(self) -> Seq<char> {
        match self {
            RuleField::Path => "the path pattern does not compile"@,
            RuleField::Member => "the member pattern does not compile"@,
            RuleField::Data => "the data pattern does not compile"@,
            RuleField::SignalProcess => "a signal is set but no process to send it to"@,
        }
    }
}

impl ConfigError {
    /// The message of the error: the rule's name in quotes, then its fault.
    pub open spec fn message_text(self) -> Seq<char> {
        "rule '"@ + self.rule@ + "': "@ + self.field.fault_text()
    }

    /// Renders the error for the user. See [`ConfigError::message_text`].
    pub fn message(&self) -> (text: String)
        ensures
            text@ == self.message_text(),
    {
        let mut text = String::from_str("rule '");
        text.append(self.rule.as_str());
        text.append("': ");
        text.append(
            match self.field {
                RuleField::Path => "the path pattern does not compile",
                RuleField::Member => "the member pattern does not compile",
                RuleField::Data => "the data pattern does not compile",
                RuleField::SignalProcess => "a signal is set but no process to send it to",
            },
        );
        text
    }
}

/// An optional text as an optional sequence of characters.
pub open spec fn text_view(text: Option<String>) -> Option<Seq<char>> {
    match text {
        Some(s) => Some(s@),
        None => None,
    }
}

/// An optional compiled pattern as the set of the texts it finds a match
/// in.
pub open spec fn language_view(pattern: Option<Regex>) -> Option<Set<Seq<char>>> {
    match pattern {
        Some(re) => Some(accepted(re)),
        None => None,
    }
}

impl View for EventHandler {
    type V = Declaration;

    open spec fn view(&self) -> Declaration {
        Declaration {
            path: text_view(self.path),
            path_not: self.path_not,
            member: text_view(self.member),
            member_not: self.member_not,
            data: text_view(self.data),
            data_not: self.data_not,
            exec_command: text_view(self.exec_command),
            signal: self.signal,
            signal_process: text_view(self.signal_process),
        }
    }
}

impl View for InternalEventHandler {
    type V = Rule;

    open spec fn view(&self) -> Rule {
        Rule {
            name: self.name@,
            path: language_view(self.path),
            path_not: self.path_not,
            member: language_view(self.member),
            member_not: self.member_not,
            data: language_view(self.data),
            data_not: self.data_not,
            exec_command: text_view(self.exec_command),
            signal: self.signal,
            signal_process: text_view(self.signal_process),
        }
    }
}

impl Declaration {
    /// Whether an optional pattern is absent or compiles.
    pub open spec fn pattern_ok(pattern: Option<Seq<char>>) -> bool {
        pattern matches Some(text) ==> regex_language(text) is Some
    }

    /// What an optional pattern that compiles is compiled to.
    pub open spec fn language(pattern: Option<Seq<char>>) -> Option<Set<Seq<char>>> {
        match pattern {
            Some(text) => regex_language(text),
            None => None,
        }
    }

    /// A declaration that sends a signal names the process to send it to.
    pub open spec fn coupled(self) -> bool {
        self.signal is Some ==> self.signal_process is Some
    }

    /// The first field that keeps the declaration from loading, if any: the
    /// path, member and data patterns in that order, then the signal's
    /// target.
    pub open spec fn fault(self) -> Option<RuleField> {
        if !Self::pattern_ok(self.path) {
            Some(RuleField::Path)
        } else if !Self::pattern_ok(self.member) {
            Some(RuleField::Member)
        } else if !Self::pattern_ok(self.data) {
            Some(RuleField::Data)
        } else if !self.coupled() {
            Some(RuleField::SignalProcess)
        } else {
            None
        }
    }

    /// The rule that a declaration without fault compiles to under a name:
    /// each pattern compiled, every other field as declared.
    pub open spec fn compiled(self, name: Seq<char>) -> Rule {
        Rule {
            name,
            path: Self::language(self.path),
            path_not: self.path_not,
            member: Self::language(self.member),
            member_not: self.member_not,
            data: Self::language(self.data),
            data_not: self.data_not,
            exec_command: self.exec_command,
            signal: self.signal,
            signal_process: self.signal_process,
        }
    }
}

impl Rule {
    /// A rule that sends a signal names the process to send it to.
    pub open spec fn coupled(self) -> bool {
        self.signal is Some ==> self.signal_process is Some
    }
}

/// Compiles one optional pattern of the rule called `name`.
fn compile_field(name: &String, field: RuleField, source: &Option<String>) -> (r: Result<
    Option<Regex>,
    ConfigError,
>)
    ensures
        match r {
            Ok(compiled) => Declaration::pattern_ok(text_view(*source)) && language_view(compiled)
                == Declaration::language(text_view(*source)),
            Err(e) => !Declaration::pattern_ok(text_view(*source)) && e.rule@ == name@ && e.field
                == field,
        },
{
    match source {
        None => Ok(None),
        Some(text) => match compile_pattern(text.as_str()) {
            Ok(re) => Ok(Some(re)),
            Err(_) => Err(ConfigError { rule: name.clone(), field }),
        },
    }
}

impl InternalEventHandler {
    /// Compiles a declared rule under the given name. Succeeds exactly when
    /// the declaration has no fault, and then holds each pattern compiled
    /// and every other field as declared; otherwise reports the rule's name
    /// and its first faulty field.
    pub fn compile(name: String, decl: EventHandler) -> (r: Result<InternalEventHandler, ConfigError>)
        ensures
            match r {
                Ok(rule) => decl@.fault() is None && rule@ == decl@.compiled(name@),
                Err(e) => decl@.fault() == Some(e.field) && e.rule@ == name@,
            },
    {
        let path = match compile_field(&name, RuleField::Path, &decl.path) {
            Ok(p) => p,
            Err(e) => { return Err(e); },
        };
        let member = match compile_field(&name, RuleField::Member, &decl.member) {
            Ok(p) => p,
            Err(e) => { return Err(e); },
        };
        let data = match compile_field(&name, RuleField::Data, &decl.data) {
            Ok(p) => p,
            Err(e) => { return Err(e); },
        };
        if decl.signal.is_some() && decl.signal_process.is_none() {
            return Err(ConfigError { rule: name, field: RuleField::SignalProcess });
        }
        Ok(
            InternalEventHandler {
                name,
                path,
                path_not: decl.path_not,
                member,
                member_not: decl.member_not,
                data,
                data_not: decl.data_not,
                exec_command: decl.exec_command,
                signal: decl.signal,
                signal_process: decl.signal_process,
            },
        )
    }
}

/// The rules in force, in the order of their declaration.
#[derive(Debug)]
pub struct RuleSet {
    pub rules: Vec<InternalEventHandler>,
}

impl View for RuleSet {
    type V = Seq<Rule>;

    open spec fn view(&self) -> Seq<Rule> {
        Seq::new(self.rules@.len(), |i: int| self.rules@[i]@)
    }
}

/// Whether the declaration at `at` has a fault and none before it has one.
pub open spec fn is_first_fault(decls: Seq<(String, EventHandler)>, at: int) -> bool {
    &&& 0 <= at < decls.len()
    &&& decls[at].1@.fault() is Some
    &&& forall|j: int| 0 <= j < at ==> (#[trigger] decls[j]).1@.fault() is None
}

/// The rules that named declarations without fault compile to, in their
/// order.
pub open spec fn compiled_all(decls: Seq<(String, EventHandler)>) -> Seq<Rule> {
    Seq::new(decls.len(), |i: int| decls[i].1@.compiled(decls[i].0@))
}

/// Whether every rule sending a signal names its target process.
pub open spec fn all_coupled(rules: Seq<Rule>) -> bool {
    forall|i: int| 0 <= i < rules.len() ==> (#[trigger] rules[i]).coupled()
}

impl RuleSet {
    /// Compiles the declarations in their order. Succeeds exactly when no
    /// declaration has a fault, and then holds one rule per declaration, in
    /// the same order and with the same fields; otherwise reports the first
    /// faulty declaration by its name and field.
    pub fn load(decls: Vec<(String, EventHandler)>) -> (r: Result<RuleSet, ConfigError>)
        ensures
            match r {
                Ok(set) => {
                    &&& set@ == compiled_all(decls@)
                    &&& all_coupled(set@)
                    &&& forall|i: int|
                        0 <= i < decls@.len() ==> (#[trigger] decls@[i]).1@.fault() is None
                },
                Err(e) => exists|at: int|
                    {
                        &&& #[trigger] is_first_fault(decls@, at)
                        &&& decls@[at].1@.fault() == Some(e.field)
                        &&& decls@[at].0@ == e.rule@
                    },
            },
    {
        let ghost entries = decls@;
        let mut rules: Vec<InternalEventHandler> = Vec::new();
        for entry in it: decls.into_iter()
            invariant
                it.seq() == entries,
                rules@.len() == it.index(),
                forall|j: int|
                    0 <= j < it.index() ==> (#[trigger] rules@[j])@ == entries[j].1@.compiled(
                        entries[j].0@,
                    ),
                forall|j: int| 0 <= j < it.index() ==> (#[trigger] entries[j]).1@.fault() is None,
        {
            let ghost at = it.index() as int;
            match InternalEventHandler::compile(entry.0, entry.1) {
                Ok(rule) => {
                    rules.push(rule);
                },
                Err(e) => {
                    assert(is_first_fault(entries, at));
                    return Err(e);
                },
            }
        }
        Ok(RuleSet { rules })
    }

    /// The number of rules.
    pub fn len(&self) -> (n: usize)
        ensures
            n == self@.len(),
    {
        self.rules.len()
    }
}

} // verus!
